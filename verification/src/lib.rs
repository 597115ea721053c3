//! Checks whether a mailbox is likely to accept mail, without sending any.
//!
//! The library holds the rules: how the result of each stage leads to the
//! next stage or to a verdict, how the findings are fused into a verdict and
//! a reason, how errors are told, and how proxies are rotated. Looking up
//! servers and talking to them is left to the caller.

pub mod misc;
pub mod mx;
pub mod pipeline;
pub mod smtp;
pub mod syntax;
pub mod text;
pub mod time;
pub mod util;

pub use pipeline::{check_email_start, check_email_step, CheckEmailAction, CheckEmailEvent, CheckEmailState, Stage};
pub use util::input_output::{CheckEmailInput, CheckEmailOutput, DebugDetails, Reachable};

use crate::misc::MiscDetails;
use crate::smtp::error::{format_socks5_error_detailed, socks5_text};
use crate::smtp::{SmtpDetails, SmtpError};
use crate::text::{concat2, concat3, join, join_strs, lemma_starts_with_extended, starts_with, views};
use crate::time::duration_debug;
use vstd::prelude::*;
use vstd::string::*;

verus! {

/// The reasons to call an address risky, in the order in which they are told.
pub open spec fn risky_reasons(misc: MiscDetails, smtp: SmtpDetails) -> Seq<Seq<char>> {
    (if misc.is_disposable {
        seq!["disposable email address"@]
    } else {
        Seq::empty()
    }) + (if misc.is_role_account {
        seq!["role-based account (e.g., admin@, support@)"@]
    } else {
        Seq::empty()
    }) + (if smtp.is_catch_all {
        seq!["catch-all address (accepts all emails)"@]
    } else {
        Seq::empty()
    }) + (if smtp.has_full_inbox {
        seq!["inbox is full"@]
    } else {
        Seq::empty()
    })
}

/// The reasons to call an address invalid, in the order in which they are told.
pub open spec fn invalid_reasons(smtp: SmtpDetails) -> Seq<Seq<char>> {
    (if !smtp.can_connect_smtp {
        seq!["cannot connect to SMTP server"@]
    } else {
        Seq::empty()
    }) + (if smtp.is_disabled {
        seq!["email account is disabled"@]
    } else {
        Seq::empty()
    }) + (if !smtp.is_deliverable {
        seq!["email is not deliverable"@]
    } else {
        Seq::empty()
    })
}

/// Something speaks for calling the address risky.
pub open spec fn is_risky(misc: MiscDetails, smtp: SmtpDetails) -> bool {
    misc.is_disposable || misc.is_role_account || smtp.is_catch_all || smtp.has_full_inbox
}

/// Something speaks for calling the address invalid.
pub open spec fn is_invalid(smtp: SmtpDetails) -> bool {
    !smtp.can_connect_smtp || smtp.is_disabled || !smtp.is_deliverable
}

/// What is told of a failed probe after the word `Unknown: `.
pub open spec fn smtp_error_detail(error: SmtpError) -> Seq<char> {
    match error {
        SmtpError::YahooError(e) => "Yahoo verification failed - "@ + e@,
        SmtpError::GmailError(e) => "Gmail verification failed - "@ + e@,
        SmtpError::HeadlessError(e) => "Headless browser verification failed - "@ + e@,
        SmtpError::Microsoft365Error(e) => "Microsoft 365 verification failed - "@ + e@,
        SmtpError::AsyncSmtpError(e) => "SMTP error - "@ + e.message@,
        SmtpError::IOError(e) => "I/O error during SMTP connection - "@ + e.message@,
        SmtpError::Timeout(elapsed) => "SMTP connection timed out after "@ + duration_debug(
            elapsed.secs(),
            elapsed.nanos(),
        ),
        SmtpError::Socks5(e) => socks5_text(e),
        SmtpError::AnyhowError(e) => "Unexpected error - "@ + e@,
    }
}

/// The reason that is given for a failed probe.
pub open spec fn smtp_error_reason(error: SmtpError) -> Seq<char> {
    "Unknown: "@ + smtp_error_detail(error)
}

/// The verdict on an address, from what is known of it and from how the
/// probe of its mail server went. What speaks for `Risky` is weighed before
/// what speaks for `Invalid`.
pub open spec fn reachable_of(misc: MiscDetails, smtp: Result<SmtpDetails, SmtpError>) -> Reachable {
    match smtp {
        Ok(details) => if is_risky(misc, details) {
            Reachable::Risky
        } else if is_invalid(details) {
            Reachable::Invalid
        } else {
            Reachable::Safe
        },
        Err(_) => Reachable::Unknown,
    }
}

/// The reason that goes with the verdict.
pub open spec fn reason_of(misc: MiscDetails, smtp: Result<SmtpDetails, SmtpError>) -> Seq<char> {
    match smtp {
        Ok(details) => if is_risky(misc, details) {
            "Risky: "@ + join(risky_reasons(misc, details), ", "@)
        } else if is_invalid(details) {
            "Invalid: "@ + join(invalid_reasons(details), ", "@)
        } else {
            "Email verification passed all checks"@
        },
        Err(error) => smtp_error_reason(error),
    }
}

/// Given an email's misc and smtp details, calculate an estimate of our
/// confidence on how reachable the email is, along with a human-readable reason.
///
/// Returns a tuple of (Reachable, String) where the String is the reason.
pub fn calculate_reachable_with_reason(
    misc: &MiscDetails,
    smtp: &Result<SmtpDetails, SmtpError>,
) -> (r: (Reachable, String))
    ensures
        r.0 == reachable_of(*misc, *smtp),
        r.1@ == reason_of(*misc, *smtp),
{
    match smtp {
        Ok(smtp_details) => {
            let mut risky: Vec<&str> = Vec::new();
            if misc.is_disposable {
                risky.push("disposable email address");
            }
            if misc.is_role_account {
                risky.push("role-based account (e.g., admin@, support@)");
            }
            if smtp_details.is_catch_all {
                risky.push("catch-all address (accepts all emails)");
            }
            if smtp_details.has_full_inbox {
                risky.push("inbox is full");
            }
            assert(views(risky@) =~= risky_reasons(*misc, *smtp_details));
            if risky.len() > 0 {
                let listed = join_strs(&risky, ", ");
                return (Reachable::Risky, concat2("Risky: ", listed.as_str()));
            }
            let mut invalid: Vec<&str> = Vec::new();
            if !smtp_details.can_connect_smtp {
                invalid.push("cannot connect to SMTP server");
            }
            if smtp_details.is_disabled {
                invalid.push("email account is disabled");
            }
            if !smtp_details.is_deliverable {
                invalid.push("email is not deliverable");
            }
            assert(views(invalid@) =~= invalid_reasons(*smtp_details));
            if invalid.len() > 0 {
                let listed = join_strs(&invalid, ", ");
                return (Reachable::Invalid, concat2("Invalid: ", listed.as_str()));
            }
            (Reachable::Safe, String::from_str("Email verification passed all checks"))
        },
        Err(smtp_error) => (Reachable::Unknown, format_smtp_error_reason(smtp_error)),
    }
}

/// The reason that is given for a failed probe: the word `Unknown: `, then
/// what failed, then the failure's own text.
pub fn format_smtp_error_reason(error: &SmtpError) -> (r: String)
    ensures
        r@ == smtp_error_reason(*error),
{
    match error {
        SmtpError::YahooError(e) => concat3("Unknown: ", "Yahoo verification failed - ", e.as_str()),
        SmtpError::GmailError(e) => concat3("Unknown: ", "Gmail verification failed - ", e.as_str()),
        SmtpError::HeadlessError(e) => concat3(
            "Unknown: ",
            "Headless browser verification failed - ",
            e.as_str(),
        ),
        SmtpError::Microsoft365Error(e) => concat3(
            "Unknown: ",
            "Microsoft 365 verification failed - ",
            e.as_str(),
        ),
        SmtpError::AsyncSmtpError(e) => concat3("Unknown: ", "SMTP error - ", e.message.as_str()),
        SmtpError::IOError(e) => concat3(
            "Unknown: ",
            "I/O error during SMTP connection - ",
            e.message.as_str(),
        ),
        SmtpError::Timeout(duration) => {
            let elapsed = duration.debug_string();
            concat3("Unknown: ", "SMTP connection timed out after ", elapsed.as_str())
        },
        SmtpError::Socks5(e) => {
            let detailed = format_socks5_error_detailed(e);
            concat2("Unknown: ", detailed.as_str())
        },
        SmtpError::AnyhowError(e) => concat3("Unknown: ", "Unexpected error - ", e.as_str()),
    }
}

/// The reason names the verdict. That of a risky address begins with
/// `Risky:`, that of an invalid one with `Invalid:`, that of an unknown one
/// with `Unknown:`. A safe address has one fixed reason, which names no
/// verdict.
pub proof fn lemma_reason_names_verdict(misc: MiscDetails, smtp: Result<SmtpDetails, SmtpError>)
    ensures
        reachable_of(misc, smtp) == Reachable::Risky ==> starts_with(
            reason_of(misc, smtp),
            "Risky:"@,
        ),
        reachable_of(misc, smtp) == Reachable::Invalid ==> starts_with(
            reason_of(misc, smtp),
            "Invalid:"@,
        ),
        reachable_of(misc, smtp) == Reachable::Unknown ==> starts_with(
            reason_of(misc, smtp),
            "Unknown:"@,
        ),
        reachable_of(misc, smtp) == Reachable::Safe ==> reason_of(misc, smtp)
            == "Email verification passed all checks"@,
{
    reveal_strlit("Risky:");
    reveal_strlit("Risky: ");
    reveal_strlit("Invalid:");
    reveal_strlit("Invalid: ");
    reveal_strlit("Unknown:");
    reveal_strlit("Unknown: ");
    match smtp {
        Ok(details) => {
            if is_risky(misc, details) {
                assert(starts_with("Risky: "@, "Risky:"@));
                lemma_starts_with_extended(
                    "Risky: "@,
                    "Risky:"@,
                    join(risky_reasons(misc, details), ", "@),
                );
            } else if is_invalid(details) {
                assert(starts_with("Invalid: "@, "Invalid:"@));
                lemma_starts_with_extended(
                    "Invalid: "@,
                    "Invalid:"@,
                    join(invalid_reasons(details), ", "@),
                );
            }
        },
        Err(error) => {
            assert(starts_with("Unknown: "@, "Unknown:"@));
            lemma_starts_with_extended("Unknown: "@, "Unknown:"@, smtp_error_detail(error));
        },
    }
}

/// Verdict and reason depend on nothing but the two flags of the
/// miscellaneous details and the outcome of the probe: whatever else differs
/// between two sets of details, the verdict is the same and the reason is the
/// same, character by character.
pub proof fn lemma_fusion_reads_flags_only(
    first: MiscDetails,
    second: MiscDetails,
    smtp: Result<SmtpDetails, SmtpError>,
)
    requires
        first.is_disposable == second.is_disposable,
        first.is_role_account == second.is_role_account,
    ensures
        reachable_of(first, smtp) == reachable_of(second, smtp),
        reason_of(first, smtp) == reason_of(second, smtp),
{
    match smtp {
        Ok(details) => {
            assert(risky_reasons(first, details) =~= risky_reasons(second, details));
        },
        Err(_) => {},
    }
}

/// A probe that failed gives the verdict `Unknown`, whatever else is known;
/// one that went through never does.
pub proof fn lemma_unknown_means_failed_probe(
    misc: MiscDetails,
    smtp: Result<SmtpDetails, SmtpError>,
)
    ensures
        reachable_of(misc, smtp) == Reachable::Unknown <==> smtp is Err,
{
}

/// A domain that accepts every recipient makes the address risky, never
/// invalid and never safe, whatever else was found.
pub proof fn lemma_catch_all_is_risky(misc: MiscDetails, details: SmtpDetails)
    requires
        details.is_catch_all,
    ensures
        reachable_of(misc, Ok(details)) == Reachable::Risky,
{
}

} // verus!
