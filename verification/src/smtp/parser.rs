//! Reading what a mail server says.
//!
//! Servers word their refusals freely. A message is searched for known phrases,
//! the letters `A` to `Z` of the message taken as lower case.

use crate::smtp::error::SmtpError;
use crate::smtp::SmtpDetails;
use crate::text::{contains_ignoring_case, lowered_chars, mentions};
use vstd::prelude::*;

verus! {

/// The message says that the sender's IP address is on a blacklist.
pub open spec fn mentions_blacklist(message: Seq<char>) -> bool {
    ||| contains_ignoring_case(message, "blocked using"@)
    ||| contains_ignoring_case(message, "spamhaus"@)
    ||| contains_ignoring_case(message, "blacklist"@)
    ||| contains_ignoring_case(message, "blocklist"@)
    ||| contains_ignoring_case(message, "spfbl"@)
}

/// The message says that the sender's IP address lacks a reverse DNS entry.
pub open spec fn mentions_reverse_dns(message: Seq<char>) -> bool {
    ||| contains_ignoring_case(message, "reverse dns"@)
    ||| contains_ignoring_case(message, "rdns"@)
    ||| contains_ignoring_case(message, "ptr record"@)
}

/// Check if the IP is blacklisted: the error comes from the SMTP conversation
/// and its message names a blacklist.
pub fn is_err_ip_blacklisted(e: &SmtpError) -> (r: bool)
    ensures
        r == (e matches SmtpError::AsyncSmtpError(failure) && mentions_blacklist(failure.message@)),
{
    match e {
        SmtpError::AsyncSmtpError(failure) => {
            let hay = lowered_chars(failure.message.as_str());
            mentions(&hay, "blocked using") || mentions(&hay, "spamhaus") || mentions(
                &hay,
                "blacklist",
            ) || mentions(&hay, "blocklist") || mentions(&hay, "spfbl")
        },
        _ => false,
    }
}

/// Check if the IP needs a reverse DNS entry: the error comes from the SMTP
/// conversation and its message asks for one.
pub fn is_err_needs_rdns(e: &SmtpError) -> (r: bool)
    ensures
        r == (e matches SmtpError::AsyncSmtpError(failure) && mentions_reverse_dns(failure.message@)),
{
    match e {
        SmtpError::AsyncSmtpError(failure) => {
            let hay = lowered_chars(failure.message.as_str());
            mentions(&hay, "reverse dns") || mentions(&hay, "rdns") || mentions(
                &hay,
                "ptr record",
            )
        },
        _ => false,
    }
}

/// The message says that there is no such mailbox.
pub open spec fn mentions_unknown_mailbox(message: Seq<char>) -> bool {
    ||| contains_ignoring_case(message, "does not exist"@)
    ||| contains_ignoring_case(message, "unknown"@)
    ||| contains_ignoring_case(message, "no such"@)
    ||| contains_ignoring_case(message, "invalid recipient"@)
    ||| contains_ignoring_case(message, "user unknown"@)
}

/// The message says that the account has been disabled.
pub open spec fn mentions_disabled(message: Seq<char>) -> bool {
    ||| contains_ignoring_case(message, "disabled"@)
    ||| contains_ignoring_case(message, "suspended"@)
    ||| contains_ignoring_case(message, "deactivated"@)
    ||| contains_ignoring_case(message, "locked"@)
}

/// The message says that the inbox is full.
pub open spec fn mentions_full_inbox(message: Seq<char>) -> bool {
    ||| contains_ignoring_case(message, "over quota"@)
    ||| contains_ignoring_case(message, "mailbox full"@)
    ||| contains_ignoring_case(message, "inbox is full"@)
}

/// The server accepts the recipient.
pub open spec fn rcpt_accepted(code: u16) -> bool {
    code == 250 || code == 251
}

/// The server knows no such recipient.
pub open spec fn rcpt_unknown_mailbox(code: u16, message: Seq<char>) -> bool {
    (code == 550 || code == 551 || code == 553) && mentions_unknown_mailbox(message)
}

/// The server refuses the recipient for good because the account is disabled.
pub open spec fn rcpt_disabled(code: u16, message: Seq<char>) -> bool {
    500 <= code <= 599 && mentions_disabled(message)
}

/// The server refuses the recipient because the inbox is full.
pub open spec fn rcpt_full_inbox(code: u16, message: Seq<char>) -> bool {
    (code == 452 || code == 552) && mentions_full_inbox(message)
}

/// What a reply to `RCPT TO` tells of the mailbox; `None` where it tells
/// nothing that is known how to read.
pub open spec fn rcpt_signals(code: u16, message: Seq<char>) -> Option<SmtpDetails> {
    if rcpt_accepted(code) || rcpt_unknown_mailbox(code, message) || rcpt_disabled(code, message)
        || rcpt_full_inbox(code, message) {
        Some(
            SmtpDetails {
                can_connect_smtp: true,
                has_full_inbox: rcpt_full_inbox(code, message),
                is_catch_all: false,
                is_deliverable: rcpt_accepted(code),
                is_disabled: rcpt_disabled(code, message),
            },
        )
    } else {
        None
    }
}

/// Reads the reply to `RCPT TO`, by its code and its message.
///
/// The codes 250 and 251 accept the recipient. The codes 550, 551 and 553
/// with a message that says so tell that there is no such mailbox; any code
/// from 500 to 599 with a message that says so, that the account is disabled;
/// the codes 452 and 552 with a message that says so, that the inbox is full.
/// Every other reply tells nothing: the result is `None`.
pub fn parse_rcpt_reply(code: u16, message: &str) -> (r: Option<SmtpDetails>)
    ensures
        r == rcpt_signals(code, message@),
{
    let hay = lowered_chars(message);
    let accepted = code == 250 || code == 251;
    let unknown_mailbox = (code == 550 || code == 551 || code == 553) && (mentions(
        &hay,
        "does not exist",
    ) || mentions(&hay, "unknown") || mentions(&hay, "no such") || mentions(
        &hay,
        "invalid recipient",
    ) || mentions(&hay, "user unknown"));
    let disabled = 500 <= code && code <= 599 && (mentions(&hay, "disabled") || mentions(
        &hay,
        "suspended",
    ) || mentions(&hay, "deactivated") || mentions(&hay, "locked"));
    let full_inbox = (code == 452 || code == 552) && (mentions(&hay, "over quota") || mentions(
        &hay,
        "mailbox full",
    ) || mentions(&hay, "inbox is full"));
    if accepted || unknown_mailbox || disabled || full_inbox {
        Some(
            SmtpDetails {
                can_connect_smtp: true,
                has_full_inbox: full_inbox,
                is_catch_all: false,
                is_deliverable: accepted,
                is_disabled: disabled,
            },
        )
    } else {
        None
    }
}

/// The details with the finding of the catch-all probe: the domain accepts
/// every recipient if the server accepted the address itself and answered a
/// made-up address of the same domain with the code 250. `random_rcpt_code`
/// is the code of that answer, or `None` where the probe was not made or
/// failed. Nothing else changes.
pub fn with_catch_all(details: SmtpDetails, random_rcpt_code: Option<u16>) -> (r: SmtpDetails)
    ensures
        r.is_catch_all == (details.is_deliverable && random_rcpt_code == Some(250u16)),
        r.can_connect_smtp == details.can_connect_smtp,
        r.has_full_inbox == details.has_full_inbox,
        r.is_deliverable == details.is_deliverable,
        r.is_disabled == details.is_disabled,
{
    let accepted_random = match random_rcpt_code {
        Some(code) => code == 250,
        None => false,
    };
    SmtpDetails {
        can_connect_smtp: details.can_connect_smtp,
        has_full_inbox: details.has_full_inbox,
        is_catch_all: details.is_deliverable && accepted_random,
        is_deliverable: details.is_deliverable,
        is_disabled: details.is_disabled,
    }
}

} // verus!
