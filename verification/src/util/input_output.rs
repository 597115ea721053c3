//! The input of a check and its result.

use crate::misc::MiscDetails;
use crate::mx::MxDetails;
use crate::smtp::verif_method::VerifMethod;
use crate::smtp::{SmtpDebug, SmtpDetails, SmtpError};
use crate::syntax::SyntaxDetails;
use crate::time::{TimeSpan, Timestamp};
use vstd::prelude::*;

verus! {

/// An enum to describe how confident we are that the recipient address is
/// real.
#[derive(Debug, Clone, Copy, PartialEq, Eq, Structural)]
pub enum Reachable {
    /// The email is safe to send.
    Safe,
    /// The email address appears to exist, but has quality issues that may
    /// result in low engagement or a bounce.
    Risky,
    /// Emails sent to this address will not be delivered.
    Invalid,
    /// We're unable to get a valid response from the recipient's email server.
    Unknown,
}

/// What to check, and how.
#[derive(Debug, Clone, PartialEq, Eq)]
pub struct CheckEmailInput {
    /// The email to validate.
    pub to_email: String,
    /// How the mailbox is probed, for each family of providers.
    pub verif_method: VerifMethod,
    /// Whether to look for a Gravatar picture of the address.
    pub check_gravatar: bool,
    /// The key for haveibeenpwned.com; without one the lookup is not made.
    pub haveibeenpwned_api_key: Option<String>,
    /// A label of the caller's, handed through to the result.
    pub backend_name: String,
}

/// How the check went, beyond its result.
#[derive(Debug, Clone, PartialEq, Eq)]
pub struct DebugDetails {
    /// When the check began.
    pub start_time: Timestamp,
    /// When the check ended.
    pub end_time: Timestamp,
    /// The time between the two.
    pub duration: TimeSpan,
    /// How the mail server was probed.
    pub smtp: SmtpDebug,
    /// The caller's label from the input.
    pub backend_name: String,
}

/// The result of the check of one address.
#[derive(Debug, PartialEq, Eq)]
pub struct CheckEmailOutput {
    /// Input by the user.
    pub input: String,
    /// How confident we are that the address accepts mail.
    pub is_reachable: Reachable,
    /// Why, in words.
    pub reason: String,
    /// Misc details about the email address.
    pub misc: MiscDetails,
    /// Details about the MX host, or the text of the error that kept the
    /// lookup from being made.
    pub mx: Result<MxDetails, String>,
    /// Details about the SMTP responses of the email.
    pub smtp: Result<SmtpDetails, SmtpError>,
    /// Details about the email address.
    pub syntax: SyntaxDetails,
    /// How the check went.
    pub debug: DebugDetails,
}

impl CheckEmailOutput {
    /// The provider that is suggested in place of the domain, if any.
    pub open spec fn suggestion_text(&self) -> Option<Seq<char>> {
        match self.syntax.suggestion {
            Some(name) => Some(name@),
            None => None,
        }
    }
}

impl DebugDetails {
    /// Nothing was recorded.
    pub open spec fn is_default(&self) -> bool {
        &&& self.start_time.as_nanos() == 0
        &&& self.end_time.as_nanos() == 0
        &&& self.duration.as_nanos() == 0
        &&& self.smtp.is_default()
        &&& self.backend_name@ == Seq::<char>::empty()
    }
}

impl Default for DebugDetails {
    fn default() -> (r: DebugDetails)
        ensures
            r.is_default(),
    {
        DebugDetails {
            start_time: Timestamp::origin(),
            end_time: Timestamp::origin(),
            duration: TimeSpan::zero(),
            smtp: SmtpDebug::default(),
            backend_name: String::new(),
        }
    }
}

} // verus!
