//! Probing a mail server: the errors, their reading, and the proxies in between.

pub mod conversation;
pub mod error;
pub mod parser;
pub mod proxy_rotator;
pub mod retry;
pub mod verif_method;

pub use error::SmtpError;
pub use error::SmtpErrorDesc;

use vstd::prelude::*;

verus! {

/// Details that we gathered from connecting to this email via SMTP.
#[derive(Debug, Clone, Copy, PartialEq, Eq, Structural)]
pub struct SmtpDetails {
    /// Are we able to connect to the SMTP server?
    pub can_connect_smtp: bool,
    /// Is this email account's inbox full?
    pub has_full_inbox: bool,
    /// Does this domain have a catch-all email address?
    pub is_catch_all: bool,
    /// Can we send an email to this address?
    pub is_deliverable: bool,
    /// Is the email blocked or disabled by the provider?
    pub is_disabled: bool,
}

/// The ways of probing a mailbox.
#[derive(Debug, Clone, Copy, PartialEq, Eq, Structural)]
pub enum VerifMethodKind {
    /// An SMTP conversation with the mail server.
    Smtp,
    /// A request to the provider's HTTP interface.
    Api,
    /// The provider's password recovery in a headless browser.
    Headless,
    /// No probe at all.
    Skipped,
}

/// How the mail server was probed.
#[derive(Debug, Clone, PartialEq, Eq)]
pub struct SmtpDebug {
    /// The way of probing that ran.
    pub verif_method: VerifMethodKind,
    /// The proxy that the connection went through, if any.
    pub proxy: Option<String>,
    /// The greeting of the mail server, if it gave one.
    pub banner: Option<String>,
}

impl SmtpDetails {
    /// Nothing was found: every flag is unset.
    pub open spec fn is_default(&self) -> bool {
        &&& !self.can_connect_smtp
        &&& !self.has_full_inbox
        &&& !self.is_catch_all
        &&& !self.is_deliverable
        &&& !self.is_disabled
    }
}

impl Default for SmtpDetails {
    fn default() -> (r: SmtpDetails)
        ensures
            r.is_default(),
    {
        SmtpDetails {
            can_connect_smtp: false,
            has_full_inbox: false,
            is_catch_all: false,
            is_deliverable: false,
            is_disabled: false,
        }
    }
}

impl SmtpDebug {
    /// No probe ran.
    pub open spec fn is_default(&self) -> bool {
        &&& self.verif_method == VerifMethodKind::Skipped
        &&& self.proxy is None
        &&& self.banner is None
    }
}

impl Default for SmtpDebug {
    fn default() -> (r: SmtpDebug)
        ensures
            r.is_default(),
    {
        SmtpDebug { verif_method: VerifMethodKind::Skipped, proxy: None, banner: None }
    }
}

} // verus!
