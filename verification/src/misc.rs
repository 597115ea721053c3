//! What is known of an address beyond its mail server.

use crate::text::{ascii_lowered, concat3, is_word, lowered_chars};
use vstd::prelude::*;
use vstd::string::*;

verus! {

/// Miscellaneous details about the email address.
#[derive(Debug, Clone, PartialEq, Eq)]
pub struct MiscDetails {
    /// Is this a DEA (disposable email account)?
    pub is_disposable: bool,
    /// Is this email a role-based account?
    pub is_role_account: bool,
    /// The address of the Gravatar picture, where one was asked for and found.
    pub gravatar_url: Option<String>,
    /// Whether the address is known to haveibeenpwned.com, where that was
    /// asked and answered.
    pub haveibeenpwned: Option<bool>,
}

impl MiscDetails {
    /// The details of which nothing is known.
    pub open spec fn default_spec() -> MiscDetails {
        MiscDetails {
            is_disposable: false,
            is_role_account: false,
            gravatar_url: None,
            haveibeenpwned: None,
        }
    }

    /// Nothing is known: no flag is set and no lookup has an answer.
    pub open spec fn is_default(&self) -> bool {
        &&& !self.is_disposable
        &&& !self.is_role_account
        &&& self.gravatar_url is None
        &&& self.haveibeenpwned is None
    }
}

impl Default for MiscDetails {
    fn default() -> (r: MiscDetails)
        ensures
            r.is_default(),
    {
        MiscDetails {
            is_disposable: false,
            is_role_account: false,
            gravatar_url: None,
            haveibeenpwned: None,
        }
    }
}

/// The address at which Gravatar keeps the picture of the address with the
/// given hash, asked so that an address without a picture is answered with
/// "not found".
pub open spec fn gravatar_url_text(hash: Seq<char>) -> Seq<char> {
    "https://www.gravatar.com/avatar/"@ + hash + "?d=404"@
}

/// The address to ask Gravatar at, for the hash of the lower-case address.
pub fn gravatar_url(hash: &str) -> (r: String)
    ensures
        r@ == gravatar_url_text(hash@),
{
    concat3("https://www.gravatar.com/avatar/", hash, "?d=404")
}

/// What Gravatar's answer tells: the status 200 says that there is a
/// picture at the address asked; the status 404, and every other, leaves the
/// picture unknown.
pub fn gravatar_from_status(url: String, status: u16) -> (r: Option<String>)
    ensures
        r == if status == 200 {
            Some(url)
        } else {
            None
        },
{
    if status == 200 {
        Some(url)
    } else {
        None
    }
}

/// What the answer of haveibeenpwned.com tells: the status 200 says that the
/// address was found in a breach, the status 404 that it was not, and every
/// other status tells nothing.
pub fn haveibeenpwned_from_status(status: u16) -> (r: Option<bool>)
    ensures
        r == if status == 200 {
            Some(true)
        } else if status == 404 {
            Some(false)
        } else {
            None
        },
{
    if status == 200 {
        Some(true)
    } else if status == 404 {
        Some(false)
    } else {
        None
    }
}

/// The part before the "@" names a role, not a person: it is one of the
/// role names that the library knows, whatever the case of its letters.
pub open spec fn names_role(username: Seq<char>) -> bool {
    let name = ascii_lowered(username);
    ||| name == "admin"@
    ||| name == "support"@
    ||| name == "info"@
    ||| name == "contact"@
    ||| name == "sales"@
}

/// Whether an address belongs to a role such as `admin@` or `support@`
/// rather than to a person, judged by the part before the "@" alone.
pub fn is_role_account(username: &str) -> (r: bool)
    ensures
        r == names_role(username@),
{
    let name = lowered_chars(username);
    is_word(&name, "admin") || is_word(&name, "support") || is_word(&name, "info") || is_word(
        &name,
        "contact",
    ) || is_word(&name, "sales")
}

} // verus!
