//! How a mailbox is to be probed.

use crate::smtp::error::SmtpError;
use crate::smtp::{SmtpDetails, VerifMethodKind};
use crate::text::concat3;
use vstd::prelude::*;
use vstd::string::*;

verus! {

/// How the next proxy of a pool is picked.
#[derive(Debug, Clone, Copy, PartialEq, Eq, Structural)]
pub enum ProxyRotationStrategy {
    /// One after the other, and after the last the first again.
    RoundRobin,
    /// Any one, at random.
    Random,
}

/// For how many milliseconds a step of the SMTP conversation is waited for
/// where the configuration sets no time.
pub const DEFAULT_SMTP_TIMEOUT_MS: u64 = 12_000;

/// A SOCKS5 proxy.
#[derive(Debug, Clone, PartialEq, Eq)]
pub struct CheckEmailInputProxy {
    /// The host name of the proxy.
    pub host: String,
    /// The port of the proxy.
    pub port: u16,
    /// The user name, where the proxy asks for one.
    pub username: Option<String>,
    /// The password, where the proxy asks for one.
    pub password: Option<String>,
    /// For how many milliseconds the proxy is waited for.
    pub timeout_ms: Option<u64>,
}

/// A proxy under the name by which configurations refer to it.
#[derive(Debug, Clone, PartialEq, Eq)]
pub struct NamedProxy {
    /// The name.
    pub id: String,
    /// The proxy.
    pub proxy: CheckEmailInputProxy,
}

/// How to probe a mailbox by an SMTP conversation.
#[derive(Debug, Clone, PartialEq, Eq)]
pub struct VerifMethodSmtpConfig {
    /// The address given in the `MAIL FROM:` command.
    pub from_email: String,
    /// The name given in the `EHLO` command.
    pub hello_name: String,
    /// The port of the mail server.
    pub smtp_port: u16,
    /// For how many milliseconds a step of the conversation is waited for.
    pub smtp_timeout_ms: Option<u64>,
    /// How many times a conversation that failed for the moment is tried
    /// again.
    pub retries: u32,
    /// The name of the proxy to go through, if any.
    pub proxy: Option<String>,
}

/// The position of the first proxy of the table with the name `id`, or the
/// length of the table where there is none.
pub open spec fn proxy_position(proxies: Seq<NamedProxy>, id: Seq<char>) -> int
    decreases proxies.len(),
{
    if proxies.len() == 0 {
        0
    } else if proxies[0].id@ == id {
        0
    } else {
        1 + proxy_position(proxies.drop_first(), id)
    }
}

/// The position is within the table or its length, names the first proxy
/// called `id` where it is within the table, and no proxy is called `id`
/// where it is not.
pub proof fn lemma_proxy_position(proxies: Seq<NamedProxy>, id: Seq<char>)
    ensures
        0 <= proxy_position(proxies, id) <= proxies.len(),
        proxy_position(proxies, id) < proxies.len() ==> proxies[proxy_position(proxies, id)].id@
            == id,
        forall|j: int| 0 <= j < proxy_position(proxies, id) ==> (#[trigger] proxies[j]).id@ != id,
    decreases proxies.len(),
{
    if proxies.len() != 0 && proxies[0].id@ != id {
        let rest = proxies.drop_first();
        lemma_proxy_position(rest, id);
        assert forall|j: int| 0 <= j < proxy_position(proxies, id) implies (#[trigger] proxies[j]).id@
            != id by {
            if j > 0 {
                assert(proxies[j] == rest[j - 1]);
            }
        }
    }
}

/// What is told where a configuration names a proxy that the table lacks.
pub open spec fn missing_proxy_text(id: Seq<char>) -> Seq<char> {
    "proxy `"@ + id + "` is not configured"@
}

impl VerifMethodSmtpConfig {
    /// For how many milliseconds a step of the conversation is waited for:
    /// the time that the configuration sets, or twelve seconds.
    pub open spec fn timeout_ms(&self) -> u64 {
        match self.smtp_timeout_ms {
            Some(ms) => ms,
            None => DEFAULT_SMTP_TIMEOUT_MS,
        }
    }

    /// For how many milliseconds a step of the conversation is waited for.
    pub fn get_timeout_ms(&self) -> (r: u64)
        ensures
            r == self.timeout_ms(),
    {
        match self.smtp_timeout_ms {
            Some(ms) => ms,
            None => DEFAULT_SMTP_TIMEOUT_MS,
        }
    }
}

/// The first proxy of the table with the name `id`, if there is one.
pub fn find_proxy<'a>(proxies: &'a Vec<NamedProxy>, id: &str) -> (r: Option<&'a CheckEmailInputProxy>)
    ensures
        r is Some <==> proxy_position(proxies@, id@) < proxies@.len(),
        r matches Some(proxy) ==> *proxy == proxies@[proxy_position(proxies@, id@)].proxy,
{
    let wanted = String::from_str(id);
    let mut i: usize = 0;
    assert(proxies@.skip(0) =~= proxies@);
    while i < proxies.len()
        invariant
            i <= proxies.len(),
            wanted@ == id@,
            proxy_position(proxies@, id@) == i + proxy_position(proxies@.skip(i as int), id@),
        decreases proxies.len() - i,
    {
        let ghost rest = proxies@.skip(i as int);
        assert(rest[0] == proxies@[i as int]);
        assert(rest.drop_first() =~= proxies@.skip(i + 1));
        if proxies[i].id == wanted {
            return Some(&proxies[i].proxy);
        }
        i += 1;
    }
    assert(proxies@.skip(proxies@.len() as int).len() == 0);
    None
}

/// The proxy that a probe goes through: none where the configuration names
/// none, the proxy of that name where the table has one, and an error where
/// the configuration names a proxy that the table lacks. The probe then fails
/// before anything is sent.
pub fn resolve_proxy<'a>(
    proxies: &'a Vec<NamedProxy>,
    config: &VerifMethodSmtpConfig,
) -> (r: Result<Option<&'a CheckEmailInputProxy>, SmtpError>)
    ensures
        match config.proxy {
            None => r == Ok::<Option<&CheckEmailInputProxy>, SmtpError>(None),
            Some(id) => if proxy_position(proxies@, id@) < proxies@.len() {
                r matches Ok(Some(proxy)) && *proxy == proxies@[proxy_position(proxies@, id@)].proxy
            } else {
                r matches Err(SmtpError::AnyhowError(message)) && message@ == missing_proxy_text(
                    id@,
                )
            },
        },
{
    match &config.proxy {
        None => Ok(None),
        Some(id) => match find_proxy(proxies, id.as_str()) {
            Some(proxy) => Ok(Some(proxy)),
            None => Err(
                SmtpError::AnyhowError(concat3("proxy `", id.as_str(), "` is not configured")),
            ),
        },
    }
}

/// The families of mail providers that can be probed each in its own way.
#[derive(Debug, Clone, Copy, PartialEq, Eq, Structural)]
pub enum EmailProvider {
    /// Gmail.
    Gmail,
    /// Yahoo.
    Yahoo,
    /// Hotmail for businesses.
    HotmailB2B,
    /// Hotmail for consumers.
    HotmailB2C,
    /// Microsoft 365.
    Microsoft365,
    /// Every other provider.
    EverythingElse,
}

/// How the mailboxes of one family of providers are probed.
#[derive(Debug, Clone, PartialEq, Eq)]
pub enum ProviderVerifMethod {
    /// By an SMTP conversation with the mail server.
    Smtp(VerifMethodSmtpConfig),
    /// By a request to the provider's HTTP interface.
    Api,
    /// By the provider's password recovery in a headless browser.
    Headless,
    /// Not at all.
    Skipped,
}

/// How mailboxes are probed: for each family of providers its way, and the
/// proxies that the ways refer to by name.
#[derive(Debug, Clone, PartialEq, Eq)]
pub struct VerifMethod {
    /// The proxies, by name.
    pub proxies: Vec<NamedProxy>,
    /// How Gmail is probed.
    pub gmail: ProviderVerifMethod,
    /// How Yahoo is probed.
    pub yahoo: ProviderVerifMethod,
    /// How Hotmail for businesses is probed.
    pub hotmail_b2b: ProviderVerifMethod,
    /// How Hotmail for consumers is probed.
    pub hotmail_b2c: ProviderVerifMethod,
    /// How Microsoft 365 is probed.
    pub microsoft365: ProviderVerifMethod,
    /// How every other provider is probed.
    pub everything_else: ProviderVerifMethod,
}

/// What is to be done to probe a mailbox.
#[derive(Debug, PartialEq, Eq)]
pub enum ProbePlan<'a> {
    /// Hold an SMTP conversation, as configured and through this proxy.
    Converse {
        /// How to talk to the server.
        config: &'a VerifMethodSmtpConfig,
        /// The proxy to go through, if any.
        proxy: Option<&'a CheckEmailInputProxy>,
    },
    /// Ask the provider's HTTP interface.
    AskApi,
    /// Go through the provider's password recovery in a headless browser.
    DriveBrowser,
    /// Nothing: the probe is skipped, and this stands for its finding.
    Skip(SmtpDetails),
}

impl ProviderVerifMethod {
    /// The way of probing, without its configuration.
    pub open spec fn kind_spec(&self) -> VerifMethodKind {
        match self {
            ProviderVerifMethod::Smtp(_) => VerifMethodKind::Smtp,
            ProviderVerifMethod::Api => VerifMethodKind::Api,
            ProviderVerifMethod::Headless => VerifMethodKind::Headless,
            ProviderVerifMethod::Skipped => VerifMethodKind::Skipped,
        }
    }

    /// The way of probing, without its configuration.
    pub fn kind(&self) -> (r: VerifMethodKind)
        ensures
            r == self.kind_spec(),
    {
        match self {
            ProviderVerifMethod::Smtp(_) => VerifMethodKind::Smtp,
            ProviderVerifMethod::Api => VerifMethodKind::Api,
            ProviderVerifMethod::Headless => VerifMethodKind::Headless,
            ProviderVerifMethod::Skipped => VerifMethodKind::Skipped,
        }
    }
}

impl VerifMethod {
    /// How the mailboxes of a family are probed.
    pub open spec fn method_for(&self, provider: EmailProvider) -> ProviderVerifMethod {
        match provider {
            EmailProvider::Gmail => self.gmail,
            EmailProvider::Yahoo => self.yahoo,
            EmailProvider::HotmailB2B => self.hotmail_b2b,
            EmailProvider::HotmailB2C => self.hotmail_b2c,
            EmailProvider::Microsoft365 => self.microsoft365,
            EmailProvider::EverythingElse => self.everything_else,
        }
    }

    /// How the mailboxes of a family are probed.
    pub fn get_method(&self, provider: EmailProvider) -> (r: &ProviderVerifMethod)
        ensures
            *r == self.method_for(provider),
    {
        match provider {
            EmailProvider::Gmail => &self.gmail,
            EmailProvider::Yahoo => &self.yahoo,
            EmailProvider::HotmailB2B => &self.hotmail_b2b,
            EmailProvider::HotmailB2C => &self.hotmail_b2c,
            EmailProvider::Microsoft365 => &self.microsoft365,
            EmailProvider::EverythingElse => &self.everything_else,
        }
    }

    /// What is to be done to probe a mailbox of the given family.
    ///
    /// A family that is probed by SMTP gets a conversation through the proxy
    /// that its configuration names; where the table has no proxy of that
    /// name the probe fails here, before anything is sent. A family whose
    /// probe is skipped gets the finding in which nothing is set.
    pub fn plan_probe<'a>(&'a self, provider: EmailProvider) -> (r: Result<ProbePlan<'a>, SmtpError>)
        ensures
            match self.method_for(provider) {
                ProviderVerifMethod::Smtp(config) => match config.proxy {
                    None => r matches Ok(ProbePlan::Converse { config: told, proxy }) && *told
                        == config && proxy is None,
                    Some(id) => if proxy_position(self.proxies@, id@) < self.proxies@.len() {
                        r matches Ok(ProbePlan::Converse { config: told, proxy: Some(proxy) })
                            && *told == config && *proxy == self.proxies@[proxy_position(
                            self.proxies@,
                            id@,
                        )].proxy
                    } else {
                        r matches Err(SmtpError::AnyhowError(message)) && message@
                            == missing_proxy_text(id@)
                    },
                },
                ProviderVerifMethod::Api => r == Ok::<ProbePlan, SmtpError>(ProbePlan::AskApi),
                ProviderVerifMethod::Headless => r == Ok::<ProbePlan, SmtpError>(
                    ProbePlan::DriveBrowser,
                ),
                ProviderVerifMethod::Skipped => r matches Ok(ProbePlan::Skip(details))
                    && details.is_default(),
            },
    {
        match self.get_method(provider) {
            ProviderVerifMethod::Smtp(config) => match resolve_proxy(&self.proxies, config) {
                Ok(proxy) => Ok(ProbePlan::Converse { config, proxy }),
                Err(e) => Err(e),
            },
            ProviderVerifMethod::Api => Ok(ProbePlan::AskApi),
            ProviderVerifMethod::Headless => Ok(ProbePlan::DriveBrowser),
            ProviderVerifMethod::Skipped => Ok(ProbePlan::Skip(SmtpDetails::default())),
        }
    }
}

} // verus!
