//! Finding out under which address this machine is seen from outside.
//!
//! The answer is kept for five minutes. When it is asked for again later, a
//! list of services is gone through in order, and the first that answers with
//! an address wins; where none does, the machine's host name stands in.
//! Asking the services, judging whether an answer is an address, and finding
//! the host name is the caller's part. The library decides whether the kept
//! answer still holds, whom to ask next, and what the answer is in the end.

use crate::text::concat2;
use crate::time::{TimeSpan, Timestamp, NANOS_PER_SEC};
use vstd::prelude::*;
use vstd::string::*;

verus! {

/// For how many seconds an answer is kept.
pub const PUBLIC_IP_CACHE_SECS: u64 = 300;

/// How many seconds a service is given to answer.
pub const PUBLIC_IP_TIMEOUT_SECS: u64 = 5;

/// How many services there are to ask.
pub const PUBLIC_IP_SERVICE_COUNT: usize = 4;

/// The services to ask, in the order in which they are asked.
pub open spec fn public_ip_services() -> Seq<Seq<char>> {
    seq![
        "https://api.ipify.org"@,
        "https://ifconfig.me/ip"@,
        "https://icanhazip.com"@,
        "https://ipecho.net/plain"@,
    ]
}

/// The answer that is kept, and when it was found.
#[derive(Debug, Clone, PartialEq, Eq)]
pub struct CachedPublicIp {
    /// The answer, once there is one.
    pub ip: Option<String>,
    /// When the answer was found.
    pub last_fetched: Option<Timestamp>,
}

/// What is to be done next to find the address.
#[derive(Debug, Clone, PartialEq, Eq)]
pub enum PublicIpAction {
    /// Ask the service at this address, which stands at this position of the
    /// list of services.
    AskService {
        /// The position in the list of services.
        index: usize,
        /// The address of the service.
        url: String,
    },
    /// No service gave an address: find the machine's host name.
    AskHostname,
    /// Nothing more: this is the answer.
    Done(String),
}

/// How a piece of the search went.
#[derive(Debug, Clone, PartialEq, Eq)]
pub enum PublicIpEvent {
    /// The search begins.
    Started,
    /// The service at position `index` was asked. `address` is the text of
    /// its answer without the white space around it, where the request went
    /// through, the service reported success and that text is an IPv4 or
    /// IPv6 address; `None` in every other case.
    ServiceAnswered {
        /// The position of the service in the list.
        index: usize,
        /// The address that the service gave, if it gave one.
        address: Option<String>,
    },
    /// The host name was looked for, and found or not.
    HostnameFound(Option<String>),
}

/// An answer found at `fetched` still holds at `now`: less than the time
/// for which answers are kept has passed. A clock that has gone back counts
/// as no time passed.
pub open spec fn is_fresh(fetched: Timestamp, now: Timestamp) -> bool {
    now.as_nanos() < fetched.as_nanos() + PUBLIC_IP_CACHE_SECS * NANOS_PER_SEC
}

/// What is done after `event`.
pub open spec fn public_ip_next(event: PublicIpEvent, action: PublicIpAction) -> bool {
    match event {
        PublicIpEvent::Started => action matches PublicIpAction::AskService { index, url }
            && index == 0 && url@ == public_ip_services()[0],
        PublicIpEvent::ServiceAnswered { index, address: Some(ip) } => action
            matches PublicIpAction::Done(answer) && answer@ == "local:"@ + ip@,
        PublicIpEvent::ServiceAnswered { index, address: None } => if index + 1
            < PUBLIC_IP_SERVICE_COUNT {
            action matches PublicIpAction::AskService { index: next, url } && next == index + 1
                && url@ == public_ip_services()[index + 1]
        } else {
            action is AskHostname
        },
        PublicIpEvent::HostnameFound(Some(name)) => action matches PublicIpAction::Done(answer)
            && answer@ == "local:"@ + name@,
        PublicIpEvent::HostnameFound(None) => action matches PublicIpAction::Done(answer)
            && answer@ == "local:unknown"@,
    }
}

/// The address of the service at position `index` of the list; `None` past
/// the end of the list.
pub fn public_ip_service(index: usize) -> (r: Option<&'static str>)
    ensures
        r is Some <==> index < PUBLIC_IP_SERVICE_COUNT,
        r matches Some(url) ==> url@ == public_ip_services()[index as int],
{
    if index == 0 {
        Some("https://api.ipify.org")
    } else if index == 1 {
        Some("https://ifconfig.me/ip")
    } else if index == 2 {
        Some("https://icanhazip.com")
    } else if index == 3 {
        Some("https://ipecho.net/plain")
    } else {
        None
    }
}

/// Decides what is done after `event`: the services are asked in the order
/// of the list, the first address that one of them gives is the answer, and
/// after the last service the host name stands in, or the word `unknown`.
/// Every answer begins with `local:`.
pub fn fetch_public_ip_step(event: PublicIpEvent) -> (action: PublicIpAction)
    ensures
        public_ip_next(event, action),
{
    match event {
        PublicIpEvent::Started => PublicIpAction::AskService {
            index: 0,
            url: String::from_str("https://api.ipify.org"),
        },
        PublicIpEvent::ServiceAnswered { index, address } => match address {
            Some(ip) => PublicIpAction::Done(concat2("local:", ip.as_str())),
            None => {
                if index < PUBLIC_IP_SERVICE_COUNT - 1 {
                    match public_ip_service(index + 1) {
                        Some(url) => PublicIpAction::AskService {
                            index: index + 1,
                            url: String::from_str(url),
                        },
                        None => PublicIpAction::AskHostname,
                    }
                } else {
                    PublicIpAction::AskHostname
                }
            },
        },
        PublicIpEvent::HostnameFound(name) => get_local_hostname(name),
    }
}

/// The answer where no service gave an address: the host name, if the
/// machine has one, and else the word `unknown`.
pub fn get_local_hostname(hostname: Option<String>) -> (action: PublicIpAction)
    ensures
        public_ip_next(PublicIpEvent::HostnameFound(hostname), action),
{
    match hostname {
        Some(name) => PublicIpAction::Done(concat2("local:", name.as_str())),
        None => PublicIpAction::Done(String::from_str("local:unknown")),
    }
}

impl CachedPublicIp {
    /// The answer that still holds at `now`, if there is one.
    pub open spec fn fresh_answer(&self, now: Timestamp) -> Option<Seq<char>> {
        match (self.ip, self.last_fetched) {
            (Some(ip), Some(fetched)) => if is_fresh(fetched, now) {
                Some(ip@)
            } else {
                None
            },
            _ => None,
        }
    }

    /// Nothing is kept yet.
    pub fn new() -> (r: CachedPublicIp)
        ensures
            r.ip is None,
            r.last_fetched is None,
    {
        CachedPublicIp { ip: None, last_fetched: None }
    }

    /// The kept answer, where one was found less than five minutes before
    /// `now`; `None` where there is none or it is older, and the address has
    /// to be found anew.
    pub fn get(&self, now: &Timestamp) -> (r: Option<String>)
        ensures
            r is Some <==> self.fresh_answer(*now) is Some,
            r matches Some(ip) ==> Some(ip@) == self.fresh_answer(*now),
    {
        match (&self.ip, &self.last_fetched) {
            (Some(ip), Some(fetched)) => {
                let elapsed = now.duration_since(fetched);
                let limit = TimeSpan::from_secs(PUBLIC_IP_CACHE_SECS);
                assert(limit.as_nanos() == PUBLIC_IP_CACHE_SECS * NANOS_PER_SEC);
                if elapsed.shorter_than(&limit) {
                    Some(ip.clone())
                } else {
                    None
                }
            },
            _ => None,
        }
    }

    /// Keeps `ip` as the answer found at `now`, in place of what was kept.
    pub fn put(&mut self, ip: String, now: Timestamp)
        ensures
            final(self).ip == Some(ip),
            final(self).last_fetched == Some(now),
    {
        self.ip = Some(ip);
        self.last_fetched = Some(now);
    }
}

/// An answer that was kept is given again, unchanged, to everyone who asks
/// less than five minutes after it was found: nothing has to be fetched.
pub proof fn lemma_kept_answer_is_reused(
    cache: CachedPublicIp,
    ip: String,
    fetched: Timestamp,
    first: Timestamp,
    second: Timestamp,
)
    requires
        cache.ip == Some(ip),
        cache.last_fetched == Some(fetched),
        is_fresh(fetched, first),
        is_fresh(fetched, second),
    ensures
        cache.fresh_answer(first) == Some(ip@),
        cache.fresh_answer(second) == cache.fresh_answer(first),
{
}

/// An answer is not given beyond its time: five minutes after it was found,
/// and from then on, the address has to be found anew.
pub proof fn lemma_kept_answer_expires(cache: CachedPublicIp, fetched: Timestamp, now: Timestamp)
    requires
        cache.last_fetched == Some(fetched),
        now.as_nanos() >= fetched.as_nanos() + PUBLIC_IP_CACHE_SECS * NANOS_PER_SEC,
    ensures
        cache.fresh_answer(now) is None,
{
}

/// Whatever the search ends with begins with `local:`.
pub proof fn lemma_answer_is_local(event: PublicIpEvent, answer: String)
    requires
        public_ip_next(event, PublicIpAction::Done(answer)),
    ensures
        crate::text::starts_with(answer@, "local:"@),
{
    reveal_strlit("local:");
    reveal_strlit("local:unknown");
    match event {
        PublicIpEvent::ServiceAnswered { index, address: Some(ip) } => {
            assert(crate::text::starts_with("local:"@, "local:"@));
            crate::text::lemma_starts_with_extended("local:"@, "local:"@, ip@);
        },
        PublicIpEvent::HostnameFound(Some(name)) => {
            assert(crate::text::starts_with("local:"@, "local:"@));
            crate::text::lemma_starts_with_extended("local:"@, "local:"@, name@);
        },
        _ => {},
    }
}

} // verus!
