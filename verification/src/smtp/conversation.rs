//! The conversation with a mail server, one reply after the other.
//!
//! The server is greeted, a sender is named, and the recipient under test is
//! named; how the server answers the recipient is the finding. A server that
//! accepts the recipient is asked about a made-up recipient of the same
//! domain, to see whether it accepts everyone. Nothing is ever sent.
//!
//! The library decides what is said next and reads the replies; the caller
//! holds the connection, sends what it is told to and reports what came back.

use crate::smtp::error::{SmtpError, SmtpFailure};
use crate::smtp::parser::{parse_rcpt_reply, rcpt_signals, with_catch_all};
use crate::smtp::verif_method::{CheckEmailInputProxy, VerifMethodSmtpConfig};
use crate::smtp::SmtpDetails;
use crate::text::{concat2, concat3};
use vstd::prelude::*;
use vstd::string::*;

verus! {

/// Whom to ask about whom, and how.
#[derive(Debug, Clone, PartialEq, Eq)]
pub struct SmtpProbe {
    /// The mail server to talk to.
    pub host: String,
    /// The address under test.
    pub target: String,
    /// The domain of the address under test.
    pub domain: String,
    /// The part before the "@" of the made-up address that shows whether
    /// the domain accepts every recipient. The caller makes it up at random.
    pub random_local_part: String,
    /// How to talk to the server.
    pub config: VerifMethodSmtpConfig,
    /// The proxy to go through, if any.
    pub proxy: Option<CheckEmailInputProxy>,
}

/// How far a conversation has come.
#[derive(Debug, Clone, Copy, PartialEq, Eq)]
pub enum SmtpStage {
    /// The connection is being opened.
    Init,
    /// The connection is open; the server's greeting is awaited.
    Connected,
    /// The server has greeted; it has been told who is calling, with `HELO`
    /// if it refused `EHLO`.
    Greeted {
        /// Whether `EHLO` was refused and `HELO` was said in its place.
        with_helo: bool,
    },
    /// The server knows who is calling; the sender has been named.
    Helloed,
    /// The server has accepted the sender; the recipient has been named.
    MailFromAccepted,
    /// The server has accepted the recipient; a made-up recipient of the
    /// same domain has been named.
    ProbingCatchAll {
        /// What the server's answer to the recipient told.
        details: SmtpDetails,
    },
    /// The recipient has been probed; the server has been told goodbye.
    ProbedRcpt {
        /// What the probe found.
        details: SmtpDetails,
    },
    /// The conversation is over.
    Closed,
}

/// A conversation in progress.
#[derive(Debug, Clone, PartialEq, Eq)]
pub struct SmtpConversation {
    /// Whom to ask about whom, and how.
    pub probe: SmtpProbe,
    /// How far the conversation has come.
    pub stage: SmtpStage,
}

/// What came back.
#[derive(Debug, Clone, PartialEq, Eq)]
pub enum SmtpEvent {
    /// The connection is open.
    Connected,
    /// The server replied.
    Reply {
        /// The code of the reply.
        code: u16,
        /// The text of the reply.
        message: String,
    },
    /// The connection could not be opened or broke, or the time ran out.
    Failed(SmtpError),
}

/// What the caller is to do next.
#[derive(Debug, PartialEq, Eq)]
pub enum SmtpAction {
    /// Open a connection, and report whether that went through.
    Connect {
        /// The mail server.
        host: String,
        /// Its port.
        port: u16,
        /// For how many milliseconds to wait, here and for every reply.
        timeout_ms: u64,
        /// The proxy to go through, if any.
        proxy: Option<CheckEmailInputProxy>,
    },
    /// Send nothing, and report the server's greeting.
    ReadBanner,
    /// Send this line, and report the server's reply.
    Send(String),
    /// Close the connection: this is the outcome of the conversation.
    Close(Result<SmtpDetails, SmtpError>),
}

/// The reply says that all is well: its code is one from 200 to 299.
pub open spec fn is_positive(code: u16) -> bool {
    200 <= code <= 299
}

/// The reply refuses for good: its code is one from 500 to 599.
pub open spec fn is_permanent(code: u16) -> bool {
    500 <= code <= 599
}

/// The line that says who is calling.
pub open spec fn ehlo_line(probe: SmtpProbe) -> Seq<char> {
    "EHLO "@ + probe.config.hello_name@
}

/// The line that says who is calling, for servers that refuse `EHLO`.
pub open spec fn helo_line(probe: SmtpProbe) -> Seq<char> {
    "HELO "@ + probe.config.hello_name@
}

/// The line that names the sender.
pub open spec fn mail_from_line(probe: SmtpProbe) -> Seq<char> {
    "MAIL FROM:<"@ + probe.config.from_email@ + ">"@
}

/// The line that names the recipient under test.
pub open spec fn rcpt_to_line(probe: SmtpProbe) -> Seq<char> {
    "RCPT TO:<"@ + probe.target@ + ">"@
}

/// The line that names the made-up recipient.
pub open spec fn random_rcpt_to_line(probe: SmtpProbe) -> Seq<char> {
    "RCPT TO:<"@ + probe.random_local_part@ + "@"@ + probe.domain@ + ">"@
}

/// The action ends the conversation with the server's reply as the error.
pub open spec fn closes_with_reply(action: SmtpAction, code: u16, message: String) -> bool {
    action matches SmtpAction::Close(Err(SmtpError::AsyncSmtpError(failure))) && failure.code
        == Some(code) && failure.message == message
}

/// The replies and failures that are still to come before a conversation at
/// this stage must have ended.
pub open spec fn replies_left(stage: SmtpStage) -> nat {
    match stage {
        SmtpStage::Init => 8,
        SmtpStage::Connected => 7,
        SmtpStage::Greeted { with_helo: false } => 6,
        SmtpStage::Greeted { with_helo: true } => 5,
        SmtpStage::Helloed => 4,
        SmtpStage::MailFromAccepted => 3,
        SmtpStage::ProbingCatchAll { .. } => 2,
        SmtpStage::ProbedRcpt { .. } => 1,
        SmtpStage::Closed => 0,
    }
}

/// The event is one that a conversation at this stage waits for.
pub open spec fn smtp_event_fits(stage: SmtpStage, event: SmtpEvent) -> bool {
    match (stage, event) {
        (SmtpStage::Closed, _) => false,
        (SmtpStage::Init, SmtpEvent::Reply { .. }) => false,
        (SmtpStage::Init, _) => true,
        (_, SmtpEvent::Connected) => false,
        _ => true,
    }
}

/// What one step of a conversation does: `next` and `action` are what
/// follows from `event` for a conversation about `probe` at `stage`.
pub open spec fn smtp_step_taken(
    probe: SmtpProbe,
    stage: SmtpStage,
    event: SmtpEvent,
    next: SmtpStage,
    action: SmtpAction,
) -> bool {
    match (stage, event) {
        (SmtpStage::Init, SmtpEvent::Connected) => next == SmtpStage::Connected
            && action is ReadBanner,
        (SmtpStage::Connected, SmtpEvent::Reply { code, message }) => if code == 220 {
            &&& next == (SmtpStage::Greeted { with_helo: false })
            &&& action matches SmtpAction::Send(line)
            &&& line@ == ehlo_line(probe)
        } else {
            next == SmtpStage::Closed && closes_with_reply(action, code, message)
        },
        (SmtpStage::Greeted { with_helo }, SmtpEvent::Reply { code, message }) => if is_positive(
            code,
        ) {
            &&& next == SmtpStage::Helloed
            &&& action matches SmtpAction::Send(line)
            &&& line@ == mail_from_line(probe)
        } else if is_permanent(code) && !with_helo {
            &&& next == (SmtpStage::Greeted { with_helo: true })
            &&& action matches SmtpAction::Send(line)
            &&& line@ == helo_line(probe)
        } else {
            next == SmtpStage::Closed && closes_with_reply(action, code, message)
        },
        (SmtpStage::Helloed, SmtpEvent::Reply { code, message }) => if is_positive(code) {
            &&& next == SmtpStage::MailFromAccepted
            &&& action matches SmtpAction::Send(line)
            &&& line@ == rcpt_to_line(probe)
        } else {
            next == SmtpStage::Closed && closes_with_reply(action, code, message)
        },
        (SmtpStage::MailFromAccepted, SmtpEvent::Reply { code, message }) => match rcpt_signals(
            code,
            message@,
        ) {
            Some(details) => if details.is_deliverable {
                &&& next == (SmtpStage::ProbingCatchAll { details })
                &&& action matches SmtpAction::Send(line)
                &&& line@ == random_rcpt_to_line(probe)
            } else {
                &&& next == (SmtpStage::ProbedRcpt { details })
                &&& action matches SmtpAction::Send(line)
                &&& line@ == "QUIT"@
            },
            None => next == SmtpStage::Closed && closes_with_reply(action, code, message),
        },
        (SmtpStage::ProbingCatchAll { details }, SmtpEvent::Reply { code, message }) => {
            &&& next matches SmtpStage::ProbedRcpt { details: found }
            &&& found == (SmtpDetails {
                is_catch_all: details.is_deliverable && code == 250,
                ..details
            })
            &&& action matches SmtpAction::Send(line)
            &&& line@ == "QUIT"@
        },
        (SmtpStage::ProbingCatchAll { details }, SmtpEvent::Failed(_)) => next == SmtpStage::Closed
            && action == SmtpAction::Close(Ok(details)),
        (SmtpStage::ProbedRcpt { details }, SmtpEvent::Reply { .. }) => next == SmtpStage::Closed
            && action == SmtpAction::Close(Ok(details)),
        (SmtpStage::ProbedRcpt { details }, SmtpEvent::Failed(_)) => next == SmtpStage::Closed
            && action == SmtpAction::Close(Ok(details)),
        (SmtpStage::Closed, _) => false,
        (_, SmtpEvent::Failed(error)) => next == SmtpStage::Closed && action == SmtpAction::Close(
            Err(error),
        ),
        _ => false,
    }
}

/// Ends the conversation with the server's reply as the error.
fn close_with_reply(code: u16, message: String) -> (action: SmtpAction)
    ensures
        closes_with_reply(action, code, message),
{
    SmtpAction::Close(Err(SmtpError::AsyncSmtpError(SmtpFailure { code: Some(code), message })))
}

/// Opens a conversation: a connection to the server's port is to be opened,
/// through the proxy if there is one, and within the time that the
/// configuration sets, or twelve seconds.
pub fn smtp_start(probe: SmtpProbe) -> (r: (SmtpConversation, SmtpAction))
    ensures
        r.0.probe == probe,
        r.0.stage == SmtpStage::Init,
        r.1 matches SmtpAction::Connect { host, port, timeout_ms, proxy } && host@ == probe.host@
            && port == probe.config.smtp_port && timeout_ms == probe.config.timeout_ms() && proxy
            == probe.proxy,
{
    let host = probe.host.clone();
    let port = probe.config.smtp_port;
    let timeout_ms = probe.config.get_timeout_ms();
    let proxy = match &probe.proxy {
        Some(p) => Some(clone_proxy(p)),
        None => None,
    };
    (
        SmtpConversation { probe, stage: SmtpStage::Init },
        SmtpAction::Connect { host, port, timeout_ms, proxy },
    )
}

/// A copy of a text that may be absent.
fn clone_text(text: &Option<String>) -> (r: Option<String>)
    ensures
        r == *text,
{
    match text {
        Some(t) => Some(t.clone()),
        None => None,
    }
}

/// A copy of a proxy.
fn clone_proxy(proxy: &CheckEmailInputProxy) -> (r: CheckEmailInputProxy)
    ensures
        r == *proxy,
{
    CheckEmailInputProxy {
        host: proxy.host.clone(),
        port: proxy.port,
        username: clone_text(&proxy.username),
        password: clone_text(&proxy.password),
        timeout_ms: proxy.timeout_ms,
    }
}

/// Takes a conversation one step further: from how far it has come and from
/// what came back, to how far it has come then and what is to be done next.
///
/// The greeting must carry the code 220. `EHLO` that is refused for good
/// is said again as `HELO`. The sender and, before it, the caller's name must
/// be accepted with a code from 200 to 299. The reply to the recipient is
/// read as [`parse_rcpt_reply`] reads it; where that tells nothing, and
/// where an earlier reply is not the one that is needed, the conversation
/// ends with the reply as its error. A server that accepts the recipient is
/// asked about the made-up one, and accepts everyone if it answers with the
/// code 250; whatever goes wrong from there on leaves the finding as it is.
/// A failure of the connection before the recipient is probed ends the
/// conversation with that failure.
///
/// An event that the conversation does not wait for is not taken: the
/// result is `None`. Every step leaves fewer replies to come.
pub fn smtp_step(conversation: SmtpConversation, event: SmtpEvent) -> (r: Option<
    (SmtpConversation, SmtpAction),
>)
    ensures
        r is Some <==> smtp_event_fits(conversation.stage, event),
        r matches Some((next, action)) ==> {
            &&& next.probe == conversation.probe
            &&& smtp_step_taken(conversation.probe, conversation.stage, event, next.stage, action)
            &&& replies_left(next.stage) < replies_left(conversation.stage)
            &&& action is Close <==> next.stage == SmtpStage::Closed
        },
{
    let SmtpConversation { probe, stage } = conversation;
    let (next, action) = match (stage, event) {
        (SmtpStage::Closed, _) => {
            return None;
        },
        (SmtpStage::Init, SmtpEvent::Connected) => (SmtpStage::Connected, SmtpAction::ReadBanner),
        (SmtpStage::Init, SmtpEvent::Reply { .. }) => {
            return None;
        },
        (_, SmtpEvent::Connected) => {
            return None;
        },
        (SmtpStage::Connected, SmtpEvent::Reply { code, message }) => {
            if code == 220 {
                (
                    SmtpStage::Greeted { with_helo: false },
                    SmtpAction::Send(concat2("EHLO ", probe.config.hello_name.as_str())),
                )
            } else {
                (SmtpStage::Closed, close_with_reply(code, message))
            }
        },
        (SmtpStage::Greeted { with_helo }, SmtpEvent::Reply { code, message }) => {
            if 200 <= code && code <= 299 {
                (
                    SmtpStage::Helloed,
                    SmtpAction::Send(
                        concat3("MAIL FROM:<", probe.config.from_email.as_str(), ">"),
                    ),
                )
            } else if 500 <= code && code <= 599 && !with_helo {
                (
                    SmtpStage::Greeted { with_helo: true },
                    SmtpAction::Send(concat2("HELO ", probe.config.hello_name.as_str())),
                )
            } else {
                (SmtpStage::Closed, close_with_reply(code, message))
            }
        },
        (SmtpStage::Helloed, SmtpEvent::Reply { code, message }) => {
            if 200 <= code && code <= 299 {
                (
                    SmtpStage::MailFromAccepted,
                    SmtpAction::Send(concat3("RCPT TO:<", probe.target.as_str(), ">")),
                )
            } else {
                (SmtpStage::Closed, close_with_reply(code, message))
            }
        },
        (SmtpStage::MailFromAccepted, SmtpEvent::Reply { code, message }) => {
            match parse_rcpt_reply(code, message.as_str()) {
                Some(details) => {
                    if details.is_deliverable {
                        let mut line = String::from_str("RCPT TO:<");
                        line.append(probe.random_local_part.as_str());
                        line.append("@");
                        line.append(probe.domain.as_str());
                        line.append(">");
                        (SmtpStage::ProbingCatchAll { details }, SmtpAction::Send(line))
                    } else {
                        (
                            SmtpStage::ProbedRcpt { details },
                            SmtpAction::Send(String::from_str("QUIT")),
                        )
                    }
                },
                None => (SmtpStage::Closed, close_with_reply(code, message)),
            }
        },
        (SmtpStage::ProbingCatchAll { details }, SmtpEvent::Reply { code, message }) => {
            let found = with_catch_all(details, Some(code));
            (SmtpStage::ProbedRcpt { details: found }, SmtpAction::Send(String::from_str("QUIT")))
        },
        (SmtpStage::ProbingCatchAll { details }, SmtpEvent::Failed(_)) => (
            SmtpStage::Closed,
            SmtpAction::Close(Ok(details)),
        ),
        (SmtpStage::ProbedRcpt { details }, _) => (
            SmtpStage::Closed,
            SmtpAction::Close(Ok(details)),
        ),
        (_, SmtpEvent::Failed(error)) => (SmtpStage::Closed, SmtpAction::Close(Err(error))),
    };
    Some((SmtpConversation { probe, stage: next }, action))
}

/// A server that accepts the recipient and answers the made-up recipient
/// with the code 250 accepts everyone: the two steps that read these replies
/// leave a finding that says so.
pub proof fn lemma_two_accepts_are_catch_all(
    probe: SmtpProbe,
    message: String,
    random_message: String,
    stage1: SmtpStage,
    action1: SmtpAction,
    stage2: SmtpStage,
    action2: SmtpAction,
)
    requires
        smtp_step_taken(
            probe,
            SmtpStage::MailFromAccepted,
            SmtpEvent::Reply { code: 250, message },
            stage1,
            action1,
        ),
        smtp_step_taken(
            probe,
            stage1,
            SmtpEvent::Reply { code: 250, message: random_message },
            stage2,
            action2,
        ),
    ensures
        stage2 matches SmtpStage::ProbedRcpt { details } && details.is_catch_all
            && details.is_deliverable && details.can_connect_smtp,
        crate::reachable_of(crate::misc::MiscDetails::default_spec(), Ok(stage2->ProbedRcpt_details))
            == crate::Reachable::Risky,
{
}

/// Whatever ends a conversation after the recipient was probed leaves the
/// finding as it was: a goodbye that fails does not undo it.
pub proof fn lemma_goodbye_keeps_finding(
    probe: SmtpProbe,
    details: SmtpDetails,
    event: SmtpEvent,
    next: SmtpStage,
    action: SmtpAction,
)
    requires
        !(event is Connected),
        smtp_step_taken(probe, SmtpStage::ProbedRcpt { details }, event, next, action),
    ensures
        action == SmtpAction::Close(Ok(details)),
{
}

} // verus!
