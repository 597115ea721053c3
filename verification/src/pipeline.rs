//! The stages of a check, one after the other.
//!
//! A check asks for four pieces of outside work in turn: the parsing of the
//! address, the lookup of the domain's mail servers, the miscellaneous
//! lookups, and the probe of the mail server. The library decides what is
//! asked next and when the check ends; the caller does the work and reports
//! how it went. [`check_email_start`] opens a check, and [`check_email_step`]
//! takes it from one stage to the next.

use crate::misc::MiscDetails;
use crate::mx::{is_preferred, lemma_preferred_unique, MxDetails};
use crate::smtp::{SmtpDebug, SmtpDetails, SmtpError};
use crate::syntax::{
    get_similar_mail_provider, has_similar_provider, is_closest_provider,
    lemma_closest_provider_unique, mail_providers, suggestion_added, SyntaxDetails,
};
use crate::text::{concat2, lemma_starts_with_extended, starts_with};
use crate::time::Timestamp;
use crate::util::input_output::{CheckEmailInput, CheckEmailOutput, DebugDetails, Reachable};
use crate::{calculate_reachable_with_reason, lemma_reason_names_verdict, reachable_of, reason_of};
use vstd::prelude::*;
use vstd::string::*;

verus! {

/// What a check is waiting for, with what it has learnt so far.
#[derive(Debug, PartialEq, Eq)]
pub enum Stage {
    /// The address has not been parsed yet.
    AwaitingSyntax,
    /// The address is valid; its domain's mail servers are being looked up.
    AwaitingMx {
        /// The parts of the address.
        syntax: SyntaxDetails,
    },
    /// The domain has mail servers; the miscellaneous lookups are being made.
    AwaitingMisc {
        /// The parts of the address.
        syntax: SyntaxDetails,
        /// The mail servers of the domain.
        mx: MxDetails,
    },
    /// The mail server is being probed.
    AwaitingSmtp {
        /// The parts of the address.
        syntax: SyntaxDetails,
        /// The mail servers of the domain.
        mx: MxDetails,
        /// What the miscellaneous lookups gave.
        misc: MiscDetails,
    },
    /// The check has ended.
    Finished,
}

/// A check in progress.
#[derive(Debug, PartialEq, Eq)]
pub struct CheckEmailState {
    input: CheckEmailInput,
    start_time: Timestamp,
    stage: Stage,
}

/// How a piece of outside work went.
#[derive(Debug, PartialEq, Eq)]
pub enum CheckEmailEvent {
    /// The address was parsed.
    SyntaxChecked(SyntaxDetails),
    /// The mail servers were looked up, or the lookup could not be made, for
    /// the reason given.
    MxLookedUp(Result<MxDetails, String>),
    /// The miscellaneous lookups were made.
    MiscChecked(MiscDetails),
    /// The mail server was probed.
    SmtpProbed {
        /// What the probe found, or why it failed.
        result: Result<SmtpDetails, SmtpError>,
        /// How the probe was made.
        debug: SmtpDebug,
        /// When the probe ended.
        end_time: Timestamp,
    },
}

/// What the caller is to do next.
#[derive(Debug, PartialEq, Eq)]
pub enum CheckEmailAction {
    /// Parse the address.
    CheckSyntax {
        /// The address to parse.
        to_email: String,
    },
    /// Look up the mail servers of the domain.
    LookupMx {
        /// The domain.
        domain: String,
    },
    /// Make the miscellaneous lookups.
    CheckMisc {
        /// Whether to look for a Gravatar picture.
        check_gravatar: bool,
        /// The key for haveibeenpwned.com, if that lookup is to be made.
        haveibeenpwned_api_key: Option<String>,
    },
    /// Probe the mail server.
    ProbeSmtp {
        /// The address to ask the server about.
        address: String,
        /// The mail server to ask.
        host: String,
        /// The domain of the address.
        domain: String,
    },
    /// Nothing more: the check has ended with this result.
    Finish(CheckEmailOutput),
}

/// The events that are left before a check at this stage must have ended.
pub open spec fn stages_left(stage: Stage) -> nat {
    match stage {
        Stage::AwaitingSyntax => 4,
        Stage::AwaitingMx { .. } => 3,
        Stage::AwaitingMisc { .. } => 2,
        Stage::AwaitingSmtp { .. } => 1,
        Stage::Finished => 0,
    }
}

/// What a stage holds is fit for the work that follows: the address is valid
/// and has all its parts, and once the mail servers are known there is at
/// least one.
pub open spec fn stage_well_formed(stage: Stage) -> bool {
    match stage {
        Stage::AwaitingSyntax => true,
        Stage::AwaitingMx { syntax } => syntax.is_valid_syntax && syntax.well_formed(),
        Stage::AwaitingMisc { syntax, mx } => syntax.is_valid_syntax && syntax.well_formed()
            && !mx.has_no_records(),
        Stage::AwaitingSmtp { syntax, mx, misc } => syntax.is_valid_syntax && syntax.well_formed()
            && !mx.has_no_records(),
        Stage::Finished => true,
    }
}

/// The event reports the work that the stage is waiting for.
pub open spec fn event_fits(stage: Stage, event: CheckEmailEvent) -> bool {
    match (stage, event) {
        (Stage::AwaitingSyntax, CheckEmailEvent::SyntaxChecked(_)) => true,
        (Stage::AwaitingMx { .. }, CheckEmailEvent::MxLookedUp(_)) => true,
        (Stage::AwaitingMisc { .. }, CheckEmailEvent::MiscChecked(_)) => true,
        (Stage::AwaitingSmtp { .. }, CheckEmailEvent::SmtpProbed { .. }) => true,
        _ => false,
    }
}

/// A result that was reached before the mail server was probed: the verdict
/// and the reason are the given ones, and nothing is told of the stages that
/// did not run.
pub open spec fn ended_early(
    out: CheckEmailOutput,
    to_email: Seq<char>,
    verdict: Reachable,
    reason: Seq<char>,
) -> bool {
    &&& out.input@ == to_email
    &&& out.is_reachable == verdict
    &&& out.reason@ == reason
    &&& out.misc.is_default()
    &&& out.smtp matches Ok(details) && details.is_default()
    &&& out.debug.is_default()
}

/// The result of a check whose mail server was probed.
pub open spec fn ended_after_probe(
    out: CheckEmailOutput,
    input: CheckEmailInput,
    start_time: Timestamp,
    syntax: SyntaxDetails,
    mx: MxDetails,
    misc: MiscDetails,
    result: Result<SmtpDetails, SmtpError>,
    debug: SmtpDebug,
    end_time: Timestamp,
) -> bool {
    &&& out.input@ == input.to_email@
    &&& out.is_reachable == reachable_of(misc, result)
    &&& out.reason@ == reason_of(misc, result)
    &&& out.misc == misc
    &&& out.mx == Ok::<MxDetails, String>(mx)
    &&& out.smtp == result
    &&& if result is Err {
        suggestion_added(syntax, out.syntax)
    } else {
        out.syntax == syntax
    }
    &&& out.debug.start_time == start_time
    &&& out.debug.end_time == end_time
    &&& out.debug.duration.well_formed()
    &&& out.debug.duration.as_nanos() == if end_time.as_nanos() >= start_time.as_nanos() {
        end_time.as_nanos() - start_time.as_nanos()
    } else {
        0
    }
    &&& out.debug.smtp == debug
    &&& out.debug.backend_name@ == input.backend_name@
}

/// What one step of a check does: `next` and `action` are what follows from
/// `event` for a check about `input` that began at `start_time` and stood at
/// `stage`.
pub open spec fn step_taken(
    input: CheckEmailInput,
    start_time: Timestamp,
    stage: Stage,
    event: CheckEmailEvent,
    next: Stage,
    action: CheckEmailAction,
) -> bool {
    match (stage, event) {
        (Stage::AwaitingSyntax, CheckEmailEvent::SyntaxChecked(syntax)) => if !syntax.is_valid_syntax {
            &&& next is Finished
            &&& action matches CheckEmailAction::Finish(out)
            &&& ended_early(
                out,
                input.to_email@,
                Reachable::Invalid,
                "Invalid: email syntax is invalid"@,
            )
            &&& out.syntax == syntax
            &&& out.mx matches Ok(found) && found.is_default()
        } else {
            &&& next == (Stage::AwaitingMx { syntax })
            &&& action matches CheckEmailAction::LookupMx { domain }
            &&& syntax.domain matches Some(of_address)
            &&& domain@ == of_address@
        },
        (Stage::AwaitingMx { syntax }, CheckEmailEvent::MxLookedUp(Err(error))) => {
            &&& next is Finished
            &&& action matches CheckEmailAction::Finish(out)
            &&& ended_early(
                out,
                input.to_email@,
                Reachable::Unknown,
                "Unknown: MX lookup failed - "@ + error@,
            )
            &&& suggestion_added(syntax, out.syntax)
            &&& out.mx == Err::<MxDetails, String>(error)
        },
        (Stage::AwaitingMx { syntax }, CheckEmailEvent::MxLookedUp(Ok(mx))) => if mx.has_no_records() {
            &&& next is Finished
            &&& action matches CheckEmailAction::Finish(out)
            &&& ended_early(
                out,
                input.to_email@,
                Reachable::Invalid,
                "Invalid: no MX records found for domain"@,
            )
            &&& suggestion_added(syntax, out.syntax)
            &&& out.mx == Ok::<MxDetails, String>(mx)
        } else {
            &&& next == (Stage::AwaitingMisc { syntax, mx })
            &&& action matches CheckEmailAction::CheckMisc { check_gravatar, haveibeenpwned_api_key }
            &&& check_gravatar == input.check_gravatar
            &&& haveibeenpwned_api_key is Some <==> input.haveibeenpwned_api_key is Some
            &&& haveibeenpwned_api_key matches Some(key) ==> key@
                == input.haveibeenpwned_api_key->0@
        },
        (Stage::AwaitingMisc { syntax, mx }, CheckEmailEvent::MiscChecked(misc)) => {
            &&& next == (Stage::AwaitingSmtp { syntax, mx, misc })
            &&& action matches CheckEmailAction::ProbeSmtp { address, host, domain }
            &&& syntax.address matches Some(of_address) && address@ == of_address@
            &&& syntax.domain matches Some(of_domain) && domain@ == of_domain@
            &&& exists|best: int|
                is_preferred(mx.records(), best) && host@ == (#[trigger] mx.records()[best]).exchange@
        },
        (
            Stage::AwaitingSmtp { syntax, mx, misc },
            CheckEmailEvent::SmtpProbed { result, debug, end_time },
        ) => {
            &&& next is Finished
            &&& action matches CheckEmailAction::Finish(out)
            &&& ended_after_probe(out, input, start_time, syntax, mx, misc, result, debug, end_time)
        },
        _ => false,
    }
}

impl CheckEmailState {
    #[verifier::type_invariant]
    spec fn inv(self) -> bool {
        stage_well_formed(self.stage)
    }

    /// What the check is about.
    pub closed spec fn input(&self) -> CheckEmailInput {
        self.input
    }

    /// When the check began.
    pub closed spec fn start_time(&self) -> Timestamp {
        self.start_time
    }

    /// What the check is waiting for.
    pub closed spec fn stage(&self) -> Stage {
        self.stage
    }

    /// Whether the check has ended.
    pub fn is_finished(&self) -> (r: bool)
        ensures
            r == (self.stage() is Finished),
            stage_well_formed(self.stage()),
    {
        proof {
            use_type_invariant(self);
        }
        match &self.stage {
            Stage::Finished => true,
            _ => false,
        }
    }

    /// Whether `event` reports the work that the check is waiting for.
    pub fn accepts(&self, event: &CheckEmailEvent) -> (r: bool)
        ensures
            r == event_fits(self.stage(), *event),
    {
        match (&self.stage, event) {
            (Stage::AwaitingSyntax, CheckEmailEvent::SyntaxChecked(_)) => true,
            (Stage::AwaitingMx { .. }, CheckEmailEvent::MxLookedUp(_)) => true,
            (Stage::AwaitingMisc { .. }, CheckEmailEvent::MiscChecked(_)) => true,
            (Stage::AwaitingSmtp { .. }, CheckEmailEvent::SmtpProbed { .. }) => true,
            _ => false,
        }
    }
}

/// A result that was reached before the mail server was probed.
fn early_output(
    to_email: String,
    verdict: Reachable,
    reason: String,
    syntax: SyntaxDetails,
    mx: Result<MxDetails, String>,
) -> (out: CheckEmailOutput)
    ensures
        ended_early(out, to_email@, verdict, reason@),
        out.syntax == syntax,
        out.mx == mx,
{
    CheckEmailOutput {
        input: to_email,
        is_reachable: verdict,
        reason,
        misc: MiscDetails::default(),
        mx,
        smtp: Ok(SmtpDetails::default()),
        syntax,
        debug: DebugDetails::default(),
    }
}

/// A copy of a text that may be absent.
fn clone_text(text: &Option<String>) -> (r: Option<String>)
    ensures
        r is Some <==> text is Some,
        r matches Some(copy) ==> copy@ == text->0@,
{
    match text {
        Some(t) => Some(t.clone()),
        None => None,
    }
}

/// Opens a check of `input.to_email` at `start_time`: the address is to be
/// parsed first.
pub fn check_email_start(input: CheckEmailInput, start_time: Timestamp) -> (r: (
    CheckEmailState,
    CheckEmailAction,
))
    ensures
        r.0.input() == input,
        r.0.start_time() == start_time,
        r.0.stage() is AwaitingSyntax,
        r.1 matches CheckEmailAction::CheckSyntax { to_email } && to_email@ == input.to_email@,
{
    let to_email = input.to_email.clone();
    (
        CheckEmailState { input, start_time, stage: Stage::AwaitingSyntax },
        CheckEmailAction::CheckSyntax { to_email },
    )
}

/// Takes a check one step further: from where it stands and from how the
/// work that it was waiting for went, to where it stands next and what is to
/// be done next.
///
/// An address that is not valid ends the check as `Invalid` before anything
/// is looked up. A lookup of the mail servers that could not be made ends it
/// as `Unknown`, one that names no server as `Invalid`; in both cases a
/// provider near the domain is suggested. Else the server with the lowest
/// preference is probed, and verdict and reason come from what is known of the
/// address and from how the probe went; a provider is suggested where the
/// probe failed.
///
/// An event that reports other work than the check is waiting for is not
/// taken: the result is `None`. Every step leaves fewer stages to go.
pub fn check_email_step(state: CheckEmailState, event: CheckEmailEvent) -> (r: Option<
    (CheckEmailState, CheckEmailAction),
>)
    requires
        event matches CheckEmailEvent::SyntaxChecked(syntax) ==> syntax.well_formed(),
    ensures
        r is Some <==> event_fits(state.stage(), event),
        r matches Some((next, action)) ==> {
            &&& next.input() == state.input()
            &&& next.start_time() == state.start_time()
            &&& step_taken(
                state.input(),
                state.start_time(),
                state.stage(),
                event,
                next.stage(),
                action,
            )
            &&& stages_left(next.stage()) < stages_left(state.stage())
            &&& action is Finish <==> next.stage() is Finished
        },
{
    proof {
        use_type_invariant(&state);
    }
    let CheckEmailState { input, start_time, stage } = state;
    match (stage, event) {
        (Stage::AwaitingSyntax, CheckEmailEvent::SyntaxChecked(syntax)) => {
            if !syntax.is_valid_syntax {
                let out = early_output(
                    input.to_email.clone(),
                    Reachable::Invalid,
                    String::from_str("Invalid: email syntax is invalid"),
                    syntax,
                    Ok(MxDetails::default()),
                );
                Some(
                    (
                        CheckEmailState { input, start_time, stage: Stage::Finished },
                        CheckEmailAction::Finish(out),
                    ),
                )
            } else {
                let domain = syntax.domain.as_ref().unwrap().clone();
                Some(
                    (
                        CheckEmailState { input, start_time, stage: Stage::AwaitingMx { syntax } },
                        CheckEmailAction::LookupMx { domain },
                    ),
                )
            }
        },
        (Stage::AwaitingMx { syntax }, CheckEmailEvent::MxLookedUp(Err(error))) => {
            let mut syntax = syntax;
            get_similar_mail_provider(&mut syntax);
            let reason = concat2("Unknown: MX lookup failed - ", error.as_str());
            let out = early_output(
                input.to_email.clone(),
                Reachable::Unknown,
                reason,
                syntax,
                Err(error),
            );
            Some(
                (
                    CheckEmailState { input, start_time, stage: Stage::Finished },
                    CheckEmailAction::Finish(out),
                ),
            )
        },
        (Stage::AwaitingMx { syntax }, CheckEmailEvent::MxLookedUp(Ok(mx))) => {
            if mx.is_empty() {
                let mut syntax = syntax;
                get_similar_mail_provider(&mut syntax);
                let out = early_output(
                    input.to_email.clone(),
                    Reachable::Invalid,
                    String::from_str("Invalid: no MX records found for domain"),
                    syntax,
                    Ok(mx),
                );
                Some(
                    (
                        CheckEmailState { input, start_time, stage: Stage::Finished },
                        CheckEmailAction::Finish(out),
                    ),
                )
            } else {
                let check_gravatar = input.check_gravatar;
                let haveibeenpwned_api_key = clone_text(&input.haveibeenpwned_api_key);
                Some(
                    (
                        CheckEmailState {
                            input,
                            start_time,
                            stage: Stage::AwaitingMisc { syntax, mx },
                        },
                        CheckEmailAction::CheckMisc { check_gravatar, haveibeenpwned_api_key },
                    ),
                )
            }
        },
        (Stage::AwaitingMisc { syntax, mx }, CheckEmailEvent::MiscChecked(misc)) => {
            let address = syntax.address.as_ref().unwrap().clone();
            let domain = syntax.domain.as_ref().unwrap().clone();
            let host = mx.preferred().unwrap().exchange.clone();
            Some(
                (
                    CheckEmailState {
                        input,
                        start_time,
                        stage: Stage::AwaitingSmtp { syntax, mx, misc },
                    },
                    CheckEmailAction::ProbeSmtp { address, host, domain },
                ),
            )
        },
        (
            Stage::AwaitingSmtp { syntax, mx, misc },
            CheckEmailEvent::SmtpProbed { result, debug, end_time },
        ) => {
            let mut syntax = syntax;
            if result.is_err() {
                get_similar_mail_provider(&mut syntax);
            }
            let (is_reachable, reason) = calculate_reachable_with_reason(&misc, &result);
            let out = CheckEmailOutput {
                input: input.to_email.clone(),
                is_reachable,
                reason,
                misc,
                mx: Ok(mx),
                smtp: result,
                syntax,
                debug: DebugDetails {
                    start_time,
                    end_time,
                    duration: end_time.duration_since(&start_time),
                    smtp: debug,
                    backend_name: input.backend_name.clone(),
                },
            };
            Some(
                (
                    CheckEmailState { input, start_time, stage: Stage::Finished },
                    CheckEmailAction::Finish(out),
                ),
            )
        },
        _ => None,
    }
}

/// An address that is not valid ends the check at once, as `Invalid`:
/// nothing is looked up and no server is probed.
pub proof fn lemma_invalid_syntax_ends_check(
    input: CheckEmailInput,
    start_time: Timestamp,
    syntax: SyntaxDetails,
    next: Stage,
    action: CheckEmailAction,
)
    requires
        !syntax.is_valid_syntax,
        step_taken(
            input,
            start_time,
            Stage::AwaitingSyntax,
            CheckEmailEvent::SyntaxChecked(syntax),
            next,
            action,
        ),
    ensures
        next is Finished,
        !(action is LookupMx),
        !(action is CheckMisc),
        !(action is ProbeSmtp),
        action matches CheckEmailAction::Finish(out) && out.is_reachable == Reachable::Invalid
            && out.reason@ == "Invalid: email syntax is invalid"@,
{
}

/// Where the lookup of the mail servers could not be made, the verdict is
/// `Unknown`, and the result tells nothing of the probe and nothing of the
/// miscellaneous lookups: both are as they are by default.
pub proof fn lemma_mx_error_leaves_defaults(
    input: CheckEmailInput,
    start_time: Timestamp,
    syntax: SyntaxDetails,
    error: String,
    next: Stage,
    action: CheckEmailAction,
)
    requires
        step_taken(
            input,
            start_time,
            Stage::AwaitingMx { syntax },
            CheckEmailEvent::MxLookedUp(Err(error)),
            next,
            action,
        ),
    ensures
        action matches CheckEmailAction::Finish(out) && out.is_reachable == Reachable::Unknown
            && out.misc.is_default() && (out.smtp matches Ok(details) && details.is_default()),
{
}

/// A lookup that names no mail server ends the check as `Invalid`.
pub proof fn lemma_no_mx_records_is_invalid(
    input: CheckEmailInput,
    start_time: Timestamp,
    syntax: SyntaxDetails,
    mx: MxDetails,
    next: Stage,
    action: CheckEmailAction,
)
    requires
        mx.has_no_records(),
        step_taken(
            input,
            start_time,
            Stage::AwaitingMx { syntax },
            CheckEmailEvent::MxLookedUp(Ok(mx)),
            next,
            action,
        ),
    ensures
        action matches CheckEmailAction::Finish(out) && out.is_reachable == Reachable::Invalid
            && out.reason@ == "Invalid: no MX records found for domain"@,
{
}

/// Whatever step ends a check, the reason of its result names the verdict.
/// It begins with `Invalid:`, `Risky:` or `Unknown:` as the verdict is one of
/// these.
pub proof fn lemma_result_reason_names_verdict(
    input: CheckEmailInput,
    start_time: Timestamp,
    stage: Stage,
    event: CheckEmailEvent,
    next: Stage,
    out: CheckEmailOutput,
)
    requires
        step_taken(input, start_time, stage, event, next, CheckEmailAction::Finish(out)),
    ensures
        out.is_reachable == Reachable::Invalid ==> starts_with(out.reason@, "Invalid:"@),
        out.is_reachable == Reachable::Risky ==> starts_with(out.reason@, "Risky:"@),
        out.is_reachable == Reachable::Unknown ==> starts_with(out.reason@, "Unknown:"@),
{
    reveal_strlit("Invalid:");
    reveal_strlit("Unknown:");
    match (stage, event) {
        (Stage::AwaitingSyntax, CheckEmailEvent::SyntaxChecked(syntax)) => {
            reveal_strlit("Invalid: email syntax is invalid");
        },
        (Stage::AwaitingMx { syntax }, CheckEmailEvent::MxLookedUp(Err(error))) => {
            reveal_strlit("Unknown: MX lookup failed - ");
            assert(starts_with("Unknown: MX lookup failed - "@, "Unknown:"@));
            lemma_starts_with_extended("Unknown: MX lookup failed - "@, "Unknown:"@, error@);
        },
        (Stage::AwaitingMx { syntax }, CheckEmailEvent::MxLookedUp(Ok(mx))) => {
            reveal_strlit("Invalid: no MX records found for domain");
        },
        (
            Stage::AwaitingSmtp { syntax, mx, misc },
            CheckEmailEvent::SmtpProbed { result, debug, end_time },
        ) => {
            lemma_reason_names_verdict(misc, result);
        },
        _ => {},
    }
}

/// A check is a function of what it is told: two steps from the same stage
/// on the same event come to the same kind of action, and where they end the
/// check, to the same verdict, the same reason and the same suggestion.
pub proof fn lemma_step_is_deterministic(
    input: CheckEmailInput,
    start_time: Timestamp,
    stage: Stage,
    event: CheckEmailEvent,
    next1: Stage,
    action1: CheckEmailAction,
    next2: Stage,
    action2: CheckEmailAction,
)
    requires
        step_taken(input, start_time, stage, event, next1, action1),
        step_taken(input, start_time, stage, event, next2, action2),
    ensures
        action1 is Finish <==> action2 is Finish,
        !(action1 is Finish) ==> next1 == next2,
        action1 matches CheckEmailAction::ProbeSmtp { address: address1, host: host1, domain: domain1 }
            ==> (action2 matches CheckEmailAction::ProbeSmtp {
            address: address2,
            host: host2,
            domain: domain2,
        } ==> address1@ == address2@ && host1@ == host2@ && domain1@ == domain2@),
        action1 matches CheckEmailAction::Finish(out1) ==> (action2 matches CheckEmailAction::Finish(
            out2,
        ) ==> {
            &&& out1.is_reachable == out2.is_reachable
            &&& out1.reason@ == out2.reason@
            &&& out1.input@ == out2.input@
            &&& out1.suggestion_text() == out2.suggestion_text()
        }),
{
    match (stage, event) {
        (Stage::AwaitingMisc { syntax, mx }, CheckEmailEvent::MiscChecked(misc)) => {
            let host1 = action1->ProbeSmtp_host;
            let host2 = action2->ProbeSmtp_host;
            let a = choose|best: int|
                is_preferred(mx.records(), best) && host1@ == (#[trigger] mx.records()[best]).exchange@;
            let b = choose|best: int|
                is_preferred(mx.records(), best) && host2@ == (#[trigger] mx.records()[best]).exchange@;
            lemma_preferred_unique(mx.records(), a, b);
        },
        _ => {},
    }
    if action1 is Finish {
        let out1 = action1->Finish_0;
        let out2 = action2->Finish_0;
        match (stage, event) {
            (Stage::AwaitingSyntax, CheckEmailEvent::SyntaxChecked(syntax)) => {},
            (Stage::AwaitingMx { syntax }, CheckEmailEvent::MxLookedUp(_)) => {
                lemma_suggestion_is_determined(syntax, out1.syntax, out2.syntax);
            },
            (
                Stage::AwaitingSmtp { syntax, mx, misc },
                CheckEmailEvent::SmtpProbed { result, debug, end_time },
            ) => {
                if result is Err {
                    lemma_suggestion_is_determined(syntax, out1.syntax, out2.syntax);
                }
            },
            _ => {},
        }
    }
}

/// The suggestion that is added to the parts of an address is determined by
/// these parts.
pub proof fn lemma_suggestion_is_determined(
    before: SyntaxDetails,
    first: SyntaxDetails,
    second: SyntaxDetails,
)
    requires
        suggestion_added(before, first),
        suggestion_added(before, second),
    ensures
        first.suggestion is Some <==> second.suggestion is Some,
        first.suggestion is Some ==> first.suggestion->0@ == second.suggestion->0@,
{
    if before.domain is Some && has_similar_provider(mail_providers(), before.domain->0@) {
        let domain = before.domain->0@;
        let a = choose|best: int|
            is_closest_provider(mail_providers(), domain, best) && first.suggestion->0@
                == #[trigger] mail_providers()[best];
        let b = choose|best: int|
            is_closest_provider(mail_providers(), domain, best) && second.suggestion->0@
                == #[trigger] mail_providers()[best];
        lemma_closest_provider_unique(mail_providers(), domain, a, b);
    }
}

} // verus!
