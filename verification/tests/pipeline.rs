use check_if_email_exists::misc::MiscDetails;
use check_if_email_exists::mx::{MxDetails, MxRecord};
use check_if_email_exists::smtp::error::{SmtpError, SmtpFailure};
use check_if_email_exists::smtp::verif_method::{ProviderVerifMethod, VerifMethod};
use check_if_email_exists::smtp::{SmtpDebug, SmtpDetails, VerifMethodKind};
use check_if_email_exists::syntax::SyntaxDetails;
use check_if_email_exists::time::{TimeSpan, Timestamp};
use check_if_email_exists::{
    check_email_start, check_email_step, CheckEmailAction, CheckEmailEvent, CheckEmailInput,
    CheckEmailOutput, CheckEmailState, DebugDetails, Reachable,
};

fn smtp_failure(message: &str) -> SmtpFailure {
    SmtpFailure { code: Some(421), message: message.to_string() }
}

fn verif_method() -> VerifMethod {
    VerifMethod {
        proxies: vec![],
        gmail: ProviderVerifMethod::Api,
        yahoo: ProviderVerifMethod::Headless,
        hotmail_b2b: ProviderVerifMethod::Skipped,
        hotmail_b2c: ProviderVerifMethod::Headless,
        microsoft365: ProviderVerifMethod::Api,
        everything_else: ProviderVerifMethod::Skipped,
    }
}

fn input(to_email: &str) -> CheckEmailInput {
    CheckEmailInput {
        to_email: to_email.to_string(),
        verif_method: verif_method(),
        check_gravatar: false,
        haveibeenpwned_api_key: None,
        backend_name: "backend-dev".to_string(),
    }
}

fn valid_syntax(username: &str, domain: &str) -> SyntaxDetails {
    let address = format!("{}@{}", username, domain);
    SyntaxDetails {
        input: address.clone(),
        is_valid_syntax: true,
        username: Some(username.to_string()),
        domain: Some(domain.to_string()),
        address: Some(address),
        suggestion: None,
    }
}

fn invalid_syntax(text: &str) -> SyntaxDetails {
    SyntaxDetails {
        input: text.to_string(),
        is_valid_syntax: false,
        username: None,
        domain: None,
        address: None,
        suggestion: None,
    }
}

fn records(list: &[(u16, &str)]) -> MxDetails {
    MxDetails {
        lookup: Ok(list
            .iter()
            .map(|(preference, exchange)| MxRecord {
                preference: *preference,
                exchange: exchange.to_string(),
            })
            .collect()),
    }
}

fn start(to_email: &str) -> CheckEmailState {
    let (state, action) = check_email_start(input(to_email), Timestamp::new(1_000, 0).unwrap());
    assert_eq!(action, CheckEmailAction::CheckSyntax { to_email: to_email.to_string() });
    assert!(!state.is_finished());
    state
}

fn step(state: CheckEmailState, event: CheckEmailEvent) -> (CheckEmailState, CheckEmailAction) {
    assert!(state.accepts(&event));
    check_email_step(state, event).unwrap()
}

fn finished(state: CheckEmailState, action: CheckEmailAction) -> CheckEmailOutput {
    assert!(state.is_finished());
    match action {
        CheckEmailAction::Finish(out) => out,
        other => panic!("the check has not ended: {:?}", other),
    }
}

fn up_to_mx(to_email: &str, username: &str, domain: &str) -> CheckEmailState {
    let (state, action) =
        step(start(to_email), CheckEmailEvent::SyntaxChecked(valid_syntax(username, domain)));
    assert_eq!(action, CheckEmailAction::LookupMx { domain: domain.to_string() });
    state
}

fn up_to_smtp(to_email: &str, username: &str, domain: &str, misc: MiscDetails) -> CheckEmailState {
    let state = up_to_mx(to_email, username, domain);
    let (state, action) = step(
        state,
        CheckEmailEvent::MxLookedUp(Ok(records(&[(10, "mx1.example."), (5, "mx0.example.")]))),
    );
    assert_eq!(
        action,
        CheckEmailAction::CheckMisc { check_gravatar: false, haveibeenpwned_api_key: None }
    );
    let (state, action) = step(state, CheckEmailEvent::MiscChecked(misc));
    assert_eq!(
        action,
        CheckEmailAction::ProbeSmtp {
            address: format!("{}@{}", username, domain),
            host: "mx0.example.".to_string(),
            domain: domain.to_string(),
        }
    );
    state
}

fn smtp_debug() -> SmtpDebug {
    SmtpDebug {
        verif_method: VerifMethodKind::Smtp,
        proxy: Some("proxy1".to_string()),
        banner: Some("220 mx0.example. ESMTP".to_string()),
    }
}

fn accepted() -> SmtpDetails {
    SmtpDetails {
        can_connect_smtp: true,
        has_full_inbox: false,
        is_catch_all: false,
        is_deliverable: true,
        is_disabled: false,
    }
}

fn probed(result: Result<SmtpDetails, SmtpError>) -> CheckEmailEvent {
    CheckEmailEvent::SmtpProbed {
        result,
        debug: smtp_debug(),
        end_time: Timestamp::new(1_002, 500_000_000).unwrap(),
    }
}

#[test]
fn test_invalid_syntax_ends_the_check() {
    let (state, action) =
        step(start("not-an-email"), CheckEmailEvent::SyntaxChecked(invalid_syntax("not-an-email")));
    let out = finished(state, action);
    assert_eq!(out.input, "not-an-email");
    assert_eq!(out.is_reachable, Reachable::Invalid);
    assert_eq!(out.reason, "Invalid: email syntax is invalid");
    assert!(out.reason.contains("email syntax is invalid"));
    assert_eq!(out.syntax, invalid_syntax("not-an-email"));
    assert_eq!(out.misc, MiscDetails::default());
    assert_eq!(out.mx, Ok(MxDetails::default()));
    assert_eq!(out.smtp, Ok(SmtpDetails::default()));
    assert_eq!(out.debug, DebugDetails::default());
}

#[test]
fn test_mx_lookup_error_is_unknown() {
    let state = up_to_mx("user@example-nxdomain-xyz.test", "user", "example-nxdomain-xyz.test");
    let (state, action) = step(
        state,
        CheckEmailEvent::MxLookedUp(Err("no record found for Query (NXDOMAIN)".to_string())),
    );
    let out = finished(state, action);
    assert_eq!(out.input, "user@example-nxdomain-xyz.test");
    assert_eq!(out.is_reachable, Reachable::Unknown);
    assert_eq!(out.reason, "Unknown: MX lookup failed - no record found for Query (NXDOMAIN)");
    assert!(out.reason.contains("MX lookup failed"));
    assert_eq!(out.mx, Err("no record found for Query (NXDOMAIN)".to_string()));
    // Nothing is told of the stages that did not run.
    assert_eq!(out.smtp, Ok(SmtpDetails::default()));
    assert_eq!(out.misc, MiscDetails::default());
    assert_eq!(out.debug, DebugDetails::default());
    assert_eq!(out.syntax.suggestion, None);
}

#[test]
fn test_no_mx_records_is_invalid() {
    let state = up_to_mx("user@noMX.test", "user", "nomx.test");
    let (state, action) = step(state, CheckEmailEvent::MxLookedUp(Ok(records(&[]))));
    let out = finished(state, action);
    assert_eq!(out.is_reachable, Reachable::Invalid);
    assert_eq!(out.reason, "Invalid: no MX records found for domain");
    assert!(out.reason.contains("no MX records found"));
    assert_eq!(out.mx, Ok(records(&[])));
    assert_eq!(out.smtp, Ok(SmtpDetails::default()));
    assert_eq!(out.misc, MiscDetails::default());
}

#[test]
fn test_failed_lookup_inside_details_is_invalid() {
    let state = up_to_mx("user@nomx.test", "user", "nomx.test");
    let details = MxDetails { lookup: Err("no records found".to_string()) };
    let (state, action) = step(state, CheckEmailEvent::MxLookedUp(Ok(details)));
    let out = finished(state, action);
    assert_eq!(out.is_reachable, Reachable::Invalid);
    assert_eq!(out.reason, "Invalid: no MX records found for domain");
    assert_eq!(out.mx, Ok(MxDetails { lookup: Err("no records found".to_string()) }));
}

#[test]
fn test_mx_failure_suggests_provider() {
    let state = up_to_mx("someone@gmial.com", "someone", "gmial.com");
    let (state, action) = step(state, CheckEmailEvent::MxLookedUp(Err("timeout".to_string())));
    let out = finished(state, action);
    assert_eq!(out.is_reachable, Reachable::Unknown);
    assert_eq!(out.syntax.suggestion, Some("gmail.com".to_string()));
    assert_eq!(out.syntax.domain, Some("gmial.com".to_string()));

    let state = up_to_mx("someone@gmial.com", "someone", "gmial.com");
    let (state, action) = step(state, CheckEmailEvent::MxLookedUp(Ok(records(&[]))));
    let out = finished(state, action);
    assert_eq!(out.is_reachable, Reachable::Invalid);
    assert_eq!(out.syntax.suggestion, Some("gmail.com".to_string()));
}

#[test]
fn test_role_account_is_risky() {
    let misc = MiscDetails {
        is_disposable: false,
        is_role_account: true,
        gravatar_url: None,
        haveibeenpwned: None,
    };
    let state = up_to_smtp("admin@good.test", "admin", "good.test", misc.clone());
    let (state, action) = step(state, probed(Ok(accepted())));
    let out = finished(state, action);
    assert_eq!(out.is_reachable, Reachable::Risky);
    assert!(out.reason.contains("role-based account"));
    assert_eq!(out.reason, "Risky: role-based account (e.g., admin@, support@)");
    assert_eq!(out.misc, misc);
    assert_eq!(out.smtp, Ok(accepted()));
}

#[test]
fn test_disposable_is_risky() {
    let misc = MiscDetails {
        is_disposable: true,
        is_role_account: false,
        gravatar_url: None,
        haveibeenpwned: None,
    };
    let state = up_to_smtp("user@disposable.test", "user", "disposable.test", misc);
    let (state, action) = step(state, probed(Ok(accepted())));
    let out = finished(state, action);
    assert_eq!(out.is_reachable, Reachable::Risky);
    assert!(out.reason.contains("disposable email address"));
}

#[test]
fn test_unknown_user_is_invalid() {
    let state = up_to_smtp("ghost@real.test", "ghost", "real.test", MiscDetails::default());
    let rejected = SmtpDetails { is_deliverable: false, ..accepted() };
    let (state, action) = step(state, probed(Ok(rejected)));
    let out = finished(state, action);
    assert_eq!(out.is_reachable, Reachable::Invalid);
    assert!(out.reason.contains("email is not deliverable"));
    assert_eq!(out.syntax.suggestion, None);
}

#[test]
fn test_full_check_is_safe() {
    let state = up_to_smtp("user@real.test", "user", "real.test", MiscDetails::default());
    let (state, action) = step(state, probed(Ok(accepted())));
    let out = finished(state, action);
    assert_eq!(out.input, "user@real.test");
    assert_eq!(out.is_reachable, Reachable::Safe);
    assert_eq!(out.reason, "Email verification passed all checks");
    assert_eq!(out.syntax, valid_syntax("user", "real.test"));
    assert_eq!(out.mx, Ok(records(&[(10, "mx1.example."), (5, "mx0.example.")])));
    assert_eq!(out.debug.start_time, Timestamp::new(1_000, 0).unwrap());
    assert_eq!(out.debug.end_time, Timestamp::new(1_002, 500_000_000).unwrap());
    assert_eq!(out.debug.duration, TimeSpan::new(2, 500_000_000).unwrap());
    assert_eq!(out.debug.smtp, smtp_debug());
    assert_eq!(out.debug.backend_name, "backend-dev");
}

#[test]
fn test_probe_error_is_unknown_and_suggests() {
    let state = up_to_smtp("user@hotmial.com", "user", "hotmial.com", MiscDetails::default());
    let error = SmtpError::AnyhowError("proxy `proxy1` is not configured".to_string());
    let (state, action) = step(state, probed(Err(error.clone())));
    let out = finished(state, action);
    assert_eq!(out.is_reachable, Reachable::Unknown);
    assert_eq!(out.reason, "Unknown: Unexpected error - proxy `proxy1` is not configured");
    assert_eq!(out.smtp, Err(error));
    assert_eq!(out.syntax.suggestion, Some("hotmail.com".to_string()));
}

#[test]
fn test_successful_probe_suggests_nothing() {
    let state = up_to_smtp("user@gmial.com", "user", "gmial.com", MiscDetails::default());
    let (state, action) = step(state, probed(Ok(accepted())));
    let out = finished(state, action);
    assert_eq!(out.syntax.suggestion, None);
}

#[test]
fn test_clock_that_went_back_gives_no_duration() {
    let state = up_to_smtp("user@real.test", "user", "real.test", MiscDetails::default());
    let event = CheckEmailEvent::SmtpProbed {
        result: Ok(accepted()),
        debug: SmtpDebug::default(),
        end_time: Timestamp::new(999, 999_999_999).unwrap(),
    };
    let (state, action) = step(state, event);
    let out = finished(state, action);
    assert_eq!(out.debug.duration, TimeSpan::zero());
}

#[test]
fn test_misc_options_are_handed_on() {
    let input = CheckEmailInput {
        to_email: "user@real.test".to_string(),
        verif_method: verif_method(),
        check_gravatar: true,
        haveibeenpwned_api_key: Some("key".to_string()),
        backend_name: String::new(),
    };
    let (state, _) = check_email_start(input, Timestamp::origin());
    let (state, _) = step(state, CheckEmailEvent::SyntaxChecked(valid_syntax("user", "real.test")));
    let (_, action) = step(state, CheckEmailEvent::MxLookedUp(Ok(records(&[(1, "mx.real.test.")]))));
    assert_eq!(
        action,
        CheckEmailAction::CheckMisc {
            check_gravatar: true,
            haveibeenpwned_api_key: Some("key".to_string())
        }
    );
}

#[test]
fn test_lowest_preference_is_probed_first_on_ties() {
    let state = up_to_mx("user@real.test", "user", "real.test");
    let mx = records(&[(20, "c."), (10, "a."), (10, "b."), (30, "d.")]);
    let (state, _) = step(state, CheckEmailEvent::MxLookedUp(Ok(mx)));
    let (_, action) = step(state, CheckEmailEvent::MiscChecked(MiscDetails::default()));
    assert_eq!(
        action,
        CheckEmailAction::ProbeSmtp {
            address: "user@real.test".to_string(),
            host: "a.".to_string(),
            domain: "real.test".to_string(),
        }
    );
}

#[test]
fn test_unexpected_event_is_not_taken() {
    let state = start("user@real.test");
    let event = CheckEmailEvent::MiscChecked(MiscDetails::default());
    assert!(!state.accepts(&event));
    assert_eq!(check_email_step(state, event), None);

    let state = up_to_mx("user@real.test", "user", "real.test");
    let event = CheckEmailEvent::SyntaxChecked(valid_syntax("user", "real.test"));
    assert!(!state.accepts(&event));
    assert_eq!(check_email_step(state, event), None);

    let (state, _) =
        step(start("x"), CheckEmailEvent::SyntaxChecked(invalid_syntax("x")));
    assert!(state.is_finished());
    assert_eq!(check_email_step(state, CheckEmailEvent::MxLookedUp(Ok(records(&[])))), None);
}

#[test]
fn test_same_check_twice_gives_the_same() {
    let run = || {
        let state = up_to_smtp("admin@gmial.com", "admin", "gmial.com", MiscDetails::default());
        let (state, action) =
            step(state, probed(Err(SmtpError::AsyncSmtpError(smtp_failure("421 busy")))));
        finished(state, action)
    };
    let first = run();
    let second = run();
    assert_eq!(first.is_reachable, second.is_reachable);
    assert_eq!(first.reason, second.reason);
    assert_eq!(first, second);
}
