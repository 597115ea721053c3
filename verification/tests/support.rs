use check_if_email_exists::misc::{
    gravatar_from_status, gravatar_url, haveibeenpwned_from_status, is_role_account,
};
use check_if_email_exists::smtp::error::{
    IoError, IoErrorKind, ReplyError, SmtpError, SmtpFailure, SocksError,
};
use check_if_email_exists::mx::{MxDetails, MxRecord};
use check_if_email_exists::syntax::{
    closest_mail_provider, get_similar_mail_provider, levenshtein, SyntaxDetails,
};
use check_if_email_exists::text::{
    chars_of, concat2, concat3, contains_chars, decimal_string, join_strs, lowered_chars, mentions,
    push_byte_list, push_decimal,
};
use check_if_email_exists::time::{TimeSpan, Timestamp};
use check_if_email_exists::util::public_ip::{
    fetch_public_ip_step, get_local_hostname, public_ip_service, CachedPublicIp, PublicIpAction,
    PublicIpEvent,
};

fn distance(a: &str, b: &str) -> usize {
    levenshtein(&a.chars().collect(), &b.chars().collect())
}

#[test]
fn test_edit_distance() {
    assert_eq!(distance("", ""), 0);
    assert_eq!(distance("", "abc"), 3);
    assert_eq!(distance("abc", ""), 3);
    assert_eq!(distance("gmail.com", "gmail.com"), 0);
    assert_eq!(distance("kitten", "sitting"), 3);
    assert_eq!(distance("flaw", "lawn"), 2);
    assert_eq!(distance("gmial.com", "gmail.com"), 2);
    assert_eq!(distance("gmai.com", "gmail.com"), 1);
    assert_eq!(distance("gmaill.com", "gmail.com"), 1);
    assert_eq!(distance("yahoo.com", "gmail.com"), 5);
    assert_eq!(distance("é", "e"), 1);
}

#[test]
fn test_closest_mail_provider() {
    assert_eq!(closest_mail_provider("gmial.com"), Some("gmail.com"));
    assert_eq!(closest_mail_provider("gmail.com"), Some("gmail.com"));
    assert_eq!(closest_mail_provider("yaho.com"), Some("yahoo.com"));
    assert_eq!(closest_mail_provider("hotmal.com"), Some("hotmail.com"));
    assert_eq!(closest_mail_provider("outlok.com"), Some("outlook.com"));
    assert_eq!(closest_mail_provider("example.org"), None);
    assert_eq!(closest_mail_provider(""), None);
    assert_eq!(closest_mail_provider("gmailll.com"), Some("gmail.com"));
    assert_eq!(closest_mail_provider("gmaillll.com"), None);
}

#[test]
fn test_get_similar_mail_provider_keeps_the_rest() {
    let mut syntax = SyntaxDetails {
        input: "a@gmial.com".to_string(),
        is_valid_syntax: true,
        username: Some("a".to_string()),
        domain: Some("gmial.com".to_string()),
        address: Some("a@gmial.com".to_string()),
        suggestion: None,
    };
    get_similar_mail_provider(&mut syntax);
    assert_eq!(
        syntax,
        SyntaxDetails {
            input: "a@gmial.com".to_string(),
            is_valid_syntax: true,
            username: Some("a".to_string()),
            domain: Some("gmial.com".to_string()),
            address: Some("a@gmial.com".to_string()),
            suggestion: Some("gmail.com".to_string()),
        }
    );

    let mut far = SyntaxDetails {
        input: "a@example.org".to_string(),
        is_valid_syntax: true,
        username: Some("a".to_string()),
        domain: Some("example.org".to_string()),
        address: Some("a@example.org".to_string()),
        suggestion: Some("kept".to_string()),
    };
    get_similar_mail_provider(&mut far);
    assert_eq!(far.suggestion, Some("kept".to_string()));

    let mut none = SyntaxDetails {
        input: "x".to_string(),
        is_valid_syntax: false,
        username: None,
        domain: None,
        address: None,
        suggestion: None,
    };
    get_similar_mail_provider(&mut none);
    assert_eq!(none.suggestion, None);
}

#[test]
fn test_preferred_mx_record() {
    let record = |preference: u16, exchange: &str| MxRecord { preference, exchange: exchange.to_string() };
    let mx = MxDetails { lookup: Ok(vec![record(10, "b."), record(5, "a."), record(5, "c.")]) };
    assert_eq!(mx.preferred(), Some(&record(5, "a.")));
    assert!(!mx.is_empty());
    let single = MxDetails { lookup: Ok(vec![record(0, "only.")]) };
    assert_eq!(single.preferred(), Some(&record(0, "only.")));
    let empty = MxDetails::default();
    assert_eq!(empty.preferred(), None);
    assert!(empty.is_empty());
    let failed = MxDetails { lookup: Err("servfail".to_string()) };
    assert_eq!(failed.preferred(), None);
    assert!(failed.is_empty());
}

#[test]
fn test_text_building() {
    assert_eq!(concat2("ab", "cd"), "abcd");
    assert_eq!(concat3("a", "", "c"), "ac");
    assert_eq!(join_strs(&vec![], ", "), "");
    assert_eq!(join_strs(&vec!["a"], ", "), "a");
    assert_eq!(join_strs(&vec!["a", "b", "c"], ", "), "a, b, c");
    assert_eq!(decimal_string(0), "0");
    assert_eq!(decimal_string(7), "7");
    assert_eq!(decimal_string(10), "10");
    assert_eq!(decimal_string(1234567890), "1234567890");
    assert_eq!(decimal_string(u64::MAX), "18446744073709551615");
    let mut out = "n=".to_string();
    push_decimal(&mut out, 405);
    assert_eq!(out, "n=405");
    let mut out = "m=".to_string();
    push_byte_list(&mut out, &vec![0, 2, 255]);
    assert_eq!(out, "m=[0, 2, 255]");
}

#[test]
fn test_text_searching() {
    assert_eq!(chars_of("héllo"), vec!['h', 'é', 'l', 'l', 'o']);
    assert_eq!(lowered_chars("SpamHaus ÉZ"), vec!['s', 'p', 'a', 'm', 'h', 'a', 'u', 's', ' ', 'É', 'z']);
    let hay = chars_of("blocked using zen");
    assert!(mentions(&hay, "blocked using"));
    assert!(mentions(&hay, "zen"));
    assert!(mentions(&hay, ""));
    assert!(!mentions(&hay, "zenith"));
    assert!(!mentions(&hay, "Blocked"));
    assert!(contains_chars(&chars_of("aab"), &chars_of("ab")));
    assert!(!contains_chars(&chars_of("ab"), &chars_of("abc")));
    assert!(contains_chars(&chars_of(""), &chars_of("")));
}

#[test]
fn test_time() {
    assert_eq!(TimeSpan::new(1, 1_000_000_000), None);
    assert_eq!(Timestamp::new(1, 1_000_000_000), None);
    let span = TimeSpan::new(3, 999_999_999).unwrap();
    assert_eq!(span.as_secs(), 3);
    assert_eq!(span.subsec_nanos(), 999_999_999);
    assert_eq!(TimeSpan::zero(), TimeSpan::new(0, 0).unwrap());
    assert_eq!(TimeSpan::from_secs(300), TimeSpan::new(300, 0).unwrap());
    assert!(TimeSpan::new(299, 999_999_999).unwrap().shorter_than(&TimeSpan::from_secs(300)));
    assert!(!TimeSpan::from_secs(300).shorter_than(&TimeSpan::from_secs(300)));
    assert_eq!(TimeSpan::from_secs(12).debug_string(), "12s");
    assert_eq!(TimeSpan::new(0, 1_500).unwrap().debug_string(), "1.5µs");

    let early = Timestamp::new(10, 900_000_000).unwrap();
    let late = Timestamp::new(12, 100_000_000).unwrap();
    assert_eq!(late.duration_since(&early), TimeSpan::new(1, 200_000_000).unwrap());
    assert_eq!(early.duration_since(&late), TimeSpan::zero());
    assert_eq!(late.duration_since(&late), TimeSpan::zero());
    assert_eq!(
        Timestamp::new(12, 900_000_000).unwrap().duration_since(&early),
        TimeSpan::from_secs(2)
    );
    assert_eq!(Timestamp::origin().as_secs(), 0);
    assert_eq!(Timestamp::origin().subsec_nanos(), 0);
}

#[test]
fn test_public_ip_services_in_order() {
    assert_eq!(public_ip_service(0), Some("https://api.ipify.org"));
    assert_eq!(public_ip_service(1), Some("https://ifconfig.me/ip"));
    assert_eq!(public_ip_service(2), Some("https://icanhazip.com"));
    assert_eq!(public_ip_service(3), Some("https://ipecho.net/plain"));
    assert_eq!(public_ip_service(4), None);

    let ask = |index: usize, url: &str| PublicIpAction::AskService { index, url: url.to_string() };
    assert_eq!(fetch_public_ip_step(PublicIpEvent::Started), ask(0, "https://api.ipify.org"));
    let failed = |index: usize| PublicIpEvent::ServiceAnswered { index, address: None };
    assert_eq!(fetch_public_ip_step(failed(0)), ask(1, "https://ifconfig.me/ip"));
    assert_eq!(fetch_public_ip_step(failed(1)), ask(2, "https://icanhazip.com"));
    assert_eq!(fetch_public_ip_step(failed(2)), ask(3, "https://ipecho.net/plain"));
    assert_eq!(fetch_public_ip_step(failed(3)), PublicIpAction::AskHostname);
    assert_eq!(fetch_public_ip_step(failed(usize::MAX)), PublicIpAction::AskHostname);
}

#[test]
fn test_public_ip_answers() {
    let answered = PublicIpEvent::ServiceAnswered { index: 1, address: Some("8.8.8.8".to_string()) };
    assert_eq!(fetch_public_ip_step(answered), PublicIpAction::Done("local:8.8.8.8".to_string()));
    assert_eq!(
        fetch_public_ip_step(PublicIpEvent::HostnameFound(Some("worker-1".to_string()))),
        PublicIpAction::Done("local:worker-1".to_string())
    );
    assert_eq!(
        fetch_public_ip_step(PublicIpEvent::HostnameFound(None)),
        PublicIpAction::Done("local:unknown".to_string())
    );
    assert_eq!(get_local_hostname(None), PublicIpAction::Done("local:unknown".to_string()));
}

#[test]
fn test_public_ip_cache() {
    let at = |secs: u64, nanos: u32| Timestamp::new(secs, nanos).unwrap();
    let mut cache = CachedPublicIp::new();
    assert_eq!(cache.get(&at(0, 0)), None);
    cache.put("local:1.2.3.4".to_string(), at(100, 5));
    assert_eq!(cache.get(&at(100, 5)), Some("local:1.2.3.4".to_string()));
    assert_eq!(cache.get(&at(250, 0)), Some("local:1.2.3.4".to_string()));
    assert_eq!(cache.get(&at(400, 4)), Some("local:1.2.3.4".to_string()));
    assert_eq!(cache.get(&at(400, 5)), None);
    assert_eq!(cache.get(&at(10_000, 0)), None);
    // A clock that has gone back counts as no time passed.
    assert_eq!(cache.get(&at(50, 0)), Some("local:1.2.3.4".to_string()));
    cache.put("local:5.6.7.8".to_string(), at(400, 5));
    assert_eq!(cache.get(&at(400, 5)), Some("local:5.6.7.8".to_string()));
    assert_eq!(cache.get(&at(700, 4)), Some("local:5.6.7.8".to_string()));
}

#[test]
fn test_gravatar_and_haveibeenpwned_answers() {
    let url = gravatar_url("0bc83cb571cd1c50ba6f3e8a78ef1346");
    assert_eq!(url, "https://www.gravatar.com/avatar/0bc83cb571cd1c50ba6f3e8a78ef1346?d=404");
    assert_eq!(gravatar_from_status(url.clone(), 200), Some(url.clone()));
    assert_eq!(gravatar_from_status(url.clone(), 404), None);
    assert_eq!(gravatar_from_status(url.clone(), 500), None);
    assert_eq!(haveibeenpwned_from_status(200), Some(true));
    assert_eq!(haveibeenpwned_from_status(404), Some(false));
    assert_eq!(haveibeenpwned_from_status(429), None);
    assert_eq!(haveibeenpwned_from_status(401), None);
}

#[test]
fn test_errors_from_their_causes() {
    let failure = SmtpFailure { code: Some(421), message: "busy".to_string() };
    assert_eq!(SmtpError::from(failure.clone()), SmtpError::AsyncSmtpError(failure));
    let io = IoError {
        kind: IoErrorKind::TimedOut,
        kind_text: "timed out".to_string(),
        message: "timed out".to_string(),
    };
    assert_eq!(SmtpError::from(io.clone()), SmtpError::IOError(io));
    let socks = SocksError::ReplyError(ReplyError::TtlExpired);
    let converted: SmtpError = socks.clone().into();
    assert_eq!(converted, SmtpError::Socks5(socks));
}

#[test]
fn test_role_accounts() {
    for role in ["admin", "support", "info", "contact", "sales", "Admin", "SALES"] {
        assert!(is_role_account(role), "{}", role);
    }
    for person in ["", "adm", "administrator", "admin1", "john", "x.admin", " admin"] {
        assert!(!is_role_account(person), "{}", person);
    }
}
