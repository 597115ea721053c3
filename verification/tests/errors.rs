use check_if_email_exists::smtp::error::{
    format_socks5_error_detailed, format_socks5_reply_error, IoError, IoErrorKind, ReplyError,
    SmtpError, SmtpErrorDesc, SmtpFailure, SocksError,
};
use check_if_email_exists::smtp::parser::{is_err_ip_blacklisted, is_err_needs_rdns};
use check_if_email_exists::time::TimeSpan;
use check_if_email_exists::format_smtp_error_reason;

fn smtp_failure(message: &str) -> SmtpFailure {
    SmtpFailure { code: None, message: message.to_string() }
}

fn io_error(kind: IoErrorKind, kind_text: &str, message: &str) -> IoError {
    IoError { kind, kind_text: kind_text.to_string(), message: message.to_string() }
}

#[test]
fn test_socks5_io_connection_refused() {
    let e = SocksError::Io(io_error(
        IoErrorKind::ConnectionRefused,
        "connection refused",
        "Connection refused (os error 111)",
    ));
    assert_eq!(
        format_socks5_error_detailed(&e),
        "SOCKS5 I/O error (connection refused): Connection refused - the SOCKS5 proxy server is not accepting connections. Verify the proxy is running and the port is correct. Raw error: Connection refused (os error 111)"
    );
}

#[test]
fn test_socks5_io_timed_out() {
    let e = SocksError::Io(io_error(IoErrorKind::TimedOut, "timed out", "deadline has elapsed"));
    let text = format_socks5_error_detailed(&e);
    assert!(text.starts_with("SOCKS5 I/O error (timed out): Connection timed out - unable to reach the SOCKS5 proxy server within the timeout period."));
    assert!(text.ends_with(" Check network connectivity and firewall rules. Raw error: deadline has elapsed"));
}

#[test]
fn test_socks5_io_every_kind_has_its_advice() {
    let cases = vec![
        (IoErrorKind::ConnectionReset, "Connection reset by proxy - the SOCKS5 server terminated the connection unexpectedly. The proxy may be overloaded or blocking this connection."),
        (IoErrorKind::ConnectionAborted, "Connection aborted - the connection to the SOCKS5 proxy was terminated. This may indicate network instability or proxy issues."),
        (IoErrorKind::NotConnected, "Not connected - failed to establish connection to the SOCKS5 proxy. Verify proxy host and port are correct."),
        (IoErrorKind::AddrNotAvailable, "Address not available - the SOCKS5 proxy address could not be resolved or is invalid."),
        (IoErrorKind::AddrInUse, "Address in use - local address conflict when connecting to SOCKS5 proxy."),
        (IoErrorKind::PermissionDenied, "Permission denied - insufficient permissions to connect to the SOCKS5 proxy. This may be a firewall or system policy issue."),
        (IoErrorKind::UnexpectedEof, "Unexpected end of stream - the SOCKS5 proxy closed the connection prematurely. The proxy may have crashed or rejected the request."),
        (IoErrorKind::Other, "I/O error occurred while communicating with the SOCKS5 proxy."),
    ];
    for (kind, advice) in cases {
        let e = SocksError::Io(io_error(kind, "k", "raw"));
        assert_eq!(
            format_socks5_error_detailed(&e),
            format!("SOCKS5 I/O error (k): {} Raw error: raw", advice)
        );
    }
}

#[test]
fn test_socks5_reply_general_failure() {
    let expected = "SOCKS5 General Failure (reply code 0x01): The proxy server encountered an internal error and could not complete the request. Possible causes: (1) The proxy cannot reach the target SMTP server - check if the target is accessible from the proxy's network. (2) The proxy has internal configuration issues or is overloaded. (3) Firewall or security policy on the proxy is blocking this connection. (4) The proxy's outbound network is restricted. Try using a different proxy or verify the target server is reachable from the proxy's location.";
    assert_eq!(format_socks5_reply_error(&ReplyError::GeneralFailure), expected);
    assert_eq!(
        format_socks5_error_detailed(&SocksError::ReplyError(ReplyError::GeneralFailure)),
        expected
    );
}

#[test]
fn test_socks5_reply_code_0x01_in_reason() {
    let e = SmtpError::Socks5(SocksError::ReplyError(ReplyError::GeneralFailure));
    let reason = format_smtp_error_reason(&e);
    assert!(reason.contains("reply code 0x01"));
    assert!(reason.starts_with("Unknown: SOCKS5 General Failure (reply code 0x01): "));
}

#[test]
fn test_socks5_reply_prefixes() {
    let cases = vec![
        (ReplyError::Succeeded, "SOCKS5 connection succeeded (this should not appear as an error)."),
        (ReplyError::GeneralFailure, "SOCKS5 General Failure (reply code 0x01): "),
        (ReplyError::ConnectionNotAllowed, "SOCKS5 Connection Not Allowed (reply code 0x02): The proxy's ruleset explicitly denies this connection. "),
        (ReplyError::NetworkUnreachable, "SOCKS5 Network Unreachable (reply code 0x03): The proxy cannot route traffic to the target network. "),
        (ReplyError::HostUnreachable, "SOCKS5 Host Unreachable (reply code 0x04): The proxy could not reach the target SMTP server host. "),
        (ReplyError::ConnectionRefused, "SOCKS5 Connection Refused (reply code 0x05): The target SMTP server actively refused the connection. "),
        (ReplyError::TtlExpired, "SOCKS5 TTL Expired (reply code 0x06): The connection attempt timed out due to TTL expiration. "),
        (ReplyError::CommandNotSupported, "SOCKS5 Command Not Supported (reply code 0x07): The proxy does not support the CONNECT command. "),
        (ReplyError::AddressTypeNotSupported, "SOCKS5 Address Type Not Supported (reply code 0x08): The proxy does not support the address format used. "),
        (ReplyError::ConnectionTimeout, "SOCKS5 Connection Timeout: The connection to the proxy or target server timed out. "),
    ];
    for (reply, prefix) in cases {
        let text = format_socks5_reply_error(&reply);
        assert!(text.starts_with(prefix), "{}", text);
        assert!(!text.contains("  "));
        assert!(!text.contains('\n'));
    }
}

#[test]
fn test_socks5_reply_exact_texts() {
    assert_eq!(
        format_socks5_reply_error(&ReplyError::TtlExpired),
        "SOCKS5 TTL Expired (reply code 0x06): The connection attempt timed out due to TTL expiration. The network path to the target is too long or congested. This typically indicates severe network latency or routing problems between the proxy and target."
    );
    assert_eq!(
        format_socks5_reply_error(&ReplyError::CommandNotSupported),
        "SOCKS5 Command Not Supported (reply code 0x07): The proxy does not support the CONNECT command. This is unusual for a SOCKS5 proxy as CONNECT is a basic command. The proxy may have limited functionality or be misconfigured."
    );
    assert_eq!(
        format_socks5_reply_error(&ReplyError::ConnectionRefused),
        "SOCKS5 Connection Refused (reply code 0x05): The target SMTP server actively refused the connection. The SMTP server is reachable but declined to accept the connection. Possible causes: (1) The SMTP server is not accepting connections on this port, (2) The proxy's IP address is blacklisted by the SMTP server, (3) Rate limiting or connection limits on the target server, (4) The SMTP service is temporarily unavailable. Try a different proxy with a clean IP reputation."
    );
}

#[test]
fn test_socks5_authentication_messages() {
    assert_eq!(
        format_socks5_error_detailed(&SocksError::AuthenticationFailed("bad password".to_string())),
        "SOCKS5 authentication failed: bad password. Verify your proxy username and password are correct."
    );
    assert_eq!(
        format_socks5_error_detailed(&SocksError::AuthenticationRejected("no".to_string())),
        "SOCKS5 authentication rejected by proxy: no. The proxy server does not accept the provided credentials or authentication method."
    );
    assert_eq!(
        format_socks5_error_detailed(&SocksError::AuthMethodUnacceptable(vec![0, 2])),
        "SOCKS5 authentication method not accepted. Requested methods: [0, 2]. The proxy requires a different authentication method than what was offered."
    );
    assert_eq!(
        format_socks5_error_detailed(&SocksError::AuthMethodUnacceptable(vec![])),
        "SOCKS5 authentication method not accepted. Requested methods: []. The proxy requires a different authentication method than what was offered."
    );
    assert_eq!(
        format_socks5_error_detailed(&SocksError::AuthMethodUnacceptable(vec![255])),
        "SOCKS5 authentication method not accepted. Requested methods: [255]. The proxy requires a different authentication method than what was offered."
    );
}

#[test]
fn test_socks5_methods_render_as_debug_does() {
    let methods: Vec<u8> = vec![0, 1, 2, 9, 10, 99, 100, 128, 255];
    let text = format_socks5_error_detailed(&SocksError::AuthMethodUnacceptable(methods.clone()));
    assert!(text.contains(&format!("Requested methods: {:?}. ", methods)));
}

#[test]
fn test_socks5_protocol_messages() {
    assert_eq!(
        format_socks5_error_detailed(&SocksError::UnsupportedSocksVersion(4)),
        "Unsupported SOCKS version: 4. Expected SOCKS5 (version 5). The server may not support SOCKS5 or is running a different protocol."
    );
    assert_eq!(
        format_socks5_error_detailed(&SocksError::InvalidHeader {
            expected: "5".to_string(),
            found: "72".to_string()
        }),
        "Invalid SOCKS5 protocol header. Expected: 5, Found: 72. The proxy may not be a valid SOCKS5 server or there's a protocol mismatch."
    );
    assert_eq!(
        format_socks5_error_detailed(&SocksError::ExceededMaxDomainLen(300)),
        "Domain name too long for SOCKS5 protocol: 300 bytes (max 255). The target domain name exceeds SOCKS5 protocol limits."
    );
    assert_eq!(
        format_socks5_error_detailed(&SocksError::ExceededMaxDomainLen(usize::MAX)),
        format!("Domain name too long for SOCKS5 protocol: {} bytes (max 255). The target domain name exceeds SOCKS5 protocol limits.", usize::MAX)
    );
    assert_eq!(
        format_socks5_error_detailed(&SocksError::ArgumentInputError("port".to_string())),
        "Invalid SOCKS5 connection argument: port. Check the proxy configuration parameters."
    );
    assert_eq!(
        format_socks5_error_detailed(&SocksError::Redaction("password".to_string())),
        "SOCKS5 error (redacted for security): password"
    );
    assert_eq!(
        format_socks5_error_detailed(&SocksError::Other("boom".to_string())),
        "SOCKS5 unexpected error: boom. This is an unclassified error from the proxy connection."
    );
}

#[test]
fn test_detailed_description_only_for_socks5() {
    let socks = SmtpError::Socks5(SocksError::ReplyError(ReplyError::HostUnreachable));
    let detailed = socks.get_detailed_socks5_description().unwrap();
    assert!(detailed.starts_with("SOCKS5 Host Unreachable (reply code 0x04)"));
    assert_eq!(SmtpError::AnyhowError("x".to_string()).get_detailed_socks5_description(), None);
    assert_eq!(SmtpError::Timeout(TimeSpan::from_secs(1)).get_detailed_socks5_description(), None);
    assert_eq!(
        SmtpError::IOError(io_error(IoErrorKind::Other, "other", "x")).get_detailed_socks5_description(),
        None
    );
}

#[test]
fn test_description_ip_blacklisted() {
    for message in [
        "permanent: 554 5.7.1 Service unavailable; Client host [1.2.3.4] blocked using zen.spamhaus.org",
        "550 listed at Spamhaus",
        "554 your IP is on our BLACKLIST",
        "550 found on one or more blocklists",
        "554 5.7.1 <unknown[1.2.3.4]>: Client host rejected: SPFBL.net",
        "blocked using",
    ] {
        let e = SmtpError::AsyncSmtpError(smtp_failure(message));
        assert_eq!(e.get_description(), Some(SmtpErrorDesc::IpBlacklisted), "{}", message);
        assert!(is_err_ip_blacklisted(&e));
    }
}

#[test]
fn test_description_needs_rdns() {
    for message in [
        "550 5.7.25 The IP address sending this message does not have a PTR record setup",
        "450 4.7.1 Client host rejected: cannot find your reverse DNS hostname",
        "554 no rDNS",
    ] {
        let e = SmtpError::AsyncSmtpError(smtp_failure(message));
        assert_eq!(e.get_description(), Some(SmtpErrorDesc::NeedsRDNS), "{}", message);
        assert!(is_err_needs_rdns(&e));
        assert!(!is_err_ip_blacklisted(&e));
    }
}

#[test]
fn test_description_blacklist_before_rdns() {
    let e = SmtpError::AsyncSmtpError(smtp_failure("blocked using spamhaus; also no reverse dns"));
    assert_eq!(e.get_description(), Some(SmtpErrorDesc::IpBlacklisted));
    assert!(is_err_needs_rdns(&e));
}

#[test]
fn test_description_none() {
    assert_eq!(SmtpError::AsyncSmtpError(smtp_failure("550 5.1.1 user unknown")).get_description(), None);
    assert_eq!(SmtpError::AsyncSmtpError(smtp_failure("")).get_description(), None);
    assert_eq!(SmtpError::AsyncSmtpError(smtp_failure("spamhau")).get_description(), None);
    assert_eq!(SmtpError::AsyncSmtpError(smtp_failure("rdn")).get_description(), None);
    // Only errors of the SMTP conversation are read.
    assert_eq!(SmtpError::AnyhowError("blocked using spamhaus".to_string()).get_description(), None);
    assert_eq!(SmtpError::YahooError("reverse dns".to_string()).get_description(), None);
    assert!(!is_err_ip_blacklisted(&SmtpError::GmailError("blacklist".to_string())));
    assert!(!is_err_needs_rdns(&SmtpError::HeadlessError("rdns".to_string())));
}

#[test]
fn test_smtp_error_reasons() {
    assert_eq!(
        format_smtp_error_reason(&SmtpError::YahooError("no cookie".to_string())),
        "Unknown: Yahoo verification failed - no cookie"
    );
    assert_eq!(
        format_smtp_error_reason(&SmtpError::GmailError("bad status".to_string())),
        "Unknown: Gmail verification failed - bad status"
    );
    assert_eq!(
        format_smtp_error_reason(&SmtpError::HeadlessError("navigate: timeout".to_string())),
        "Unknown: Headless browser verification failed - navigate: timeout"
    );
    assert_eq!(
        format_smtp_error_reason(&SmtpError::Microsoft365Error("tenant".to_string())),
        "Unknown: Microsoft 365 verification failed - tenant"
    );
    assert_eq!(
        format_smtp_error_reason(&SmtpError::AsyncSmtpError(smtp_failure("transient: 421 try later"))),
        "Unknown: SMTP error - transient: 421 try later"
    );
    assert_eq!(
        format_smtp_error_reason(&SmtpError::IOError(io_error(
            IoErrorKind::ConnectionReset,
            "connection reset",
            "Connection reset by peer (os error 104)"
        ))),
        "Unknown: I/O error during SMTP connection - Connection reset by peer (os error 104)"
    );
    assert_eq!(
        format_smtp_error_reason(&SmtpError::AnyhowError("proxy not found".to_string())),
        "Unknown: Unexpected error - proxy not found"
    );
    assert_eq!(
        format_smtp_error_reason(&SmtpError::Socks5(SocksError::Redaction("key".to_string()))),
        "Unknown: SOCKS5 error (redacted for security): key"
    );
}

#[test]
fn test_smtp_timeout_reason() {
    assert_eq!(
        format_smtp_error_reason(&SmtpError::Timeout(TimeSpan::from_secs(12))),
        "Unknown: SMTP connection timed out after 12s"
    );
    assert_eq!(
        format_smtp_error_reason(&SmtpError::Timeout(TimeSpan::new(1, 500_000_000).unwrap())),
        "Unknown: SMTP connection timed out after 1.5s"
    );
    assert_eq!(
        format_smtp_error_reason(&SmtpError::Timeout(TimeSpan::new(0, 250_000_000).unwrap())),
        "Unknown: SMTP connection timed out after 250ms"
    );
    assert_eq!(
        format_smtp_error_reason(&SmtpError::Timeout(TimeSpan::zero())),
        "Unknown: SMTP connection timed out after 0ns"
    );
}
