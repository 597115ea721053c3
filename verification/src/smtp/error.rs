//! What can go wrong while a mailbox is probed, and how each failure is told.
//!
//! The errors of the transports below this library arrive here as plain
//! values: which kind of failure it was, and the texts that the transport
//! gives for it. The sentences built from them are read by people and matched
//! by log analysers, so each function states its result character by character.

use crate::smtp::parser;
use crate::smtp::parser::{mentions_blacklist, mentions_reverse_dns};
use crate::text::{byte_list, decimal, push_byte_list, push_decimal};
use crate::time::TimeSpan;
use vstd::prelude::*;
use vstd::string::*;

verus! {

/// The kinds of I/O failure that get a sentence of their own.
#[derive(Debug, Clone, Copy, PartialEq, Eq, Structural)]
pub enum IoErrorKind {
    /// The remote side refused the connection.
    ConnectionRefused,
    /// The remote side reset the connection.
    ConnectionReset,
    /// The operation did not finish in time.
    TimedOut,
    /// The connection was aborted.
    ConnectionAborted,
    /// The connection was never established.
    NotConnected,
    /// The address asked for is not available.
    AddrNotAvailable,
    /// The local address is already in use.
    AddrInUse,
    /// The operation was not permitted.
    PermissionDenied,
    /// The stream ended before the expected data had arrived.
    UnexpectedEof,
    /// Any other kind.
    Other,
}

/// An I/O failure of a transport.
#[derive(Debug, Clone, PartialEq, Eq)]
pub struct IoError {
    /// Which kind of failure it was.
    pub kind: IoErrorKind,
    /// The transport's own name for the kind, such as `connection refused`.
    pub kind_text: String,
    /// The transport's own text for the failure.
    pub message: String,
}

/// A failure of the SMTP conversation.
#[derive(Debug, Clone, PartialEq, Eq)]
pub struct SmtpFailure {
    /// The code of the server's reply, where the failure is a reply of the
    /// server.
    pub code: Option<u16>,
    /// The failure in words: the line of the server's reply, or what else
    /// went wrong.
    pub message: String,
}

/// The reply with which a SOCKS5 proxy turns a request down.
#[derive(Debug, Clone, Copy, PartialEq, Eq, Structural)]
pub enum ReplyError {
    /// Reply code 0x00.
    Succeeded,
    /// Reply code 0x01.
    GeneralFailure,
    /// Reply code 0x02.
    ConnectionNotAllowed,
    /// Reply code 0x03.
    NetworkUnreachable,
    /// Reply code 0x04.
    HostUnreachable,
    /// Reply code 0x05.
    ConnectionRefused,
    /// The proxy or the target did not answer in time.
    ConnectionTimeout,
    /// Reply code 0x06.
    TtlExpired,
    /// Reply code 0x07.
    CommandNotSupported,
    /// Reply code 0x08.
    AddressTypeNotSupported,
}

/// A failure of the SOCKS5 transport.
#[derive(Debug, Clone, PartialEq, Eq)]
pub enum SocksError {
    /// The connection to the proxy failed below the protocol.
    Io(IoError),
    /// The proxy answered the request with a failure code.
    ReplyError(ReplyError),
    /// The proxy did not accept user name and password.
    AuthenticationFailed(String),
    /// The proxy rejected the credentials or the method.
    AuthenticationRejected(String),
    /// The proxy accepted none of the methods offered, which are listed.
    AuthMethodUnacceptable(Vec<u8>),
    /// The server speaks another protocol version.
    UnsupportedSocksVersion(u8),
    /// A protocol header held something else than expected.
    InvalidHeader {
        /// What the header should have held.
        expected: String,
        /// What it held.
        found: String,
    },
    /// The target's domain name is longer than the protocol allows.
    ExceededMaxDomainLen(usize),
    /// An argument of the connection was not usable.
    ArgumentInputError(String),
    /// Details were withheld.
    Redaction(String),
    /// Anything else, by its text.
    Other(String),
}

/// Error occurred connecting to this email server via SMTP.
#[derive(Debug, Clone, PartialEq, Eq)]
pub enum SmtpError {
    /// Error when verifying a Yahoo email via HTTP requests, by its text.
    YahooError(String),
    /// Error when verifying a Gmail email via a HTTP request, by its text.
    GmailError(String),
    /// Error when verifying a Hotmail email via headless browser, by its text.
    HeadlessError(String),
    /// Error when verifying a Microsoft 365 email via HTTP request, by its text.
    Microsoft365Error(String),
    /// Error of the SMTP conversation.
    AsyncSmtpError(SmtpFailure),
    /// I/O error.
    IOError(IoError),
    /// Timeout error, with the time that had passed.
    Timeout(TimeSpan),
    /// SOCKS5 proxy error.
    Socks5(SocksError),
    /// Any error that fits none of the above, by its text.
    AnyhowError(String),
}

/// SmtpErrorDesc describes a description of which category the error belongs
/// to.
#[derive(Debug, Clone, Copy, PartialEq, Eq, Structural)]
pub enum SmtpErrorDesc {
    /// The IP is blacklisted.
    IpBlacklisted,
    /// The IP needs a reverse DNS entry.
    NeedsRDNS,
}

/// What to tell of a proxy that refuses the connection.
pub const IO_CONNECTION_REFUSED: &'static str = "\
    Connection refused - the SOCKS5 proxy server is not accepting connections. Verify the \
    proxy is running and the port is correct.";

/// What to tell of a connection that the proxy reset.
pub const IO_CONNECTION_RESET: &'static str = "\
    Connection reset by proxy - the SOCKS5 server terminated the connection unexpectedly. \
    The proxy may be overloaded or blocking this connection.";

/// What to tell of a proxy that was not reached in time.
pub const IO_TIMED_OUT: &'static str = "\
    Connection timed out - unable to reach the SOCKS5 proxy server within the timeout \
    period. Check network connectivity and firewall rules.";

/// What to tell of a connection that was aborted.
pub const IO_CONNECTION_ABORTED: &'static str = "\
    Connection aborted - the connection to the SOCKS5 proxy was terminated. This may \
    indicate network instability or proxy issues.";

/// What to tell of a connection that was never established.
pub const IO_NOT_CONNECTED: &'static str = "\
    Not connected - failed to establish connection to the SOCKS5 proxy. Verify proxy host \
    and port are correct.";

/// What to tell of a proxy address that is not available.
pub const IO_ADDR_NOT_AVAILABLE: &'static str = "\
    Address not available - the SOCKS5 proxy address could not be resolved or is invalid.";

/// What to tell of a local address that is already in use.
pub const IO_ADDR_IN_USE: &'static str = "\
    Address in use - local address conflict when connecting to SOCKS5 proxy.";

/// What to tell of a connection that the system did not permit.
pub const IO_PERMISSION_DENIED: &'static str = "\
    Permission denied - insufficient permissions to connect to the SOCKS5 proxy. This may be \
    a firewall or system policy issue.";

/// What to tell of a stream that ended early.
pub const IO_UNEXPECTED_EOF: &'static str = "\
    Unexpected end of stream - the SOCKS5 proxy closed the connection prematurely. The proxy \
    may have crashed or rejected the request.";

/// What to tell of any other I/O failure.
pub const IO_OTHER: &'static str = "I/O error occurred while communicating with the SOCKS5 proxy.";

/// Reply code 0x00, which no failure should carry.
pub const REPLY_SUCCEEDED: &'static str = "SOCKS5 connection succeeded (this should not appear as an error).";

/// Reply code 0x01.
pub const REPLY_GENERAL_FAILURE: &'static str = "\
    SOCKS5 General Failure (reply code 0x01): The proxy server encountered an internal error \
    and could not complete the request. Possible causes: (1) The proxy cannot reach the \
    target SMTP server - check if the target is accessible from the proxy's network. (2) The \
    proxy has internal configuration issues or is overloaded. (3) Firewall or security \
    policy on the proxy is blocking this connection. (4) The proxy's outbound network is \
    restricted. Try using a different proxy or verify the target server is reachable from \
    the proxy's location.";

/// Reply code 0x02.
pub const REPLY_CONNECTION_NOT_ALLOWED: &'static str = "\
    SOCKS5 Connection Not Allowed (reply code 0x02): The proxy's ruleset explicitly denies \
    this connection. The proxy administrator has configured policies that block connections \
    to this target. This may be due to: (1) IP-based access control lists, (2) Domain \
    blocking rules, (3) Port restrictions (SMTP port 25 is often blocked), (4) Rate limiting \
    or abuse prevention. Contact the proxy provider or use a different proxy.";

/// Reply code 0x03.
pub const REPLY_NETWORK_UNREACHABLE: &'static str = "\
    SOCKS5 Network Unreachable (reply code 0x03): The proxy cannot route traffic to the \
    target network. The target SMTP server's network is not accessible from the proxy. \
    Possible causes: (1) No route exists to the target network, (2) Network partition or \
    outage, (3) The proxy's network configuration doesn't include this route. Try a proxy in \
    a different geographic location.";

/// Reply code 0x04.
pub const REPLY_HOST_UNREACHABLE: &'static str = "\
    SOCKS5 Host Unreachable (reply code 0x04): The proxy could not reach the target SMTP \
    server host. The specific host is not responding or is unreachable. Possible causes: (1) \
    The SMTP server is down or offline, (2) DNS resolution failed on the proxy side, (3) The \
    host is blocking connections from the proxy's IP, (4) Firewall blocking at the \
    destination. Verify the target email domain's MX servers are operational.";

/// Reply code 0x05.
pub const REPLY_CONNECTION_REFUSED: &'static str = "\
    SOCKS5 Connection Refused (reply code 0x05): The target SMTP server actively refused the \
    connection. The SMTP server is reachable but declined to accept the connection. Possible \
    causes: (1) The SMTP server is not accepting connections on this port, (2) The proxy's \
    IP address is blacklisted by the SMTP server, (3) Rate limiting or connection limits on \
    the target server, (4) The SMTP service is temporarily unavailable. Try a different \
    proxy with a clean IP reputation.";

/// Reply code 0x06.
pub const REPLY_TTL_EXPIRED: &'static str = "\
    SOCKS5 TTL Expired (reply code 0x06): The connection attempt timed out due to TTL \
    expiration. The network path to the target is too long or congested. This typically \
    indicates severe network latency or routing problems between the proxy and target.";

/// Reply code 0x07.
pub const REPLY_COMMAND_NOT_SUPPORTED: &'static str = "\
    SOCKS5 Command Not Supported (reply code 0x07): The proxy does not support the CONNECT \
    command. This is unusual for a SOCKS5 proxy as CONNECT is a basic command. The proxy may \
    have limited functionality or be misconfigured.";

/// Reply code 0x08.
pub const REPLY_ADDRESS_TYPE_NOT_SUPPORTED: &'static str = "\
    SOCKS5 Address Type Not Supported (reply code 0x08): The proxy does not support the \
    address format used. The target address type (IPv4/IPv6/domain) is not supported by this \
    proxy. Try using a different address format or a proxy with broader address support.";

/// A proxy or target that did not answer in time.
pub const REPLY_CONNECTION_TIMEOUT: &'static str = "\
    SOCKS5 Connection Timeout: The connection to the proxy or target server timed out. The \
    proxy server or target SMTP server did not respond in time. Possible causes: (1) Network \
    latency is too high, (2) The proxy or target is overloaded, (3) Connection was blocked \
    by a firewall without sending a rejection. Try increasing timeout values or using a \
    proxy with lower latency.";

/// The advice that goes with a kind of I/O failure.
pub open spec fn io_details(kind: IoErrorKind) -> Seq<char> {
    match kind {
        IoErrorKind::ConnectionRefused => IO_CONNECTION_REFUSED@,
        IoErrorKind::ConnectionReset => IO_CONNECTION_RESET@,
        IoErrorKind::TimedOut => IO_TIMED_OUT@,
        IoErrorKind::ConnectionAborted => IO_CONNECTION_ABORTED@,
        IoErrorKind::NotConnected => IO_NOT_CONNECTED@,
        IoErrorKind::AddrNotAvailable => IO_ADDR_NOT_AVAILABLE@,
        IoErrorKind::AddrInUse => IO_ADDR_IN_USE@,
        IoErrorKind::PermissionDenied => IO_PERMISSION_DENIED@,
        IoErrorKind::UnexpectedEof => IO_UNEXPECTED_EOF@,
        IoErrorKind::Other => IO_OTHER@,
    }
}

/// The sentence for a reply of the proxy.
pub open spec fn reply_text(reply: ReplyError) -> Seq<char> {
    match reply {
        ReplyError::Succeeded => REPLY_SUCCEEDED@,
        ReplyError::GeneralFailure => REPLY_GENERAL_FAILURE@,
        ReplyError::ConnectionNotAllowed => REPLY_CONNECTION_NOT_ALLOWED@,
        ReplyError::NetworkUnreachable => REPLY_NETWORK_UNREACHABLE@,
        ReplyError::HostUnreachable => REPLY_HOST_UNREACHABLE@,
        ReplyError::ConnectionRefused => REPLY_CONNECTION_REFUSED@,
        ReplyError::ConnectionTimeout => REPLY_CONNECTION_TIMEOUT@,
        ReplyError::TtlExpired => REPLY_TTL_EXPIRED@,
        ReplyError::CommandNotSupported => REPLY_COMMAND_NOT_SUPPORTED@,
        ReplyError::AddressTypeNotSupported => REPLY_ADDRESS_TYPE_NOT_SUPPORTED@,
    }
}

/// The sentence for an I/O failure on the way to the proxy: the kind's name,
/// the advice for the kind, and the transport's own text.
pub open spec fn io_text(error: IoError) -> Seq<char> {
    "SOCKS5 I/O error ("@ + error.kind_text@ + "): "@ + io_details(error.kind) + " Raw error: "@
        + error.message@
}

/// The detailed description of a SOCKS5 failure.
pub open spec fn socks5_text(error: SocksError) -> Seq<char> {
    match error {
        SocksError::Io(io_err) => io_text(io_err),
        SocksError::ReplyError(reply) => reply_text(reply),
        SocksError::AuthenticationFailed(msg) => "SOCKS5 authentication failed: "@ + msg@
            + ". Verify your proxy username and password are correct."@,
        SocksError::AuthenticationRejected(msg) => "SOCKS5 authentication rejected by proxy: "@
            + msg@
            + ". The proxy server does not accept the provided credentials or authentication method."@,
        SocksError::AuthMethodUnacceptable(methods) =>
            "SOCKS5 authentication method not accepted. Requested methods: "@ + byte_list(
                methods@,
            )
                + ". The proxy requires a different authentication method than what was offered."@,
        SocksError::UnsupportedSocksVersion(version) => "Unsupported SOCKS version: "@ + decimal(
            version as nat,
        )
            + ". Expected SOCKS5 (version 5). The server may not support SOCKS5 or is running a different protocol."@,
        SocksError::InvalidHeader { expected, found } => "Invalid SOCKS5 protocol header. Expected: "@
            + expected@ + ", Found: "@ + found@
            + ". The proxy may not be a valid SOCKS5 server or there's a protocol mismatch."@,
        SocksError::ExceededMaxDomainLen(len) => "Domain name too long for SOCKS5 protocol: "@
            + decimal(len as nat)
            + " bytes (max 255). The target domain name exceeds SOCKS5 protocol limits."@,
        SocksError::ArgumentInputError(msg) => "Invalid SOCKS5 connection argument: "@ + msg@
            + ". Check the proxy configuration parameters."@,
        SocksError::Redaction(msg) => "SOCKS5 error (redacted for security): "@ + msg@,
        SocksError::Other(msg) => "SOCKS5 unexpected error: "@ + msg@
            + ". This is an unclassified error from the proxy connection."@,
    }
}

/// The advice that goes with a kind of I/O failure.
fn io_error_details(kind: IoErrorKind) -> (r: &'static str)
    ensures
        r@ == io_details(kind),
{
    match kind {
        IoErrorKind::ConnectionRefused => IO_CONNECTION_REFUSED,
        IoErrorKind::ConnectionReset => IO_CONNECTION_RESET,
        IoErrorKind::TimedOut => IO_TIMED_OUT,
        IoErrorKind::ConnectionAborted => IO_CONNECTION_ABORTED,
        IoErrorKind::NotConnected => IO_NOT_CONNECTED,
        IoErrorKind::AddrNotAvailable => IO_ADDR_NOT_AVAILABLE,
        IoErrorKind::AddrInUse => IO_ADDR_IN_USE,
        IoErrorKind::PermissionDenied => IO_PERMISSION_DENIED,
        IoErrorKind::UnexpectedEof => IO_UNEXPECTED_EOF,
        IoErrorKind::Other => IO_OTHER,
    }
}

/// Format SOCKS5 reply error codes with detailed, actionable descriptions.
pub fn format_socks5_reply_error(reply_error: &ReplyError) -> (r: String)
    ensures
        r@ == reply_text(*reply_error),
{
    match reply_error {
        ReplyError::Succeeded => String::from_str(REPLY_SUCCEEDED),
        ReplyError::GeneralFailure => String::from_str(REPLY_GENERAL_FAILURE),
        ReplyError::ConnectionNotAllowed => String::from_str(REPLY_CONNECTION_NOT_ALLOWED),
        ReplyError::NetworkUnreachable => String::from_str(REPLY_NETWORK_UNREACHABLE),
        ReplyError::HostUnreachable => String::from_str(REPLY_HOST_UNREACHABLE),
        ReplyError::ConnectionRefused => String::from_str(REPLY_CONNECTION_REFUSED),
        ReplyError::ConnectionTimeout => String::from_str(REPLY_CONNECTION_TIMEOUT),
        ReplyError::TtlExpired => String::from_str(REPLY_TTL_EXPIRED),
        ReplyError::CommandNotSupported => String::from_str(REPLY_COMMAND_NOT_SUPPORTED),
        ReplyError::AddressTypeNotSupported => String::from_str(REPLY_ADDRESS_TYPE_NOT_SUPPORTED),
    }
}

impl SmtpError {
    /// The category of a failure, as far as one is known.
    pub open spec fn description(&self) -> Option<SmtpErrorDesc> {
        match self {
            SmtpError::AsyncSmtpError(failure) => if mentions_blacklist(failure.message@) {
                Some(SmtpErrorDesc::IpBlacklisted)
            } else if mentions_reverse_dns(failure.message@) {
                Some(SmtpErrorDesc::NeedsRDNS)
            } else {
                None
            },
            _ => None,
        }
    }

    /// Get a human-understandable description of the error, in form of an enum
    /// SmtpErrorDesc. This only parses the following known errors:
    /// - IP blacklisted
    /// - IP needs reverse DNS
    ///
    /// Only an error of the SMTP conversation has a description, and a message
    /// that names both a blacklist and reverse DNS counts as blacklisted.
    pub fn get_description(&self) -> (r: Option<SmtpErrorDesc>)
        ensures
            r == self.description(),
    {
        match self {
            SmtpError::AsyncSmtpError(_) => {
                if parser::is_err_ip_blacklisted(self) {
                    Some(SmtpErrorDesc::IpBlacklisted)
                } else if parser::is_err_needs_rdns(self) {
                    Some(SmtpErrorDesc::NeedsRDNS)
                } else {
                    None
                }
            },
            _ => None,
        }
    }

    /// Get a detailed, human-readable description of a SOCKS5 error: every
    /// SOCKS5 error has one, and no other error has.
    pub fn get_detailed_socks5_description(&self) -> (r: Option<String>)
        ensures
            match *self {
                SmtpError::Socks5(socks_error) => r is Some && r->0@ == socks5_text(socks_error),
                _ => r is None,
            },
    {
        match self {
            SmtpError::Socks5(socks_error) => Some(format_socks5_error_detailed(socks_error)),
            _ => None,
        }
    }
}

/// Format a SOCKS5 error with detailed, specific information about what went wrong.
/// This replaces generic messages like "General failure" with actionable descriptions.
pub fn format_socks5_error_detailed(error: &SocksError) -> (r: String)
    ensures
        r@ == socks5_text(*error),
{
    match error {
        SocksError::Io(io_err) => {
            let details = io_error_details(io_err.kind);
            let mut out = String::from_str("SOCKS5 I/O error (");
            out.append(io_err.kind_text.as_str());
            out.append("): ");
            out.append(details);
            out.append(" Raw error: ");
            out.append(io_err.message.as_str());
            out
        },
        SocksError::ReplyError(reply_error) => format_socks5_reply_error(reply_error),
        SocksError::AuthenticationFailed(msg) => {
            let mut out = String::from_str("SOCKS5 authentication failed: ");
            out.append(msg.as_str());
            out.append(". Verify your proxy username and password are correct.");
            out
        },
        SocksError::AuthenticationRejected(msg) => {
            let mut out = String::from_str("SOCKS5 authentication rejected by proxy: ");
            out.append(msg.as_str());
            out.append(
                ". The proxy server does not accept the provided credentials or authentication method.",
            );
            out
        },
        SocksError::AuthMethodUnacceptable(methods) => {
            let mut out = String::from_str(
                "SOCKS5 authentication method not accepted. Requested methods: ",
            );
            push_byte_list(&mut out, methods);
            out.append(
                ". The proxy requires a different authentication method than what was offered.",
            );
            out
        },
        SocksError::UnsupportedSocksVersion(version) => {
            let mut out = String::from_str("Unsupported SOCKS version: ");
            push_decimal(&mut out, *version as u64);
            out.append(
                ". Expected SOCKS5 (version 5). The server may not support SOCKS5 or is running a different protocol.",
            );
            out
        },
        SocksError::InvalidHeader { expected, found } => {
            let mut out = String::from_str("Invalid SOCKS5 protocol header. Expected: ");
            out.append(expected.as_str());
            out.append(", Found: ");
            out.append(found.as_str());
            out.append(
                ". The proxy may not be a valid SOCKS5 server or there's a protocol mismatch.",
            );
            out
        },
        SocksError::ExceededMaxDomainLen(len) => {
            let mut out = String::from_str("Domain name too long for SOCKS5 protocol: ");
            push_decimal(&mut out, *len as u64);
            out.append(" bytes (max 255). The target domain name exceeds SOCKS5 protocol limits.");
            out
        },
        SocksError::ArgumentInputError(msg) => {
            let mut out = String::from_str("Invalid SOCKS5 connection argument: ");
            out.append(msg.as_str());
            out.append(". Check the proxy configuration parameters.");
            out
        },
        SocksError::Redaction(msg) => {
            let mut out = String::from_str("SOCKS5 error (redacted for security): ");
            out.append(msg.as_str());
            out
        },
        SocksError::Other(msg) => {
            let mut out = String::from_str("SOCKS5 unexpected error: ");
            out.append(msg.as_str());
            out.append(". This is an unclassified error from the proxy connection.");
            out
        },
    }
}

impl From<SmtpFailure> for SmtpError {
    fn from(e: SmtpFailure) -> (r: SmtpError) {
        SmtpError::AsyncSmtpError(e)
    }
}

impl vstd::std_specs::convert::FromSpecImpl<SmtpFailure> for SmtpError {
    open spec fn obeys_from_spec() -> bool {
        true
    }

    open spec fn from_spec(e: SmtpFailure) -> SmtpError {
        SmtpError::AsyncSmtpError(e)
    }
}

impl From<IoError> for SmtpError {
    fn from(e: IoError) -> (r: SmtpError) {
        SmtpError::IOError(e)
    }
}

impl vstd::std_specs::convert::FromSpecImpl<IoError> for SmtpError {
    open spec fn obeys_from_spec() -> bool {
        true
    }

    open spec fn from_spec(e: IoError) -> SmtpError {
        SmtpError::IOError(e)
    }
}

impl From<SocksError> for SmtpError {
    fn from(e: SocksError) -> (r: SmtpError) {
        SmtpError::Socks5(e)
    }
}

impl vstd::std_specs::convert::FromSpecImpl<SocksError> for SmtpError {
    open spec fn obeys_from_spec() -> bool {
        true
    }

    open spec fn from_spec(e: SocksError) -> SmtpError {
        SmtpError::Socks5(e)
    }
}

} // verus!
