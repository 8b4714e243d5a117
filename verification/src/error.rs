//! The error taxonomy of the upgrade layer, and the HTTP status that
//! answers each kind.

use vstd::prelude::*;
use vstd::std_specs::convert::FromSpecImpl;
use vstd::string::StringExecFns;

verus! {

/// The framing library's error, carried as the cause of an internal error.
#[verifier::external_type_specification]
#[verifier::external_body]
pub struct ExFramingError(tokio_websockets::Error);

/// The HTTP library's error, carried as the cause of a failed transport
/// upgrade.
#[verifier::external_type_specification]
#[verifier::external_body]
pub struct ExTransportError(hyper::Error);

/// What can go wrong while a request is upgraded, or on the connection
/// afterwards.
#[derive(Debug)]
pub enum WebSocketError {
    /// The request carries no pending transport to upgrade.
    ConnectionNotUpgradeable,
    /// A failure inside the framing library.
    Internal(tokio_websockets::Error),
    InvalidConnectionHeader,
    /// For WebSocket over HTTP/2 and later.
    InvalidProtocolPseudoheader,
    InvalidUpgradeHeader,
    /// Also reported for a missing `Sec-WebSocket-Key`.
    InvalidWebSocketVersionHeader,
    /// Invalid method for WebSocket over HTTP/1.x.
    MethodNotGet,
    /// Invalid method for WebSocket over HTTP/2 and later.
    MethodNotConnect,
    /// The transport never became a raw byte stream.
    UpgradeFailed(hyper::Error),
}

/// The cause that an error carries.
pub enum ErrorSource<'a> {
    Framing(&'a tokio_websockets::Error),
    Transport(&'a hyper::Error),
}

pub const STATUS_BAD_REQUEST: u16 = 400;

pub const STATUS_METHOD_NOT_ALLOWED: u16 = 405;

pub const STATUS_UPGRADE_REQUIRED: u16 = 426;

pub const STATUS_INTERNAL_SERVER_ERROR: u16 = 500;

/// The HTTP status that rejects a request with the given error: 426 where
/// the connection cannot be upgraded, 400 for a bad `Connection`, `Upgrade`
/// or `Sec-WebSocket-Version` header, 405 for a wrong method, 500 for all
/// others.
pub open spec fn status_of(error: WebSocketError) -> u16 {
    match error {
        WebSocketError::ConnectionNotUpgradeable => STATUS_UPGRADE_REQUIRED,
        WebSocketError::InvalidConnectionHeader => STATUS_BAD_REQUEST,
        WebSocketError::InvalidUpgradeHeader => STATUS_BAD_REQUEST,
        WebSocketError::InvalidWebSocketVersionHeader => STATUS_BAD_REQUEST,
        WebSocketError::MethodNotGet => STATUS_METHOD_NOT_ALLOWED,
        WebSocketError::MethodNotConnect => STATUS_METHOD_NOT_ALLOWED,
        _ => STATUS_INTERNAL_SERVER_ERROR,
    }
}

/// The text of an error that carries no cause; for one that does, the text
/// that stands before the cause's own.
pub open spec fn text_of(error: WebSocketError) -> Seq<char> {
    match error {
        WebSocketError::ConnectionNotUpgradeable => "connection is not upgradeable"@,
        WebSocketError::Internal(_) => "internal server error: "@,
        WebSocketError::InvalidConnectionHeader => "invalid `Connection` header"@,
        WebSocketError::InvalidProtocolPseudoheader => "invalid `:protocol` pseudoheader"@,
        WebSocketError::InvalidUpgradeHeader => "invalid `Upgrade` header"@,
        WebSocketError::InvalidWebSocketVersionHeader => "invalid `Sec-WebSocket-Version` header"@,
        WebSocketError::MethodNotGet => "http request method must be `GET`"@,
        WebSocketError::MethodNotConnect => "http2 request method must be `CONNECT`"@,
        WebSocketError::UpgradeFailed(_) => "upgrade failed: "@,
    }
}

/// Whether an error carries a cause: an internal error and a failed
/// upgrade do, the others do not.
pub open spec fn has_cause(error: WebSocketError) -> bool {
    error is Internal || error is UpgradeFailed
}

/// Whether `text` begins with `prefix`.
pub open spec fn starts_with(text: Seq<char>, prefix: Seq<char>) -> bool {
    prefix.len() <= text.len() && text.subrange(0, prefix.len() as int) == prefix
}

/// The `Display` text of a `tokio_websockets::Error`. Nothing is promised
/// of it: it may quote the operating system.
#[verifier::external_body]
fn framing_error_text(cause: &tokio_websockets::Error) -> (text: String) {
    cause.to_string()
}

/// The `Display` text of a `hyper::Error`. Nothing is promised of it.
#[verifier::external_body]
fn transport_error_text(cause: &hyper::Error) -> (text: String) {
    cause.to_string()
}

/// Puts `cause` behind `prefix`.
pub fn with_cause(prefix: &str, cause: &str) -> (text: String)
    ensures
        text@ == prefix@ + cause@,
{
    let mut text = String::from_str(prefix);
    text.append(cause);
    text
}

impl WebSocketError {
    /// The HTTP status that rejects a request with this error.
    pub fn status_code(&self) -> (status: u16)
        ensures
            status == status_of(*self),
    {
        match self {
            WebSocketError::ConnectionNotUpgradeable => STATUS_UPGRADE_REQUIRED,
            WebSocketError::InvalidConnectionHeader
            | WebSocketError::InvalidUpgradeHeader
            | WebSocketError::InvalidWebSocketVersionHeader => STATUS_BAD_REQUEST,
            WebSocketError::MethodNotGet | WebSocketError::MethodNotConnect => {
                STATUS_METHOD_NOT_ALLOWED
            },
            _ => STATUS_INTERNAL_SERVER_ERROR,
        }
    }

    /// The cause of this error: that of an internal error and of a failed
    /// upgrade, none for the others.
    pub fn source(&self) -> (cause: Option<ErrorSource<'_>>)
        ensures
            cause == (match *self {
                WebSocketError::Internal(e) => Some(ErrorSource::Framing(&e)),
                WebSocketError::UpgradeFailed(e) => Some(ErrorSource::Transport(&e)),
                _ => None,
            }),
    {
        match self {
            WebSocketError::Internal(e) => Some(ErrorSource::Framing(e)),
            WebSocketError::UpgradeFailed(e) => Some(ErrorSource::Transport(e)),
            _ => None,
        }
    }

    /// The text that describes this error to a reader: a fixed sentence for
    /// an error without a cause, and for the two that carry one a fixed
    /// beginning followed by the cause's own text.
    pub fn message(&self) -> (text: String)
        ensures
            !has_cause(*self) ==> text@ == text_of(*self),
            has_cause(*self) ==> starts_with(text@, text_of(*self)),
    {
        match self {
            WebSocketError::ConnectionNotUpgradeable => {
                String::from_str("connection is not upgradeable")
            },
            WebSocketError::Internal(e) => {
                let cause = framing_error_text(e);
                let text = with_cause("internal server error: ", cause.as_str());
                assert(text@.subrange(0, "internal server error: "@.len() as int)
                    =~= "internal server error: "@);
                text
            },
            WebSocketError::InvalidConnectionHeader => {
                String::from_str("invalid `Connection` header")
            },
            WebSocketError::InvalidProtocolPseudoheader => {
                String::from_str("invalid `:protocol` pseudoheader")
            },
            WebSocketError::InvalidUpgradeHeader => String::from_str("invalid `Upgrade` header"),
            WebSocketError::InvalidWebSocketVersionHeader => {
                String::from_str("invalid `Sec-WebSocket-Version` header")
            },
            WebSocketError::MethodNotGet => String::from_str("http request method must be `GET`"),
            WebSocketError::MethodNotConnect => {
                String::from_str("http2 request method must be `CONNECT`")
            },
            WebSocketError::UpgradeFailed(e) => {
                let cause = transport_error_text(e);
                let text = with_cause("upgrade failed: ", cause.as_str());
                assert(text@.subrange(0, "upgrade failed: "@.len() as int)
                    =~= "upgrade failed: "@);
                text
            },
        }
    }
}

impl From<tokio_websockets::Error> for WebSocketError {
    fn from(e: tokio_websockets::Error) -> (error: WebSocketError) {
        WebSocketError::Internal(e)
    }
}

impl FromSpecImpl<tokio_websockets::Error> for WebSocketError {
    open spec fn obeys_from_spec() -> bool {
        true
    }

    open spec fn from_spec(e: tokio_websockets::Error) -> WebSocketError {
        WebSocketError::Internal(e)
    }
}

impl From<hyper::Error> for WebSocketError {
    fn from(e: hyper::Error) -> (error: WebSocketError) {
        WebSocketError::UpgradeFailed(e)
    }
}

impl FromSpecImpl<hyper::Error> for WebSocketError {
    open spec fn obeys_from_spec() -> bool {
        true
    }

    open spec fn from_spec(e: hyper::Error) -> WebSocketError {
        WebSocketError::UpgradeFailed(e)
    }
}

} // verus!
