use axum_tws::error::{with_cause, ErrorSource};
use axum_tws::WebSocketError;
use futures_util::FutureExt;

fn transport_error() -> hyper::Error {
    let pending = hyper::upgrade::on(http::Request::new(()));
    match pending.now_or_never() {
        Some(Err(error)) => error,
        _ => panic!("a request without a pending upgrade fails at once"),
    }
}

#[test]
fn status_of_each_kind() {
    assert_eq!(WebSocketError::ConnectionNotUpgradeable.status_code(), 426);
    assert_eq!(WebSocketError::InvalidConnectionHeader.status_code(), 400);
    assert_eq!(WebSocketError::InvalidUpgradeHeader.status_code(), 400);
    assert_eq!(WebSocketError::InvalidWebSocketVersionHeader.status_code(), 400);
    assert_eq!(WebSocketError::MethodNotGet.status_code(), 405);
    assert_eq!(WebSocketError::MethodNotConnect.status_code(), 405);
    assert_eq!(WebSocketError::InvalidProtocolPseudoheader.status_code(), 500);
    assert_eq!(
        WebSocketError::Internal(tokio_websockets::Error::AlreadyClosed).status_code(),
        500
    );
    assert_eq!(WebSocketError::UpgradeFailed(transport_error()).status_code(), 500);
}

#[test]
fn message_of_each_kind_without_a_cause() {
    assert_eq!(
        WebSocketError::ConnectionNotUpgradeable.message(),
        "connection is not upgradeable"
    );
    assert_eq!(WebSocketError::InvalidConnectionHeader.message(), "invalid `Connection` header");
    assert_eq!(
        WebSocketError::InvalidProtocolPseudoheader.message(),
        "invalid `:protocol` pseudoheader"
    );
    assert_eq!(WebSocketError::InvalidUpgradeHeader.message(), "invalid `Upgrade` header");
    assert_eq!(
        WebSocketError::InvalidWebSocketVersionHeader.message(),
        "invalid `Sec-WebSocket-Version` header"
    );
    assert_eq!(WebSocketError::MethodNotGet.message(), "http request method must be `GET`");
    assert_eq!(
        WebSocketError::MethodNotConnect.message(),
        "http2 request method must be `CONNECT`"
    );
}

#[test]
fn message_of_an_internal_error_quotes_the_cause() {
    let cause = tokio_websockets::Error::AlreadyClosed;
    let expected = format!("internal server error: {}", cause);
    assert_eq!(WebSocketError::Internal(cause).message(), expected);
    assert_eq!(
        expected,
        "internal server error: attempted to send message after closing connection"
    );
}

#[test]
fn message_of_a_failed_upgrade_quotes_the_cause() {
    let expected = format!("upgrade failed: {}", transport_error());
    assert_eq!(WebSocketError::UpgradeFailed(transport_error()).message(), expected);
    assert!(expected.len() > "upgrade failed: ".len());
}

#[test]
fn with_cause_puts_the_cause_last() {
    assert_eq!(with_cause("upgrade failed: ", "gone"), "upgrade failed: gone");
    assert_eq!(with_cause("", "gone"), "gone");
    assert_eq!(with_cause("alone", ""), "alone");
}

#[test]
fn source_is_there_for_the_two_kinds_with_a_cause() {
    assert!(matches!(
        WebSocketError::Internal(tokio_websockets::Error::AlreadyClosed).source(),
        Some(ErrorSource::Framing(tokio_websockets::Error::AlreadyClosed))
    ));
    assert!(matches!(
        WebSocketError::UpgradeFailed(transport_error()).source(),
        Some(ErrorSource::Transport(_))
    ));
    assert!(WebSocketError::ConnectionNotUpgradeable.source().is_none());
    assert!(WebSocketError::InvalidConnectionHeader.source().is_none());
    assert!(WebSocketError::InvalidProtocolPseudoheader.source().is_none());
    assert!(WebSocketError::InvalidUpgradeHeader.source().is_none());
    assert!(WebSocketError::InvalidWebSocketVersionHeader.source().is_none());
    assert!(WebSocketError::MethodNotGet.source().is_none());
    assert!(WebSocketError::MethodNotConnect.source().is_none());
}

#[test]
fn from_a_framing_error_is_internal() {
    let error = WebSocketError::from(tokio_websockets::Error::CannotResolveHost);
    assert!(matches!(
        error,
        WebSocketError::Internal(tokio_websockets::Error::CannotResolveHost)
    ));
}

#[test]
fn from_a_transport_error_is_a_failed_upgrade() {
    let error = WebSocketError::from(transport_error());
    assert!(matches!(error, WebSocketError::UpgradeFailed(_)));
}
