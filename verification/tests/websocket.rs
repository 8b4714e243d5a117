use axum_tws::websocket::{recv_outcome, send_outcome};
use axum_tws::WebSocketError;

#[test]
fn recv_outcome_ends_with_the_stream() {
    let mapped = recv_outcome::<u8>(None);
    assert!(mapped.is_none());
}

#[test]
fn recv_outcome_hands_the_message_on() {
    let mapped = recv_outcome(Some(Ok(tokio_websockets::Message::text("hi"))));
    match mapped {
        Some(Ok(message)) => {
            assert!(message.is_text());
            assert_eq!(message.as_text(), Some("hi"));
        }
        _ => panic!("a message was owed"),
    }
}

#[test]
fn recv_outcome_wraps_the_framing_error() {
    let mapped = recv_outcome::<u8>(Some(Err(tokio_websockets::Error::AlreadyClosed)));
    assert!(matches!(
        mapped,
        Some(Err(WebSocketError::Internal(tokio_websockets::Error::AlreadyClosed)))
    ));
}

#[test]
fn send_outcome_keeps_success_and_wraps_the_framing_error() {
    assert!(matches!(send_outcome(Ok(())), Ok(())));
    assert!(matches!(
        send_outcome(Err(tokio_websockets::Error::PayloadTooLong { len: 9, max_len: 8 })),
        Err(WebSocketError::Internal(tokio_websockets::Error::PayloadTooLong {
            len: 9,
            max_len: 8
        }))
    ));
}
