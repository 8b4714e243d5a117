//! The connection wrapper: the framed connection with its subprotocol, and
//! the mapping of the framing library's outcomes into this library's
//! error taxonomy.

use crate::error::WebSocketError;
use vstd::prelude::*;

verus! {

/// The raw byte stream of an upgraded connection.
#[verifier::external_type_specification]
#[verifier::external_body]
pub struct ExUpgraded(hyper::upgrade::Upgraded);

/// The adapter that lets the async runtime read and write the raw stream.
#[verifier::external_type_specification]
#[verifier::external_body]
#[verifier::reject_recursive_types(T)]
pub struct ExTokioIo<T>(hyper_util::rt::TokioIo<T>);

/// The framing library's connection over a byte stream.
#[verifier::external_type_specification]
#[verifier::external_body]
#[verifier::reject_recursive_types(T)]
pub struct ExWebSocketStream<T>(tokio_websockets::WebSocketStream<T>);

/// A WebSocket connection: the framed transport, owned exclusively, and
/// the subprotocol that was negotiated for it.
#[derive(Debug)]
pub struct WebSocket {
    inner: tokio_websockets::WebSocketStream<hyper_util::rt::TokioIo<hyper::upgrade::Upgraded>>,
    /// The negotiated subprotocol, set once at construction.
    pub protocol: Option<Vec<u8>>,
}

impl WebSocket {
    /// The framed transport inside.
    pub closed spec fn stream(&self) -> tokio_websockets::WebSocketStream<
        hyper_util::rt::TokioIo<hyper::upgrade::Upgraded>,
    > {
        self.inner
    }

    /// The subprotocol that the connection carries.
    pub closed spec fn negotiated(&self) -> Option<Vec<u8>> {
        self.protocol
    }

    /// Wraps a framed transport together with its subprotocol.
    pub fn new(
        inner: tokio_websockets::WebSocketStream<hyper_util::rt::TokioIo<hyper::upgrade::Upgraded>>,
        protocol: Option<Vec<u8>>,
    ) -> (socket: WebSocket)
        ensures
            socket.stream() == inner,
            socket.negotiated() == protocol,
    {
        WebSocket { inner, protocol }
    }

    /// Gives the framed transport and the subprotocol back.
    pub fn into_parts(self) -> (parts: (
        tokio_websockets::WebSocketStream<hyper_util::rt::TokioIo<hyper::upgrade::Upgraded>>,
        Option<Vec<u8>>,
    ))
        ensures
            parts.0 == self.stream(),
            parts.1 == self.negotiated(),
    {
        (self.inner, self.protocol)
    }
}

/// What `recv` hands on for what the framed transport yielded: nothing at
/// the clean end of the stream, the message as it came, or the framing
/// library's error as an internal error.
pub open spec fn received<T>(item: Option<Result<T, tokio_websockets::Error>>) -> Option<
    Result<T, WebSocketError>,
> {
    match item {
        None => None,
        Some(Ok(message)) => Some(Ok(message)),
        Some(Err(cause)) => Some(Err(WebSocketError::Internal(cause))),
    }
}

/// What `send` and `close` hand on for what the framed transport answered:
/// success as it is, the framing library's error as an internal error.
pub open spec fn completed(outcome: Result<(), tokio_websockets::Error>) -> Result<
    (),
    WebSocketError,
> {
    match outcome {
        Ok(()) => Ok(()),
        Err(cause) => Err(WebSocketError::Internal(cause)),
    }
}

/// Maps what the framed transport yielded on a receive.
pub fn recv_outcome<T>(item: Option<Result<T, tokio_websockets::Error>>) -> (mapped: Option<
    Result<T, WebSocketError>,
>)
    ensures
        mapped == received(item),
{
    match item {
        None => None,
        Some(Ok(message)) => Some(Ok(message)),
        Some(Err(cause)) => Some(Err(WebSocketError::from(cause))),
    }
}

/// Maps what the framed transport answered to a send or a close.
pub fn send_outcome(outcome: Result<(), tokio_websockets::Error>) -> (mapped: Result<
    (),
    WebSocketError,
>)
    ensures
        mapped == completed(outcome),
{
    match outcome {
        Ok(()) => Ok(()),
        Err(cause) => Err(WebSocketError::from(cause)),
    }
}

} // verus!
