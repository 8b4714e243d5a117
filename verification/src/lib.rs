//! Negotiation of the WebSocket upgrade of an HTTP connection: validation of
//! the handshake request, the handshake accept token, the response that
//! answers the request, and the hand-off of the connection that follows it.

pub mod error;
pub mod handoff;
pub mod headers;
pub mod message;
pub mod negotiate;
pub mod response;
pub mod sign;
pub mod upgrade;
pub mod websocket;

pub use crate::error::WebSocketError;
pub use crate::message::Message;
pub use crate::upgrade::{DefaultOnFailedUpgrade, OnFailedUpgrade, WebSocketUpgrade};
pub use crate::websocket::WebSocket;
