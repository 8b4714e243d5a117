//! The message union that the connection exchanges, and its conversion to
//! and from the framing library's message type.

use vstd::pervasive::unreached;
use vstd::prelude::*;
use vstd::std_specs::convert::FromSpecImpl;
use vstd::utf8::{decode_utf8, encode_utf8, encode_utf8_decode_utf8};

verus! {

/// A message of the framing library, `tokio_websockets::Message`: an opcode
/// and a payload. Its inside is hidden from the verifier, which knows it
/// only by `frame_opcode` and `frame_payload`.
#[verifier::external_body]
pub struct Frame(pub tokio_websockets::Message);

/// The opcode of a framing-library message, as RFC 6455 numbers it.
pub uninterp spec fn frame_opcode(frame: Frame) -> u8;

/// The payload bytes of a framing-library message.
pub uninterp spec fn frame_payload(frame: Frame) -> Seq<u8>;

pub const OPCODE_TEXT: u8 = 1;

pub const OPCODE_BINARY: u8 = 2;

pub const OPCODE_CLOSE: u8 = 8;

pub const OPCODE_PING: u8 = 9;

pub const OPCODE_PONG: u8 = 10;

/// The close code that stands for a close frame without a payload.
pub const NO_STATUS_RECEIVED: u16 = 1005;

/// The longest payload of a ping or pong frame, in bytes.
pub const MAX_CONTROL_PAYLOAD: usize = 125;

/// The longest close reason, in bytes: a control payload less the code.
pub const MAX_CLOSE_REASON: usize = 123;

/// A WebSocket message. A payload is an opaque byte buffer; a close message
/// carries an optional numeric code and a reason text, possibly empty.
#[derive(Clone, Debug, PartialEq, Eq)]
pub enum Message {
    Text(Vec<u8>),
    Binary(Vec<u8>),
    Close(Option<u16>, String),
    Ping(Vec<u8>),
    Pong(Vec<u8>),
}

/// The mathematical value of a [`Message`].
pub enum MessageView {
    Text(Seq<u8>),
    Binary(Seq<u8>),
    Close(Option<u16>, Seq<char>),
    Ping(Seq<u8>),
    Pong(Seq<u8>),
}

impl View for Message {
    type V = MessageView;

    open spec fn view(&self) -> MessageView {
        match *self {
            Message::Text(payload) => MessageView::Text(payload@),
            Message::Binary(payload) => MessageView::Binary(payload@),
            Message::Close(code, reason) => MessageView::Close(code, reason@),
            Message::Ping(payload) => MessageView::Ping(payload@),
            Message::Pong(payload) => MessageView::Pong(payload@),
        }
    }
}

/// Whether `code` is a close code that exists at all: 1000 to 1015, or
/// 3000 to 4999.
pub open spec fn is_close_code(code: u16) -> bool {
    1000 <= code <= 1015 || 3000 <= code <= 4999
}

/// Whether `code` is reserved, so that it may not be sent over the wire.
pub open spec fn is_reserved_code(code: u16) -> bool {
    code == 1004 || code == 1005 || code == 1006 || code == 1015
}

/// The two bytes of a close code in network order.
pub open spec fn code_bytes(code: u16) -> Seq<u8> {
    seq![(code / 256) as u8, (code % 256) as u8]
}

/// The number that two bytes in network order spell.
pub open spec fn code_of_bytes(high: u8, low: u8) -> u16 {
    (high * 256 + low) as u16
}

/// The payload of a close frame with the given code and reason: empty
/// without a code (the reason is then dropped), else the code in network
/// order followed by the reason in UTF-8.
pub open spec fn close_payload(code: Option<u16>, reason: Seq<char>) -> Seq<u8> {
    match code {
        Some(code) => code_bytes(code) + encode_utf8(reason),
        None => Seq::empty(),
    }
}

/// The code and the reason bytes that a close payload spells: 1005 and no
/// reason when it is empty, else its first two bytes and the rest.
pub open spec fn close_parts(payload: Seq<u8>) -> (u16, Seq<u8>) {
    if payload.len() == 0 {
        (NO_STATUS_RECEIVED, Seq::empty())
    } else {
        (code_of_bytes(payload[0], payload[1]), payload.skip(2))
    }
}

/// Whether the framing library can build a frame for a message: a ping or
/// pong payload is at most 125 bytes; a close code, where there is one,
/// exists and is not reserved, and the reason beside it is at most 123
/// bytes of UTF-8.
pub open spec fn sendable(message: MessageView) -> bool {
    match message {
        MessageView::Text(_) => true,
        MessageView::Binary(_) => true,
        MessageView::Close(None, _) => true,
        MessageView::Close(Some(code), reason) => {
            &&& is_close_code(code)
            &&& !is_reserved_code(code)
            &&& encode_utf8(reason).len() <= MAX_CLOSE_REASON
        },
        MessageView::Ping(payload) => payload.len() <= MAX_CONTROL_PAYLOAD,
        MessageView::Pong(payload) => payload.len() <= MAX_CONTROL_PAYLOAD,
    }
}

/// The opcode under which a message travels.
pub open spec fn opcode_of(message: MessageView) -> u8 {
    match message {
        MessageView::Text(_) => OPCODE_TEXT,
        MessageView::Binary(_) => OPCODE_BINARY,
        MessageView::Close(_, _) => OPCODE_CLOSE,
        MessageView::Ping(_) => OPCODE_PING,
        MessageView::Pong(_) => OPCODE_PONG,
    }
}

/// The payload under which a message travels.
pub open spec fn payload_of(message: MessageView) -> Seq<u8> {
    match message {
        MessageView::Text(payload) => payload,
        MessageView::Binary(payload) => payload,
        MessageView::Close(code, reason) => close_payload(code, reason),
        MessageView::Ping(payload) => payload,
        MessageView::Pong(payload) => payload,
    }
}

/// Whether `opcode` is one that a whole message can have.
pub open spec fn is_message_opcode(opcode: u8) -> bool {
    opcode == OPCODE_TEXT || opcode == OPCODE_BINARY || opcode == OPCODE_CLOSE
        || opcode == OPCODE_PING || opcode == OPCODE_PONG
}

/// The message that a frame with the given opcode and payload stands for.
/// A close frame always yields a code: 1005 when its payload is empty.
pub open spec fn message_of(opcode: u8, payload: Seq<u8>) -> MessageView
    recommends
        is_message_opcode(opcode),
{
    if opcode == OPCODE_TEXT {
        MessageView::Text(payload)
    } else if opcode == OPCODE_BINARY {
        MessageView::Binary(payload)
    } else if opcode == OPCODE_CLOSE {
        MessageView::Close(Some(close_parts(payload).0), decode_utf8(close_parts(payload).1))
    } else if opcode == OPCODE_PING {
        MessageView::Ping(payload)
    } else {
        MessageView::Pong(payload)
    }
}

/// Builds a text frame with `tokio_websockets::Message::text`. Trusted:
/// the frame has the text opcode and holds the bytes given.
#[verifier::external_body]
fn frame_text(payload: Vec<u8>) -> (frame: Frame)
    ensures
        frame_opcode(frame) == OPCODE_TEXT,
        frame_payload(frame) == payload@,
{
    Frame(tokio_websockets::Message::text(payload))
}

/// Builds a binary frame with `tokio_websockets::Message::binary`. Trusted:
/// the frame has the binary opcode and holds the bytes given.
#[verifier::external_body]
fn frame_binary(payload: Vec<u8>) -> (frame: Frame)
    ensures
        frame_opcode(frame) == OPCODE_BINARY,
        frame_payload(frame) == payload@,
{
    Frame(tokio_websockets::Message::binary(payload))
}

/// Builds a close frame with `tokio_websockets::Message::close`, which
/// panics on a reserved code and, beside a code, on a reason of more than
/// 123 bytes; `CloseCode::try_from` refuses a code that does not exist.
/// Trusted: the frame has the close opcode; its payload is empty without a
/// code, else the code in network order followed by the reason's bytes.
#[verifier::external_body]
fn frame_close(code: Option<u16>, reason: &str) -> (frame: Frame)
    requires
        sendable(MessageView::Close(code, reason@)),
    ensures
        frame_opcode(frame) == OPCODE_CLOSE,
        frame_payload(frame) == close_payload(code, reason@),
{
    let code = match code {
        Some(code) => Some(tokio_websockets::CloseCode::try_from(code).unwrap()),
        None => None,
    };
    Frame(tokio_websockets::Message::close(code, reason))
}

/// Builds a ping frame with `tokio_websockets::Message::ping`, which panics
/// on a payload of more than 125 bytes. Trusted: the frame has the ping
/// opcode and holds the bytes given.
#[verifier::external_body]
fn frame_ping(payload: Vec<u8>) -> (frame: Frame)
    requires
        payload@.len() <= MAX_CONTROL_PAYLOAD,
    ensures
        frame_opcode(frame) == OPCODE_PING,
        frame_payload(frame) == payload@,
{
    Frame(tokio_websockets::Message::ping(payload))
}

/// Builds a pong frame with `tokio_websockets::Message::pong`, which panics
/// on a payload of more than 125 bytes. Trusted: the frame has the pong
/// opcode and holds the bytes given.
#[verifier::external_body]
fn frame_pong(payload: Vec<u8>) -> (frame: Frame)
    requires
        payload@.len() <= MAX_CONTROL_PAYLOAD,
    ensures
        frame_opcode(frame) == OPCODE_PONG,
        frame_payload(frame) == payload@,
{
    Frame(tokio_websockets::Message::pong(payload))
}

/// `tokio_websockets::Message::is_text`. Trusted: it tests the opcode.
#[verifier::external_body]
fn frame_is_text(frame: &Frame) -> (yes: bool)
    ensures
        yes == (frame_opcode(*frame) == OPCODE_TEXT),
{
    frame.0.is_text()
}

/// `tokio_websockets::Message::is_binary`. Trusted: it tests the opcode.
#[verifier::external_body]
fn frame_is_binary(frame: &Frame) -> (yes: bool)
    ensures
        yes == (frame_opcode(*frame) == OPCODE_BINARY),
{
    frame.0.is_binary()
}

/// `tokio_websockets::Message::is_close`. Trusted: it tests the opcode.
#[verifier::external_body]
fn frame_is_close(frame: &Frame) -> (yes: bool)
    ensures
        yes == (frame_opcode(*frame) == OPCODE_CLOSE),
{
    frame.0.is_close()
}

/// `tokio_websockets::Message::is_ping`. Trusted: it tests the opcode.
#[verifier::external_body]
fn frame_is_ping(frame: &Frame) -> (yes: bool)
    ensures
        yes == (frame_opcode(*frame) == OPCODE_PING),
{
    frame.0.is_ping()
}

/// `tokio_websockets::Message::is_pong`. Trusted: it tests the opcode, and
/// a whole message never has another opcode than the five kinds', as the
/// framing library documents (a continuation opcode never leaves it).
#[verifier::external_body]
fn frame_is_pong(frame: &Frame) -> (yes: bool)
    ensures
        yes == (frame_opcode(*frame) == OPCODE_PONG),
        !yes ==> is_message_opcode(frame_opcode(*frame)),
{
    frame.0.is_pong()
}

/// `tokio_websockets::Message::into_payload`, copied out of the library's
/// buffer. Trusted: the bytes are the frame's payload.
#[verifier::external_body]
fn frame_into_payload(frame: Frame) -> (payload: Vec<u8>)
    ensures
        payload@ == frame_payload(frame),
{
    frame.0.into_payload().to_vec()
}

/// `tokio_websockets::Message::as_close`, the code as a number and the
/// reason as an owned text. Trusted: a close frame, and no other, yields a
/// value; the code is 1005 and the reason empty where the payload is empty;
/// else the payload has at least two bytes, the code is what its first two
/// spell in network order, and the reason's bytes are the rest.
#[verifier::external_body]
fn frame_as_close(frame: &Frame) -> (parsed: Option<(u16, String)>)
    ensures
        parsed is Some <==> frame_opcode(*frame) == OPCODE_CLOSE,
        parsed matches Some((code, reason)) ==> {
            &&& frame_payload(*frame).len() != 1
            &&& code == close_parts(frame_payload(*frame)).0
            &&& encode_utf8(reason@) == close_parts(frame_payload(*frame)).1
        },
{
    match frame.0.as_close() {
        Some((code, reason)) => Some((u16::from(code), reason.to_owned())),
        None => None,
    }
}

/// The close message for what the framing library parsed out of a close
/// frame: code and reason where it parsed any, else no code and an empty
/// reason.
pub fn close_from_parts(parsed: Option<(u16, String)>) -> (message: Message)
    ensures
        message@ == (match parsed {
            Some((code, reason)) => MessageView::Close(Some(code), reason@),
            None => MessageView::Close(None, Seq::empty()),
        }),
{
    match parsed {
        Some((code, reason)) => Message::Close(Some(code), reason),
        None => Message::Close(None, String::new()),
    }
}

impl Message {
    /// Whether the framing library can build a frame for this message.
    pub fn is_sendable(&self) -> (yes: bool)
        ensures
            yes == sendable(self@),
    {
        match self {
            Message::Text(_) => true,
            Message::Binary(_) => true,
            Message::Close(None, _) => true,
            Message::Close(Some(code), reason) => {
                let code: u16 = *code;
                let exists = (1000 <= code && code <= 1015) || (3000 <= code && code <= 4999);
                let reserved = code == 1004 || code == 1005 || code == 1006 || code == 1015;
                exists && !reserved && reason.as_str().as_bytes().len() <= MAX_CLOSE_REASON
            },
            Message::Ping(payload) => payload.len() <= MAX_CONTROL_PAYLOAD,
            Message::Pong(payload) => payload.len() <= MAX_CONTROL_PAYLOAD,
        }
    }

    /// Converts this message into the framing library's. Converted back,
    /// the frame gives the same message again, but for a close message
    /// without a code, whose reason is dropped.
    pub fn into_frame(self) -> (frame: Frame)
        requires
            sendable(self@),
        ensures
            frame_opcode(frame) == opcode_of(self@),
            frame_payload(frame) == payload_of(self@),
            !(self@ matches MessageView::Close(None, _)) ==> message_of(
                frame_opcode(frame),
                frame_payload(frame),
            ) == self@,
    {
        proof {
            if !(self@ matches MessageView::Close(None, _)) {
                lemma_frame_round_trip(self@);
            }
        }
        match self {
            Message::Text(payload) => frame_text(payload),
            Message::Binary(payload) => frame_binary(payload),
            Message::Close(code, reason) => frame_close(code, reason.as_str()),
            Message::Ping(payload) => frame_ping(payload),
            Message::Pong(payload) => frame_pong(payload),
        }
    }
}

impl From<Frame> for Message {
    /// Converts a message of the framing library into this library's.
    fn from(frame: Frame) -> (message: Message)
        ensures
            is_message_opcode(frame_opcode(frame)),
            message@ == message_of(frame_opcode(frame), frame_payload(frame)),
    {
        if frame_is_text(&frame) {
            Message::Text(frame_into_payload(frame))
        } else if frame_is_binary(&frame) {
            Message::Binary(frame_into_payload(frame))
        } else if frame_is_close(&frame) {
            let parsed = frame_as_close(&frame);
            proof {
                let reason = parsed->Some_0.1@;
                encode_utf8_decode_utf8(reason);
            }
            close_from_parts(parsed)
        } else if frame_is_ping(&frame) {
            Message::Ping(frame_into_payload(frame))
        } else if frame_is_pong(&frame) {
            Message::Pong(frame_into_payload(frame))
        } else {
            unreached()
        }
    }
}

impl FromSpecImpl<Frame> for Message {
    /// Two messages of the same value need not be the same buffers, so the
    /// conversion is stated over the value: see `from`.
    open spec fn obeys_from_spec() -> bool {
        false
    }

    open spec fn from_spec(frame: Frame) -> Message {
        choose|message: Message|
            message@ == message_of(frame_opcode(frame), frame_payload(frame))
    }
}

/// Round trip: the frame of a message stands for that message again, with
/// the same payload for text, binary, ping and pong, and the same code and
/// reason for a close message that has a code.
pub proof fn lemma_frame_round_trip(message: MessageView)
    requires
        message matches MessageView::Close(code, _) ==> code is Some,
    ensures
        message_of(opcode_of(message), payload_of(message)) == message,
{
    match message {
        MessageView::Close(Some(code), reason) => {
            let payload = close_payload(Some(code), reason);
            assert(payload.len() >= 2);
            assert(payload[0] == (code / 256) as u8);
            assert(payload[1] == (code % 256) as u8);
            assert(payload.skip(2) =~= encode_utf8(reason));
            assert(code_of_bytes((code / 256) as u8, (code % 256) as u8) == code);
            encode_utf8_decode_utf8(reason);
        },
        _ => {},
    }
}

} // verus!
