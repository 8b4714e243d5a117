//! The response that answers a handshake.

use crate::sign::{accept_token, sign};
use vstd::prelude::*;
use vstd::string::{StrSliceExecFns, StringExecFns, StringSliceAdditionalSpecFns};
use vstd::utf8::encode_utf8;

verus! {

/// One header of a response.
#[derive(Clone, Debug, PartialEq, Eq)]
pub struct ResponseHeader {
    pub name: String,
    pub value: Vec<u8>,
}

impl View for ResponseHeader {
    type V = (Seq<char>, Seq<u8>);

    open spec fn view(&self) -> (Seq<char>, Seq<u8>) {
        (self.name@, self.value@)
    }
}

/// The response that answers a handshake.
#[derive(Clone, Debug, PartialEq, Eq)]
pub struct UpgradeResponse {
    pub status: u16,
    pub headers: Vec<ResponseHeader>,
    pub body: Vec<u8>,
}

/// The mathematical value of an [`UpgradeResponse`].
pub struct ResponseView {
    pub status: u16,
    pub headers: Seq<(Seq<char>, Seq<u8>)>,
    pub body: Seq<u8>,
}

impl View for UpgradeResponse {
    type V = ResponseView;

    open spec fn view(&self) -> ResponseView {
        ResponseView {
            status: self.status,
            headers: self.headers@.map_values(|header: ResponseHeader| header@),
            body: self.body@,
        }
    }
}

pub const STATUS_SWITCHING_PROTOCOLS: u16 = 101;

pub const STATUS_OK: u16 = 200;

/// The headers of the response to an HTTP/1.1 handshake: `Connection`,
/// `Upgrade`, the accept token of the client's key and, where a subprotocol
/// was negotiated, that subprotocol.
pub open spec fn switching_headers(key: Seq<u8>, protocol: Option<Seq<u8>>) -> Seq<
    (Seq<char>, Seq<u8>),
> {
    let fixed = seq![
        ("connection"@, "upgrade".spec_bytes()),
        ("upgrade"@, "websocket".spec_bytes()),
        ("sec-websocket-accept"@, encode_utf8(accept_token(key))),
    ];
    match protocol {
        Some(protocol) => fixed.push(("sec-websocket-protocol"@, protocol)),
        None => fixed,
    }
}

/// The response to a handshake: 101 with the switching headers where the
/// client sent a key, else a bare 200. The body is empty either way.
pub open spec fn response_of(key: Option<Seq<u8>>, protocol: Option<Seq<u8>>) -> ResponseView {
    match key {
        Some(key) => ResponseView {
            status: STATUS_SWITCHING_PROTOCOLS,
            headers: switching_headers(key, protocol),
            body: Seq::empty(),
        },
        None => ResponseView { status: STATUS_OK, headers: Seq::empty(), body: Seq::empty() },
    }
}

/// Whether `headers` holds a header of the given name and value.
pub open spec fn has_header(headers: Seq<(Seq<char>, Seq<u8>)>, name: Seq<char>, value: Seq<u8>) -> bool {
    exists|i: int| 0 <= i < headers.len() && headers[i] == (name, value)
}

/// Whether `headers` holds no header of the given name.
pub open spec fn lacks_header(headers: Seq<(Seq<char>, Seq<u8>)>, name: Seq<char>) -> bool {
    forall|i: int| 0 <= i < headers.len() ==> (#[trigger] headers[i]).0 != name
}

/// Makes a response header.
fn header(name: &str, value: Vec<u8>) -> (header: ResponseHeader)
    ensures
        header@ == (name@, value@),
{
    ResponseHeader { name: String::from_str(name), value }
}

/// Copies a buffer.
fn copy_bytes(bytes: &Vec<u8>) -> (copy: Vec<u8>)
    ensures
        copy@ == bytes@,
{
    let mut copy: Vec<u8> = Vec::with_capacity(0);
    copy.extend_from_slice(bytes.as_slice());
    assert(copy@ =~= bytes@);
    copy
}

/// Builds the response to a handshake with the given key and subprotocol.
pub fn handshake_response(key: Option<&Vec<u8>>, protocol: Option<&Vec<u8>>) -> (response:
    UpgradeResponse)
    ensures
        response@ == response_of(
            match key {
                Some(key) => Some(key@),
                None => None,
            },
            match protocol {
                Some(protocol) => Some(protocol@),
                None => None,
            },
        ),
{
    let mut headers: Vec<ResponseHeader> = Vec::new();
    let status = match key {
        Some(key) => {
            headers.push(header("connection", "upgrade".as_bytes_vec()));
            headers.push(header("upgrade", "websocket".as_bytes_vec()));
            let token = sign(key.as_slice());
            headers.push(header("sec-websocket-accept", token.as_str().as_bytes_vec()));
            if let Some(protocol) = protocol {
                headers.push(header("sec-websocket-protocol", copy_bytes(protocol)));
            }
            STATUS_SWITCHING_PROTOCOLS
        },
        None => STATUS_OK,
    };
    let response = UpgradeResponse { status, headers, body: Vec::new() };
    assert(response@.headers =~= response_of(
        match key {
            Some(key) => Some(key@),
            None => None,
        },
        match protocol {
            Some(protocol) => Some(protocol@),
            None => None,
        },
    ).headers);
    response
}

/// The response to an extended-CONNECT handshake has a 2xx status, an
/// empty body and no headers at all, so neither `Upgrade` nor `Connection`.
pub proof fn lemma_extended_connect_response(protocol: Option<Seq<u8>>)
    ensures
        200 <= response_of(None, protocol).status < 300,
        response_of(None, protocol).body.len() == 0,
        response_of(None, protocol).headers.len() == 0,
        lacks_header(response_of(None, protocol).headers, "upgrade"@),
        lacks_header(response_of(None, protocol).headers, "connection"@),
{
}

/// The response to an HTTP/1.1 handshake has status 101, an empty body and
/// the three headers that the handshake requires, the accept token being
/// the one that the signer computes for the client's key. The subprotocol
/// is echoed exactly when one was negotiated.
pub proof fn lemma_switching_protocols_response(key: Seq<u8>, protocol: Option<Seq<u8>>)
    ensures
        response_of(Some(key), protocol).status == 101,
        response_of(Some(key), protocol).body.len() == 0,
        has_header(response_of(Some(key), protocol).headers, "connection"@, "upgrade".spec_bytes()),
        has_header(response_of(Some(key), protocol).headers, "upgrade"@, "websocket".spec_bytes()),
        has_header(
            response_of(Some(key), protocol).headers,
            "sec-websocket-accept"@,
            encode_utf8(accept_token(key)),
        ),
        match protocol {
            Some(protocol) => has_header(
                response_of(Some(key), Some(protocol)).headers,
                "sec-websocket-protocol"@,
                protocol,
            ),
            None => response_of(Some(key), None).headers.len() == 3,
        },
{
    let headers = response_of(Some(key), protocol).headers;
    assert(headers[0] == ("connection"@, "upgrade".spec_bytes()));
    assert(headers[1] == ("upgrade"@, "websocket".spec_bytes()));
    assert(headers[2] == ("sec-websocket-accept"@, encode_utf8(accept_token(key))));
    if let Some(value) = protocol {
        assert(headers[3] == ("sec-websocket-protocol"@, value));
    }
}

} // verus!
