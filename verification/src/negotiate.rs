//! The rules of the handshake: which request is a WebSocket handshake, and
//! which error rejects one that is not.

use crate::error::{status_of, WebSocketError};
use crate::headers::{bytes_of, contains_in, equals, equals_in, header_get, header_lookup, holds};
use vstd::prelude::*;
use vstd::string::StringSliceAdditionalSpecFns;
use vstd::utf8::{encode_utf8, encode_utf8_decode_utf8};

verus! {

/// The HTTP library's pending transport: a one-time handle that resolves
/// to the raw byte stream once the connection has switched protocols.
#[verifier::external_type_specification]
#[verifier::external_body]
pub struct ExOnUpgrade(hyper::upgrade::OnUpgrade);

/// The protocol version of a request.
#[derive(Clone, Copy, Debug, PartialEq, Eq, Structural)]
pub enum HttpVersion {
    Http09,
    Http10,
    Http11,
    Http2,
    Http3,
}

impl HttpVersion {
    /// Whether the version is HTTP/1.1 or older.
    pub open spec fn at_most_http11(self) -> bool {
        self == HttpVersion::Http09 || self == HttpVersion::Http10 || self == HttpVersion::Http11
    }

    /// Whether the version is HTTP/1.1 or older.
    pub fn is_at_most_http11(self) -> (yes: bool)
        ensures
            yes == self.at_most_http11(),
    {
        match self {
            HttpVersion::Http09 | HttpVersion::Http10 | HttpVersion::Http11 => true,
            _ => false,
        }
    }
}

/// What the negotiator reads of an inbound request.
#[derive(Debug)]
pub struct UpgradeRequest {
    /// The method, as the request spells it.
    pub method: String,
    pub version: HttpVersion,
    pub headers: http::HeaderMap<http::HeaderValue>,
    /// The protocol that an extended CONNECT names in `:protocol`.
    pub protocol: Option<String>,
    /// The pending transport, if the request can be upgraded.
    pub on_upgrade: Option<hyper::upgrade::OnUpgrade>,
}

/// The values of the five headers that a handshake is made of, each as the
/// request holds it first, or none where the request does not hold it.
#[derive(Clone, Debug, PartialEq, Eq)]
pub struct HandshakeHeaders {
    pub connection: Option<Vec<u8>>,
    pub upgrade: Option<Vec<u8>>,
    pub sec_websocket_key: Option<Vec<u8>>,
    pub sec_websocket_version: Option<Vec<u8>>,
    pub sec_websocket_protocol: Option<Vec<u8>>,
}

/// The mathematical value of [`HandshakeHeaders`].
pub struct HeadersView {
    pub connection: Option<Seq<u8>>,
    pub upgrade: Option<Seq<u8>>,
    pub sec_websocket_key: Option<Seq<u8>>,
    pub sec_websocket_version: Option<Seq<u8>>,
    pub sec_websocket_protocol: Option<Seq<u8>>,
}

/// The characters inside an optional text.
pub open spec fn chars_of(text: Option<String>) -> Option<Seq<char>> {
    match text {
        Some(text) => Some(text@),
        None => None,
    }
}

impl View for HandshakeHeaders {
    type V = HeadersView;

    open spec fn view(&self) -> HeadersView {
        HeadersView {
            connection: bytes_of(self.connection),
            upgrade: bytes_of(self.upgrade),
            sec_websocket_key: bytes_of(self.sec_websocket_key),
            sec_websocket_version: bytes_of(self.sec_websocket_version),
            sec_websocket_protocol: bytes_of(self.sec_websocket_protocol),
        }
    }
}

/// The handshake headers that a header map holds.
pub open spec fn headers_of(headers: http::HeaderMap<http::HeaderValue>) -> HeadersView {
    HeadersView {
        connection: header_lookup(headers, "connection"@),
        upgrade: header_lookup(headers, "upgrade"@),
        sec_websocket_key: header_lookup(headers, "sec-websocket-key"@),
        sec_websocket_version: header_lookup(headers, "sec-websocket-version"@),
        sec_websocket_protocol: header_lookup(headers, "sec-websocket-protocol"@),
    }
}

/// Whether a request goes down the extended-CONNECT path: the server
/// supports it and the request is HTTP/2 or later.
pub open spec fn uses_extended_connect(version: HttpVersion, http2: bool) -> bool {
    http2 && !version.at_most_http11()
}

/// The error that rejects a request, or none if it is a handshake. The
/// checks run in this order, and the first that fails decides:
///
/// - on the HTTP/1.1 path the method must be GET, `Connection` must contain
///   "upgrade", `Upgrade` must be "websocket", and `Sec-WebSocket-Key` must
///   be there (its absence is reported as a version error);
/// - on the extended-CONNECT path the method must be CONNECT and the
///   protocol pseudoheader "websocket";
/// - on both, `Sec-WebSocket-Version` must be "13", and the request must
///   carry a pending transport.
pub open spec fn verdict(
    method: Seq<char>,
    version: HttpVersion,
    headers: HeadersView,
    protocol: Option<Seq<char>>,
    upgradeable: bool,
    http2: bool,
) -> Option<WebSocketError> {
    if !uses_extended_connect(version, http2) && method != "GET"@ {
        Some(WebSocketError::MethodNotGet)
    } else if !uses_extended_connect(version, http2) && !holds(
        headers.connection,
        "upgrade".spec_bytes(),
    ) {
        Some(WebSocketError::InvalidConnectionHeader)
    } else if !uses_extended_connect(version, http2) && !equals(
        headers.upgrade,
        "websocket".spec_bytes(),
    ) {
        Some(WebSocketError::InvalidUpgradeHeader)
    } else if !uses_extended_connect(version, http2) && headers.sec_websocket_key is None {
        Some(WebSocketError::InvalidWebSocketVersionHeader)
    } else if uses_extended_connect(version, http2) && method != "CONNECT"@ {
        Some(WebSocketError::MethodNotConnect)
    } else if uses_extended_connect(version, http2) && protocol != Some("websocket"@) {
        Some(WebSocketError::InvalidProtocolPseudoheader)
    } else if !equals(headers.sec_websocket_version, "13".spec_bytes()) {
        Some(WebSocketError::InvalidWebSocketVersionHeader)
    } else if !upgradeable {
        Some(WebSocketError::ConnectionNotUpgradeable)
    } else {
        None
    }
}

/// The error that rejects a request, or none if it is a handshake.
pub open spec fn rejection(request: UpgradeRequest, http2: bool) -> Option<WebSocketError> {
    verdict(
        request.method@,
        request.version,
        headers_of(request.headers),
        chars_of(request.protocol),
        request.on_upgrade is Some,
        http2,
    )
}

/// Whether two texts are the same.
pub fn text_eq(left: &str, right: &str) -> (equal: bool)
    ensures
        equal == (left@ == right@),
{
    let a = left.as_bytes();
    let b = right.as_bytes();
    proof {
        encode_utf8_decode_utf8(left@);
        encode_utf8_decode_utf8(right@);
    }
    if a.len() != b.len() {
        return false;
    }
    let mut i: usize = 0;
    while i < a.len()
        invariant
            i <= a@.len(),
            a@.len() == b@.len(),
            a@ == encode_utf8(left@),
            b@ == encode_utf8(right@),
            forall|j: int| 0 <= j < i ==> a@[j] == b@[j],
        decreases a@.len() - i,
    {
        if a[i] != b[i] {
            return false;
        }
        i += 1;
    }
    assert(a@ =~= b@);
    true
}

/// Reads the five handshake headers out of a header map.
pub fn read_headers(headers: &http::HeaderMap<http::HeaderValue>) -> (found: HandshakeHeaders)
    ensures
        found@ == headers_of(*headers),
{
    HandshakeHeaders {
        connection: header_get(headers, "connection"),
        upgrade: header_get(headers, "upgrade"),
        sec_websocket_key: header_get(headers, "sec-websocket-key"),
        sec_websocket_version: header_get(headers, "sec-websocket-version"),
        sec_websocket_protocol: header_get(headers, "sec-websocket-protocol"),
    }
}

/// Holds a request to the rules of the handshake. `upgradeable` says
/// whether the request carries a pending transport, `http2` whether the
/// server takes WebSockets over extended CONNECT.
pub fn validate(
    method: &str,
    version: HttpVersion,
    headers: &HandshakeHeaders,
    protocol: &Option<String>,
    upgradeable: bool,
    http2: bool,
) -> (outcome: Result<(), WebSocketError>)
    ensures
        match verdict(method@, version, headers@, chars_of(*protocol), upgradeable, http2) {
            Some(error) => outcome == Err::<(), WebSocketError>(error),
            None => outcome is Ok,
        },
{
    if !http2 || version.is_at_most_http11() {
        if !text_eq(method, "GET") {
            return Err(WebSocketError::MethodNotGet);
        }
        if !contains_in(&headers.connection, "upgrade") {
            return Err(WebSocketError::InvalidConnectionHeader);
        }
        if !equals_in(&headers.upgrade, "websocket") {
            return Err(WebSocketError::InvalidUpgradeHeader);
        }
        if headers.sec_websocket_key.is_none() {
            return Err(WebSocketError::InvalidWebSocketVersionHeader);
        }
    } else {
        if !text_eq(method, "CONNECT") {
            return Err(WebSocketError::MethodNotConnect);
        }
        let is_websocket = match protocol {
            Some(protocol) => text_eq(protocol.as_str(), "websocket"),
            None => false,
        };
        if !is_websocket {
            return Err(WebSocketError::InvalidProtocolPseudoheader);
        }
    }
    if !equals_in(&headers.sec_websocket_version, "13") {
        return Err(WebSocketError::InvalidWebSocketVersionHeader);
    }
    if !upgradeable {
        return Err(WebSocketError::ConnectionNotUpgradeable);
    }
    Ok(())
}

/// A request on the HTTP/1.1 path whose method is not GET is rejected for
/// its method, whatever else it holds, and that rejection is answered with
/// status 405.
pub proof fn lemma_method_not_get(
    method: Seq<char>,
    version: HttpVersion,
    headers: HeadersView,
    protocol: Option<Seq<char>>,
    upgradeable: bool,
    http2: bool,
)
    requires
        !uses_extended_connect(version, http2),
        method != "GET"@,
    ensures
        verdict(method, version, headers, protocol, upgradeable, http2) == Some(
            WebSocketError::MethodNotGet,
        ),
        status_of(WebSocketError::MethodNotGet) == 405,
{
}

/// A GET request on the HTTP/1.1 path with a valid `Connection` header and
/// no `Upgrade` header is rejected for its `Upgrade` header, and that
/// rejection is answered with status 400.
pub proof fn lemma_missing_upgrade_header(
    version: HttpVersion,
    headers: HeadersView,
    protocol: Option<Seq<char>>,
    upgradeable: bool,
    http2: bool,
)
    requires
        !uses_extended_connect(version, http2),
        holds(headers.connection, "upgrade".spec_bytes()),
        headers.upgrade is None,
    ensures
        verdict("GET"@, version, headers, protocol, upgradeable, http2) == Some(
            WebSocketError::InvalidUpgradeHeader,
        ),
        status_of(WebSocketError::InvalidUpgradeHeader) == 400,
{
}

/// Whether a request passes the checks of its path that come before the
/// version header's: the method and, on the HTTP/1.1 path, the `Connection`
/// and `Upgrade` headers; on the other, the protocol pseudoheader.
pub open spec fn passes_path_checks(
    method: Seq<char>,
    version: HttpVersion,
    headers: HeadersView,
    protocol: Option<Seq<char>>,
    http2: bool,
) -> bool {
    if uses_extended_connect(version, http2) {
        method == "CONNECT"@ && protocol == Some("websocket"@)
    } else {
        &&& method == "GET"@
        &&& holds(headers.connection, "upgrade".spec_bytes())
        &&& equals(headers.upgrade, "websocket".spec_bytes())
    }
}

/// A request whose `Sec-WebSocket-Version` is not "13" is never accepted.
/// Once it has passed the checks of its path it is rejected for its
/// version header, whether or not it holds a key or a pending transport,
/// and that rejection is answered with status 400. (A request that fails a
/// check of its path is rejected for that one instead.)
pub proof fn lemma_wrong_version(
    method: Seq<char>,
    version: HttpVersion,
    headers: HeadersView,
    protocol: Option<Seq<char>>,
    upgradeable: bool,
    http2: bool,
)
    requires
        !equals(headers.sec_websocket_version, "13".spec_bytes()),
    ensures
        verdict(method, version, headers, protocol, upgradeable, http2) is Some,
        passes_path_checks(method, version, headers, protocol, http2) ==> verdict(
            method,
            version,
            headers,
            protocol,
            upgradeable,
            http2,
        ) == Some(WebSocketError::InvalidWebSocketVersionHeader),
        status_of(WebSocketError::InvalidWebSocketVersionHeader) == 400,
{
}

/// The order of the checks: an error of a later check means that every
/// earlier check of the path has passed.
pub proof fn lemma_check_order(
    method: Seq<char>,
    version: HttpVersion,
    headers: HeadersView,
    protocol: Option<Seq<char>>,
    upgradeable: bool,
    http2: bool,
)
    ensures
        verdict(method, version, headers, protocol, upgradeable, http2) == Some(
            WebSocketError::ConnectionNotUpgradeable,
        ) ==> {
            &&& passes_path_checks(method, version, headers, protocol, http2)
            &&& equals(headers.sec_websocket_version, "13".spec_bytes())
            &&& !upgradeable
        },
        verdict(method, version, headers, protocol, upgradeable, http2) is None ==> {
            &&& passes_path_checks(method, version, headers, protocol, http2)
            &&& equals(headers.sec_websocket_version, "13".spec_bytes())
            &&& upgradeable
            &&& !uses_extended_connect(version, http2) ==> headers.sec_websocket_key is Some
        },
{
}

} // verus!
