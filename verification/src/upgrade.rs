//! The upgrade negotiator: the upgrade that a handshake yields, the fluent
//! configuration of it, and the hand-off of the connection once the
//! response is made.

use crate::error::WebSocketError;
use crate::headers::bytes_of;
use crate::negotiate::{
    headers_of, read_headers, rejection, uses_extended_connect, validate, UpgradeRequest,
};
use crate::response::{handshake_response, response_of, ResponseView, UpgradeResponse};
use crate::sign::accept_token;
use crate::websocket::WebSocket;
use vstd::prelude::*;
use vstd::string::StringSliceAdditionalSpecFns;
use vstd::utf8::encode_utf8;

verus! {

/// The framing library's configuration, never looked into here.
#[verifier::external_type_specification]
#[verifier::external_body]
pub struct ExConfig(tokio_websockets::Config);

/// The framing library's limits, never looked into here.
#[verifier::external_type_specification]
#[verifier::external_body]
pub struct ExLimits(tokio_websockets::Limits);

/// A hook that takes the error of a failed upgrade. It is called at most
/// once, and only when the transport fails.
pub trait OnFailedUpgrade: Send + 'static {
    /// The errors that the hook may be called with: all of them, unless
    /// the implementation says otherwise.
    open spec fn accepts(&self, error: WebSocketError) -> bool {
        true
    }

    /// What the hook has done once it has taken `error`: nothing that can
    /// be stated, unless the implementation says otherwise.
    open spec fn handled(&self, error: WebSocketError) -> bool {
        true
    }

    fn call(self, error: WebSocketError)
        requires
            self.accepts(error),
        ensures
            self.handled(error),
    ;
}

impl<F> OnFailedUpgrade for F where F: FnOnce(WebSocketError) + Send + 'static {
    open spec fn accepts(&self, error: WebSocketError) -> bool {
        call_requires(*self, (error,))
    }

    open spec fn handled(&self, error: WebSocketError) -> bool {
        call_ensures(*self, (error,), ())
    }

    fn call(self, error: WebSocketError) {
        self(error)
    }
}

/// The hook that drops the error.
#[non_exhaustive]
#[derive(Debug)]
pub struct DefaultOnFailedUpgrade;

impl OnFailedUpgrade for DefaultOnFailedUpgrade {
    #[inline]
    fn call(self, _error: WebSocketError) {
    }
}

/// `tokio_websockets::Config::default`.
#[verifier::external_body]
fn default_config() -> (config: tokio_websockets::Config) {
    tokio_websockets::Config::default()
}

/// `tokio_websockets::Limits::default`.
#[verifier::external_body]
fn default_limits() -> (limits: tokio_websockets::Limits) {
    tokio_websockets::Limits::default()
}

/// An accepted handshake: what its response and its connection will be
/// made of.
#[derive(Debug)]
pub struct WebSocketUpgrade<F = DefaultOnFailedUpgrade> {
    config: tokio_websockets::Config,
    limits: tokio_websockets::Limits,
    protocol: Option<Vec<u8>>,
    /// `None` if HTTP/2+ WebSockets are used.
    sec_websocket_key: Option<Vec<u8>>,
    on_upgrade: hyper::upgrade::OnUpgrade,
    on_failed_upgrade: F,
    sec_websocket_protocol: Option<Vec<u8>>,
}

/// The mathematical value of a [`WebSocketUpgrade`].
pub struct UpgradeView<F> {
    pub config: tokio_websockets::Config,
    pub limits: tokio_websockets::Limits,
    /// The subprotocol that was negotiated.
    pub protocol: Option<Seq<u8>>,
    /// The client's handshake key; none on the extended-CONNECT path.
    pub key: Option<Seq<u8>>,
    pub on_upgrade: hyper::upgrade::OnUpgrade,
    pub on_failed_upgrade: F,
    /// The `Sec-WebSocket-Protocol` header as the client sent it.
    pub requested_protocol: Option<Seq<u8>>,
}

impl<F> View for WebSocketUpgrade<F> {
    type V = UpgradeView<F>;

    closed spec fn view(&self) -> UpgradeView<F> {
        UpgradeView {
            config: self.config,
            limits: self.limits,
            protocol: bytes_of(self.protocol),
            key: bytes_of(self.sec_websocket_key),
            on_upgrade: self.on_upgrade,
            on_failed_upgrade: self.on_failed_upgrade,
            requested_protocol: bytes_of(self.sec_websocket_protocol),
        }
    }
}

/// The upgrade that a handshake yields: the client's key on the HTTP/1.1
/// path and none on the other, the request's pending transport, the
/// subprotocols as the client asked for them, none negotiated, and the hook
/// that drops the error. Configuration and limits are the framing
/// library's defaults.
pub open spec fn accepted(
    request: UpgradeRequest,
    http2: bool,
    upgrade: UpgradeView<DefaultOnFailedUpgrade>,
) -> bool {
    &&& upgrade.key == if uses_extended_connect(request.version, http2) {
        None
    } else {
        headers_of(request.headers).sec_websocket_key
    }
    &&& upgrade.protocol is None
    &&& upgrade.requested_protocol == headers_of(request.headers).sec_websocket_protocol
    &&& Some(upgrade.on_upgrade) == request.on_upgrade
    &&& upgrade.on_failed_upgrade == DefaultOnFailedUpgrade
}

impl WebSocketUpgrade<DefaultOnFailedUpgrade> {
    /// Extracts the upgrade from a request. `http2` says whether the server
    /// takes WebSockets over extended CONNECT.
    ///
    /// A request that is rejected is left as it was; from one that is
    /// accepted the pending transport is taken.
    pub fn from_request_parts(parts: &mut UpgradeRequest, http2: bool) -> (result: Result<
        WebSocketUpgrade<DefaultOnFailedUpgrade>,
        WebSocketError,
    >)
        ensures
            match rejection(*old(parts), http2) {
                Some(error) => {
                    &&& result matches Err(e) && e == error
                    &&& *final(parts) == *old(parts)
                },
                None => {
                    &&& result matches Ok(upgrade) && accepted(*old(parts), http2, upgrade@)
                    &&& *final(parts) == (UpgradeRequest { on_upgrade: None, ..*old(parts) })
                },
            },
    {
        let found = read_headers(&parts.headers);
        let upgradeable = parts.on_upgrade.is_some();
        match validate(
            parts.method.as_str(),
            parts.version,
            &found,
            &parts.protocol,
            upgradeable,
            http2,
        ) {
            Err(error) => Err(error),
            Ok(()) => {
                let sec_websocket_key = if !http2 || parts.version.is_at_most_http11() {
                    found.sec_websocket_key
                } else {
                    None
                };
                let on_upgrade = parts.on_upgrade.take().unwrap();
                Ok(
                    WebSocketUpgrade {
                        config: default_config(),
                        limits: default_limits(),
                        protocol: None,
                        sec_websocket_key,
                        on_upgrade,
                        sec_websocket_protocol: found.sec_websocket_protocol,
                        on_failed_upgrade: DefaultOnFailedUpgrade,
                    },
                )
            },
        }
    }
}

impl<F> WebSocketUpgrade<F> {
    /// Replaces the framing configuration.
    pub fn config(self, config: tokio_websockets::Config) -> (upgrade: WebSocketUpgrade<F>)
        ensures
            upgrade@ == (UpgradeView { config, ..self@ }),
    {
        let mut upgrade = self;
        upgrade.config = config;
        upgrade
    }

    /// Replaces the framing limits.
    pub fn limits(self, limits: tokio_websockets::Limits) -> (upgrade: WebSocketUpgrade<F>)
        ensures
            upgrade@ == (UpgradeView { limits, ..self@ }),
    {
        let mut upgrade = self;
        upgrade.limits = limits;
        upgrade
    }

    /// Replaces the hook that is called if the transport fails. The hook
    /// that was there is dropped unused.
    pub fn on_failed_upgrade<C>(self, callback: C) -> (upgrade: WebSocketUpgrade<C>) where
        C: OnFailedUpgrade,

        ensures
            upgrade@ == (UpgradeView {
                config: self@.config,
                limits: self@.limits,
                protocol: self@.protocol,
                key: self@.key,
                on_upgrade: self@.on_upgrade,
                on_failed_upgrade: callback,
                requested_protocol: self@.requested_protocol,
            }),
    {
        WebSocketUpgrade {
            config: self.config,
            limits: self.limits,
            protocol: self.protocol,
            sec_websocket_key: self.sec_websocket_key,
            on_upgrade: self.on_upgrade,
            on_failed_upgrade: callback,
            sec_websocket_protocol: self.sec_websocket_protocol,
        }
    }

    /// The framing configuration as it stands.
    pub fn current_config(&self) -> (config: &tokio_websockets::Config)
        ensures
            *config == self@.config,
    {
        &self.config
    }

    /// The client's handshake key; none on the extended-CONNECT path.
    pub fn sec_websocket_key(&self) -> (key: Option<&Vec<u8>>)
        ensures
            key is Some <==> self@.key is Some,
            key matches Some(bytes) ==> self@.key == Some(bytes@),
    {
        self.sec_websocket_key.as_ref()
    }

    /// The `Sec-WebSocket-Protocol` header as the client sent it.
    pub fn sec_websocket_protocol(&self) -> (value: Option<&Vec<u8>>)
        ensures
            value is Some <==> self@.requested_protocol is Some,
            value matches Some(bytes) ==> self@.requested_protocol == Some(bytes@),
    {
        self.sec_websocket_protocol.as_ref()
    }

    /// The subprotocol that was negotiated.
    pub fn protocol(&self) -> (value: Option<&Vec<u8>>)
        ensures
            value is Some <==> self@.protocol is Some,
            value matches Some(bytes) ==> self@.protocol == Some(bytes@),
    {
        self.protocol.as_ref()
    }
}

/// What is left of an upgrade once its response is made: the parts of the
/// connection to come, and the hook for the case that it never comes.
#[derive(Debug)]
pub struct Handoff<F> {
    config: tokio_websockets::Config,
    limits: tokio_websockets::Limits,
    protocol: Option<Vec<u8>>,
    on_failed_upgrade: F,
}

/// The server-side connection that the framing library sets up on a raw
/// byte stream under a configuration and limits.
pub uninterp spec fn served(
    upgraded: hyper::upgrade::Upgraded,
    config: tokio_websockets::Config,
    limits: tokio_websockets::Limits,
) -> tokio_websockets::WebSocketStream<hyper_util::rt::TokioIo<hyper::upgrade::Upgraded>>;

/// Frames a raw byte stream as a server-side WebSocket connection:
/// `hyper_util::rt::TokioIo::new`, then `tokio_websockets::server::Builder`
/// with `config`, `limits` and `serve`. Nothing is read or written yet.
/// Trusted: the result is the connection that `served` names, made of the
/// stream, the configuration and the limits alone.
#[verifier::external_body]
fn serve(
    upgraded: hyper::upgrade::Upgraded,
    config: tokio_websockets::Config,
    limits: tokio_websockets::Limits,
) -> (stream: tokio_websockets::WebSocketStream<hyper_util::rt::TokioIo<hyper::upgrade::Upgraded>>)
    ensures
        stream == served(upgraded, config, limits),
{
    tokio_websockets::server::Builder::new().config(config).limits(limits).serve(
        hyper_util::rt::TokioIo::new(upgraded),
    )
}

impl<F> Handoff<F> {
    /// The subprotocol that the connection will carry.
    pub closed spec fn protocol(&self) -> Option<Seq<u8>> {
        bytes_of(self.protocol)
    }

    /// The hook for the failure path.
    pub closed spec fn hook(&self) -> F {
        self.on_failed_upgrade
    }

    /// The framing configuration of the connection.
    pub closed spec fn config(&self) -> tokio_websockets::Config {
        self.config
    }

    /// The framing limits of the connection.
    pub closed spec fn limits(&self) -> tokio_websockets::Limits {
        self.limits
    }

    /// The transport became a raw byte stream: frames it with the
    /// configuration and limits of the upgrade. The hook is dropped
    /// uncalled.
    pub fn build(self, upgraded: hyper::upgrade::Upgraded) -> (socket: WebSocket)
        ensures
            socket.stream() == served(upgraded, self.config(), self.limits()),
            bytes_of(socket.negotiated()) == self.protocol(),
    {
        let stream = serve(upgraded, self.config, self.limits);
        WebSocket::new(stream, self.protocol)
    }
}

impl<F: OnFailedUpgrade> Handoff<F> {
    /// The transport failed: hands the cause to the hook, as a failed
    /// upgrade. This consumes the hand-off, so the hook is called once.
    pub fn fail(self, cause: hyper::Error)
        requires
            self.hook().accepts(WebSocketError::UpgradeFailed(cause)),
        ensures
            self.hook().handled(WebSocketError::UpgradeFailed(cause)),
    {
        self.on_failed_upgrade.call(WebSocketError::UpgradeFailed(cause))
    }
}

impl<F: OnFailedUpgrade> WebSocketUpgrade<F> {
    /// Ends the negotiation: yields the response that is owed to the client
    /// at once, the pending transport to await, and the hand-off that
    /// finishes the upgrade when the transport has resolved.
    #[must_use]
    pub fn on_upgrade(self) -> (parts: (UpgradeResponse, hyper::upgrade::OnUpgrade, Handoff<F>))
        ensures
            parts.0@ == response_of(self@.key, self@.protocol),
            parts.1 == self@.on_upgrade,
            parts.2.protocol() == self@.protocol,
            parts.2.hook() == self@.on_failed_upgrade,
            parts.2.config() == self@.config,
            parts.2.limits() == self@.limits,
    {
        let response = handshake_response(self.sec_websocket_key.as_ref(), self.protocol.as_ref());
        let handoff = Handoff {
            config: self.config,
            limits: self.limits,
            protocol: self.protocol,
            on_failed_upgrade: self.on_failed_upgrade,
        };
        (response, self.on_upgrade, handoff)
    }
}

/// The response of a successful negotiation. On the extended-CONNECT path
/// it is a bare 200: empty body, no headers, so neither `Upgrade` nor
/// `Connection`. On the HTTP/1.1 path it is status 101 with `Connection:
/// upgrade`, `Upgrade: websocket` and the accept token that the signer
/// computes for the key that the request supplied, and an empty body.
pub proof fn lemma_negotiated_response(
    request: UpgradeRequest,
    http2: bool,
    upgrade: UpgradeView<DefaultOnFailedUpgrade>,
)
    requires
        rejection(request, http2) is None,
        accepted(request, http2, upgrade),
    ensures
        uses_extended_connect(request.version, http2) ==> response_of(upgrade.key, upgrade.protocol)
            == (ResponseView { status: 200, headers: Seq::empty(), body: Seq::empty() }),
        !uses_extended_connect(request.version, http2) ==> {
            &&& headers_of(request.headers).sec_websocket_key matches Some(key)
            &&& response_of(upgrade.key, upgrade.protocol) == (ResponseView {
                status: 101,
                headers: seq![
                    ("connection"@, "upgrade".spec_bytes()),
                    ("upgrade"@, "websocket".spec_bytes()),
                    ("sec-websocket-accept"@, encode_utf8(accept_token(key))),
                ],
                body: Seq::empty(),
            })
        },
{
}

} // verus!
