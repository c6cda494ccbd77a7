//! What to do with one inbound request.
//!
//! A `CONNECT` request asks for a tunnel to the destination that its target
//! names; every other request is handed to the forwarding client. The
//! dispatcher keeps nothing from one request to the next.

use vstd::prelude::*;
use crate::target::{resolve, resolve_spec, text_view, TargetAddress, TargetView};
use crate::uri::{target_host, target_port, uri_host, uri_port};

verus! {

/// The status that tells the client that its tunnel stands.
pub const TUNNEL_ESTABLISHED: u16 = 200;

/// The status for a `CONNECT` whose target names no destination.
pub const BAD_REQUEST: u16 = 400;

/// The status for a request that could not be forwarded.
pub const BAD_GATEWAY: u16 = 502;

/// What the caller is to do for the client.
#[derive(Debug, PartialEq, Eq)]
pub enum Reply {
    /// Answer with this status and this body.
    Respond { status: u16, body: String },
    /// Answer with this status and an empty body, then run a tunnel to
    /// the destination. The answer goes out before the upstream proxy is
    /// dialed; if the upstream then fails, the tunnel is closed at once.
    Tunnel { status: u16, target: TargetAddress },
    /// Hand the request to the forwarding client.
    Forward,
    /// Hand the answer of the forwarding client to the client as it is.
    PassThrough,
    /// Nothing is to be sent.
    Nothing,
}

/// What a [`Reply`] stands for in contracts.
pub enum ReplyView {
    Respond { status: u16, body: Seq<char> },
    Tunnel { status: u16, target: TargetView },
    Forward,
    PassThrough,
    Nothing,
}

impl View for Reply {
    type V = ReplyView;

    open spec fn view(&self) -> ReplyView {
        match self {
            Reply::Respond { status, body } => ReplyView::Respond { status: *status, body: body@ },
            Reply::Tunnel { status, target } => ReplyView::Tunnel {
                status: *status,
                target: target@,
            },
            Reply::Forward => ReplyView::Forward,
            Reply::PassThrough => ReplyView::PassThrough,
            Reply::Nothing => ReplyView::Nothing,
        }
    }
}

/// Where the handling of one request stands.
#[derive(Clone, Copy, Debug, PartialEq, Eq, Structural)]
pub enum RequestState {
    /// Nothing is known of the request yet.
    Received,
    /// A `CONNECT` without a destination was refused. Final.
    Rejected,
    /// The tunnel of a `CONNECT` is set up or relays bytes.
    TunnelActive,
    /// The forwarding client has the request.
    Forwarding,
    /// The tunnel has ended. Final.
    Closed,
    /// The forwarded request has been answered. Final.
    Completed,
}

/// What the caller reports of one request.
#[derive(Debug, PartialEq, Eq)]
pub enum RequestEvent {
    /// The request has come in, with its method and its target as they
    /// stand on the request line.
    Arrived { method: String, target: String },
    /// The forwarding client has an answer.
    Forwarded,
    /// The forwarding client failed: the upstream was not reached, or the
    /// exchange with the origin broke.
    ForwardFailed(String),
    /// The tunnel session of the request is closed.
    TunnelFinished,
}

/// What a [`RequestEvent`] stands for in contracts. Of the target of a
/// request it holds the host and the port that `hyper` finds in it.
pub enum RequestEventView {
    Arrived { method: Seq<char>, host: Option<Seq<char>>, port: Option<u16> },
    Forwarded,
    ForwardFailed(Seq<char>),
    TunnelFinished,
}

impl View for RequestEvent {
    type V = RequestEventView;

    open spec fn view(&self) -> RequestEventView {
        match self {
            RequestEvent::Arrived { method, target } => RequestEventView::Arrived {
                method: method@,
                host: uri_host(target@),
                port: uri_port(target@),
            },
            RequestEvent::Forwarded => RequestEventView::Forwarded,
            RequestEvent::ForwardFailed(m) => RequestEventView::ForwardFailed(m@),
            RequestEvent::TunnelFinished => RequestEventView::TunnelFinished,
        }
    }
}

/// The method asks for a tunnel. Method names are case-sensitive.
pub open spec fn is_connect_spec(method: Seq<char>) -> bool {
    method == "CONNECT"@
}

/// The answer to a request with this method whose target has this host and
/// this port.
pub open spec fn route_spec(
    method: Seq<char>,
    host: Option<Seq<char>>,
    port: Option<u16>,
) -> ReplyView {
    if is_connect_spec(method) {
        match resolve_spec(host, port) {
            Ok(target) => ReplyView::Tunnel { status: TUNNEL_ESTABLISHED, target },
            Err(e) => ReplyView::Respond { status: BAD_REQUEST, body: e.text() },
        }
    } else {
        ReplyView::Forward
    }
}

/// The state that a request is in once `reply` has been given to its arrival.
pub open spec fn state_after(reply: ReplyView) -> RequestState {
    match reply {
        ReplyView::Tunnel { .. } => RequestState::TunnelActive,
        ReplyView::Forward => RequestState::Forwarding,
        _ => RequestState::Rejected,
    }
}

/// The state of a request after `event`, and what the caller is to do.
pub open spec fn handle_spec(state: RequestState, event: RequestEventView) -> (
    RequestState,
    ReplyView,
) {
    match (state, event) {
        (RequestState::Received, RequestEventView::Arrived { method, host, port }) => {
            let reply = route_spec(method, host, port);
            (state_after(reply), reply)
        },
        (RequestState::Forwarding, RequestEventView::Forwarded) => (
            RequestState::Completed,
            ReplyView::PassThrough,
        ),
        (RequestState::Forwarding, RequestEventView::ForwardFailed(m)) => (
            RequestState::Completed,
            ReplyView::Respond { status: BAD_GATEWAY, body: m },
        ),
        (RequestState::TunnelActive, RequestEventView::TunnelFinished) => (
            RequestState::Closed,
            ReplyView::Nothing,
        ),
        _ => (state, ReplyView::Nothing),
    }
}

impl RequestState {
    /// No event leads on from this state.
    pub open spec fn is_final(self) -> bool {
        self is Rejected || self is Closed || self is Completed
    }
}

/// Whether the method asks for a tunnel.
pub fn is_connect(method: &str) -> (b: bool)
    ensures
        b == is_connect_spec(method@),
{
    let given: String = method.to_owned();
    let wanted: String = "CONNECT".to_owned();
    given == wanted
}

/// Decides what to do with a request, given its method and the host and the
/// port found in its target.
///
/// A `CONNECT` with a host that is not empty and a port gets a tunnel; a
/// `CONNECT` without one of them is refused, and nothing is dialed for it.
/// Every other method is forwarded, whatever its target holds.
pub fn route(method: &str, host: Option<String>, port: Option<u16>) -> (reply: Reply)
    ensures
        reply@ == route_spec(method@, text_view(host), port),
{
    if is_connect(method) {
        match resolve(host, port) {
            Ok(target) => Reply::Tunnel { status: TUNNEL_ESTABLISHED, target },
            Err(e) => Reply::Respond { status: BAD_REQUEST, body: e.message() },
        }
    } else {
        Reply::Forward
    }
}

/// Decides what to do with a request, given its method and its target as
/// they stand on the request line. The host and the port are those that
/// `hyper` finds in the target.
pub fn dispatch(method: &str, target: &str) -> (reply: Reply)
    ensures
        reply@ == route_spec(method@, uri_host(target@), uri_port(target@)),
{
    let host = target_host(target);
    let port = target_port(target);
    route(method, host, port)
}

/// Takes one event of a request and says what the caller is to do next.
/// An event that does not belong to the state changes nothing.
pub fn handle(state: RequestState, event: RequestEvent) -> (next: (RequestState, Reply))
    ensures
        next.0 == handle_spec(state, event@).0,
        next.1@ == handle_spec(state, event@).1,
{
    match (state, event) {
        (RequestState::Received, RequestEvent::Arrived { method, target }) => {
            let reply = dispatch(method.as_str(), target.as_str());
            let after = match &reply {
                Reply::Tunnel { .. } => RequestState::TunnelActive,
                Reply::Forward => RequestState::Forwarding,
                _ => RequestState::Rejected,
            };
            (after, reply)
        },
        (RequestState::Forwarding, RequestEvent::Forwarded) => (
            RequestState::Completed,
            Reply::PassThrough,
        ),
        (RequestState::Forwarding, RequestEvent::ForwardFailed(m)) => (
            RequestState::Completed,
            Reply::Respond { status: BAD_GATEWAY, body: m },
        ),
        (RequestState::TunnelActive, RequestEvent::TunnelFinished) => (
            RequestState::Closed,
            Reply::Nothing,
        ),
        (state, _) => (state, Reply::Nothing),
    }
}

} // verus!
