//! What holds of the dispatcher for every request.

use vstd::prelude::*;
use crate::dispatch::{
    handle_spec, is_connect_spec, route_spec, ReplyView, RequestEventView, RequestState,
    BAD_GATEWAY, BAD_REQUEST, TUNNEL_ESTABLISHED,
};
use crate::target::{TargetError, TargetView};

verus! {

/// The state of a request after a sequence of events, taken in order.
pub open spec fn request_run(state: RequestState, events: Seq<RequestEventView>) -> RequestState
    decreases events.len(),
{
    if events.len() == 0 {
        state
    } else {
        handle_spec(request_run(state, events.drop_last()), events.last()).0
    }
}

/// The reply opens a connection of some kind: a tunnel or a forwarded
/// request.
pub open spec fn reaches_upstream(reply: ReplyView) -> bool {
    reply is Tunnel || reply is Forward
}

/// A `CONNECT` whose target has a host that is not empty and a port is
/// answered with 200, and the tunnel goes to that host and port.
pub proof fn lemma_connect_with_destination_gets_tunnel(
    method: Seq<char>,
    host: Seq<char>,
    port: u16,
)
    requires
        is_connect_spec(method),
        host.len() > 0,
    ensures
        route_spec(method, Some(host), Some(port)) == (ReplyView::Tunnel {
            status: 200,
            target: TargetView { host, port },
        }),
        handle_spec(
            RequestState::Received,
            RequestEventView::Arrived { method, host: Some(host), port: Some(port) },
        ).0 is TunnelActive,
{
}

/// A `CONNECT` whose target lacks the host or the port is answered with 400
/// and an explanation, the request is then in its final state `Rejected`,
/// and no later event makes the dispatcher ask for a tunnel or a forward.
pub proof fn lemma_connect_without_destination_is_rejected(
    method: Seq<char>,
    host: Option<Seq<char>>,
    port: Option<u16>,
    later: RequestEventView,
)
    requires
        is_connect_spec(method),
        host is None || host->0.len() == 0 || port is None,
    ensures
        route_spec(method, host, port) matches ReplyView::Respond { status, body } && status
            == 400 && body == (if host is None || host->0.len() == 0 {
            TargetError::MissingHost.text()
        } else {
            TargetError::MissingPort.text()
        }),
        handle_spec(RequestState::Received, RequestEventView::Arrived { method, host, port }).0
            is Rejected,
        handle_spec(RequestState::Rejected, later) == (RequestState::Rejected, ReplyView::Nothing),
{
}

/// A request with any other method is handed to the forwarding client,
/// whatever its target holds: the dispatcher names no address to dial for
/// it.
pub proof fn lemma_other_methods_are_forwarded(
    method: Seq<char>,
    host: Option<Seq<char>>,
    port: Option<u16>,
)
    requires
        !is_connect_spec(method),
    ensures
        route_spec(method, host, port) is Forward,
        handle_spec(RequestState::Received, RequestEventView::Arrived { method, host, port })
            == (RequestState::Forwarding, ReplyView::Forward),
{
}

/// A forwarded request ends with the upstream's own answer, or with the
/// status 502 and the failure as the body: the client is never left
/// without an answer.
pub proof fn lemma_forwarding_always_answers(failure: Seq<char>)
    ensures
        handle_spec(RequestState::Forwarding, RequestEventView::Forwarded) == (
            RequestState::Completed,
            ReplyView::PassThrough,
        ),
        handle_spec(RequestState::Forwarding, RequestEventView::ForwardFailed(failure)) == (
            RequestState::Completed,
            ReplyView::Respond { status: 502, body: failure },
        ),
{
}

/// The only statuses that the dispatcher itself chooses are 200, 400 and
/// 502.
pub proof fn lemma_statuses(state: RequestState, event: RequestEventView)
    ensures
        handle_spec(state, event).1 matches ReplyView::Tunnel { status, .. } ==> status
            == TUNNEL_ESTABLISHED,
        handle_spec(state, event).1 matches ReplyView::Respond { status, .. } ==> status
            == BAD_REQUEST || status == BAD_GATEWAY,
{
}

/// In a final state every event is ignored.
pub proof fn lemma_final_states_stay(state: RequestState, event: RequestEventView)
    requires
        state.is_final(),
    ensures
        handle_spec(state, event) == (state, ReplyView::Nothing),
{
}

/// A tunnel or a forward is asked for upon the arrival of a request only,
/// so at most once for each request.
pub proof fn lemma_upstream_is_reached_on_arrival_only(
    state: RequestState,
    event: RequestEventView,
)
    requires
        reaches_upstream(handle_spec(state, event).1),
    ensures
        state is Received,
        event is Arrived,
        !(handle_spec(state, event).0 is Received),
{
}

/// Once a request is in a final state, no sequence of events leads out
/// of it.
pub proof fn lemma_final_states_absorb(state: RequestState, events: Seq<RequestEventView>)
    requires
        state.is_final(),
    ensures
        request_run(state, events) == state,
    decreases events.len(),
{
    if events.len() > 0 {
        lemma_final_states_absorb(state, events.drop_last());
    }
}

} // verus!
