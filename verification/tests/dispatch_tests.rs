use http_socks5_proxy::dispatch::{
    dispatch, handle, is_connect, route, Reply, RequestEvent, RequestState, BAD_GATEWAY,
    BAD_REQUEST, TUNNEL_ESTABLISHED,
};
use http_socks5_proxy::target::resolve;

fn arrived(method: &str, target: &str) -> RequestEvent {
    RequestEvent::Arrived { method: method.to_string(), target: target.to_string() }
}

#[test]
fn status_constants() {
    assert_eq!(TUNNEL_ESTABLISHED, 200);
    assert_eq!(BAD_REQUEST, 400);
    assert_eq!(BAD_GATEWAY, 502);
}

#[test]
fn connect_is_case_sensitive() {
    assert!(is_connect("CONNECT"));
    assert!(!is_connect("connect"));
    assert!(!is_connect("Connect"));
    assert!(!is_connect("CONNECT "));
    assert!(!is_connect(""));
    assert!(!is_connect("GET"));
}

#[test]
fn route_connect_with_destination() {
    let reply = route("CONNECT", Some("example.com".to_string()), Some(443));
    let target = resolve(Some("example.com".to_string()), Some(443)).unwrap();
    assert_eq!(reply, Reply::Tunnel { status: 200, target });
}

#[test]
fn route_connect_without_host() {
    let reply = route("CONNECT", None, Some(443));
    assert_eq!(
        reply,
        Reply::Respond { status: 400, body: "Parse host error".to_string() }
    );
}

#[test]
fn route_connect_with_empty_host() {
    let reply = route("CONNECT", Some(String::new()), Some(443));
    assert_eq!(
        reply,
        Reply::Respond { status: 400, body: "Parse host error".to_string() }
    );
}

#[test]
fn route_connect_without_port() {
    let reply = route("CONNECT", Some("example.com".to_string()), None);
    assert_eq!(
        reply,
        Reply::Respond { status: 400, body: "Parse port error".to_string() }
    );
}

#[test]
fn route_other_methods_forward() {
    for method in ["GET", "POST", "PUT", "DELETE", "HEAD", "OPTIONS", "PATCH", "connect"] {
        assert_eq!(route(method, Some("example.com".to_string()), Some(80)), Reply::Forward);
        assert_eq!(route(method, None, None), Reply::Forward);
    }
}

#[test]
fn dispatch_connect_request_line() {
    let reply = dispatch("CONNECT", "example.com:443");
    match reply {
        Reply::Tunnel { status, target } => {
            assert_eq!(status, 200);
            assert_eq!(target.host(), "example.com");
            assert_eq!(target.port(), 443);
        }
        other => panic!("unexpected reply {:?}", other),
    }
}

#[test]
fn dispatch_connect_missing_host() {
    assert_eq!(
        dispatch("CONNECT", ":443"),
        Reply::Respond { status: 400, body: "Parse host error".to_string() }
    );
}

#[test]
fn dispatch_connect_missing_port() {
    assert_eq!(
        dispatch("CONNECT", "example.com"),
        Reply::Respond { status: 400, body: "Parse port error".to_string() }
    );
}

#[test]
fn dispatch_get_is_forwarded() {
    assert_eq!(dispatch("GET", "http://example.com/index.html"), Reply::Forward);
    assert_eq!(dispatch("GET", "/"), Reply::Forward);
    assert_eq!(dispatch("POST", "not a uri"), Reply::Forward);
}

#[test]
fn handle_connect_opens_tunnel_then_closes() {
    let (state, reply) = handle(
        RequestState::Received,
        arrived("CONNECT", "example.com:443"),
    );
    assert_eq!(state, RequestState::TunnelActive);
    assert!(matches!(reply, Reply::Tunnel { status: 200, .. }));
    let (state, reply) = handle(state, RequestEvent::TunnelFinished);
    assert_eq!(state, RequestState::Closed);
    assert_eq!(reply, Reply::Nothing);
}

#[test]
fn handle_bad_connect_is_rejected_for_good() {
    let (state, reply) = handle(RequestState::Received, arrived("CONNECT", ":443"));
    assert_eq!(state, RequestState::Rejected);
    assert_eq!(
        reply,
        Reply::Respond { status: 400, body: "Parse host error".to_string() }
    );
    let (state, reply) = handle(state, arrived("CONNECT", "example.com:443"));
    assert_eq!(state, RequestState::Rejected);
    assert_eq!(reply, Reply::Nothing);
    let (state, reply) = handle(state, RequestEvent::TunnelFinished);
    assert_eq!(state, RequestState::Rejected);
    assert_eq!(reply, Reply::Nothing);
    let (state, reply) = handle(state, RequestEvent::Forwarded);
    assert_eq!(state, RequestState::Rejected);
    assert_eq!(reply, Reply::Nothing);
}

#[test]
fn handle_connect_without_port_is_rejected() {
    let (state, reply) = handle(RequestState::Received, arrived("CONNECT", "example.com"));
    assert_eq!(state, RequestState::Rejected);
    assert_eq!(
        reply,
        Reply::Respond { status: 400, body: "Parse port error".to_string() }
    );
}

#[test]
fn handle_forward_passes_answer_through() {
    let (state, reply) = handle(RequestState::Received, arrived("GET", "http://example.com/"));
    assert_eq!(state, RequestState::Forwarding);
    assert_eq!(reply, Reply::Forward);
    let (state, reply) = handle(state, RequestEvent::Forwarded);
    assert_eq!(state, RequestState::Completed);
    assert_eq!(reply, Reply::PassThrough);
}

#[test]
fn handle_forward_failure_answers_502() {
    let (state, _) = handle(RequestState::Received, arrived("GET", "http://example.com:80/"));
    let (state, reply) = handle(
        state,
        RequestEvent::ForwardFailed("connection refused".to_string()),
    );
    assert_eq!(state, RequestState::Completed);
    assert_eq!(
        reply,
        Reply::Respond { status: 502, body: "connection refused".to_string() }
    );
}

#[test]
fn handle_ignores_events_out_of_turn() {
    let cases = [
        (RequestState::Received, RequestEvent::Forwarded),
        (RequestState::Received, RequestEvent::TunnelFinished),
        (RequestState::Received, RequestEvent::ForwardFailed("x".to_string())),
        (RequestState::TunnelActive, RequestEvent::Forwarded),
        (RequestState::TunnelActive, arrived("GET", "/")),
        (RequestState::Forwarding, RequestEvent::TunnelFinished),
        (RequestState::Forwarding, arrived("CONNECT", "h:1")),
        (RequestState::Closed, RequestEvent::TunnelFinished),
        (RequestState::Completed, RequestEvent::Forwarded),
    ];
    for (state, event) in cases {
        let (next, reply) = handle(state, event);
        assert_eq!(next, state);
        assert_eq!(reply, Reply::Nothing);
    }
}
