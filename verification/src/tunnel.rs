//! One tunnel, from the client's upgrade to the close of both streams.
//!
//! The session is a state machine. The caller upgrades the client
//! connection, dials the upstream proxy, lets it negotiate the destination
//! and copies bytes both ways; after each of these it reports an [`Event`],
//! and [`TunnelSession::step`] answers with the next [`Action`].

use vstd::prelude::*;
use crate::target::{TargetAddress, TargetView};

verus! {

/// One of the two ways in which bytes flow through a tunnel.
#[derive(Clone, Copy, Debug, PartialEq, Eq, Structural)]
pub enum Direction {
    ClientToUpstream,
    UpstreamToClient,
}

/// Where the copy of one direction stands.
#[derive(Clone, Copy, Debug, PartialEq, Eq, Structural)]
pub enum CopyState {
    /// The source has neither ended nor failed yet.
    Running,
    /// The source reached its end after this many bytes.
    Finished(u64),
    /// Reading or writing failed.
    Failed,
}

/// The stretch of a tunnel's life that a session is in.
#[derive(Clone, Copy, Debug, PartialEq, Eq, Structural)]
pub enum Phase {
    /// Waiting for the client connection to become a raw stream.
    Upgrading,
    /// Waiting for the TCP connection to the upstream proxy.
    Dialing,
    /// Waiting for the upstream proxy to reach the destination.
    Negotiating,
    /// Bytes are copied; at least one direction is still running.
    Relaying,
    /// Both streams are closed.
    Closed,
}

/// The bytes that a tunnel carried, by direction.
#[derive(Clone, Copy, Debug, PartialEq, Eq, Structural)]
pub struct RelayStats {
    pub client_to_upstream: u64,
    pub upstream_to_client: u64,
}

/// Why no byte pipe to the destination could be had.
#[derive(Debug, PartialEq, Eq)]
pub enum ConnectError {
    /// The TCP connection to the upstream proxy failed.
    DialFailed(String),
    /// The upstream proxy was reached but the negotiation failed.
    HandshakeFailed(String),
}

/// The failure of one copy direction.
#[derive(Debug, PartialEq, Eq)]
pub struct RelayError {
    pub direction: Direction,
    pub message: String,
}

/// Why a tunnel ended without statistics.
#[derive(Debug, PartialEq, Eq)]
pub enum TunnelError {
    /// The client connection could not be turned into a raw stream.
    Upgrade(String),
    /// The upstream connection was not established.
    Connect(ConnectError),
    /// A copy direction failed; of two failures the earlier one is kept.
    Relay(RelayError),
}

/// What the caller reports to a session.
#[derive(Debug, PartialEq, Eq)]
pub enum Event {
    Upgraded,
    UpgradeFailed(String),
    Dialed,
    DialFailed(String),
    Negotiated,
    HandshakeFailed(String),
    /// The source of a direction reached its end after this many bytes.
    CopyFinished(Direction, u64),
    CopyFailed(Direction, String),
}

/// What a session asks of the caller.
#[derive(Debug, PartialEq, Eq)]
pub enum Action {
    /// Open a TCP connection to this address.
    Dial(String),
    /// Ask the upstream proxy, without credentials, for this destination.
    Negotiate(TargetAddress),
    /// Start copying in both directions.
    Relay,
    /// Keep the other direction running.
    Wait,
    /// Close both streams; the session is over.
    Close,
    /// The event does not belong to this phase; nothing changes.
    Ignore,
}

pub enum ConnectErrorView {
    DialFailed(Seq<char>),
    HandshakeFailed(Seq<char>),
}

pub struct RelayErrorView {
    pub direction: Direction,
    pub message: Seq<char>,
}

pub enum TunnelErrorView {
    Upgrade(Seq<char>),
    Connect(ConnectErrorView),
    Relay(RelayErrorView),
}

pub enum EventView {
    Upgraded,
    UpgradeFailed(Seq<char>),
    Dialed,
    DialFailed(Seq<char>),
    Negotiated,
    HandshakeFailed(Seq<char>),
    CopyFinished(Direction, u64),
    CopyFailed(Direction, Seq<char>),
}

pub enum ActionView {
    Dial(Seq<char>),
    Negotiate(TargetView),
    Relay,
    Wait,
    Close,
    Ignore,
}

impl View for ConnectError {
    type V = ConnectErrorView;

    open spec fn view(&self) -> ConnectErrorView {
        match self {
            ConnectError::DialFailed(m) => ConnectErrorView::DialFailed(m@),
            ConnectError::HandshakeFailed(m) => ConnectErrorView::HandshakeFailed(m@),
        }
    }
}

impl View for RelayError {
    type V = RelayErrorView;

    open spec fn view(&self) -> RelayErrorView {
        RelayErrorView { direction: self.direction, message: self.message@ }
    }
}

impl View for TunnelError {
    type V = TunnelErrorView;

    open spec fn view(&self) -> TunnelErrorView {
        match self {
            TunnelError::Upgrade(m) => TunnelErrorView::Upgrade(m@),
            TunnelError::Connect(e) => TunnelErrorView::Connect(e@),
            TunnelError::Relay(e) => TunnelErrorView::Relay(e@),
        }
    }
}

impl View for Event {
    type V = EventView;

    open spec fn view(&self) -> EventView {
        match self {
            Event::Upgraded => EventView::Upgraded,
            Event::UpgradeFailed(m) => EventView::UpgradeFailed(m@),
            Event::Dialed => EventView::Dialed,
            Event::DialFailed(m) => EventView::DialFailed(m@),
            Event::Negotiated => EventView::Negotiated,
            Event::HandshakeFailed(m) => EventView::HandshakeFailed(m@),
            Event::CopyFinished(d, n) => EventView::CopyFinished(*d, *n),
            Event::CopyFailed(d, m) => EventView::CopyFailed(*d, m@),
        }
    }
}

impl View for Action {
    type V = ActionView;

    open spec fn view(&self) -> ActionView {
        match self {
            Action::Dial(a) => ActionView::Dial(a@),
            Action::Negotiate(t) => ActionView::Negotiate(t@),
            Action::Relay => ActionView::Relay,
            Action::Wait => ActionView::Wait,
            Action::Close => ActionView::Close,
            Action::Ignore => ActionView::Ignore,
        }
    }
}

/// What a [`TunnelSession`] stands for in contracts.
pub struct SessionView {
    /// The address of the upstream proxy.
    pub proxy: Seq<char>,
    /// The destination asked of the upstream proxy.
    pub target: TargetView,
    pub phase: Phase,
    pub client_to_upstream: CopyState,
    pub upstream_to_client: CopyState,
    /// The first failure, if there was one.
    pub error: Option<TunnelErrorView>,
}

impl Direction {
    /// The other direction.
    pub open spec fn opposite(self) -> Direction {
        match self {
            Direction::ClientToUpstream => Direction::UpstreamToClient,
            Direction::UpstreamToClient => Direction::ClientToUpstream,
        }
    }
}

impl CopyState {
    /// The direction has reached its end or failed.
    pub open spec fn ended(self) -> bool {
        !(self is Running)
    }

    /// The bytes counted for a direction: those of a finished copy, else none.
    pub open spec fn bytes(self) -> u64 {
        match self {
            CopyState::Finished(n) => n,
            _ => 0,
        }
    }
}

impl SessionView {
    /// A session that has seen no event.
    pub open spec fn initial(proxy: Seq<char>, target: TargetView) -> SessionView {
        SessionView {
            proxy,
            target,
            phase: Phase::Upgrading,
            client_to_upstream: CopyState::Running,
            upstream_to_client: CopyState::Running,
            error: None,
        }
    }

    /// Where the copy of direction `d` stands.
    pub open spec fn progress(self, d: Direction) -> CopyState {
        match d {
            Direction::ClientToUpstream => self.client_to_upstream,
            Direction::UpstreamToClient => self.upstream_to_client,
        }
    }

    /// Both directions have ended.
    pub open spec fn both_ended(self) -> bool {
        self.client_to_upstream.ended() && self.upstream_to_client.ended()
    }

    /// The error is the failure of a direction that is marked as failed.
    pub open spec fn relay_error_matches(self) -> bool {
        match self.error {
            Some(TunnelErrorView::Relay(e)) => self.progress(e.direction) is Failed,
            Some(_) => false,
            None => !(self.client_to_upstream is Failed) && !(self.upstream_to_client is Failed),
        }
    }

    /// What holds of every session.
    ///
    /// Before the relay no direction has moved and nothing has failed. While
    /// relaying at least one direction is running. A closed session either
    /// never relayed, and says why, or has seen both directions end.
    pub open spec fn inv(self) -> bool {
        match self.phase {
            Phase::Upgrading | Phase::Dialing | Phase::Negotiating => {
                &&& self.client_to_upstream is Running
                &&& self.upstream_to_client is Running
                &&& self.error is None
            },
            Phase::Relaying => {
                &&& !self.both_ended()
                &&& self.relay_error_matches()
            },
            Phase::Closed => {
                ||| {
                    &&& self.client_to_upstream is Running
                    &&& self.upstream_to_client is Running
                    &&& (self.error matches Some(e) && !(e is Relay))
                }
                ||| {
                    &&& self.both_ended()
                    &&& self.relay_error_matches()
                }
            },
        }
    }

    /// The session closed with `error`.
    pub open spec fn failed(self, error: TunnelErrorView) -> SessionView {
        SessionView { phase: Phase::Closed, error: Some(error), ..self }
    }

    /// The session in phase `phase`.
    pub open spec fn in_phase(self, phase: Phase) -> SessionView {
        SessionView { phase, ..self }
    }

    /// The session with direction `d` moved to `state`.
    pub open spec fn with_progress(self, d: Direction, state: CopyState) -> SessionView {
        match d {
            Direction::ClientToUpstream => SessionView { client_to_upstream: state, ..self },
            Direction::UpstreamToClient => SessionView { upstream_to_client: state, ..self },
        }
    }

    /// The session after direction `d` has ended in `state`, with `error`
    /// kept if it is the first. The session closes when the other direction
    /// has ended before.
    pub open spec fn after_copy(
        self,
        d: Direction,
        state: CopyState,
        error: Option<TunnelErrorView>,
    ) -> (SessionView, ActionView) {
        let moved = self.with_progress(d, state);
        let noted = SessionView {
            error: if self.error is Some {
                self.error
            } else {
                error
            },
            ..moved
        };
        if noted.both_ended() {
            (noted.in_phase(Phase::Closed), ActionView::Close)
        } else {
            (noted, ActionView::Wait)
        }
    }

    /// The session after `event`, and what the caller is to do.
    pub open spec fn step(self, event: EventView) -> (SessionView, ActionView) {
        match (self.phase, event) {
            (Phase::Upgrading, EventView::Upgraded) => (
                self.in_phase(Phase::Dialing),
                ActionView::Dial(self.proxy),
            ),
            (Phase::Upgrading, EventView::UpgradeFailed(m)) => (
                self.failed(TunnelErrorView::Upgrade(m)),
                ActionView::Close,
            ),
            (Phase::Dialing, EventView::Dialed) => (
                self.in_phase(Phase::Negotiating),
                ActionView::Negotiate(self.target),
            ),
            (Phase::Dialing, EventView::DialFailed(m)) => (
                self.failed(TunnelErrorView::Connect(ConnectErrorView::DialFailed(m))),
                ActionView::Close,
            ),
            (Phase::Negotiating, EventView::Negotiated) => (
                self.in_phase(Phase::Relaying),
                ActionView::Relay,
            ),
            (Phase::Negotiating, EventView::HandshakeFailed(m)) => (
                self.failed(TunnelErrorView::Connect(ConnectErrorView::HandshakeFailed(m))),
                ActionView::Close,
            ),
            (Phase::Relaying, EventView::CopyFinished(d, n)) => if self.progress(d) is Running {
                self.after_copy(d, CopyState::Finished(n), None)
            } else {
                (self, ActionView::Ignore)
            },
            (Phase::Relaying, EventView::CopyFailed(d, m)) => if self.progress(d) is Running {
                self.after_copy(
                    d,
                    CopyState::Failed,
                    Some(TunnelErrorView::Relay(RelayErrorView { direction: d, message: m })),
                )
            } else {
                (self, ActionView::Ignore)
            },
            _ => (self, ActionView::Ignore),
        }
    }

    /// How the tunnel ended: nothing while it is open, then the bytes
    /// carried by each direction, or the first failure.
    pub open spec fn outcome(self) -> Option<Result<RelayStats, TunnelErrorView>> {
        if self.phase is Closed {
            match self.error {
                Some(e) => Some(Err(e)),
                None => Some(
                    Ok(
                        RelayStats {
                            client_to_upstream: self.client_to_upstream.bytes(),
                            upstream_to_client: self.upstream_to_client.bytes(),
                        },
                    ),
                ),
            }
        } else {
            None
        }
    }
}

impl Clone for ConnectError {
    fn clone(&self) -> (e: ConnectError)
        ensures
            e@ == self@,
    {
        match self {
            ConnectError::DialFailed(m) => ConnectError::DialFailed(m.clone()),
            ConnectError::HandshakeFailed(m) => ConnectError::HandshakeFailed(m.clone()),
        }
    }
}

impl Clone for RelayError {
    fn clone(&self) -> (e: RelayError)
        ensures
            e@ == self@,
    {
        RelayError { direction: self.direction, message: self.message.clone() }
    }
}

impl Clone for TunnelError {
    fn clone(&self) -> (e: TunnelError)
        ensures
            e@ == self@,
    {
        match self {
            TunnelError::Upgrade(m) => TunnelError::Upgrade(m.clone()),
            TunnelError::Connect(e) => TunnelError::Connect(e.clone()),
            TunnelError::Relay(e) => TunnelError::Relay(e.clone()),
        }
    }
}

impl TunnelErrorView {
    /// The line that tells of the failure. A failed negotiation is told in
    /// fixed words, whatever the upstream proxy said; every other failure in
    /// the words it came with.
    pub open spec fn text(self) -> Seq<char> {
        match self {
            TunnelErrorView::Upgrade(m) => m,
            TunnelErrorView::Connect(ConnectErrorView::DialFailed(m)) => m,
            TunnelErrorView::Connect(ConnectErrorView::HandshakeFailed(_)) =>
                "Connect socks5 server error"@,
            TunnelErrorView::Relay(e) => e.message,
        }
    }
}

impl TunnelError {
    /// The line that tells of the failure.
    pub fn message(&self) -> (m: String)
        ensures
            m@ == self@.text(),
    {
        match self {
            TunnelError::Upgrade(m) => m.clone(),
            TunnelError::Connect(ConnectError::DialFailed(m)) => m.clone(),
            TunnelError::Connect(ConnectError::HandshakeFailed(_)) =>
                "Connect socks5 server error".to_owned(),
            TunnelError::Relay(e) => e.message.clone(),
        }
    }
}

/// The view of an optional failure.
pub open spec fn error_view(error: Option<TunnelError>) -> Option<TunnelErrorView> {
    match error {
        Some(e) => Some(e@),
        None => None,
    }
}

/// The view of what [`TunnelSession::outcome`] returns.
pub open spec fn outcome_view(outcome: Option<Result<RelayStats, TunnelError>>) -> Option<
    Result<RelayStats, TunnelErrorView>,
> {
    match outcome {
        Some(Ok(stats)) => Some(Ok(stats)),
        Some(Err(e)) => Some(Err(e@)),
        None => None,
    }
}

/// One tunnel between a client and a destination, by way of the upstream
/// proxy. It pairs one client stream with one upstream connection and is
/// used for one `CONNECT` request only.
#[derive(Debug)]
pub struct TunnelSession {
    proxy: String,
    target: TargetAddress,
    phase: Phase,
    client_to_upstream: CopyState,
    upstream_to_client: CopyState,
    error: Option<TunnelError>,
}

impl View for TunnelSession {
    type V = SessionView;

    closed spec fn view(&self) -> SessionView {
        SessionView {
            proxy: self.proxy@,
            target: self.target@,
            phase: self.phase,
            client_to_upstream: self.client_to_upstream,
            upstream_to_client: self.upstream_to_client,
            error: error_view(self.error),
        }
    }
}

impl TunnelSession {
    #[verifier::type_invariant]
    spec fn valid(&self) -> bool {
        self@.inv()
    }

    /// A session for a tunnel to `target` through the upstream proxy at
    /// `proxy`, before the client connection is upgraded.
    pub fn new(proxy: String, target: TargetAddress) -> (s: TunnelSession)
        ensures
            s@ == SessionView::initial(proxy@, target@),
            s@.inv(),
    {
        TunnelSession {
            proxy,
            target,
            phase: Phase::Upgrading,
            client_to_upstream: CopyState::Running,
            upstream_to_client: CopyState::Running,
            error: None,
        }
    }

    /// The address of the upstream proxy.
    pub fn proxy(&self) -> (a: &str)
        ensures
            a@ == self@.proxy,
    {
        self.proxy.as_str()
    }

    /// The destination of the tunnel.
    pub fn target(&self) -> (t: &TargetAddress)
        ensures
            t@ == self@.target,
    {
        &self.target
    }

    /// The phase that the session is in.
    pub fn phase(&self) -> (p: Phase)
        ensures
            p == self@.phase,
            self@.inv(),
    {
        proof {
            use_type_invariant(self);
        }
        self.phase
    }

    /// Where the copy of direction `d` stands.
    pub fn progress(&self, d: Direction) -> (state: CopyState)
        ensures
            state == self@.progress(d),
    {
        match d {
            Direction::ClientToUpstream => self.client_to_upstream,
            Direction::UpstreamToClient => self.upstream_to_client,
        }
    }

    /// Whether both streams are closed.
    pub fn is_closed(&self) -> (b: bool)
        ensures
            b == (self@.phase is Closed),
    {
        match self.phase {
            Phase::Closed => true,
            _ => false,
        }
    }

    /// How the tunnel ended: `None` while it is open, then the bytes carried
    /// by each direction, or the first failure.
    pub fn outcome(&self) -> (r: Option<Result<RelayStats, TunnelError>>)
        ensures
            outcome_view(r) == self@.outcome(),
    {
        match self.phase {
            Phase::Closed => match &self.error {
                Some(e) => Some(Err(e.clone())),
                None => Some(
                    Ok(
                        RelayStats {
                            client_to_upstream: count(self.client_to_upstream),
                            upstream_to_client: count(self.upstream_to_client),
                        },
                    ),
                ),
            },
            _ => None,
        }
    }

    /// Takes one event and says what the caller is to do next.
    ///
    /// An event that does not belong to the phase changes nothing. Neither
    /// the proxy address nor the destination ever changes.
    pub fn step(self, event: Event) -> (next: (TunnelSession, Action))
        ensures
            next.0@ == self@.step(event@).0,
            next.1@ == self@.step(event@).1,
            next.0@.inv(),
    {
        proof {
            use_type_invariant(&self);
        }
        match (self.phase, event) {
            (Phase::Upgrading, Event::Upgraded) => {
                let proxy = self.proxy.clone();
                (TunnelSession { phase: Phase::Dialing, ..self }, Action::Dial(proxy))
            },
            (Phase::Upgrading, Event::UpgradeFailed(m)) => (
                self.fail(TunnelError::Upgrade(m)),
                Action::Close,
            ),
            (Phase::Dialing, Event::Dialed) => {
                let target = self.target.clone();
                (TunnelSession { phase: Phase::Negotiating, ..self }, Action::Negotiate(target))
            },
            (Phase::Dialing, Event::DialFailed(m)) => (
                self.fail(TunnelError::Connect(ConnectError::DialFailed(m))),
                Action::Close,
            ),
            (Phase::Negotiating, Event::Negotiated) => (
                TunnelSession { phase: Phase::Relaying, ..self },
                Action::Relay,
            ),
            (Phase::Negotiating, Event::HandshakeFailed(m)) => (
                self.fail(TunnelError::Connect(ConnectError::HandshakeFailed(m))),
                Action::Close,
            ),
            (Phase::Relaying, Event::CopyFinished(d, n)) => self.end_copy(
                d,
                CopyState::Finished(n),
                None,
            ),
            (Phase::Relaying, Event::CopyFailed(d, m)) => self.end_copy(
                d,
                CopyState::Failed,
                Some(TunnelError::Relay(RelayError { direction: d, message: m })),
            ),
            _ => (self, Action::Ignore),
        }
    }

    /// Closes a session that has not relayed yet.
    fn fail(self, error: TunnelError) -> (s: TunnelSession)
        requires
            !(self@.phase is Relaying),
            !(self@.phase is Closed),
            !(error is Relay),
        ensures
            s@ == self@.failed(error@),
    {
        proof {
            use_type_invariant(&self);
        }
        TunnelSession { phase: Phase::Closed, error: Some(error), ..self }
    }

    /// Records the end of direction `d` while relaying.
    fn end_copy(self, d: Direction, state: CopyState, error: Option<TunnelError>) -> (next: (
        TunnelSession,
        Action,
    ))
        requires
            self@.phase is Relaying,
            state is Finished && error is None || state is Failed && (error matches Some(
                TunnelError::Relay(e),
            ) && e.direction == d),
        ensures
            next.0@ == (if self@.progress(d) is Running {
                self@.after_copy(d, state, error_view(error))
            } else {
                (self@, ActionView::Ignore)
            }).0,
            next.1@ == (if self@.progress(d) is Running {
                self@.after_copy(d, state, error_view(error))
            } else {
                (self@, ActionView::Ignore)
            }).1,
    {
        proof {
            use_type_invariant(&self);
        }
        let running = match self.progress(d) {
            CopyState::Running => true,
            _ => false,
        };
        if !running {
            return (self, Action::Ignore);
        }
        let first = match self.error {
            Some(e) => Some(e),
            None => error,
        };
        let (client_to_upstream, upstream_to_client) = match d {
            Direction::ClientToUpstream => (state, self.upstream_to_client),
            Direction::UpstreamToClient => (self.client_to_upstream, state),
        };
        let other_ended = match d {
            Direction::ClientToUpstream => ended(upstream_to_client),
            Direction::UpstreamToClient => ended(client_to_upstream),
        };
        if other_ended {
            (
                TunnelSession {
                    proxy: self.proxy,
                    target: self.target,
                    phase: Phase::Closed,
                    client_to_upstream,
                    upstream_to_client,
                    error: first,
                },
                Action::Close,
            )
        } else {
            (
                TunnelSession {
                    proxy: self.proxy,
                    target: self.target,
                    phase: Phase::Relaying,
                    client_to_upstream,
                    upstream_to_client,
                    error: first,
                },
                Action::Wait,
            )
        }
    }
}

/// The bytes counted for a direction.
fn count(state: CopyState) -> (n: u64)
    ensures
        n == state.bytes(),
{
    match state {
        CopyState::Finished(n) => n,
        _ => 0,
    }
}

/// Whether a direction has reached its end or failed.
fn ended(state: CopyState) -> (b: bool)
    ensures
        b == state.ended(),
{
    match state {
        CopyState::Running => false,
        _ => true,
    }
}

} // verus!
