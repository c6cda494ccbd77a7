//! What holds of every tunnel session, whatever the caller reports.

use vstd::prelude::*;
use crate::target::TargetView;
use crate::tunnel::{
    ActionView, CopyState, Direction, EventView, Phase, RelayStats, SessionView,
};

verus! {

/// The session after a sequence of events, taken in order.
pub open spec fn run(s: SessionView, events: Seq<EventView>) -> SessionView
    decreases events.len(),
{
    if events.len() == 0 {
        s
    } else {
        run(s, events.drop_last()).step(events.last()).0
    }
}

/// The event reports the end of direction `d`, clean or not.
pub open spec fn ends(event: EventView, d: Direction) -> bool {
    match event {
        EventView::CopyFinished(e, _) => e == d,
        EventView::CopyFailed(e, _) => e == d,
        _ => false,
    }
}

/// Some event of the sequence reports the end of direction `d`.
pub open spec fn reported_end(events: Seq<EventView>, d: Direction) -> bool {
    exists|i: int| 0 <= i < events.len() && ends(#[trigger] events[i], d)
}

/// How often the caller is asked to dial while the events are taken in
/// order.
pub open spec fn dials(s: SessionView, events: Seq<EventView>) -> nat
    decreases events.len(),
{
    if events.len() == 0 {
        0
    } else {
        let before = dials(s, events.drop_last());
        if run(s, events.drop_last()).step(events.last()).1 is Dial {
            before + 1
        } else {
            before
        }
    }
}

/// Many sessions side by side, after a sequence of events each of which is
/// addressed to one of them by its index. An event for an index that the
/// fleet does not have is dropped.
pub open spec fn run_fleet(fleet: Seq<SessionView>, events: Seq<(int, EventView)>) -> Seq<
    SessionView,
>
    decreases events.len(),
{
    if events.len() == 0 {
        fleet
    } else {
        let before = run_fleet(fleet, events.drop_last());
        let (i, e) = events.last();
        if 0 <= i < before.len() {
            before.update(i, before[i].step(e).0)
        } else {
            before
        }
    }
}

/// The events of the sequence that are addressed to session `i`, in order.
pub open spec fn events_for(events: Seq<(int, EventView)>, i: int) -> Seq<EventView>
    decreases events.len(),
{
    if events.len() == 0 {
        Seq::empty()
    } else {
        let earlier = events_for(events.drop_last(), i);
        if events.last().0 == i {
            earlier.push(events.last().1)
        } else {
            earlier
        }
    }
}

/// A step leads from a session that meets the invariant to one that meets it.
pub proof fn lemma_step_keeps_invariant(s: SessionView, event: EventView)
    requires
        s.inv(),
    ensures
        s.step(event).0.inv(),
{
}

/// Every session that events lead to from a fresh one meets the invariant.
pub proof fn lemma_run_keeps_invariant(
    proxy: Seq<char>,
    target: TargetView,
    events: Seq<EventView>,
)
    ensures
        run(SessionView::initial(proxy, target), events).inv(),
    decreases events.len(),
{
    if events.len() > 0 {
        lemma_run_keeps_invariant(proxy, target, events.drop_last());
        lemma_step_keeps_invariant(
            run(SessionView::initial(proxy, target), events.drop_last()),
            events.last(),
        );
    }
}

/// No sequence of events changes the proxy address or the destination of a
/// session: the destination is derived once and never resolved again.
pub proof fn lemma_addresses_never_change(s: SessionView, events: Seq<EventView>)
    ensures
        run(s, events).proxy == s.proxy,
        run(s, events).target == s.target,
    decreases events.len(),
{
    if events.len() > 0 {
        lemma_addresses_never_change(s, events.drop_last());
    }
}

/// Whatever a session is told, the only address it asks the caller to dial
/// is that of the upstream proxy, and the only destination it asks the
/// upstream proxy for is its own.
pub proof fn lemma_dials_the_proxy_only(s: SessionView, event: EventView)
    ensures
        s.step(event).1 matches ActionView::Dial(a) ==> a == s.proxy,
        s.step(event).1 matches ActionView::Negotiate(t) ==> t == s.target,
{
}

/// A session asks for one connection to the upstream proxy at most: there
/// is no second dial, whatever is reported, and none before the upgrade.
pub proof fn lemma_dials_at_most_once(
    proxy: Seq<char>,
    target: TargetView,
    events: Seq<EventView>,
)
    ensures
        dials(SessionView::initial(proxy, target), events) <= 1,
        run(SessionView::initial(proxy, target), events).phase is Upgrading ==> dials(
            SessionView::initial(proxy, target),
            events,
        ) == 0,
    decreases events.len(),
{
    if events.len() > 0 {
        lemma_dials_at_most_once(proxy, target, events.drop_last());
    }
}

/// While bytes are relayed, the session closes exactly on the report that
/// ends the second direction, and then it asks for both streams to be
/// closed. The end of the first direction leaves the other one running.
pub proof fn lemma_closes_when_both_directions_ended(
    s: SessionView,
    event: EventView,
    d: Direction,
)
    requires
        s.inv(),
        s.phase is Relaying,
        ends(event, d),
    ensures
        s.step(event).0.phase is Closed <==> s.progress(d) is Running && s.progress(
            d.opposite(),
        ).ended(),
        s.step(event).0.phase is Closed <==> s.step(event).1 is Close,
        s.progress(d) is Running && !s.progress(d.opposite()).ended() ==> s.step(event).1
            is Wait && s.step(event).0.progress(d.opposite()) is Running,
{
}

/// A closed session stays as it is.
pub proof fn lemma_closed_is_final(s: SessionView, event: EventView)
    requires
        s.phase is Closed,
    ensures
        s.step(event).0 == s,
        s.step(event).1 is Ignore,
{
}

/// A direction that a session holds as ended was reported as ended.
pub proof fn lemma_ended_was_reported(
    proxy: Seq<char>,
    target: TargetView,
    events: Seq<EventView>,
    d: Direction,
)
    requires
        run(SessionView::initial(proxy, target), events).progress(d).ended(),
    ensures
        reported_end(events, d),
    decreases events.len(),
{
    let start = SessionView::initial(proxy, target);
    if events.len() > 0 {
        let earlier = events.drop_last();
        if run(start, earlier).progress(d).ended() {
            lemma_ended_was_reported(proxy, target, earlier, d);
            let i = choose|i: int| 0 <= i < earlier.len() && ends(#[trigger] earlier[i], d);
            assert(ends(events[i], d));
        } else {
            assert(ends(events[events.len() - 1], d));
        }
    }
}

/// A session that closed with statistics was told of the end of both
/// directions, and its statistics are the bytes of the two.
pub proof fn lemma_statistics_need_both_directions(
    proxy: Seq<char>,
    target: TargetView,
    events: Seq<EventView>,
    stats: RelayStats,
)
    requires
        run(SessionView::initial(proxy, target), events).outcome() == Some(
            Ok::<RelayStats, crate::tunnel::TunnelErrorView>(stats),
        ),
    ensures
        reported_end(events, Direction::ClientToUpstream),
        reported_end(events, Direction::UpstreamToClient),
        run(SessionView::initial(proxy, target), events).client_to_upstream
            == CopyState::Finished(stats.client_to_upstream),
        run(SessionView::initial(proxy, target), events).upstream_to_client
            == CopyState::Finished(stats.upstream_to_client),
{
    lemma_run_keeps_invariant(proxy, target, events);
    lemma_ended_was_reported(proxy, target, events, Direction::ClientToUpstream);
    lemma_ended_was_reported(proxy, target, events, Direction::UpstreamToClient);
}

/// A session that relayed and then closed was told of the end of both
/// directions, also where one of them failed.
pub proof fn lemma_relay_closes_after_both(
    proxy: Seq<char>,
    target: TargetView,
    events: Seq<EventView>,
)
    requires
        run(SessionView::initial(proxy, target), events).phase is Closed,
        !(run(SessionView::initial(proxy, target), events).error matches Some(e) && !(e
            is Relay)),
    ensures
        reported_end(events, Direction::ClientToUpstream),
        reported_end(events, Direction::UpstreamToClient),
{
    lemma_run_keeps_invariant(proxy, target, events);
    lemma_ended_was_reported(proxy, target, events, Direction::ClientToUpstream);
    lemma_ended_was_reported(proxy, target, events, Direction::UpstreamToClient);
}

/// A tunnel that is set up without failure and whose two directions reach
/// their ends reports the bytes of each, in whichever order the two ended.
pub proof fn lemma_clean_tunnel_reports_bytes(
    proxy: Seq<char>,
    target: TargetView,
    sent: u64,
    received: u64,
)
    ensures
        run(
            SessionView::initial(proxy, target),
            seq![
                EventView::Upgraded,
                EventView::Dialed,
                EventView::Negotiated,
                EventView::CopyFinished(Direction::ClientToUpstream, sent),
                EventView::CopyFinished(Direction::UpstreamToClient, received),
            ],
        ).outcome() == Some(
            Ok::<RelayStats, crate::tunnel::TunnelErrorView>(
                RelayStats { client_to_upstream: sent, upstream_to_client: received },
            ),
        ),
        run(
            SessionView::initial(proxy, target),
            seq![
                EventView::Upgraded,
                EventView::Dialed,
                EventView::Negotiated,
                EventView::CopyFinished(Direction::UpstreamToClient, received),
                EventView::CopyFinished(Direction::ClientToUpstream, sent),
            ],
        ).outcome() == Some(
            Ok::<RelayStats, crate::tunnel::TunnelErrorView>(
                RelayStats { client_to_upstream: sent, upstream_to_client: received },
            ),
        ),
{
    let start = SessionView::initial(proxy, target);
    let first = seq![
        EventView::Upgraded,
        EventView::Dialed,
        EventView::Negotiated,
        EventView::CopyFinished(Direction::ClientToUpstream, sent),
        EventView::CopyFinished(Direction::UpstreamToClient, received),
    ];
    let second = seq![
        EventView::Upgraded,
        EventView::Dialed,
        EventView::Negotiated,
        EventView::CopyFinished(Direction::UpstreamToClient, received),
        EventView::CopyFinished(Direction::ClientToUpstream, sent),
    ];
    let setup = seq![EventView::Upgraded, EventView::Dialed, EventView::Negotiated];
    lemma_run_push(start, Seq::empty(), EventView::Upgraded);
    lemma_run_push(start, seq![EventView::Upgraded], EventView::Dialed);
    lemma_run_push(start, seq![EventView::Upgraded, EventView::Dialed], EventView::Negotiated);
    assert(seq![EventView::Upgraded] =~= Seq::<EventView>::empty().push(EventView::Upgraded));
    assert(seq![EventView::Upgraded, EventView::Dialed] =~= seq![EventView::Upgraded].push(
        EventView::Dialed,
    ));
    assert(setup =~= seq![EventView::Upgraded, EventView::Dialed].push(EventView::Negotiated));
    let ready = run(start, setup);
    assert(ready == start.in_phase(Phase::Relaying));
    let c = EventView::CopyFinished(Direction::ClientToUpstream, sent);
    let u = EventView::CopyFinished(Direction::UpstreamToClient, received);
    lemma_run_push(start, setup, c);
    lemma_run_push(start, setup.push(c), u);
    assert(first =~= setup.push(c).push(u));
    lemma_run_push(start, setup, u);
    lemma_run_push(start, setup.push(u), c);
    assert(second =~= setup.push(u).push(c));
}

/// Running a sequence with one more event is one more step.
pub proof fn lemma_run_push(s: SessionView, events: Seq<EventView>, event: EventView)
    ensures
        run(s, events.push(event)) == run(s, events).step(event).0,
{
    assert(events.push(event).drop_last() =~= events);
}

/// Sessions that run side by side do not touch one another: what becomes of
/// session `i` is what its own events make of it, whatever is reported to
/// the others in between, their failures included.
pub proof fn lemma_tunnels_are_isolated(
    fleet: Seq<SessionView>,
    events: Seq<(int, EventView)>,
    i: int,
)
    requires
        0 <= i < fleet.len(),
    ensures
        run_fleet(fleet, events).len() == fleet.len(),
        run_fleet(fleet, events)[i] == run(fleet[i], events_for(events, i)),
    decreases events.len(),
{
    if events.len() > 0 {
        let earlier = events.drop_last();
        lemma_tunnels_are_isolated(fleet, earlier, i);
        if events.last().0 == i {
            lemma_run_push(fleet[i], events_for(earlier, i), events.last().1);
        }
    }
}

} // verus!
