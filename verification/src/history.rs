//! What holds of whole runs of the poller, whatever happens outside it.
//!
//! A run is a poller state and the events it is then given, one after the other, as
//! [`Poller::step`](crate::background::Poller::step) takes them: an event that the phase does
//! not wait for changes nothing.

use std::time::Duration;
use vstd::prelude::*;
use crate::background::{
    awaits, feed, initial, settle, transition, ActionView, EventView, Phase, PollerView, Stage,
};
use crate::media::{probe_media, SessionProbeView};
use crate::types::{StatusUpdateView, Timestamp};

verus! {

/// The state after `events`.
pub open spec fn run(state: PollerView, events: Seq<EventView>) -> PollerView
    decreases events.len(),
{
    if events.len() == 0 {
        state
    } else {
        feed(run(state, events.drop_last()), events.last())
    }
}

/// The ticks begun once `event` has been given too: a tick begins when a poller between
/// ticks is given `Tick`.
pub open spec fn begun_after(before: PollerView, earlier: nat, event: EventView) -> nat {
    if before.phase == Phase::AwaitingTick && event == EventView::Tick {
        earlier + 1
    } else {
        earlier
    }
}

/// The number of ticks begun over `events`.
pub open spec fn begun(state: PollerView, events: Seq<EventView>) -> nat
    decreases events.len(),
{
    if events.len() == 0 {
        0
    } else {
        begun_after(
            run(state, events.drop_last()),
            begun(state, events.drop_last()),
            events.last(),
        )
    }
}

/// The snapshots handed out once `event` has been given too: there is one more when a
/// poller that waits for the clock is given a reading.
pub open spec fn sent_after(
    before: PollerView,
    earlier: Seq<StatusUpdateView>,
    event: EventView,
) -> Seq<StatusUpdateView> {
    match event {
        EventView::Stamped(now) => if before.phase == Phase::Producing(Stage::Stamping) {
            earlier.push(StatusUpdateView { time: now, media: before.media })
        } else {
            earlier
        },
        _ => earlier,
    }
}

/// The snapshots handed out over `events`, in order.
pub open spec fn sent(state: PollerView, events: Seq<EventView>) -> Seq<StatusUpdateView>
    decreases events.len(),
{
    if events.len() == 0 {
        Seq::empty()
    } else {
        sent_after(run(state, events.drop_last()), sent(state, events.drop_last()), events.last())
    }
}

/// The answers of the session service taken up once `event` has been given too: there is
/// one more when a poller that waits for an answer is given one.
pub open spec fn answers_after(
    before: PollerView,
    earlier: Seq<SessionProbeView>,
    event: EventView,
) -> Seq<SessionProbeView> {
    match event {
        EventView::Probed(probe) => if before.phase == Phase::Producing(Stage::Querying) {
            earlier.push(probe)
        } else {
            earlier
        },
        _ => earlier,
    }
}

/// The answers of the session service taken up over `events`, in order.
pub open spec fn answers(state: PollerView, events: Seq<EventView>) -> Seq<SessionProbeView>
    decreases events.len(),
{
    if events.len() == 0 {
        Seq::empty()
    } else {
        answers_after(
            run(state, events.drop_last()),
            answers(state, events.drop_last()),
            events.last(),
        )
    }
}

/// The clock reading that an event brings, if it brings one.
pub open spec fn reading(event: EventView) -> Option<Timestamp> {
    match event {
        EventView::Stamped(now) => Some(now),
        _ => None,
    }
}

/// The clock readings among `events` never go back.
pub open spec fn readings_never_go_back(events: Seq<EventView>) -> bool {
    forall|i: int, j: int|
        0 <= i < j < events.len() && reading(#[trigger] events[i]) is Some && reading(
            #[trigger] events[j],
        ) is Some ==> reading(events[i]).unwrap().not_after(reading(events[j]).unwrap())
}

/// How the counter, the cache, the snapshots and the answers stand to the number of ticks
/// begun, in a run from a fresh poller.
spec fn in_step(
    state: PollerView,
    ticks: nat,
    snapshots: Seq<StatusUpdateView>,
    probes: Seq<SessionProbeView>,
) -> bool {
    &&& state.counter <= 5
    &&& match state.phase {
        Phase::Producing(Stage::Querying) => {
            &&& ticks >= 1
            &&& snapshots.len() == ticks - 1
            &&& snapshots.len() % 5 == 0
            &&& state.counter % 5 == 0
            &&& probes.len() == snapshots.len() / 5
        },
        Phase::Producing(Stage::Stamping) => {
            &&& ticks >= 1
            &&& snapshots.len() == ticks - 1
            &&& state.counter < 5
            &&& state.counter % 5 == snapshots.len() % 5
            &&& probes.len() == snapshots.len() / 5 + 1
            &&& state.media == probe_media(probes.last())
        },
        _ => {
            &&& snapshots.len() == ticks
            &&& state.counter % 5 == ticks % 5
            &&& probes.len() == (ticks + 4) / 5
            &&& ticks >= 1 ==> state.counter >= 1 && state.media == probe_media(probes.last())
        },
    }
    &&& forall|k: int|
        0 <= k < snapshots.len() ==> k / 5 < probes.len() && (#[trigger] snapshots[k]).media
            == probe_media(probes[k / 5])
}

proof fn lemma_in_step_after_event(
    state: PollerView,
    ticks: nat,
    snapshots: Seq<StatusUpdateView>,
    probes: Seq<SessionProbeView>,
    event: EventView,
)
    requires
        in_step(state, ticks, snapshots, probes),
    ensures
        in_step(
            feed(state, event),
            begun_after(state, ticks, event),
            sent_after(state, snapshots, event),
            answers_after(state, probes, event),
        ),
{
    let after = sent_after(state, snapshots, event);
    let heard = answers_after(state, probes, event);
    if awaits(state.phase, event) {
        match event {
            EventView::Stamped(now) => {
                assert(heard == probes);
                assert(after.len() == snapshots.len() + 1);
                assert(after.last().media == state.media);
                assert forall|k: int| 0 <= k < after.len() implies k / 5 < heard.len() && (
                #[trigger] after[k]).media == probe_media(heard[k / 5]) by {
                    if k < snapshots.len() {
                        assert(after[k] == snapshots[k]);
                    }
                }
            },
            EventView::Probed(probe) => {
                assert(after == snapshots);
                assert(heard.len() == probes.len() + 1);
                assert(heard.last() == probe);
                assert forall|k: int| 0 <= k < after.len() implies k / 5 < heard.len() && (
                #[trigger] after[k]).media == probe_media(heard[k / 5]) by {
                    assert(heard[k / 5] == probes[k / 5]);
                }
            },
            _ => {},
        }
    }
}

proof fn lemma_fresh_run_in_step(period: Duration, events: Seq<EventView>)
    ensures
        in_step(
            run(initial(period), events),
            begun(initial(period), events),
            sent(initial(period), events),
            answers(initial(period), events),
        ),
    decreases events.len(),
{
    let fresh = initial(period);
    if events.len() > 0 {
        let shorter = events.drop_last();
        lemma_fresh_run_in_step(period, shorter);
        lemma_in_step_after_event(
            run(fresh, shorter),
            begun(fresh, shorter),
            sent(fresh, shorter),
            answers(fresh, shorter),
            events.last(),
        );
        assert(run(fresh, events) == feed(run(fresh, shorter), events.last()));
        assert(begun(fresh, events) == begun_after(
            run(fresh, shorter),
            begun(fresh, shorter),
            events.last(),
        ));
        assert(sent(fresh, events) == sent_after(
            run(fresh, shorter),
            sent(fresh, shorter),
            events.last(),
        ));
        assert(answers(fresh, events) == answers_after(
            run(fresh, shorter),
            answers(fresh, shorter),
            events.last(),
        ));
    }
}

/// The media is queried on every fifth tick, the first one included, and on no other: a
/// fresh poller that has begun `n` ticks and is between ticks starts the next one with a
/// query exactly when `n` is a multiple of five. Any other tick goes straight to the clock
/// and leaves the cached media as it is.
pub proof fn law_query_on_every_fifth_tick(period: Duration, events: Seq<EventView>)
    ensures
        ({
            let state = run(initial(period), events);
            let n = begun(initial(period), events);
            state.phase == Phase::AwaitingTick ==> {
                &&& transition(state, EventView::Tick).1 == ActionView::Probe <==> n % 5 == 0
                &&& n % 5 != 0 ==> transition(state, EventView::Tick) == (
                    PollerView { phase: Phase::Producing(Stage::Stamping), ..state },
                    ActionView::Stamp,
                )
            }
        }),
{
    lemma_fresh_run_in_step(period, events);
}

/// Each snapshot carries what the latest query gave: of the snapshots a fresh poller hands
/// out, number `k` (from zero) carries the media of answer number `k / 5`, whole or absent
/// as that answer was. There is one snapshot for each tick that got as far as the clock.
pub proof fn law_snapshot_carries_the_latest_answer(
    period: Duration,
    events: Seq<EventView>,
    k: int,
)
    requires
        0 <= k < sent(initial(period), events).len(),
    ensures
        k / 5 < answers(initial(period), events).len(),
        sent(initial(period), events)[k].media == probe_media(
            answers(initial(period), events)[k / 5],
        ),
{
    lemma_fresh_run_in_step(period, events);
}

/// Between two queries the cached media is reused: of the snapshots a fresh poller hands
/// out, each one whose number is not a multiple of five carries the media of the one before.
pub proof fn law_cached_media_is_reused(period: Duration, events: Seq<EventView>, k: int)
    requires
        0 < k < sent(initial(period), events).len(),
        k % 5 != 0,
    ensures
        sent(initial(period), events)[k].media == sent(initial(period), events)[k - 1].media,
{
    law_snapshot_carries_the_latest_answer(period, events, k);
    law_snapshot_carries_the_latest_answer(period, events, k - 1);
}

/// The service is asked once for every five ticks begun, counting a group that has just
/// begun: a fresh poller between ticks, or waiting on the channel, or stopped, has taken up
/// one answer for each five ticks or part of five.
pub proof fn law_one_query_for_five_ticks(period: Duration, events: Seq<EventView>)
    ensures
        ({
            let state = run(initial(period), events);
            let n = begun(initial(period), events);
            !(state.phase is Producing) || state.phase == Phase::Producing(Stage::Sending)
                ==> answers(initial(period), events).len() == (n + 4) / 5
        }),
{
    lemma_fresh_run_in_step(period, events);
}

/// Every snapshot carries the time of a clock reading among the events, and a later snapshot
/// the time of a later reading.
proof fn lemma_snapshot_times_are_readings(state: PollerView, events: Seq<EventView>)
    requires
        readings_never_go_back(events),
    ensures
        forall|k: int|
            0 <= k < sent(state, events).len() ==> exists|i: int|
                0 <= i < events.len() && reading(#[trigger] events[i]) == Some(
                    (#[trigger] sent(state, events)[k]).time,
                ),
        forall|a: int, b: int|
            0 <= a < b < sent(state, events).len() ==> (#[trigger] sent(
                state,
                events,
            )[a]).time.not_after((#[trigger] sent(state, events)[b]).time),
    decreases events.len(),
{
    if events.len() > 0 {
        let shorter = events.drop_last();
        assert forall|i: int, j: int|
            0 <= i < j < shorter.len() && reading(#[trigger] shorter[i]) is Some && reading(
                #[trigger] shorter[j],
            ) is Some implies reading(shorter[i]).unwrap().not_after(
            reading(shorter[j]).unwrap(),
        ) by {
            assert(shorter[i] == events[i]);
            assert(shorter[j] == events[j]);
        }
        lemma_snapshot_times_are_readings(state, shorter);
        let earlier = sent(state, shorter);
        let all = sent(state, events);
        let last = events.len() - 1;
        assert forall|k: int| 0 <= k < all.len() implies exists|i: int|
            0 <= i < events.len() && reading(#[trigger] events[i]) == Some(
                (#[trigger] all[k]).time,
            ) by {
            if k < earlier.len() {
                assert(all[k] == earlier[k]);
                let i = choose|i: int|
                    0 <= i < shorter.len() && reading(#[trigger] shorter[i]) == Some(
                        earlier[k].time,
                    );
                assert(events[i] == shorter[i]);
            } else {
                assert(reading(events[last]) == Some(all[k].time));
            }
        }
        assert forall|a: int, b: int| 0 <= a < b < all.len() implies (
        #[trigger] all[a]).time.not_after((#[trigger] all[b]).time) by {
            assert(all[a] == earlier[a]);
            if b < earlier.len() {
                assert(all[b] == earlier[b]);
            } else {
                let i = choose|i: int|
                    0 <= i < shorter.len() && reading(#[trigger] shorter[i]) == Some(
                        earlier[a].time,
                    );
                assert(events[i] == shorter[i]);
                assert(reading(events[last]) == Some(all[b].time));
            }
        }
    }
}

/// A snapshot carries the clock reading it was stamped with, so the times of the snapshots
/// of one poller never go back as long as the clock readings it is given do not.
pub proof fn law_snapshot_times_never_go_back(
    state: PollerView,
    events: Seq<EventView>,
    a: int,
    b: int,
)
    requires
        readings_never_go_back(events),
        0 <= a <= b < sent(state, events).len(),
    ensures
        sent(state, events)[a].time.not_after(sent(state, events)[b].time),
{
    lemma_snapshot_times_are_readings(state, events);
}

/// The three ways a query can fail cannot be told apart afterwards: each leaves the cache
/// empty, and the snapshot that follows carries no media.
pub proof fn law_failed_queries_leave_no_media(
    state: PollerView,
    probe: SessionProbeView,
    now: Timestamp,
)
    requires
        state.phase == Phase::Producing(Stage::Querying),
        !(probe is Found),
    ensures
        probe_media(probe) is None,
        transition(state, EventView::Probed(probe)) == transition(
            state,
            EventView::Probed(SessionProbeView::NoSessionService),
        ),
        run(state, seq![EventView::Probed(probe)]).media is None,
        sent(state, seq![EventView::Probed(probe), EventView::Stamped(now)]) == seq![
            StatusUpdateView { time: now, media: None },
        ],
{
    let one = seq![EventView::Probed(probe)];
    let two = seq![EventView::Probed(probe), EventView::Stamped(now)];
    assert(one.drop_last() == Seq::<EventView>::empty());
    assert(two.drop_last() == one);
    assert(run(state, one.drop_last()) == state);
    assert(one.last() == EventView::Probed(probe));
    assert(sent(state, one.drop_last()) == Seq::<StatusUpdateView>::empty());
    assert(sent(state, one) == Seq::<StatusUpdateView>::empty());
    assert(two.last() == EventView::Stamped(now));
    assert(Seq::<StatusUpdateView>::empty().push(StatusUpdateView { time: now, media: None })
        == seq![StatusUpdateView { time: now, media: None }]);
}

/// Settling an outcome is a run too: the event, then the clock reading, then the word of the
/// channel, each taken up only where the phase waits for it.
pub proof fn law_settling_is_a_run(
    state: PollerView,
    event: EventView,
    now: Timestamp,
    delivered: bool,
)
    requires
        awaits(state.phase, event),
    ensures
        settle(transition(state, event), now, delivered).0 == run(
            state,
            seq![
                event,
                EventView::Stamped(now),
                if delivered {
                    EventView::Delivered
                } else {
                    EventView::Closed
                },
            ],
        ),
{
    let word = if delivered {
        EventView::Delivered
    } else {
        EventView::Closed
    };
    let three = seq![event, EventView::Stamped(now), word];
    let two = three.drop_last();
    let one = two.drop_last();
    assert(two == seq![event, EventView::Stamped(now)]);
    assert(one == seq![event]);
    assert(one.drop_last() == Seq::<EventView>::empty());
    assert(run(state, one.drop_last()) == state);
    assert(run(state, one) == feed(state, event));
    assert(run(state, two) == feed(run(state, one), EventView::Stamped(now)));
    assert(run(state, three) == feed(run(state, two), word));
}

/// A closed channel ends the run: the send that finds the channel closed stops the poller,
/// and a stopped poller takes up no event and hands out no snapshot.
pub proof fn law_closed_channel_ends_the_run(state: PollerView, events: Seq<EventView>)
    requires
        state.phase == Phase::Producing(Stage::Sending),
    ensures
        transition(state, EventView::Closed).1 == ActionView::Stop,
        run(feed(state, EventView::Closed), events) == feed(state, EventView::Closed),
        sent(feed(state, EventView::Closed), events).len() == 0,
        begun(feed(state, EventView::Closed), events) == 0,
    decreases events.len(),
{
    if events.len() > 0 {
        law_closed_channel_ends_the_run(state, events.drop_last());
    }
}

} // verus!
