//! The poller: every tick it refreshes the media on every fifth tick, stamps a snapshot with
//! the clock and hands it to the channel.
//!
//! The poller never waits and never queries the session service itself. [`Poller::step`] is a
//! state machine: it takes what happened outside and says what to do next.
//! [`Poller::advance`] runs the machine through the steps that need only the clock and the
//! channel, so that a driver is left with the query and the sleep.

use std::time::Duration;
use vstd::prelude::*;
use async_channel::Sender;
use crate::channel::send_blocking;
use crate::clock::local_now;
use crate::media::{get_media_info, probe_media, SessionProbe, SessionProbeView};
use crate::types::{
    clone_media, media_view, MediaInfo, MediaInfoView, StatusUpdate, StatusUpdateView, Timestamp,
};

verus! {

/// The media is queried on every tick whose number is a multiple of this.
pub const REFRESH_EVERY: u8 = 5;

/// What produces a poller: the time to sleep between two ticks.
#[derive(Clone, Copy, Debug)]
pub struct BackgroundService {
    pub update_period: Duration,
}

/// Where a tick stands between its start and the sleep that ends it.
#[derive(Clone, Copy, Debug, PartialEq, Eq, Structural)]
pub enum Stage {
    /// The session service has been asked; its answer is awaited.
    Querying,
    /// The clock is to be read.
    Stamping,
    /// The snapshot has been handed out; word from the channel is awaited.
    Sending,
}

#[derive(Clone, Copy, Debug, PartialEq, Eq, Structural)]
pub enum Phase {
    /// Between two ticks.
    AwaitingTick,
    /// In a tick.
    Producing(Stage),
    /// The channel was closed. Nothing follows.
    Stopped,
}

/// What happened outside the poller.
#[derive(Debug)]
pub enum Event {
    /// A tick begins: the poller was just made, or the sleep is over.
    Tick,
    /// The session service answered.
    Probed(SessionProbe),
    /// The clock was read.
    Stamped(Timestamp),
    /// The channel took the snapshot.
    Delivered,
    /// The channel is closed: nobody will take a snapshot again.
    Closed,
}

/// The contents of an [`Event`].
pub enum EventView {
    Tick,
    Probed(SessionProbeView),
    Stamped(Timestamp),
    Delivered,
    Closed,
}

impl View for Event {
    type V = EventView;

    open spec fn view(&self) -> EventView {
        match self {
            Event::Tick => EventView::Tick,
            Event::Probed(probe) => EventView::Probed(probe@),
            Event::Stamped(now) => EventView::Stamped(*now),
            Event::Delivered => EventView::Delivered,
            Event::Closed => EventView::Closed,
        }
    }
}

/// What the poller wants done next.
#[derive(Debug)]
pub enum Action {
    /// Query the session service and come back with [`Event::Probed`].
    Probe,
    /// Read the clock and come back with [`Event::Stamped`].
    Stamp,
    /// Send the snapshot, waiting while the channel is full, and come back with
    /// [`Event::Delivered`] or [`Event::Closed`].
    Send(StatusUpdate),
    /// Sleep this long and come back with [`Event::Tick`].
    Sleep(Duration),
    /// End the loop.
    Stop,
}

/// The contents of an [`Action`].
pub enum ActionView {
    Probe,
    Stamp,
    Send(StatusUpdateView),
    Sleep(Duration),
    Stop,
}

impl View for Action {
    type V = ActionView;

    open spec fn view(&self) -> ActionView {
        match self {
            Action::Probe => ActionView::Probe,
            Action::Stamp => ActionView::Stamp,
            Action::Send(update) => ActionView::Send(update@),
            Action::Sleep(period) => ActionView::Sleep(*period),
            Action::Stop => ActionView::Stop,
        }
    }
}

/// The state of the loop: the tick counter, the media as last queried, and the phase.
pub struct Poller {
    period: Duration,
    counter: u8,
    media: Option<MediaInfo>,
    phase: Phase,
}

/// The contents of a [`Poller`].
pub struct PollerView {
    pub period: Duration,
    /// Ticks stamped since the last query, the one that followed it included.
    pub counter: nat,
    pub media: Option<MediaInfoView>,
    pub phase: Phase,
}

/// The poller as it is made: between ticks, nothing counted, nothing cached.
pub open spec fn initial(period: Duration) -> PollerView {
    PollerView { period, counter: 0, media: None, phase: Phase::AwaitingTick }
}

/// A tick that begins at this count starts with a query.
pub open spec fn refresh_due(counter: nat) -> bool {
    counter % (REFRESH_EVERY as nat) == 0
}

/// The events that a phase waits for. Any other event is left aside.
pub open spec fn awaits(phase: Phase, event: EventView) -> bool {
    match (phase, event) {
        (Phase::AwaitingTick, EventView::Tick) => true,
        (Phase::Producing(Stage::Querying), EventView::Probed(_)) => true,
        (Phase::Producing(Stage::Stamping), EventView::Stamped(_)) => true,
        (Phase::Producing(Stage::Sending), EventView::Delivered) => true,
        (Phase::Producing(Stage::Sending), EventView::Closed) => true,
        _ => false,
    }
}

/// The state after an awaited event, and what is to be done next.
pub open spec fn transition(state: PollerView, event: EventView) -> (PollerView, ActionView)
    recommends
        awaits(state.phase, event),
{
    match event {
        EventView::Tick => if refresh_due(state.counter) {
            (
                PollerView { phase: Phase::Producing(Stage::Querying), ..state },
                ActionView::Probe,
            )
        } else {
            (
                PollerView { phase: Phase::Producing(Stage::Stamping), ..state },
                ActionView::Stamp,
            )
        },
        EventView::Probed(probe) => (
            PollerView {
                counter: 0,
                media: probe_media(probe),
                phase: Phase::Producing(Stage::Stamping),
                ..state
            },
            ActionView::Stamp,
        ),
        EventView::Stamped(now) => (
            PollerView {
                counter: state.counter + 1,
                phase: Phase::Producing(Stage::Sending),
                ..state
            },
            ActionView::Send(StatusUpdateView { time: now, media: state.media }),
        ),
        EventView::Delivered => (
            PollerView { phase: Phase::AwaitingTick, ..state },
            ActionView::Sleep(state.period),
        ),
        EventView::Closed => (PollerView { phase: Phase::Stopped, ..state }, ActionView::Stop),
    }
}

/// The state after one event, awaited or not.
pub open spec fn feed(state: PollerView, event: EventView) -> PollerView {
    if awaits(state.phase, event) {
        transition(state, event).0
    } else {
        state
    }
}

/// Carries an outcome of [`transition`] through the steps that need only the clock and the
/// channel: a pending `Stamp` is answered with the reading `now`, a pending `Send` with
/// `Delivered` or `Closed` as `delivered` says.
pub open spec fn settle(outcome: (PollerView, ActionView), now: Timestamp, delivered: bool) -> (
    PollerView,
    ActionView,
) {
    let stamped = match outcome.1 {
        ActionView::Stamp => transition(outcome.0, EventView::Stamped(now)),
        _ => outcome,
    };
    match stamped.1 {
        ActionView::Send(_) => transition(
            stamped.0,
            if delivered {
                EventView::Delivered
            } else {
                EventView::Closed
            },
        ),
        _ => stamped,
    }
}

impl BackgroundService {
    /// A poller about to begin its first tick.
    pub fn poller(&self) -> (poller: Poller)
        ensures
            poller@ == initial(self.update_period),
    {
        Poller { period: self.update_period, counter: 0, media: None, phase: Phase::AwaitingTick }
    }
}

impl View for Poller {
    type V = PollerView;

    closed spec fn view(&self) -> PollerView {
        PollerView {
            period: self.period,
            counter: self.counter as nat,
            media: media_view(self.media),
            phase: self.phase,
        }
    }
}

impl Poller {
    #[verifier::type_invariant]
    spec fn counter_in_range(self) -> bool {
        &&& self.counter <= REFRESH_EVERY
        &&& self.phase == Phase::Producing(Stage::Stamping) ==> self.counter < REFRESH_EVERY
    }

    /// Takes one event and says what to do next.
    ///
    /// An event that the phase waits for moves the poller as [`transition`] says. Any other
    /// event is left aside: the poller stays as it is and the answer is `None`. A stopped
    /// poller waits for nothing.
    pub fn step(&mut self, event: Event) -> (action: Option<Action>)
        ensures
            match action {
                Some(action) => awaits(old(self)@.phase, event@) && (final(self)@, action@)
                    == transition(old(self)@, event@),
                None => !awaits(old(self)@.phase, event@) && final(self)@ == old(self)@,
            },
            final(self)@ == feed(old(self)@, event@),
    {
        proof {
            use_type_invariant(&*self);
        }
        match (self.phase, event) {
            (Phase::AwaitingTick, Event::Tick) => {
                if self.counter % REFRESH_EVERY == 0 {
                    self.phase = Phase::Producing(Stage::Querying);
                    Some(Action::Probe)
                } else {
                    self.phase = Phase::Producing(Stage::Stamping);
                    Some(Action::Stamp)
                }
            },
            (Phase::Producing(Stage::Querying), Event::Probed(probe)) => {
                self.media = match get_media_info(probe) {
                    Ok(info) => Some(info),
                    Err(_) => None,
                };
                self.counter = 0;
                self.phase = Phase::Producing(Stage::Stamping);
                Some(Action::Stamp)
            },
            (Phase::Producing(Stage::Stamping), Event::Stamped(now)) => {
                let media = clone_media(&self.media);
                self.phase = Phase::Producing(Stage::Sending);
                self.counter = self.counter + 1;
                Some(Action::Send(StatusUpdate { time: now, media }))
            },
            (Phase::Producing(Stage::Sending), Event::Delivered) => {
                self.phase = Phase::AwaitingTick;
                Some(Action::Sleep(self.period))
            },
            (Phase::Producing(Stage::Sending), Event::Closed) => {
                self.phase = Phase::Stopped;
                Some(Action::Stop)
            },
            _ => None,
        }
    }

    /// Takes one event and goes on for as long as the clock and the channel are all that is
    /// needed: it reads the clock for a pending `Stamp` and sends a pending snapshot into
    /// `tx`, waiting while the channel is full.
    ///
    /// What comes back is `Probe`, `Sleep` with the poller's period, or `Stop`, and it is what
    /// [`settle`] gives for the clock reading and for the word of the channel, whatever they
    /// were. An event that the phase does not wait for is left aside, as in [`Poller::step`].
    pub fn advance(&mut self, tx: &Sender<StatusUpdate>, event: Event) -> (action: Option<Action>)
        ensures
            match action {
                Some(action) => {
                    &&& awaits(old(self)@.phase, event@)
                    &&& exists|now: Timestamp, delivered: bool|
                        (final(self)@, action@) == #[trigger] settle(
                            transition(old(self)@, event@),
                            now,
                            delivered,
                        )
                    &&& {
                        ||| action@ == ActionView::Probe
                        ||| action@ == ActionView::Sleep(old(self)@.period)
                        ||| action@ == ActionView::Stop
                    }
                },
                None => !awaits(old(self)@.phase, event@) && final(self)@ == old(self)@,
            },
    {
        let first = match self.step(event) {
            Some(action) => action,
            None => {
                return None;
            },
        };
        let ghost outcome = (self@, first@);
        let ghost mut now = Timestamp { secs: 0, nanos: 0, offset: 0 };
        let stamped = match first {
            Action::Stamp => {
                let reading = local_now();
                proof {
                    now = reading;
                }
                self.step(Event::Stamped(reading)).unwrap()
            },
            other => other,
        };
        let ghost mut delivered = true;
        let last = match stamped {
            Action::Send(update) => {
                let word = match send_blocking(tx, update) {
                    Ok(()) => Event::Delivered,
                    Err(_) => Event::Closed,
                };
                proof {
                    delivered = word@ == EventView::Delivered;
                }
                self.step(word).unwrap()
            },
            other => other,
        };
        proof {
            assert((self@, last@) == settle(outcome, now, delivered));
        }
        Some(last)
    }

    /// The phase the poller is in.
    pub fn phase(&self) -> (phase: Phase)
        ensures
            phase == self@.phase,
    {
        self.phase
    }

    /// The time to sleep between two ticks.
    pub fn period(&self) -> (period: Duration)
        ensures
            period == self@.period,
    {
        self.period
    }

    /// A copy of the media as last queried.
    pub fn media(&self) -> (media: Option<MediaInfo>)
        ensures
            media_view(media) == self@.media,
    {
        clone_media(&self.media)
    }

    /// Whether the next tick starts with a query.
    pub fn refresh_due(&self) -> (due: bool)
        ensures
            due == refresh_due(self@.counter),
    {
        self.counter % REFRESH_EVERY == 0
    }
}

} // verus!
