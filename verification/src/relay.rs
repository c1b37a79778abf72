//! The decisions of the relay between a client and its upstream connection.
//!
//! Whoever owns the two sockets reads from each in chunks, under an idle
//! timeout, and tells the pump what happened; the pump says what to do with
//! it. Bytes are passed on as they came. The first end of stream, timeout or
//! error in either direction stops both.

use vstd::prelude::*;

verus! {

/// The size of the buffer that each direction reads into.
pub const BUFFER_LEN: usize = 4096;

/// Seconds without data after which a read gives up, unless set otherwise.
pub const DEFAULT_IDLE_TIMEOUT_SECS: u64 = 10;

/// One of the two ways that bytes travel.
#[derive(Clone, Copy, Debug, PartialEq, Eq, Structural)]
pub enum Direction {
    ClientToUpstream,
    UpstreamToClient,
}

/// Why a direction stopped.
#[derive(Clone, Copy, Debug, PartialEq, Eq, Structural)]
pub enum Cause {
    Eof,
    Timeout,
    IoError,
}

/// Which direction stopped first, and why.
#[derive(Clone, Copy, Debug, PartialEq, Eq, Structural)]
pub struct RelayOutcome {
    pub first: Direction,
    pub cause: Cause,
}

/// What happened on one of the sockets.
#[derive(Clone, Debug, PartialEq, Eq)]
pub enum RelayEvent {
    /// A read in this direction returned these bytes. No bytes means end of
    /// stream.
    Data(Direction, Vec<u8>),
    /// A read or a write in this direction ended it.
    Ended(Direction, Cause),
}

/// What to do next.
#[derive(Clone, Debug, PartialEq, Eq)]
pub enum RelayAction {
    /// Write these bytes to the far side of this direction.
    Forward(Direction, Vec<u8>),
    /// Stop both directions and close both sockets.
    Shutdown(RelayOutcome),
}

/// What a `RelayEvent` stands for.
pub enum EventModel {
    Data(Direction, Seq<u8>),
    Ended(Direction, Cause),
}

/// What a `RelayAction` stands for.
pub enum ActionModel {
    Forward(Direction, Seq<u8>),
    Shutdown(RelayOutcome),
}

impl View for RelayEvent {
    type V = EventModel;

    open spec fn view(&self) -> EventModel {
        match *self {
            RelayEvent::Data(d, bytes) => EventModel::Data(d, bytes@),
            RelayEvent::Ended(d, c) => EventModel::Ended(d, c),
        }
    }
}

impl View for RelayAction {
    type V = ActionModel;

    open spec fn view(&self) -> ActionModel {
        match *self {
            RelayAction::Forward(d, bytes) => ActionModel::Forward(d, bytes@),
            RelayAction::Shutdown(o) => ActionModel::Shutdown(o),
        }
    }
}

/// The outcome that an event brings about, if it ends its direction.
pub open spec fn ending(e: EventModel) -> Option<RelayOutcome> {
    match e {
        EventModel::Data(d, bytes) => if bytes.len() == 0 {
            Some(RelayOutcome { first: d, cause: Cause::Eof })
        } else {
            None
        },
        EventModel::Ended(d, c) => Some(RelayOutcome { first: d, cause: c }),
    }
}

/// The bytes that an event brings in direction `d`.
pub open spec fn payload(e: EventModel, d: Direction) -> Seq<u8> {
    match e {
        EventModel::Data(dir, bytes) => if dir == d {
            bytes
        } else {
            Seq::empty()
        },
        EventModel::Ended(_, _) => Seq::empty(),
    }
}

/// One decision: from the outcome so far (none while the relay runs) and an
/// event to the outcome after it and the action to take.
pub open spec fn step(state: Option<RelayOutcome>, e: EventModel) -> (
    Option<RelayOutcome>,
    ActionModel,
) {
    match state {
        Some(o) => (Some(o), ActionModel::Shutdown(o)),
        None => match e {
            EventModel::Data(d, bytes) => if bytes.len() == 0 {
                let o = RelayOutcome { first: d, cause: Cause::Eof };
                (Some(o), ActionModel::Shutdown(o))
            } else {
                (None, ActionModel::Forward(d, bytes))
            },
            EventModel::Ended(d, c) => {
                let o = RelayOutcome { first: d, cause: c };
                (Some(o), ActionModel::Shutdown(o))
            },
        },
    }
}

/// The outcome after a run of events, from a fresh pump.
pub open spec fn run(events: Seq<EventModel>) -> Option<RelayOutcome>
    decreases events.len(),
{
    if events.len() == 0 {
        None
    } else {
        step(run(events.drop_last()), events.last()).0
    }
}

/// The bytes that the actions of a run pass on in direction `d`, in order.
pub open spec fn forwarded(events: Seq<EventModel>, d: Direction) -> Seq<u8>
    decreases events.len(),
{
    if events.len() == 0 {
        Seq::empty()
    } else {
        forwarded(events.drop_last(), d) + match step(run(events.drop_last()), events.last()).1 {
            ActionModel::Forward(dir, bytes) => if dir == d {
                bytes
            } else {
                Seq::empty()
            },
            ActionModel::Shutdown(_) => Seq::empty(),
        }
    }
}

/// Some event of the run ends a direction.
pub open spec fn has_ending(events: Seq<EventModel>) -> bool {
    exists|i: int| 0 <= i < events.len() && (#[trigger] ending(events[i])).is_some()
}

/// The bytes that arrived in direction `d` before either direction ended,
/// in order.
pub open spec fn received(events: Seq<EventModel>, d: Direction) -> Seq<u8>
    decreases events.len(),
{
    if events.len() == 0 {
        Seq::empty()
    } else if has_ending(events) {
        received(events.drop_last(), d)
    } else {
        received(events.drop_last(), d) + payload(events.last(), d)
    }
}

/// The relay between the two sockets of one session.
pub struct RelayPump {
    outcome: Option<RelayOutcome>,
    idle_timeout_secs: u64,
}

impl RelayPump {
    /// The outcome so far: none while the relay runs.
    pub closed spec fn state(&self) -> Option<RelayOutcome> {
        self.outcome
    }

    /// The idle timeout that each read is to be given, in seconds.
    pub closed spec fn timeout(&self) -> u64 {
        self.idle_timeout_secs
    }

    /// A running pump with the default idle timeout.
    pub fn new() -> (pump: RelayPump)
        ensures
            pump.state().is_none(),
            pump.timeout() == DEFAULT_IDLE_TIMEOUT_SECS,
    {
        RelayPump { outcome: None, idle_timeout_secs: DEFAULT_IDLE_TIMEOUT_SECS }
    }

    /// A running pump with an idle timeout of `secs` seconds.
    pub fn with_timeout(secs: u64) -> (pump: RelayPump)
        ensures
            pump.state().is_none(),
            pump.timeout() == secs,
    {
        RelayPump { outcome: None, idle_timeout_secs: secs }
    }

    /// The idle timeout that each read is to be given, in seconds.
    pub fn idle_timeout_secs(&self) -> (secs: u64)
        ensures
            secs == self.timeout(),
    {
        self.idle_timeout_secs
    }

    /// Which direction stopped first and why, once one has.
    pub fn outcome(&self) -> (res: Option<RelayOutcome>)
        ensures
            res == self.state(),
    {
        self.outcome
    }

    /// Takes one event and says what to do.
    ///
    /// While the relay runs, data is passed on unchanged in its own
    /// direction, and the first event that ends a direction stops both. Once
    /// stopped, the pump stays stopped and passes nothing on.
    pub fn step(&mut self, event: RelayEvent) -> (action: RelayAction)
        ensures
            (final(self).state(), action@) == step(old(self).state(), event@),
            final(self).timeout() == old(self).timeout(),
            ending(event@).is_some() ==> final(self).state().is_some()
                && action@ is Shutdown,
            old(self).state().is_some() ==> final(self).state() == old(self).state()
                && action@ is Shutdown,
    {
        match self.outcome {
            Some(o) => RelayAction::Shutdown(o),
            None => match event {
                RelayEvent::Data(d, bytes) => {
                    if bytes.len() == 0 {
                        let o = RelayOutcome { first: d, cause: Cause::Eof };
                        self.outcome = Some(o);
                        RelayAction::Shutdown(o)
                    } else {
                        RelayAction::Forward(d, bytes)
                    }
                },
                RelayEvent::Ended(d, c) => {
                    let o = RelayOutcome { first: d, cause: c };
                    self.outcome = Some(o);
                    RelayAction::Shutdown(o)
                },
            },
        }
    }
}

/// A run has an outcome exactly if one of its events ended a direction.
pub proof fn stopped_iff_ended(events: Seq<EventModel>)
    ensures
        run(events).is_some() <==> has_ending(events),
    decreases events.len(),
{
    if events.len() > 0 {
        let prev = events.drop_last();
        stopped_iff_ended(prev);
        if has_ending(prev) {
            let i = choose|i: int| 0 <= i < prev.len() && (#[trigger] ending(prev[i])).is_some();
            assert(ending(events[i]).is_some());
        }
        if ending(events.last()).is_some() {
            assert(ending(events[events.len() - 1]).is_some());
        }
        if has_ending(events) {
            let i = choose|i: int|
                0 <= i < events.len() && (#[trigger] ending(events[i])).is_some();
            if i < prev.len() {
                assert(ending(prev[i]).is_some());
            }
        }
    }
}

/// In each direction the relay passes on exactly the bytes that arrived in
/// that direction before either direction ended: all of them, only them,
/// unchanged and in their order.
pub proof fn forwards_what_arrived(events: Seq<EventModel>, d: Direction)
    ensures
        forwarded(events, d) == received(events, d),
    decreases events.len(),
{
    if events.len() > 0 {
        let prev = events.drop_last();
        forwards_what_arrived(prev, d);
        stopped_iff_ended(prev);
        stopped_iff_ended(events);
    }
}

/// Once a direction has ended the relay is stopped for good: whatever
/// happens afterwards, the outcome stays the first one and nothing more is
/// passed on in either direction.
pub proof fn stays_stopped(before: Seq<EventModel>, after: Seq<EventModel>, d: Direction)
    requires
        run(before).is_some(),
    ensures
        run(before + after) == run(before),
        forwarded(before + after, d) == forwarded(before, d),
    decreases after.len(),
{
    if after.len() == 0 {
        assert(before + after =~= before);
    } else {
        let all = before + after;
        assert(all.drop_last() =~= before + after.drop_last());
        stays_stopped(before, after.drop_last(), d);
    }
}

} // verus!
