//! The two lanes that engine events arrive on: what has to be seen, and packet
//! payloads that may be left out.
use crossbeam_channel::{Receiver, TryRecvError};

use vstd::prelude::*;

use crate::model::EngineEvent;

verus! {

/// The receiving end of a lane.
#[verifier::external_type_specification]
#[verifier::external_body]
#[verifier::reject_recursive_types(T)]
pub struct ExReceiver<T>(Receiver<T>);

/// What a look at a lane finds.
#[derive(Debug)]
pub enum Polled {
    Event(EngineEvent),
    Empty,
    Closed,
}

/// What comes next: an event, or a wait for one.
#[derive(Debug)]
pub enum LaneTurn {
    Handle(EngineEvent),
    WaitReliable,
    WaitDebug,
    WaitEither,
}

/// What comes next, given what a look at each lane finds. The reliable lane
/// goes first; a closed lane is not waited for.
pub open spec fn turn_of(reliable: Polled, debug: Polled) -> LaneTurn {
    match (reliable, debug) {
        (Polled::Event(event), _) => LaneTurn::Handle(event),
        (Polled::Closed, _) => LaneTurn::WaitDebug,
        (Polled::Empty, Polled::Event(event)) => LaneTurn::Handle(event),
        (Polled::Empty, Polled::Closed) => LaneTurn::WaitReliable,
        (Polled::Empty, Polled::Empty) => LaneTurn::WaitEither,
    }
}

/// Calls `crossbeam_channel::Receiver::try_recv`, which takes the oldest
/// message without waiting for one. Nothing is claimed of what it finds: that
/// is up to whoever holds the sending end.
#[verifier::external_body]
fn poll(lane: &Receiver<EngineEvent>) -> (polled: Polled) {
    match lane.try_recv() {
        Ok(event) => Polled::Event(event),
        Err(TryRecvError::Empty) => Polled::Empty,
        Err(TryRecvError::Disconnected) => Polled::Closed,
    }
}

/// What comes next once the reliable lane has been looked at; `None` where the
/// debug lane has to be looked at too.
pub fn turn_after_reliable(reliable: Polled) -> (turn: Option<LaneTurn>)
    ensures
        turn == (if reliable is Empty {
            None
        } else {
            Some(turn_of(reliable, Polled::Empty))
        }),
        turn matches Some(turn) ==> forall|debug: Polled|
            turn == #[trigger] turn_of(reliable, debug),
{
    match reliable {
        Polled::Event(event) => Some(LaneTurn::Handle(event)),
        Polled::Closed => Some(LaneTurn::WaitDebug),
        Polled::Empty => None,
    }
}

/// What comes next once both lanes have been looked at and the reliable one was
/// empty.
pub fn turn_after_debug(debug: Polled) -> (turn: LaneTurn)
    ensures
        turn == turn_of(Polled::Empty, debug),
{
    match debug {
        Polled::Event(event) => LaneTurn::Handle(event),
        Polled::Closed => LaneTurn::WaitReliable,
        Polled::Empty => LaneTurn::WaitEither,
    }
}

/// Whether a look at `lane` can find `found`. What it does find is up to
/// whoever holds the sending end.
pub closed spec fn found_on(lane: &Receiver<EngineEvent>, found: Polled) -> bool {
    call_ensures(poll, (lane,), found)
}

/// Whether `turn` is the one for a look at the reliable lane that found
/// `on_reliable`, followed by a look at the debug lane that found `on_debug`
/// where the reliable one was empty. Otherwise the debug lane is not looked at
/// and `on_debug` does not matter.
pub open spec fn takes_turn(
    reliable: &Receiver<EngineEvent>,
    debug: &Receiver<EngineEvent>,
    on_reliable: Polled,
    on_debug: Polled,
    turn: LaneTurn,
) -> bool {
    &&& found_on(reliable, on_reliable)
    &&& on_reliable is Empty ==> found_on(debug, on_debug)
    &&& turn == turn_of(on_reliable, on_debug)
}

/// Looks at the lanes for the next event: at the reliable one first, and at the
/// debug one only where the first is empty. The turn is the one for what was
/// found there. While debug payloads are put off, no lane is looked at and the
/// turn is to wait for the reliable one.
pub fn next_engine_event(
    reliable: &Receiver<EngineEvent>,
    debug: &Receiver<EngineEvent>,
    defer_debug: bool,
) -> (turn: LaneTurn)
    ensures
        defer_debug ==> turn == LaneTurn::WaitReliable,
        !defer_debug ==> exists|on_reliable: Polled, on_debug: Polled| #[trigger]
            takes_turn(reliable, debug, on_reliable, on_debug, turn),
{
    if defer_debug {
        return LaneTurn::WaitReliable;
    }
    let on_reliable = poll(reliable);
    let ghost found = on_reliable;
    assert(call_ensures(poll, (reliable,), found));
    if let Some(turn) = turn_after_reliable(on_reliable) {
        assert(takes_turn(reliable, debug, found, Polled::Empty, turn));
        return turn;
    }
    let on_debug = poll(debug);
    let ghost found_on_debug = on_debug;
    assert(call_ensures(poll, (debug,), found_on_debug));
    let turn = turn_after_debug(on_debug);
    assert(takes_turn(reliable, debug, found, found_on_debug, turn));
    turn
}

/// What a look at the reliable lane finds is handled, whatever waits on the
/// debug lane.
pub proof fn reliable_events_go_first(
    reliable: &Receiver<EngineEvent>,
    debug: &Receiver<EngineEvent>,
    event: EngineEvent,
    on_debug: Polled,
    turn: LaneTurn,
)
    requires
        takes_turn(reliable, debug, Polled::Event(event), on_debug, turn),
    ensures
        turn == LaneTurn::Handle(event),
{
}

/// A handled event was found on the reliable lane, or on the debug lane after
/// the reliable one was found empty.
pub proof fn handled_events_come_off_a_lane(
    reliable: &Receiver<EngineEvent>,
    debug: &Receiver<EngineEvent>,
    on_reliable: Polled,
    on_debug: Polled,
    event: EngineEvent,
)
    requires
        takes_turn(reliable, debug, on_reliable, on_debug, LaneTurn::Handle(event)),
    ensures
        ({
            ||| on_reliable == Polled::Event(event) && found_on(reliable, Polled::Event(event))
            ||| {
                &&& on_reliable == Polled::Empty && found_on(reliable, Polled::Empty)
                &&& on_debug == Polled::Event(event) && found_on(debug, Polled::Event(event))
            }
        }),
{
}

/// With an event waiting on each lane, two turns handle the reliable one and
/// then the debug one: the first finds the reliable event, the second finds the
/// reliable lane empty and the debug event after it.
pub proof fn debug_events_follow_reliable_ones(
    reliable: &Receiver<EngineEvent>,
    debug: &Receiver<EngineEvent>,
    first: LaneTurn,
    second: LaneTurn,
    waiting: EngineEvent,
    payload: EngineEvent,
    on_debug: Polled,
)
    requires
        takes_turn(reliable, debug, Polled::Event(waiting), on_debug, first),
        takes_turn(reliable, debug, Polled::Empty, Polled::Event(payload), second),
    ensures
        first == LaneTurn::Handle(waiting),
        second == LaneTurn::Handle(payload),
{
}

/// A closed lane is not waited for, and a lane that is waited for was not found
/// closed.
pub proof fn closed_lanes_are_not_waited_for(
    reliable: &Receiver<EngineEvent>,
    debug: &Receiver<EngineEvent>,
    on_reliable: Polled,
    on_debug: Polled,
    turn: LaneTurn,
)
    requires
        takes_turn(reliable, debug, on_reliable, on_debug, turn),
    ensures
        turn == LaneTurn::WaitDebug <==> on_reliable == Polled::Closed,
        turn == LaneTurn::WaitReliable <==> on_reliable == Polled::Empty && on_debug
            == Polled::Closed,
        turn == LaneTurn::WaitEither <==> on_reliable == Polled::Empty && on_debug == Polled::Empty,
{
}

} // verus!
