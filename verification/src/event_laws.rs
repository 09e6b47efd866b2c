//! What a session tells its client of events, and what its answers are about.
use vstd::prelude::*;

use crate::battle::{BattleAxisDto, BattleReadError};
use crate::double::{Arith, Double};
use crate::error::CoreErrorCode;
use crate::history::{CaptureQualitySummary, CombatSessionSummary};
use crate::lifecycle_laws::nothing_seen;
use crate::line::{line_end, line_end_is_first, line_event, BoundedLine, LineEvent, LineReader};
use crate::model::{
    BattleState, CaptureQualitySource, CombatState, DpsTimeBasis, EngineEvent, Inventory,
};
use crate::queries::{reads_axis, reads_record};
use crate::reducer::{reduces, BattleUpdate, EngineStep};
use crate::requests::{concludes, drained, reader_failure, send_failure, send_reply, stop_reply};
use crate::rpc::{
    BattleAxisParams, BattleRecordParams, CaptureProfile, DomainError, RpcError,
};
use crate::runtime::OperationId;
use crate::session::{
    is_summary, reacts, CaptureStatus, CaptureStatusEvent, Effect, EquipmentOutcome, Event,
    LatestMessage, Message, Reply, Runtime, StampedEvent,
};
use crate::session_laws::signal_of_event;
use crate::timeline::TimelineInterval;
use vstd::utf8::{decode_utf8, valid_utf8};

verus! {

/// A notification that may be lost.
pub open spec fn tells<C>(effect: Effect<C>, event: Event<C>) -> bool {
    effect == (Effect::<C>::Send { message: Message::Notification(event), checked: false })
}

/// The status of a capture, as the client is told it.
pub open spec fn tells_status<C>(
    effect: Effect<C>,
    sequence: int,
    operation: OperationId,
    profile: CaptureProfile,
    status: CaptureStatus,
) -> bool {
    exists|event: CaptureStatusEvent|
        {
            &&& #[trigger] tells(effect, Event::Capture(event))
            &&& event.sequence == sequence
            &&& event.operation == operation
            &&& event.profile == profile
            &&& event.status == status
        }
}

/// A success that has to arrive, for the request with this id.
pub open spec fn grants<C>(effect: Effect<C>, id: String, reply: Reply<C>) -> bool {
    effect == (Effect::<C>::Send { message: Message::Success { id, result: reply }, checked: true })
}

/// A failure that has to arrive, for the request with this id.
pub open spec fn refuses<C>(effect: Effect<C>, id: String, error: RpcError) -> bool {
    effect == (Effect::<C>::Send { message: Message::Failure { id: Some(id), error }, checked: true })
}

/// A warning, an error and the start of a capture are told once each, under
/// the next number; a hit is not told by itself, but has the summary told
/// where it changed something.
pub proof fn clients_hear_of_events<
    C: Clone,
    E: Fn(BattleState, &BattleUpdate) -> EngineStep,
    I: Fn(&Inventory) -> C,
    S: Fn(&CombatState, CaptureQualitySource, DpsTimeBasis, bool) -> Option<CombatSessionSummary>,
>(
    session: &mut Runtime<C>,
    event: EngineEvent,
    now: u64,
    engine: &E,
    enrich: &I,
    summarize: &S,
    effects: Vec<Effect<C>>,
)
    requires
        old(session).control.sequence < u64::MAX - 2,
        call_ensures(
            Runtime::<C>::process_engine_event::<E, I, S>,
            (session, event, now, engine, enrich, summarize),
            effects,
        ),
    ensures
        event is Warning ==> {
            &&& effects@.len() == 1
            &&& tells(effects@[0], Event::Warning { sequence: final(session).control.sequence })
            &&& final(session).control.sequence == old(session).control.sequence + 1
            &&& final(session).control.capture == old(session).control.capture
            &&& final(session).control.record == old(session).control.record
        },
        event is Error ==> {
            &&& effects@.len() == 1
            &&& tells(effects@[0], Event::Error { sequence: final(session).control.sequence })
            &&& final(session).control.sequence == old(session).control.sequence + 1
            &&& final(session).control.record == old(session).control.record
        },
        event is Status && old(session).control.capture is Some && !old(session).control.running_notified ==> {
            &&& effects@.len() == 1
            &&& tells_status(
                effects@[0],
                old(session).control.sequence + 1,
                old(session).control.active_operation->0,
                old(session).control.capture->0,
                CaptureStatus::Running,
            )
            &&& final(session).control.running_notified
        },
        event is Status && (old(session).control.capture is None || old(session).control.running_notified) ==> effects@.len() == 0 && final(session).control == old(session).control,
        event is Hit || event is HitFollowUp || event is HitDamageCorrection || event is TimeStop
            || event is Abyss || event is Packet || event is PartyEffects || event
            is PacketObservation || event is EmptyCurtainCharacters || event is ModScript ==> {
            &&& effects@.len() == 0
            &&& final(session).control.sequence == old(session).control.sequence
            &&& final(session).control.capture == old(session).control.capture
        },
        event is Hit && final(session).state.battle.team.hits_generation != old(session).state.battle.team.hits_generation ==> final(session).control.battle_summary_dirty,
        event is Hit && final(session).state.battle.team.hits_generation == old(session).state.battle.team.hits_generation && final(session).state.battle.abyss.event_count == old(session).state.battle.abyss.event_count ==> final(session).control == old(session).control,
        event is Packet || event is PartyEffects || event is EmptyCurtainCharacters ==> final(session).control == old(session).control,
        !(event is EmptyCurtain) ==> final(session).latest_inventory == old(session).latest_inventory,
        final(session).pending_equipment_requests == old(session).pending_equipment_requests,
{
    let signal = signal_of_event(
        *engine,
        *enrich,
        *summarize,
        *old(session),
        event,
        now,
        *final(session),
        effects@,
    );
    reveal(reacts);
    if event is Status && old(session).control.capture is Some && !old(session).control.running_notified {
        let told = crate::session::next_status(
            old(session).control,
            old(session).control.active_operation->0,
            old(session).control.capture->0,
            CaptureStatus::Running,
        );
        assert(tells(effects@[0], Event::Capture(told)));
    }
}

/// A captured inventory is told whole under the next generation, with the
/// time of its capture, and is what the client can ask for from then on.
pub proof fn inventories_are_told_whole<
    C: Clone,
    E: Fn(BattleState, &BattleUpdate) -> EngineStep,
    I: Fn(&Inventory) -> C,
    S: Fn(&CombatState, CaptureQualitySource, DpsTimeBasis, bool) -> Option<CombatSessionSummary>,
>(
    session: &mut Runtime<C>,
    event: EngineEvent,
    now: u64,
    engine: &E,
    enrich: &I,
    summarize: &S,
    effects: Vec<Effect<C>>,
)
    requires
        event is EmptyCurtain,
        old(session).control.sequence < u64::MAX - 2,
        old(session).control.inventory_generation < u64::MAX - 2,
        call_ensures(
            Runtime::<C>::process_engine_event::<E, I, S>,
            (session, event, now, engine, enrich, summarize),
            effects,
        ),
    ensures
        final(session).latest_inventory is Some,
        final(session).latest_inventory->0.generation == old(session).control.inventory_generation
            + 1,
        final(session).latest_inventory->0.captured_at_unix_ms == now,
        call_ensures(
            *enrich,
            (&final(session).state.inventory,),
            final(session).latest_inventory->0.contents,
        ),
        final(session).state.inventory.items == event->EmptyCurtain_0,
        final(session).state.battle == old(session).state.battle,
        effects@.len() == 1,
        effects@[0] matches Effect::Send { message, checked } && !checked && (message
            matches Message::Notification(told) && (told matches Event::Inventory {
            sequence,
            snapshot,
        } && sequence == old(session).control.sequence + 1 && snapshot.generation == old(session).control.inventory_generation + 1 && snapshot.captured_at_unix_ms == now)),
        final(session).control.record == old(session).control.record,
{
    let signal = signal_of_event(
        *engine,
        *enrich,
        *summarize,
        *old(session),
        event,
        now,
        *final(session),
        effects@,
    );
    reveal(reacts);
    reveal(reduces);
}

/// A capture that ends by itself is told as stopped, after its last summary
/// where it has one; nothing runs from then on.
pub proof fn ended_captures_are_told_last<
    C: Clone,
    E: Fn(BattleState, &BattleUpdate) -> EngineStep,
    I: Fn(&Inventory) -> C,
    S: Fn(&CombatState, CaptureQualitySource, DpsTimeBasis, bool) -> Option<CombatSessionSummary>,
>(
    session: &mut Runtime<C>,
    now: u64,
    engine: &E,
    enrich: &I,
    summarize: &S,
    effects: Vec<Effect<C>>,
)
    requires
        old(session).control.sequence < u64::MAX - 2,
        old(session).control.active_operation is Some,
        call_ensures(
            Runtime::<C>::process_engine_event::<E, I, S>,
            (session, EngineEvent::CaptureStopped, now, engine, enrich, summarize),
            effects,
        ),
    ensures
        old(session).control.capture is None ==> effects@.len() == 0 && final(session).control
            == old(session).control,
        old(session).control.capture matches Some(profile) ==> {
            &&& final(session).control.capture is None
            &&& final(session).control.active_operation is None
            &&& !final(session).control.running_notified
            &&& !final(session).control.battle_summary_dirty
            &&& effects@.len() == 2 || effects@.len() == 3
            &&& effects@[0] is ClearSummary
            &&& tells_status(
                effects@.last(),
                final(session).control.sequence as int,
                old(session).control.active_operation->0,
                profile,
                CaptureStatus::Stopped,
            )
            &&& final(session).control.sequence == old(session).control.sequence + effects@.len()
                - 1
            &&& effects@.len() == 3 ==> exists|summary: CombatSessionSummary|
                {
                    &&& #[trigger] call_ensures(
                        *summarize,
                        (
                            &final(session).state,
                            CaptureQualitySource::Live,
                            DpsTimeBasis::SubtractTimeStop,
                            false,
                        ),
                        Some(summary),
                    )
                    &&& effects@[1] matches Effect::Send { message, .. } && (message
                        matches Message::Notification(told) && (told matches Event::Summary(event)
                        && event.summary == summary && event.sequence == old(session).control.sequence + 1))
                }
        },
        final(session).state == old(session).state,
{
    let signal = signal_of_event(
        *engine,
        *enrich,
        *summarize,
        *old(session),
        EngineEvent::CaptureStopped,
        now,
        *final(session),
        effects@,
    );
    reveal(reacts);
    reveal(reduces);
    if let Some(profile) = old(session).control.capture {
        let operation = old(session).control.active_operation->0;
        let closed = old(session).control.without_capture().finalized(Some(operation), now);
        let summary = choose|summary: Option<CombatSessionSummary>| #[trigger]
            is_summary(*summarize, final(session).state, true, summary) && {
                &&& final(session).control == closed.summarized(summary).numbered()
                &&& effects@ == crate::session::final_summary::<C>(summary, closed.sequence)
                    + crate::session::notifies::<C>(
                    Event::Capture(
                        crate::session::next_status(
                            closed.summarized(summary),
                            operation,
                            profile,
                            CaptureStatus::Stopped,
                        ),
                    ),
                )
            };
        let told = crate::session::next_status(
            closed.summarized(summary),
            operation,
            profile,
            CaptureStatus::Stopped,
        );
        assert(tells(effects@.last(), Event::Capture(told)));
    }
}

/// A changed summary is published once: it is the engine's, with stopped time
/// left out; where nothing changed, nothing is published.
pub proof fn changed_summaries_are_published_once<
    C: Clone,
    S: Fn(&CombatState, CaptureQualitySource, DpsTimeBasis, bool) -> Option<CombatSessionSummary>,
>(
    session: &mut Runtime<C>,
    summarize: &S,
    effects: Vec<Effect<C>>,
    again: &mut Runtime<C>,
    repeated: Vec<Effect<C>>,
)
    requires
        old(session).control.sequence < u64::MAX,
        call_ensures(Runtime::<C>::flush_battle_summary::<S>, (session, summarize), effects),
        *old(again) == *final(session),
        call_ensures(Runtime::<C>::flush_battle_summary::<S>, (again, summarize), repeated),
    ensures
        !old(session).control.battle_summary_dirty ==> effects@.len() == 0 && *final(session)
            == *old(session),
        effects@.len() <= 1,
        effects@.len() == 1 ==> {
            &&& effects@[0] is PublishSummary
            &&& effects@[0]->PublishSummary_0.sequence == old(session).control.sequence + 1
            &&& call_ensures(
                *summarize,
                (
                    &old(session).state,
                    CaptureQualitySource::Live,
                    DpsTimeBasis::SubtractTimeStop,
                    false,
                ),
                Some(effects@[0]->PublishSummary_0.summary),
            )
        },
        old(session).control.battle_summary_dirty && effects@.len() == 0 ==> call_ensures(
            *summarize,
            (
                &old(session).state,
                CaptureQualitySource::Live,
                DpsTimeBasis::SubtractTimeStop,
                false,
            ),
            None::<CombatSessionSummary>,
        ),
        repeated@.len() == 0,
        final(session).state == old(session).state,
        final(session).control.record == old(session).control.record,
{
}

/// A summary that is asked for is made on the time basis that was asked for.
pub proof fn summaries_are_made_as_asked<
    C: Clone,
    S: Fn(&CombatState, CaptureQualitySource, DpsTimeBasis, bool) -> Option<CombatSessionSummary>,
>(
    session: &Runtime<C>,
    summarize: &S,
    adjusted: Option<CombatSessionSummary>,
    plain: Option<CombatSessionSummary>,
)
    requires
        call_ensures(Runtime::<C>::battle_summary::<S>, (session, true, summarize), adjusted),
        call_ensures(Runtime::<C>::battle_summary::<S>, (session, false, summarize), plain),
    ensures
        call_ensures(
            *summarize,
            (&session.state, CaptureQualitySource::Live, DpsTimeBasis::SubtractTimeStop, false),
            adjusted,
        ),
        call_ensures(
            *summarize,
            (&session.state, CaptureQualitySource::Live, DpsTimeBasis::WallClock, false),
            plain,
        ),
{
}

/// Replies, failures and statuses are added behind what is there, for the
/// request, the reason and the capture that they are about.
pub proof fn answers_are_added_behind<C: Clone>(
    replying: &mut Vec<Effect<C>>,
    id: String,
    reply: Reply<C>,
    failing: &mut Vec<Effect<C>>,
    error: RpcError,
    session: &mut Runtime<C>,
    telling: &mut Vec<Effect<C>>,
    operation: OperationId,
    profile: CaptureProfile,
    status: CaptureStatus,
    stray: Option<String>,
    message: Message<C>,
)
    requires
        old(session).control.sequence < u64::MAX,
        call_ensures(send_reply::<C>, (replying, id, reply), ()),
        call_ensures(send_failure::<C>, (failing, id, error), ()),
        call_ensures(
            Runtime::<C>::send_capture_status_for,
            (session, telling, operation, profile, status),
            (),
        ),
        call_ensures(reader_failure::<C>, (stray, error), message),
    ensures
        final(replying)@.len() == old(replying)@.len() + 1,
        final(replying)@.drop_last() == old(replying)@,
        grants(final(replying)@.last(), id, reply),
        final(failing)@.len() == old(failing)@.len() + 1,
        final(failing)@.drop_last() == old(failing)@,
        refuses(final(failing)@.last(), id, error),
        final(telling)@.len() == old(telling)@.len() + 1,
        final(telling)@.drop_last() == old(telling)@,
        tells_status(
            final(telling)@.last(),
            old(session).control.sequence + 1,
            operation,
            profile,
            status,
        ),
        final(session).control.sequence == old(session).control.sequence + 1,
        final(session).state == old(session).state,
        message is Failure,
        message->Failure_id == stray,
        message->error == error,
{
    assert(final(replying)@.drop_last() =~= old(replying)@);
    assert(final(failing)@.drop_last() =~= old(failing)@);
    assert(final(telling)@.drop_last() =~= old(telling)@);
    let told = crate::session::next_status(old(session).control, operation, profile, status);
    assert(tells(final(telling)@.last(), Event::Capture(told)));
}

/// A start that was granted is answered with its operation, and then told as
/// starting; one that failed is answered with its failure alone.
pub proof fn starts_are_answered_and_then_told<C: Clone>(
    session: &mut Runtime<C>,
    id: String,
    profile: CaptureProfile,
    outcome: Result<(), CoreErrorCode>,
    effects: Vec<Effect<C>>,
)
    requires
        old(session).control.sequence < u64::MAX,
        old(session).control.operation_sequence < u64::MAX,
        call_ensures(
            Runtime::<C>::finish_capture_start,
            (session, id, profile, outcome),
            effects,
        ),
    ensures
        outcome is Ok ==> {
            let operation = OperationId {
                number: (old(session).control.operation_sequence + 1) as u64,
            };
            &&& effects@.len() == 2
            &&& grants(effects@[0], id, Reply::CaptureStarted { operation })
            &&& tells_status(
                effects@[1],
                old(session).control.sequence + 1,
                operation,
                profile,
                CaptureStatus::Starting,
            )
            &&& final(session).control.capture == Some(profile)
            &&& final(session).control.active_operation == Some(operation)
            &&& !final(session).control.running_notified
        },
        outcome is Err ==> effects@.len() == 1 && *final(session) == *old(session) && exists|
            error: DomainError,
        |
            #[trigger] refuses(effects@[0], id, RpcError::Domain(error)),
        final(session).state == old(session).state,
{
    if outcome is Ok {
        let operation = OperationId {
            number: (old(session).control.operation_sequence + 1) as u64,
        };
        let event = CaptureStatusEvent {
            sequence: (old(session).control.sequence + 1) as u64,
            operation,
            status: CaptureStatus::Starting,
            profile,
        };
        assert(tells(effects@[1], Event::Capture(event)));
    } else {
        assert(refuses(
            effects@[0],
            id,
            RpcError::Domain(crate::rpc::answered(outcome->Err_0)),
        ));
    }
}

/// A stop that was granted is answered for its own operation, right before the
/// capture is told as stopped; one that was not is answered last with its
/// failure. Nothing runs afterwards.
pub proof fn stops_are_answered_and_then_told<
    C: Clone,
    E: Fn(BattleState, &BattleUpdate) -> EngineStep,
    I: Fn(&Inventory) -> C,
    S: Fn(&CombatState, CaptureQualitySource, DpsTimeBasis, bool) -> Option<CombatSessionSummary>,
>(
    session: &mut Runtime<C>,
    id: String,
    events: Vec<StampedEvent>,
    now: u64,
    engine: &E,
    enrich: &I,
    summarize: &S,
    effects: Vec<Effect<C>>,
)
    requires
        call_ensures(
            Runtime::<C>::finish_capture_stop::<E, I, S>,
            (session, id, Ok::<(), CoreErrorCode>(()), events, now, engine, enrich, summarize),
            effects,
        ),
    ensures
        old(session).control.capture matches Some(profile) ==> {
            &&& effects@.len() >= 3
            &&& grants(
                effects@[effects@.len() - 2],
                id,
                Reply::CaptureStopped {
                    operation: old(session).control.active_operation->0,
                    stopped: true,
                },
            )
            &&& exists|sequence: int| #[trigger]
                tells_status(
                    effects@.last(),
                    sequence,
                    old(session).control.active_operation->0,
                    profile,
                    CaptureStatus::Stopped,
                )
        },
        old(session).control.capture is None ==> effects@.len() >= 1 && refuses(
            effects@.last(),
            id,
            RpcError::Domain(DomainError::CaptureNotRunning),
        ),
{
    let outcome = Ok::<(), CoreErrorCode>(());
    let (quiet, batch, tail) = choose|
        quiet: Runtime<C>,
        batch: Seq<Effect<C>>,
        tail: Seq<Effect<C>>,
    |
        {
            &&& #[trigger] drained(
                *engine,
                *enrich,
                *summarize,
                old(session).with_control(
                    crate::requests::after_stop(old(session).control, outcome),
                ),
                events@,
                quiet,
                batch,
            )
            &&& effects@ == #[trigger] (batch + tail)
            &&& match crate::requests::stop_result(old(session).control, outcome) {
                Ok((operation, profile)) => concludes(
                    *summarize,
                    quiet,
                    operation,
                    profile,
                    now,
                    stop_reply::<C>(id, operation),
                    *final(session),
                    tail,
                ),
                Err(code) => *final(session) == quiet && tail
                    == crate::requests::failure_reply::<C>(
                    id,
                    RpcError::Domain(crate::rpc::answered(code)),
                ),
            }
        };
    if let Some(profile) = old(session).control.capture {
        let operation = old(session).control.active_operation->0;
        let closed = quiet.control.finalized(Some(operation), now);
        let summary = choose|summary: Option<CombatSessionSummary>| #[trigger]
            is_summary(*summarize, quiet.state, true, summary) && tail
                == crate::session::final_summary::<C>(summary, closed.sequence) + stop_reply::<C>(
                id,
                operation,
            ) + crate::session::notifies::<C>(
                Event::Capture(
                    crate::session::next_status(
                        closed.summarized(summary),
                        operation,
                        profile,
                        CaptureStatus::Stopped,
                    ),
                ),
            );
        let told = crate::session::next_status(
            closed.summarized(summary),
            operation,
            profile,
            CaptureStatus::Stopped,
        );
        let first = crate::session::final_summary::<C>(summary, closed.sequence);
        assert(first.len() >= 1);
        assert(tail.len() == first.len() + 2);
        assert(tail[first.len() as int] == stop_reply::<C>(id, operation)[0]);
        assert(effects@[effects@.len() - 2] == tail[first.len() as int]);
        assert(effects@.last() == tail.last());
        assert(tells(effects@.last(), Event::Capture(told)));
        assert(tells_status(
            effects@.last(),
            told.sequence as int,
            operation,
            profile,
            CaptureStatus::Stopped,
        ));
    }
}

/// A reset is answered last, after the summary that waited was dropped; the
/// battle is gone and the inventory is not.
pub proof fn resets_are_answered_last<
    C: Clone,
    E: Fn(BattleState, &BattleUpdate) -> EngineStep,
    I: Fn(&Inventory) -> C,
    S: Fn(&CombatState, CaptureQualitySource, DpsTimeBasis, bool) -> Option<CombatSessionSummary>,
>(
    session: &mut Runtime<C>,
    id: String,
    events: Vec<StampedEvent>,
    engine: &E,
    enrich: &I,
    summarize: &S,
    effects: Vec<Effect<C>>,
    resetting: &mut Runtime<C>,
    alone: Vec<Effect<C>>,
)
    requires
        call_ensures(
            Runtime::<C>::answer_reset::<E, I, S>,
            (session, id, events, engine, enrich, summarize),
            effects,
        ),
        call_ensures(Runtime::<C>::reset_battle, (resetting,), alone),
    ensures
        effects@.len() >= 2,
        grants(effects@.last(), id, Reply::Reset { reset: true }),
        effects@[effects@.len() - 2] is ClearSummary,
        nothing_seen(final(session).state),
        final(session).control.record is None,
        !final(session).control.battle_summary_dirty,
        nothing_seen(final(resetting).state),
        final(resetting).state.inventory == old(resetting).state.inventory,
        final(resetting).control.record is None,
        final(resetting).control.capture == old(resetting).control.capture,
        final(resetting).latest_inventory == old(resetting).latest_inventory,
        alone@.len() == 1,
        alone@[0] is ClearSummary,
{
}

/// A summary is answered last, on the time basis that was asked for and of the
/// session once the queued events are in it.
pub proof fn summaries_are_answered_last<
    C: Clone,
    E: Fn(BattleState, &BattleUpdate) -> EngineStep,
    I: Fn(&Inventory) -> C,
    S: Fn(&CombatState, CaptureQualitySource, DpsTimeBasis, bool) -> Option<CombatSessionSummary>,
>(
    session: &mut Runtime<C>,
    id: String,
    subtract: bool,
    events: Vec<StampedEvent>,
    engine: &E,
    enrich: &I,
    summarize: &S,
    effects: Vec<Effect<C>>,
)
    requires
        call_ensures(
            Runtime::<C>::answer_summary::<E, I, S>,
            (session, id, subtract, events, engine, enrich, summarize),
            effects,
        ),
    ensures
        effects@.len() >= 1,
        exists|summary: Option<CombatSessionSummary>|
            {
                &&& #[trigger] grants(effects@.last(), id, Reply::Summary(summary))
                &&& subtract ==> call_ensures(
                    *summarize,
                    (
                        &final(session).state,
                        CaptureQualitySource::Live,
                        DpsTimeBasis::SubtractTimeStop,
                        false,
                    ),
                    summary,
                )
                &&& !subtract ==> call_ensures(
                    *summarize,
                    (
                        &final(session).state,
                        CaptureQualitySource::Live,
                        DpsTimeBasis::WallClock,
                        false,
                    ),
                    summary,
                )
            },
        events@.len() == 0 ==> *final(session) == *old(session) && effects@.len() == 1,
{
    let (batch, summary) = choose|batch: Seq<Effect<C>>, summary: Option<CombatSessionSummary>|
        {
            &&& #[trigger] drained(
                *engine,
                *enrich,
                *summarize,
                *old(session),
                events@,
                *final(session),
                batch,
            )
            &&& #[trigger] is_summary(*summarize, final(session).state, subtract, summary)
            &&& effects@ == batch + crate::session::replies(
                Message::Success { id, result: Reply::<C>::Summary(summary) },
            )
        };
    assert(grants(effects@.last(), id, Reply::Summary(summary)));
}

/// A read of the record, of a page or of the timeline is answered last, for
/// the request that asked: with what was read, or with the failure to read.
pub proof fn reads_are_answered_last<
    C: Clone,
    E: Fn(BattleState, &BattleUpdate) -> EngineStep,
    I: Fn(&Inventory) -> C,
    S: Fn(&CombatState, CaptureQualitySource, DpsTimeBasis, bool) -> Option<CombatSessionSummary>,
    F: Fn(Arith) -> Double,
    G: Fn(&CombatState, CaptureQualitySource) -> CaptureQualitySummary,
    T: Fn(&CombatState, Double, Double) -> Vec<TimelineInterval>,
>(
    reading: &mut Runtime<C>,
    id: String,
    record: &BattleRecordParams,
    events: Vec<StampedEvent>,
    engine: &E,
    enrich: &I,
    summarize: &S,
    grade: &G,
    stops: &T,
    record_effects: Vec<Effect<C>>,
    paging: &mut Runtime<C>,
    axis: &BattleAxisParams,
    ops: &F,
    axis_effects: Vec<Effect<C>>,
)
    requires
        call_ensures(
            Runtime::<C>::answer_record::<E, I, S, G, T>,
            (reading, id, record, events, engine, enrich, summarize, grade, stops),
            record_effects,
        ),
        call_ensures(
            Runtime::<C>::answer_axis::<E, I, S, F>,
            (paging, id, axis, events, engine, enrich, summarize, ops),
            axis_effects,
        ),
    ensures
        record_effects@.len() >= 1,
        (exists|reply: Option<crate::session::RecordReply>| #[trigger]
            grants(record_effects@.last(), id, Reply::Record(reply))) || (exists|
            error: DomainError,
        |
            #[trigger] refuses(record_effects@.last(), id, RpcError::Domain(error))),
        final(reading).control.record is None && record.battle_record_id is None ==> grants(
            record_effects@.last(),
            id,
            Reply::Record(None),
        ),
        axis_effects@.len() >= 1,
        (exists|reply: Option<BattleAxisDto>| #[trigger]
            grants(axis_effects@.last(), id, Reply::Axis(reply))) || (exists|error: DomainError|
            #[trigger] refuses(axis_effects@.last(), id, RpcError::Domain(error))),
        final(paging).control.record is None && axis.battle_record_id is None ==> grants(
            axis_effects@.last(),
            id,
            Reply::Axis(None),
        ),
        events@.len() == 0 ==> *final(reading) == *old(reading) && record_effects@.len() == 1,
        events@.len() == 0 ==> *final(paging) == *old(paging) && axis_effects@.len() == 1,
{
    let (batch, result) = choose|
        batch: Seq<Effect<C>>,
        result: Result<Option<crate::session::RecordReply>, BattleReadError>,
    |
        {
            &&& #[trigger] drained(
                *engine,
                *enrich,
                *summarize,
                *old(reading),
                events@,
                *final(reading),
                batch,
            )
            &&& #[trigger] reads_record(
                *summarize,
                *grade,
                *stops,
                *final(reading),
                *record,
                result,
            )
            &&& record_effects@ == batch + crate::queries::read_answer(
                id,
                result,
                Reply::<C>::Record(result->Ok_0),
            )
        };
    match result {
        Ok(reply) => {
            assert(grants(record_effects@.last(), id, Reply::Record(reply)));
        },
        Err(error) => {
            assert(refuses(
                record_effects@.last(),
                id,
                RpcError::Domain(crate::rpc::read_failure(error)),
            ));
        },
    }
    let (batch, result) = choose|
        batch: Seq<Effect<C>>,
        result: Result<Option<BattleAxisDto>, BattleReadError>,
    |
        {
            &&& #[trigger] drained(
                *engine,
                *enrich,
                *summarize,
                *old(paging),
                events@,
                *final(paging),
                batch,
            )
            &&& #[trigger] reads_axis(*ops, *final(paging), *axis, result)
            &&& axis_effects@ == batch + crate::queries::read_answer(
                id,
                result,
                Reply::<C>::Axis(result->Ok_0),
            )
        };
    match result {
        Ok(reply) => {
            assert(grants(axis_effects@.last(), id, Reply::Axis(reply)));
        },
        Err(error) => {
            assert(refuses(
                axis_effects@.last(),
                id,
                RpcError::Domain(crate::rpc::read_failure(error)),
            ));
        },
    }
}

/// The request to shut down is answered last of all, as done.
pub proof fn shutdowns_are_answered_last<
    C: Clone,
    E: Fn(BattleState, &BattleUpdate) -> EngineStep,
    I: Fn(&Inventory) -> C,
    S: Fn(&CombatState, CaptureQualitySource, DpsTimeBasis, bool) -> Option<CombatSessionSummary>,
>(
    session: &mut Runtime<C>,
    id: String,
    events: Vec<StampedEvent>,
    now: u64,
    engine: &E,
    enrich: &I,
    summarize: &S,
    effects: Vec<Effect<C>>,
)
    requires
        call_ensures(
            Runtime::<C>::shut_down::<E, I, S>,
            (session, id, events, now, engine, enrich, summarize),
            effects,
        ),
    ensures
        effects@.len() >= 1,
        effects@.last() matches Effect::Send { message, .. } && message == (Message::Success {
            id,
            result: Reply::<C>::Shutdown { shutting_down: true },
        }),
        old(session).control.capture is None ==> effects@.len() == 1 && *final(session) == *old(session),
{
}

/// A failure for one of the requests that wait for the loader.
pub open spec fn refuses_a_waiting_one<C>(pending: Map<u64, String>, effect: Effect<C>) -> bool {
    exists|key: u64|
        pending.dom().contains(key) && #[trigger] refuses(
            effect,
            pending[key],
            RpcError::Domain(DomainError::ModsPluginUnavailable),
        )
}

/// A loader that is gone fails every request that waits for it, once each and
/// for the client that asked, and nothing else.
pub proof fn lost_loaders_fail_every_request<C: Clone>(
    session: &mut Runtime<C>,
    effects: Vec<Effect<C>>,
    waiting: u64,
)
    requires
        call_ensures(Runtime::<C>::fail_pending_equipment_requests, (session,), effects),
        old(session).pending_equipment_requests@.dom().contains(waiting),
    ensures
        final(session).pending_equipment_requests@.dom() =~= Set::<u64>::empty(),
        exists|at: int|
            {
                &&& 0 <= at < effects@.len()
                &&& refuses(
                    #[trigger] effects@[at],
                    old(session).pending_equipment_requests@[waiting],
                    RpcError::Domain(DomainError::ModsPluginUnavailable),
                )
            },
        forall|at: int|
            0 <= at < effects@.len() ==> refuses_a_waiting_one(
                old(session).pending_equipment_requests@,
                #[trigger] effects@[at],
            ),
        final(session).control == old(session).control,
        final(session).state == old(session).state,
{
    let pending = old(session).pending_equipment_requests@;
    let keys = choose|keys: Seq<u64>|
        {
            &&& #[trigger] keys.no_duplicates()
            &&& keys.len() == effects@.len()
            &&& forall|key: u64| pending.dom().contains(key) <==> #[trigger] keys.contains(key)
            &&& forall|i: int|
                0 <= i < keys.len() ==> #[trigger] effects@[i] == (Effect::<C>::Send {
                    message: Message::Failure {
                        id: Some(pending[keys[i]]),
                        error: RpcError::Domain(DomainError::ModsPluginUnavailable),
                    },
                    checked: true,
                })
        };
    assert(keys.contains(waiting));
    let at = keys.index_of(waiting);
    assert(refuses(
        effects@[at],
        pending[waiting],
        RpcError::Domain(DomainError::ModsPluginUnavailable),
    ));
    assert forall|at: int| 0 <= at < effects@.len() implies refuses_a_waiting_one(
        pending,
        #[trigger] effects@[at],
    ) by {
        assert(keys.contains(keys[at]));
        assert(refuses(
            effects@[at],
            pending[keys[at]],
            RpcError::Domain(DomainError::ModsPluginUnavailable),
        ));
    }
}

/// Only the newest message of a stream waits, and it is taken once.
pub proof fn only_the_newest_message_waits<T>(
    publishing: &mut LatestMessage<T>,
    message: T,
    taking: &mut LatestMessage<T>,
    taken: Option<T>,
    again: &mut LatestMessage<T>,
    nothing: Option<T>,
    clearing: &mut LatestMessage<T>,
)
    requires
        call_ensures(LatestMessage::<T>::publish, (publishing, message), ()),
        *old(taking) == *final(publishing),
        call_ensures(LatestMessage::<T>::take, (taking,), taken),
        *old(again) == *final(taking),
        call_ensures(LatestMessage::<T>::take, (again,), nothing),
        call_ensures(LatestMessage::<T>::clear, (clearing,), ()),
    ensures
        taken == Some(message),
        nothing is None,
        final(clearing).slot is None,
{
}

/// Every kind of notification has a method of its own; only warnings and
/// errors say something, and never more than that.
pub proof fn notifications_have_methods_of_their_own<C>(
    event: &Event<C>,
    method: &'static str,
    text: Option<&'static str>,
)
    requires
        call_ensures(Event::<C>::method, (event,), method),
        call_ensures(Event::<C>::core_message, (event,), text),
    ensures
        *event is Inventory ==> method@ == "event.inventory.snapshot"@,
        *event is Warning ==> method@ == "event.core.warning"@,
        *event is Error ==> method@ == "event.core.error"@,
        *event is Summary ==> method@ == "event.battle.summary"@,
        *event is Capture ==> method@ == "event.capture.status"@,
        text is Some <==> *event is Warning || *event is Error,
        *event is Warning ==> text->0@ == "Capture warning"@,
        *event is Error ==> text->0@ == "Capture failed"@,
{
}

/// Statuses and outcomes are told by names of their own.
pub proof fn statuses_and_outcomes_are_named(
    status: CaptureStatus,
    name: &'static str,
    outcome: EquipmentOutcome,
    called: &'static str,
)
    requires
        call_ensures(CaptureStatus::text, (status,), name),
        call_ensures(EquipmentOutcome::text, (outcome,), called),
    ensures
        status is Starting ==> name@ == "starting"@,
        status is Running ==> name@ == "running"@,
        status is Stopped ==> name@ == "stopped"@,
        outcome is RpcDispatched ==> called@ == "rpc_dispatched"@,
        outcome is DryRunOk ==> called@ == "dry_run_ok"@,
{
}

/// Bytes are held until a line ends; the line is what came before its end,
/// without a carriage return there, and is refused where it is too long.
pub proof fn lines_end_where_they_end(
    reader: &mut LineReader,
    buffer: &[u8],
    result: (usize, Option<BoundedLine>),
)
    requires
        call_ensures(LineReader::feed, (reader, buffer), result),
    ensures
        (forall|at: int| 0 <= at < buffer@.len() ==> #[trigger] buffer@[at] != 10) ==> {
            &&& result.0 == buffer@.len()
            &&& old(reader).line@.len() + buffer@.len() <= 1_048_576 ==> result.1 is None && final(reader).line@ == old(reader).line@ + buffer@
            &&& old(reader).line@.len() + buffer@.len() > 1_048_576 ==> result.1 == Some(
                BoundedLine::TooLong,
            )
        },
        forall|at: int|
            0 <= at < buffer@.len() && #[trigger] buffer@[at] == 10 && (forall|earlier: int|
                0 <= earlier < at ==> #[trigger] buffer@[earlier] != 10) ==> {
                let raw = old(reader).line@ + buffer@.take(at);
                &&& result.0 == at + 1
                &&& result.1 is Some
                &&& final(reader).line@.len() == 0
                &&& raw.len() <= 1_048_576 && (raw.len() == 0 || raw.last() != 13) ==> result.1->0
                    is Line && result.1->0->Line_0@ == raw
                &&& 0 < raw.len() <= 1_048_577 && raw.last() == 13 ==> result.1->0 is Line
                    && result.1->0->Line_0@ == raw.drop_last()
                &&& raw.len() > 1_048_577 ==> result.1->0 is TooLong
            },
{
    line_end_is_first(buffer@);
    assert forall|at: int|
        0 <= at < buffer@.len() && #[trigger] buffer@[at] == 10 && (forall|earlier: int|
            0 <= earlier < at ==> #[trigger] buffer@[earlier] != 10) implies line_end(buffer@)
        == Some(at) by {
        let found = line_end(buffer@)->0;
        if found < at {
            assert(buffer@[found] != 10);
        }
        if at < found {
            assert(buffer@[at] != 10);
        }
    }
}

/// At the end of the stream, what is held is the last line.
pub proof fn the_last_line_needs_no_end(reader: LineReader, last: BoundedLine)
    requires
        call_ensures(LineReader::finish, (reader,), last),
    ensures
        reader.line@.len() == 0 ==> last is Eof,
        reader.line@.len() > 0 ==> last is Line && last->Line_0@ == reader.line@,
{
}

/// A line that is too long ends the session; one that is no text is reported;
/// a blank one is passed over; any other is parsed as it is.
pub proof fn lines_are_parsed_as_they_are(
    bytes: Vec<u8>,
    event: LineEvent,
    long: LineEvent,
    end: LineEvent,
)
    requires
        call_ensures(line_event, (BoundedLine::Line(bytes),), event),
        call_ensures(line_event, (BoundedLine::TooLong,), long),
        call_ensures(line_event, (BoundedLine::Eof,), end),
    ensures
        end is Eof,
        long is Error && long->fatal && long->error == RpcError::InvalidRequest,
        !valid_utf8(bytes@) ==> event is Error && !event->fatal && event->error
            == RpcError::ParseError,
        valid_utf8(bytes@) ==> event is Skip || event is Parse,
        event matches LineEvent::Parse(text) ==> text@ == decode_utf8(bytes@),
        event is Parse ==> exists|at: int|
            0 <= at < decode_utf8(bytes@).len() && !crate::text::white_space(
                #[trigger] decode_utf8(bytes@)[at],
            ),
        event is Skip ==> forall|at: int|
            0 <= at < decode_utf8(bytes@).len() ==> crate::text::white_space(
                #[trigger] decode_utf8(bytes@)[at],
            ),
{
}

} // verus!
