//! What holds of every session, whatever the engine does.
use vstd::prelude::*;

use crate::error::CoreErrorCode;
use crate::history::CombatSessionSummary;
use crate::model::{
    BattleState, CaptureQualitySource, CombatState, DpsTimeBasis, EngineEvent, Inventory,
};
use crate::reducer::{reduces, signal_for, BattleUpdate, CoreSignal, EngineStep};
use crate::requests::{after_stop, failure_reply, handles, Step};
use crate::rpc::{DomainError, Request, RpcError};
use crate::runtime::RuntimeControl;
use crate::session::{
    changes_projection, dropped_by, final_summary, is_summary, next_status, notifies, processed,
    reacts, CaptureStatus, Effect, Event, Message, Runtime,
};

verus! {

/// An event whose signal is settled by its kind alone.
pub proof fn signal_of_event<
    C: Clone,
    E: Fn(BattleState, &BattleUpdate) -> EngineStep,
    I: Fn(&Inventory) -> C,
    S: Fn(&CombatState, CaptureQualitySource, DpsTimeBasis, bool) -> Option<CombatSessionSummary>,
>(
    engine: E,
    enrich: I,
    summarize: S,
    before: Runtime<C>,
    event: EngineEvent,
    now: u64,
    after: Runtime<C>,
    effects: Seq<Effect<C>>,
) -> (signal: CoreSignal)
    requires
        processed(engine, enrich, summarize, before, event, now, after, effects),
    ensures
        exists|changed: bool| #[trigger] signal_for(event, changed, signal),
        reacts(
            enrich,
            summarize,
            before,
            changes_projection(before.state, event, after.state),
            dropped_by(before.state, event, after.state),
            now,
            signal,
            after,
            effects,
        ),
{
    reveal(reduces);
    choose|signal: CoreSignal| #[trigger]
        reduces(engine, before.state, event, after.state, signal) && reacts(
            enrich,
            summarize,
            before,
            changes_projection(before.state, event, after.state),
            dropped_by(before.state, event, after.state),
            now,
            signal,
            after,
            effects,
        )
}

/// What changes only the inventory, the packet log or the party effects moves
/// no battle record, and neither does a combat event that changed nothing.
pub proof fn quiet_events_leave_the_record<
    C: Clone,
    E: Fn(BattleState, &BattleUpdate) -> EngineStep,
    I: Fn(&Inventory) -> C,
    S: Fn(&CombatState, CaptureQualitySource, DpsTimeBasis, bool) -> Option<CombatSessionSummary>,
>(
    engine: E,
    enrich: I,
    summarize: S,
    before: Runtime<C>,
    event: EngineEvent,
    now: u64,
    after: Runtime<C>,
    effects: Seq<Effect<C>>,
)
    requires
        processed(engine, enrich, summarize, before, event, now, after, effects),
        event is EmptyCurtain || event is EmptyCurtainCharacters || event is Packet
            || event is PartyEffects || ((event is Hit || event is HitFollowUp
            || event is HitDamageCorrection || event is Abyss || event is TimeStop)
            && !changes_projection(before.state, event, after.state)),
    ensures
        after.control.record == before.control.record,
        after.control.battle_summary_dirty == before.control.battle_summary_dirty,
{
    let signal = signal_of_event(engine, enrich, summarize, before, event, now, after, effects);
    reveal(reacts);
}

/// What the client hears of a warning or a failure does not depend on its
/// text.
pub proof fn details_stay_private<
    C: Clone,
    E: Fn(BattleState, &BattleUpdate) -> EngineStep,
    I: Fn(&Inventory) -> C,
    S: Fn(&CombatState, CaptureQualitySource, DpsTimeBasis, bool) -> Option<CombatSessionSummary>,
>(
    engine: E,
    enrich: I,
    summarize: S,
    before: Runtime<C>,
    event: EngineEvent,
    now: u64,
    after: Runtime<C>,
    effects: Seq<Effect<C>>,
)
    requires
        processed(engine, enrich, summarize, before, event, now, after, effects),
        event is Warning || event is Error,
    ensures
        after.control == before.control.numbered(),
        event is Warning ==> effects == notifies::<C>(
            Event::Warning { sequence: after.control.sequence },
        ),
        event is Error ==> effects == notifies::<C>(
            Event::Error { sequence: after.control.sequence },
        ),
{
    let signal = signal_of_event(engine, enrich, summarize, before, event, now, after, effects);
    reveal(reacts);
}

/// A capture that was stopped is not reported as stopped again.
pub proof fn a_stop_is_reported_once<
    C: Clone,
    E: Fn(BattleState, &BattleUpdate) -> EngineStep,
    I: Fn(&Inventory) -> C,
    S: Fn(&CombatState, CaptureQualitySource, DpsTimeBasis, bool) -> Option<CombatSessionSummary>,
>(
    engine: E,
    enrich: I,
    summarize: S,
    running: RuntimeControl,
    outcome: Result<(), CoreErrorCode>,
    before: Runtime<C>,
    now: u64,
    after: Runtime<C>,
    effects: Seq<Effect<C>>,
)
    requires
        before.control == after_stop(running, outcome),
        processed(
            engine,
            enrich,
            summarize,
            before,
            EngineEvent::CaptureStopped,
            now,
            after,
            effects,
        ),
    ensures
        effects.len() == 0,
        after.control == before.control,
{
    let signal = signal_of_event(
        engine,
        enrich,
        summarize,
        before,
        EngineEvent::CaptureStopped,
        now,
        after,
        effects,
    );
    reveal(reacts);
}

/// The numbers of the notifications among some effects.
pub open spec fn numbers<C>(effects: Seq<Effect<C>>) -> Seq<u64>
    decreases effects.len(),
{
    if effects.len() == 0 {
        Seq::empty()
    } else {
        match number_of(effects.last()) {
            Some(number) => numbers(effects.drop_last()).push(number),
            None => numbers(effects.drop_last()),
        }
    }
}

/// The number of a notification.
pub open spec fn number_of<C>(effect: Effect<C>) -> Option<u64> {
    match effect {
        Effect::Send { message: Message::Notification(event), .. } => Some(
            match event {
                Event::Inventory { sequence, .. } => sequence,
                Event::Warning { sequence } => sequence,
                Event::Error { sequence } => sequence,
                Event::Summary(summary) => summary.sequence,
                Event::Capture(status) => status.sequence,
            },
        ),
        Effect::PublishSummary(summary) => Some(summary.sequence),
        _ => None,
    }
}

/// Notifications are numbered without a gap and without a repetition: those of
/// one event continue where the last left off.
pub proof fn notifications_are_numbered_in_turn<
    C: Clone,
    E: Fn(BattleState, &BattleUpdate) -> EngineStep,
    I: Fn(&Inventory) -> C,
    S: Fn(&CombatState, CaptureQualitySource, DpsTimeBasis, bool) -> Option<CombatSessionSummary>,
>(
    engine: E,
    enrich: I,
    summarize: S,
    before: Runtime<C>,
    event: EngineEvent,
    now: u64,
    after: Runtime<C>,
    effects: Seq<Effect<C>>,
)
    requires
        processed(engine, enrich, summarize, before, event, now, after, effects),
        before.control.coherent(),
        before.has_room(2),
    ensures
        after.control.sequence == before.control.sequence + numbers(effects).len(),
        forall|i: int|
            0 <= i < numbers(effects).len() ==> #[trigger] numbers(effects)[i]
                == before.control.sequence + 1 + i,
{
    reveal_with_fuel(numbers, 5);
    let signal = signal_of_event(engine, enrich, summarize, before, event, now, after, effects);
    reveal(reacts);
    match signal {
        CoreSignal::CaptureStopped => {
            if let Some(profile) = before.control.capture {
                let operation = before.control.active_operation->0;
                let closed = before.control.without_capture().finalized(Some(operation), now);
                let summary = choose|summary: Option<CombatSessionSummary>| #[trigger]
                    is_summary(summarize, after.state, true, summary)
                        && after.control == closed.summarized(summary).numbered() && effects
                        == final_summary::<C>(summary, closed.sequence) + notifies::<C>(
                        Event::Capture(
                            next_status(
                                closed.summarized(summary),
                                operation,
                                profile,
                                CaptureStatus::Stopped,
                            ),
                        ),
                    );
                let shown = final_summary::<C>(summary, closed.sequence);
                assert(effects.drop_last() =~= shown);
                assert(shown.drop_last() =~= if summary is Some {
                    seq![Effect::<C>::ClearSummary]
                } else {
                    Seq::empty()
                });
            }
        },
        _ => {
            if effects.len() > 0 {
                assert(effects.len() == 1);
                assert(effects.drop_last() =~= Seq::empty());
            }
        },
    }
}

/// A request for the mod loader has a number that no waiting request has, and
/// it stays that way.
pub proof fn equipment_numbers_are_fresh<C: Clone>(
    before: Runtime<C>,
    id: String,
    request: Request,
    raw_capture_path: Option<String>,
    after: Runtime<C>,
    step: Step<C>,
)
    requires
        handles(before, id, request, raw_capture_path, after, step),
        before.control.equipment_request_sequence < u64::MAX,
        forall|key: u64| #[trigger]
            before.pending_equipment_requests@.dom().contains(key) ==> key
                <= before.control.equipment_request_sequence,
    ensures
        step matches Step::Submit { request, .. } ==> {
            &&& !after.pending_equipment_requests@.dom().contains(request.request_id)
            &&& request.request_id <= after.control.equipment_request_sequence
        },
        forall|key: u64| #[trigger]
            after.pending_equipment_requests@.dom().contains(key) ==> key
                <= after.control.equipment_request_sequence,
{
}

/// The one effect is a checked answer to a request.
pub open spec fn answers<C>(effects: Seq<Effect<C>>, id: String) -> bool {
    &&& effects.len() == 1
    &&& effects[0] matches Effect::Send { message, checked }
    &&& checked
    &&& match message {
        Message::Success { id: answered, .. } => answered == id,
        Message::Failure { id: answered, .. } => answered == Some(id),
        Message::Notification(_) => false,
    }
}

/// Every request is answered once and under its own id, at once or by the step
/// that it leads to.
pub proof fn requests_are_answered_once<C: Clone>(
    before: Runtime<C>,
    id: String,
    request: Request,
    raw_capture_path: Option<String>,
    after: Runtime<C>,
    step: Step<C>,
)
    requires
        handles(before, id, request, raw_capture_path, after, step),
    ensures
        match step {
            Step::Done(effects) => answers(effects@, id),
            Step::Detect { id: kept } => kept == id,
            Step::Start { id: kept, .. } => kept == id,
            Step::Stop { id: kept } => kept == id,
            Step::Submit { id: kept, .. } => kept == id,
            Step::Query { id: kept, .. } => kept == id,
            Step::Exit { id: kept } => kept == id,
        },
{
}

/// Before the client has shaken hands, it can do that or leave; any other
/// request is refused and changes nothing.
pub proof fn nothing_works_before_the_handshake<C: Clone>(
    before: Runtime<C>,
    id: String,
    request: Request,
    raw_capture_path: Option<String>,
    after: Runtime<C>,
    step: Step<C>,
)
    requires
        handles(before, id, request, raw_capture_path, after, step),
        !before.control.handshaken,
        request !is Hello,
        request !is Shutdown,
    ensures
        after == before,
        step matches Step::Done(effects) && effects@ == failure_reply::<C>(
            id,
            RpcError::Domain(DomainError::HandshakeRequired),
        ),
{
}

} // verus!
