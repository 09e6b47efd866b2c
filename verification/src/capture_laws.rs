//! What holds of a capture service across events.
use vstd::prelude::*;

use crate::history::HistoryCombatDetails;
use crate::live_capture::{
    archives, ends_round_after, has_abyss_hits, is_outgoing_hit, processes, processes_through,
    start_requested, stop_finished, stop_requested, wrapped_sum, CaptureControl,
    DetachedAbyssRound, EventPath, LiveCapturePhase, LiveCaptureService, LiveCaptureStatus,
    MAX_PENDING_ABYSS_ARCHIVES,
};
use crate::model::{BattleState, CombatState, EngineEvent};
use crate::reducer::{
    inventory_and_battle_stay_apart, next_generation, reduces, signal_for, signal_tells_the_event,
    BattleUpdate, CoreSignal, EngineStep,
};

verus! {

/// What detaching a round leaves alone.
proof fn detaching_keeps_the_rest(
    before: LiveCaptureService,
    after: LiveCaptureService,
    round: Option<DetachedAbyssRound>,
)
    requires
        before.detaches(after, round),
    ensures
        after.pending_abyss_archives == before.pending_abyss_archives,
        after.state.inventory == before.state.inventory,
        !has_abyss_hits(after.state),
        round is None ==> after == before,
        round is Some ==> after.control == before.control.with_round_detached(),
{
    reveal(LiveCaptureService::detaches);
}

/// What queueing a round leaves alone.
proof fn archiving_keeps_the_rest<D: Fn(&CombatState) -> Option<HistoryCombatDetails>>(
    details_of: D,
    before: LiveCaptureService,
    round: Option<DetachedAbyssRound>,
    after: LiveCaptureService,
)
    requires
        archives(details_of, before, round, after),
    ensures
        after.state == before.state,
        round is None ==> after == before,
        after.control == before.control || after.control == before.control.with_dropped(1),
        before.pending_abyss_archives@.is_prefix_of(after.pending_abyss_archives@),
        after.pending_abyss_archives@.len() <= before.pending_abyss_archives@.len() + 1,
        before.wf() ==> after.wf(),
        before.pending_abyss_archives@.len() >= MAX_PENDING_ABYSS_ARCHIVES
            ==> after.pending_abyss_archives == before.pending_abyss_archives,
{
    reveal(archives);
}

/// Everything that the laws below need of an event's path.
proof fn path_facts<
    E: Fn(BattleState, &BattleUpdate) -> EngineStep,
    D: Fn(&CombatState) -> Option<HistoryCombatDetails>,
>(
    engine: E,
    details_of: D,
    before: LiveCaptureService,
    event: EngineEvent,
    now: u128,
    after: LiveCaptureService,
) -> (path: EventPath)
    requires
        processes(engine, details_of, before, event, now, after),
    ensures
        processes_through(engine, details_of, before, event, now, after, path),
        path.closed.pending_abyss_archives == before.pending_abyss_archives,
        path.opened.state.inventory == before.state.inventory,
        path.closed.state.inventory == path.applied.state.inventory,
        after.state == path.closed.state,
        after.pending_abyss_archives == path.queued.pending_abyss_archives,
        path.queued.control == path.closed.control || path.queued.control
            == path.closed.control.with_dropped(1),
        path.last is None ==> path.queued.control == path.closed.control,
        before.pending_abyss_archives@.is_prefix_of(after.pending_abyss_archives@),
        after.pending_abyss_archives@.len() <= before.pending_abyss_archives@.len() + 1,
        before.wf() ==> after.wf(),
        before.pending_abyss_archives@.len() >= MAX_PENDING_ABYSS_ARCHIVES
            ==> after.pending_abyss_archives == before.pending_abyss_archives,
        path.opened.control == before.control || path.opened.control
            == before.control.with_round_detached(),
        event !is Abyss ==> path.opened == before && path.first is None,
        path.closed.control == path.applied.control || (path.first is None && path.closed.control
            == path.applied.control.with_round_detached()),
        !ends_round_after(event) ==> path.closed == path.applied && path.last == path.first,
        ends_round_after(event) ==> path.first is None && !has_abyss_hits(path.closed.state),
        path.applied.control == path.opened.control.noted(event, now),
        after.control == path.queued.control.settled(path.signal),
        reduces(engine, path.opened.state, event, path.applied.state, path.signal),
        exists|changed: bool| #[trigger] signal_for(event, changed, path.signal),
{
    reveal(processes_through);
    let path = choose|path: EventPath| #[trigger]
        processes_through(engine, details_of, before, event, now, after, path);
    if before.detaches(path.opened, path.first) {
        detaching_keeps_the_rest(before, path.opened, path.first);
    }
    if path.applied.detaches(path.closed, path.last) {
        detaching_keeps_the_rest(path.applied, path.closed, path.last);
    }
    archiving_keeps_the_rest(details_of, path.closed, path.last, path.queued);
    signal_tells_the_event(engine, path.opened.state, event, path.applied.state, path.signal);
    path
}

/// The archive queue never grows past its bound, and what waits in it keeps
/// its place: an event appends at most one round and takes none away.
pub proof fn waiting_rounds_keep_their_place<
    E: Fn(BattleState, &BattleUpdate) -> EngineStep,
    D: Fn(&CombatState) -> Option<HistoryCombatDetails>,
>(
    engine: E,
    details_of: D,
    before: LiveCaptureService,
    event: EngineEvent,
    now: u128,
    after: LiveCaptureService,
)
    requires
        before.wf(),
        processes(engine, details_of, before, event, now, after),
    ensures
        after.wf(),
        before.pending_abyss_archives@.is_prefix_of(after.pending_abyss_archives@),
        after.pending_abyss_archives@.len() <= before.pending_abyss_archives@.len() + 1,
{
    let path = path_facts(engine, details_of, before, event, now, after);
}

/// A round that finds the queue full is counted, exactly once, and the queue
/// stays as it was; an event that ends no round with details counts nothing.
pub proof fn a_full_queue_counts_what_it_drops<
    E: Fn(BattleState, &BattleUpdate) -> EngineStep,
    D: Fn(&CombatState) -> Option<HistoryCombatDetails>,
>(
    engine: E,
    details_of: D,
    before: LiveCaptureService,
    event: EngineEvent,
    now: u128,
    after: LiveCaptureService,
)
    requires
        before.pending_abyss_archives@.len() == MAX_PENDING_ABYSS_ARCHIVES,
        processes(engine, details_of, before, event, now, after),
    ensures
        after.pending_abyss_archives@ == before.pending_abyss_archives@,
        exists|path: EventPath, details: Option<HistoryCombatDetails>|
            {
                &&& #[trigger] processes_through(
                    engine,
                    details_of,
                    before,
                    event,
                    now,
                    after,
                    path,
                )
                &&& #[trigger] detailed(details_of, path.last, details)
                &&& after.control.dropped_history_archives == (if details is Some {
                    wrapped_sum(before.control.dropped_history_archives, 1)
                } else {
                    before.control.dropped_history_archives
                })
            },
{
    let path = path_facts(engine, details_of, before, event, now, after);
    reveal(processes_through);
    reveal(archives);
    let details = match path.last {
        Some(round) => choose|details: Option<HistoryCombatDetails>| #[trigger]
            call_ensures(details_of, (&round.state,), details) && path.closed.queues(
                details,
                round.source,
                path.queued,
            ),
        None => None,
    };
    assert(detailed(details_of, path.last, details));
}

/// What the engine made of a round that was cut, if one was.
pub open spec fn detailed<D: Fn(&CombatState) -> Option<HistoryCombatDetails>>(
    details_of: D,
    round: Option<DetachedAbyssRound>,
    details: Option<HistoryCombatDetails>,
) -> bool {
    match round {
        Some(round) => call_ensures(details_of, (&round.state,), details),
        None => details is None,
    }
}

/// A round is archived with the source that its session had when it was cut,
/// whatever is captured or replayed later.
pub proof fn rounds_keep_their_source<
    E: Fn(BattleState, &BattleUpdate) -> EngineStep,
    D: Fn(&CombatState) -> Option<HistoryCombatDetails>,
>(
    engine: E,
    details_of: D,
    before: LiveCaptureService,
    event: EngineEvent,
    now: u128,
    after: LiveCaptureService,
)
    requires
        processes(engine, details_of, before, event, now, after),
    ensures
        after.pending_abyss_archives@.len() > before.pending_abyss_archives@.len()
            ==> after.pending_abyss_archives@.last().source == before.control.quality_source,
        after.control.quality_source == before.control.quality_source,
{
    let path = path_facts(engine, details_of, before, event, now, after);
    reveal(processes_through);
    reveal(archives);
    reveal(LiveCaptureService::detaches);
}

/// The inventory outlives every event that does not replace it, round
/// boundaries included.
pub proof fn inventory_survives_round_boundaries<
    E: Fn(BattleState, &BattleUpdate) -> EngineStep,
    D: Fn(&CombatState) -> Option<HistoryCombatDetails>,
>(
    engine: E,
    details_of: D,
    before: LiveCaptureService,
    event: EngineEvent,
    now: u128,
    after: LiveCaptureService,
)
    requires
        processes(engine, details_of, before, event, now, after),
        event !is EmptyCurtain,
        event !is EmptyCurtainCharacters,
    ensures
        after.state.inventory == before.state.inventory,
{
    let path = path_facts(engine, details_of, before, event, now, after);
    inventory_and_battle_stay_apart(
        engine,
        path.opened.state,
        event,
        path.applied.state,
        path.signal,
    );
}

/// Only a confirmed outgoing hit moves the outgoing marker, by one; and only
/// such a hit sets the idle clock.
pub proof fn only_outgoing_hits_mark_output<
    E: Fn(BattleState, &BattleUpdate) -> EngineStep,
    D: Fn(&CombatState) -> Option<HistoryCombatDetails>,
>(
    engine: E,
    details_of: D,
    before: LiveCaptureService,
    event: EngineEvent,
    now: u128,
    after: LiveCaptureService,
)
    requires
        processes(engine, details_of, before, event, now, after),
    ensures
        after.control.outgoing_hit_revision == (if is_outgoing_hit(event) {
            next_generation(before.control.outgoing_hit_revision)
        } else {
            before.control.outgoing_hit_revision
        }),
        is_outgoing_hit(event) ==> after.control.last_outgoing_hit_at == Some(now),
        !is_outgoing_hit(event) ==> after.control.last_outgoing_hit_at
            == before.control.last_outgoing_hit_at || after.control.last_outgoing_hit_at is None,
{
    let path = path_facts(engine, details_of, before, event, now, after);
}

/// Packet counters, inventory replacements, recorded packets and new party
/// effects leave the frontend marker alone.
pub proof fn quiet_events_leave_the_frontend_marker<
    E: Fn(BattleState, &BattleUpdate) -> EngineStep,
    D: Fn(&CombatState) -> Option<HistoryCombatDetails>,
>(
    engine: E,
    details_of: D,
    before: LiveCaptureService,
    event: EngineEvent,
    now: u128,
    after: LiveCaptureService,
)
    requires
        processes(engine, details_of, before, event, now, after),
        event is PacketObservation || event is EmptyCurtain || event is EmptyCurtainCharacters
            || event is Packet || event is PartyEffects,
    ensures
        after.control.revision == before.control.revision,
        after.control.status == before.control.status,
{
    let path = path_facts(engine, details_of, before, event, now, after);
}

/// A script message moves the frontend marker only where it changed a
/// projection, never by its kind alone.
pub proof fn scripts_mark_only_changes(control: CaptureControl, signal: CoreSignal)
    requires
        signal is ModScript,
    ensures
        signal matches CoreSignal::ModScript { state_changed, .. } && control.settled(
            signal,
        ).revision == (if state_changed {
            next_generation(control.revision)
        } else {
            control.revision
        }),
{
}

/// After a challenge round was closed by its exit or by the end of the
/// capture, no hit of it is left: a second closing archives nothing.
pub proof fn a_closed_round_is_not_archived_twice<
    E: Fn(BattleState, &BattleUpdate) -> EngineStep,
    D: Fn(&CombatState) -> Option<HistoryCombatDetails>,
>(
    engine: E,
    details_of: D,
    before: LiveCaptureService,
    event: EngineEvent,
    now: u128,
    after: LiveCaptureService,
)
    requires
        processes(engine, details_of, before, event, now, after),
        ends_round_after(event),
    ensures
        !has_abyss_hits(after.state),
{
    let path = path_facts(engine, details_of, before, event, now, after);
}

/// The end of a capture leaves no capture active, unless it had failed, and
/// ends the replay.
pub proof fn the_end_of_a_capture_settles_the_phase<
    E: Fn(BattleState, &BattleUpdate) -> EngineStep,
    D: Fn(&CombatState) -> Option<HistoryCombatDetails>,
>(
    engine: E,
    details_of: D,
    before: LiveCaptureService,
    event: EngineEvent,
    now: u128,
    after: LiveCaptureService,
)
    requires
        processes(engine, details_of, before, event, now, after),
        event is CaptureStopped,
    ensures
        !after.control.replay_running,
        after.control.status.phase == (if before.control.status.phase == LiveCapturePhase::Failed {
            LiveCapturePhase::Failed
        } else {
            LiveCapturePhase::Stopped
        }),
{
    let path = path_facts(engine, details_of, before, event, now, after);
}

/// Every phase that grants a stop reaches `Stopped` once no controller is
/// left, a failed capture included; and a granted stop, asked for again,
/// changes nothing more.
pub proof fn a_granted_stop_does_not_stick(status: LiveCaptureStatus)
    ensures
        stop_requested(status) matches Some(stopping) ==> {
            &&& stop_finished(stopping).phase == LiveCapturePhase::Stopped
            &&& stop_requested(stopping) == Some(stopping)
        },
        stop_requested(status) is None <==> status.phase == LiveCapturePhase::Idle || status.phase
            == LiveCapturePhase::Stopped,
        start_requested(status) is None <==> status.phase.active(),
{
}

} // verus!
