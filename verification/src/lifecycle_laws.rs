//! What a capture goes through, request by request and event by event.
use vstd::prelude::*;

use crate::error::{CoreError, CoreErrorCode};
use crate::history::{
    abyss_event_starts_new_round, auto_round_due, prepare_history_archive, CombatSessionSummary,
    HistoryCombatDetails, PendingHistoryArchive, PreparedHistoryArchive,
};
use crate::live_capture::{
    archives, processes, processes_through, CaptureReplayKind, CutRound, EventPath,
    LiveCaptureIssue, LiveCapturePhase, LiveCaptureService, PacketStreamRevision, StopAction,
};
use crate::model::{
    AbyssEvent, BattleState, CaptureQualitySource, CombatState, DpsTimeBasis, EmptyCurtainCharacter,
    EmptyCurtainItem, EngineEvent, PacketObservation, PartyEffectSnapshot,
};
use crate::reducer::{
    apply_engine_event, handed_to_engine, lifecycle_events_leave_the_state, reduces, signal_for,
    signal_tells_the_event, update_of, BattleUpdate, CoreSignal,
    EngineStep,
};

verus! {

/// A marker went one further; after the last comes the first.
pub open spec fn moved(before: u64, after: u64) -> bool {
    &&& before < u64::MAX ==> after == before + 1
    &&& before == u64::MAX ==> after == 0
}

/// A session in which nothing was seen yet.
pub open spec fn nothing_seen(state: CombatState) -> bool {
    &&& state.battle.team.hits@.len() == 0
    &&& state.battle.team.stats@.len() == 0
    &&& !state.battle.abyss.active
    &&& state.battle.abyss.first_half.hits@.len() == 0
    &&& state.battle.abyss.second_half.hits@.len() == 0
    &&& state.battle.abyss.floor is None
    &&& state.battle.packet_log.packet_count == 0
    &&& state.battle.packet_log.packets@.len() == 0
    &&& state.battle.party_effects@.len() == 0
    &&& state.battle.started_at is None
}

/// A capture or replay is under way.
pub open spec fn under_way(phase: LiveCapturePhase) -> bool {
    phase is Starting || phase is Running || phase is Stopping
}

/// Nothing but the lifecycle differs, and its readers are told.
pub open spec fn only_the_status_moved(
    before: LiveCaptureService,
    after: LiveCaptureService,
) -> bool {
    &&& after.state == before.state
    &&& after.pending_abyss_archives == before.pending_abyss_archives
    &&& after.resources == before.resources
    &&& after.control.quality_source == before.control.quality_source
    &&& after.control.replay_running == before.control.replay_running
    &&& after.control.packet_session_generation == before.control.packet_session_generation
    &&& after.control.outgoing_hit_revision == before.control.outgoing_hit_revision
    &&& after.control.last_outgoing_hit_at == before.control.last_outgoing_hit_at
    &&& after.control.dropped_history_archives == before.control.dropped_history_archives
}

/// A fresh service is idle, without a session, a source or anything to
/// archive.
pub proof fn services_begin_idle(
    resources: crate::live_capture::LiveCaptureResources,
    service: LiveCaptureService,
)
    requires
        call_ensures(LiveCaptureService::new, (resources,), service),
    ensures
        service.control.status.phase is Idle,
        service.control.status.issue is None,
        !service.control.replay_running,
        service.control.quality_source is Unknown,
        service.control.last_outgoing_hit_at is None,
        service.control.dropped_history_archives == 0,
        service.control.revision == 0,
        service.pending_abyss_archives@.len() == 0,
        nothing_seen(service.state),
        service.resources == resources,
{
}

/// A start is granted exactly where nothing is under way and both workers are
/// up; it begins without an issue and touches nothing but the status. What is
/// refused is told apart: a missing worker hands its own message on, and only
/// a missing start worker leaves the capture failed.
pub proof fn starts_are_granted_where_nothing_runs(
    service: &mut LiveCaptureService,
    worker: Result<(), String>,
    starter: Result<(), String>,
    result: Result<(), CoreError>,
)
    requires
        call_ensures(LiveCaptureService::request_start, (service, worker, starter), result),
    ensures
        result is Ok <==> worker is Ok && starter is Ok && !under_way(
            old(service).control.status.phase,
        ),
        result is Ok ==> {
            &&& final(service).control.status.phase is Starting
            &&& final(service).control.status.issue is None
            &&& moved(old(service).control.revision, final(service).control.revision)
            &&& moved(old(service).control.packet_revision, final(service).control.packet_revision)
        },
        only_the_status_moved(*old(service), *final(service)),
        worker is Err ==> *final(service) == *old(service) && result->Err_0.code
            == CoreErrorCode::SystemProbeFailed && result->Err_0.message@ == worker->Err_0@,
        worker is Ok && under_way(old(service).control.status.phase) ==> *final(service) == *old(service) && result->Err_0.code == CoreErrorCode::CaptureAlreadyRunning,
        worker is Ok && starter is Err && !under_way(old(service).control.status.phase) ==> {
            &&& result->Err_0.code == CoreErrorCode::SystemProbeFailed
            &&& result->Err_0.message@ == starter->Err_0@
            &&& final(service).control.status.phase is Failed
            &&& final(service).control.status.issue == Some(
                LiveCaptureIssue::Start(CoreErrorCode::SystemProbeFailed),
            )
        },
{
}

/// A capture that did start begins a session of its own, named live; one that
/// did not keeps the session and names the reason. A stop that was asked for
/// in between is what comes next.
pub proof fn started_captures_begin_a_live_session(
    service: &mut LiveCaptureService,
    outcome: Result<(), CoreErrorCode>,
    spawn_stop_worker: bool,
)
    requires
        call_ensures(LiveCaptureService::finish_start, (service, outcome), spawn_stop_worker),
    ensures
        spawn_stop_worker <==> outcome is Ok && old(service).control.status.phase is Stopping,
        outcome is Ok ==> {
            &&& nothing_seen(final(service).state)
            &&& final(service).state.inventory.items@.len() == 0
            &&& final(service).control.quality_source is Live
            &&& moved(
                old(service).control.packet_session_generation,
                final(service).control.packet_session_generation,
            )
            &&& final(service).control.status.phase == (if spawn_stop_worker {
                LiveCapturePhase::Stopping
            } else {
                LiveCapturePhase::Running
            })
            &&& !spawn_stop_worker ==> final(service).control.status.issue is None
            &&& spawn_stop_worker ==> final(service).control.status.issue == old(service).control.status.issue
        },
        outcome is Err ==> {
            &&& only_the_status_moved(*old(service), *final(service))
            &&& final(service).control.status.phase is Failed
            &&& final(service).control.status.issue == Some(
                LiveCaptureIssue::Start(outcome->Err_0),
            )
        },
        moved(old(service).control.revision, final(service).control.revision),
        final(service).control.replay_running == old(service).control.replay_running,
        final(service).control.outgoing_hit_revision == old(service).control.outgoing_hit_revision,
        final(service).control.dropped_history_archives == old(service).control.dropped_history_archives,
        final(service).pending_abyss_archives == old(service).pending_abyss_archives,
        final(service).resources == old(service).resources,
{
}

/// A stop is refused exactly where nothing was started or all is over; asked
/// for again it does nothing more; a replay is stopped by its flag, a running
/// or failed capture by the stop worker, and a capture that still starts by
/// neither.
pub proof fn stops_ask_for_what_runs(
    service: &mut LiveCaptureService,
    result: Result<StopAction, CoreError>,
)
    requires
        call_ensures(LiveCaptureService::request_stop, (service, Ok::<(), String>(())), result),
    ensures
        result is Err <==> old(service).control.status.phase is Idle || old(service).control.status.phase is Stopped,
        result is Err ==> result->Err_0.code == CoreErrorCode::CaptureNotRunning && *final(service)
            == *old(service),
        old(service).control.status.phase is Stopping ==> *final(service) == *old(service)
            && !result->Ok_0.stop_replay && !result->Ok_0.spawn_stop_worker,
        result is Ok ==> {
            &&& final(service).control.status.phase is Stopping
            &&& final(service).control.status.issue == old(service).control.status.issue
            &&& only_the_status_moved(*old(service), *final(service))
        },
        result is Ok && !(old(service).control.status.phase is Stopping) ==> {
            &&& result->Ok_0.stop_replay == old(service).control.replay_running
            &&& result->Ok_0.spawn_stop_worker ==> !result->Ok_0.stop_replay
            &&& moved(old(service).control.revision, final(service).control.revision)
            &&& moved(old(service).control.packet_revision, final(service).control.packet_revision)
        },
        old(service).control.status.phase is Starting ==> !result->Ok_0.spawn_stop_worker,
        (old(service).control.status.phase is Running || old(service).control.status.phase is Failed)
            && !old(service).control.replay_running ==> result->Ok_0.spawn_stop_worker,
{
}

/// A stop whose worker is missing fails with the worker's message where the
/// worker is needed, and is as good as any other where it is not.
pub proof fn missing_stop_workers_fail_the_stop(
    service: &mut LiveCaptureService,
    message: String,
    result: Result<StopAction, CoreError>,
)
    requires
        call_ensures(
            LiveCaptureService::request_stop,
            (service, Err::<(), String>(message)),
            result,
        ),
    ensures
        (old(service).control.status.phase is Running || old(service).control.status.phase is Failed)
            && !old(service).control.replay_running ==> {
            &&& result is Err
            &&& result->Err_0.code == CoreErrorCode::SystemProbeFailed
            &&& result->Err_0.message@ == message@
            &&& final(service).control.status.phase is Failed
            &&& final(service).control.status.issue == Some(
                LiveCaptureIssue::Start(CoreErrorCode::SystemProbeFailed),
            )
        },
        old(service).control.status.phase is Starting ==> result is Ok,
        old(service).control.replay_running && old(service).control.status.phase is Running
            ==> result is Ok && result->Ok_0.stop_replay && !result->Ok_0.spawn_stop_worker,
        only_the_status_moved(*old(service), *final(service)),
{
}

/// A stop is complete once no controller is left: the capture is stopped, with
/// no issue. A controller that still runs is stopped first, and a capture that
/// nobody stopped is left as it is.
pub proof fn stops_complete_without_a_controller(
    service: &mut LiveCaptureService,
    controller_running: bool,
    stop_controller: bool,
)
    requires
        call_ensures(LiveCaptureService::finish_stop, (service, controller_running), stop_controller),
    ensures
        stop_controller == controller_running,
        controller_running || !(old(service).control.status.phase is Stopping) ==> *final(service)
            == *old(service),
        !controller_running && old(service).control.status.phase is Stopping ==> {
            &&& final(service).control.status.phase is Stopped
            &&& final(service).control.status.issue is None
            &&& moved(old(service).control.revision, final(service).control.revision)
            &&& moved(old(service).control.packet_revision, final(service).control.packet_revision)
        },
        only_the_status_moved(*old(service), *final(service)),
{
}

/// A worker that could not be spawned leaves the capture failed, with the
/// message that was given.
pub proof fn missing_workers_fail_the_capture(
    service: &mut LiveCaptureService,
    message: String,
    error: CoreError,
)
    requires
        call_ensures(LiveCaptureService::worker_failed, (service, message), error),
    ensures
        error.code == CoreErrorCode::SystemProbeFailed,
        error.message@ == message@,
        final(service).control.status.phase is Failed,
        final(service).control.status.issue == Some(
            LiveCaptureIssue::Start(CoreErrorCode::SystemProbeFailed),
        ),
        moved(old(service).control.revision, final(service).control.revision),
        only_the_status_moved(*old(service), *final(service)),
{
}

/// A replay is granted where neither a capture nor a replay is under way. It
/// runs at once, on a session of its own that says which kind of recording it
/// came from, and forgets when output was last seen.
pub proof fn replays_begin_a_session_of_their_kind(
    service: &mut LiveCaptureService,
    kind: CaptureReplayKind,
    worker: Result<(), String>,
    result: Result<(), CoreError>,
)
    requires
        call_ensures(LiveCaptureService::request_replay, (service, kind, worker), result),
    ensures
        result is Ok <==> worker is Ok && !under_way(old(service).control.status.phase) && !old(service).control.replay_running,
        result is Err ==> *final(service) == *old(service),
        worker is Err ==> result->Err_0.code == CoreErrorCode::SystemProbeFailed
            && result->Err_0.message@ == worker->Err_0@,
        worker is Ok && result is Err ==> result->Err_0.code
            == CoreErrorCode::CaptureAlreadyRunning,
        result is Ok ==> {
            &&& nothing_seen(final(service).state)
            &&& final(service).control.replay_running
            &&& final(service).control.status.phase is Running
            &&& final(service).control.status.issue is None
            &&& final(service).control.last_outgoing_hit_at is None
            &&& kind is Pcapng ==> final(service).control.quality_source is PcapngReplay
            &&& kind is Json ==> final(service).control.quality_source is JsonReplay
            &&& moved(old(service).control.revision, final(service).control.revision)
            &&& moved(old(service).control.packet_revision, final(service).control.packet_revision)
            &&& moved(
                old(service).control.packet_session_generation,
                final(service).control.packet_session_generation,
            )
            &&& final(service).control.outgoing_hit_revision == old(service).control.outgoing_hit_revision
        },
        final(service).pending_abyss_archives == old(service).pending_abyss_archives,
        final(service).resources == old(service).resources,
{
}

/// A cut hands the battle out whole, with the source that it had, and leaves
/// the inventory behind. Where there is nothing to cut, nothing happens.
pub proof fn cuts_hand_the_battle_out(service: &mut LiveCaptureService, cut: Option<CutRound>)
    requires
        call_ensures(LiveCaptureService::cut_round, (service,), cut),
    ensures
        cut is Some <==> old(service).state.battle.team.hits@.len() > 0 || old(service).state.battle.team.stats@.len() > 0 || old(service).state.battle.abyss.active,
        cut is None ==> *final(service) == *old(service),
        cut matches Some(round) ==> {
            &&& round.state.battle == old(service).state.battle
            &&& round.state.inventory.items@.len() == 0
            &&& round.source == old(service).control.quality_source
            &&& nothing_seen(final(service).state)
            &&& final(service).control.last_outgoing_hit_at is None
            &&& moved(old(service).control.revision, final(service).control.revision)
            &&& moved(
                old(service).control.packet_session_generation,
                final(service).control.packet_session_generation,
            )
        },
        final(service).state.inventory == old(service).state.inventory,
        final(service).control.status == old(service).control.status,
        final(service).control.quality_source == old(service).control.quality_source,
        final(service).control.outgoing_hit_revision == old(service).control.outgoing_hit_revision,
        final(service).pending_abyss_archives == old(service).pending_abyss_archives,
{
}

/// A session that was read, reset and put back is the session that was read,
/// with the same source; between the two nothing is left of it, and the
/// capture goes on throughout.
pub proof fn reset_sessions_can_be_put_back(
    resetting: &mut LiveCaptureService,
    restoring: &mut LiveCaptureService,
    now: u128,
)
    requires
        call_ensures(LiveCaptureService::reset_session, (resetting,), ()),
        *old(restoring) == *final(resetting),
        call_ensures(
            LiveCaptureService::restore_session,
            (restoring, old(resetting).state, old(resetting).control.quality_source, now),
            (),
        ),
    ensures
        nothing_seen(final(resetting).state),
        final(resetting).state.inventory.items@.len() == 0,
        final(resetting).control.last_outgoing_hit_at is None,
        final(resetting).control.status == old(resetting).control.status,
        moved(old(resetting).control.revision, final(resetting).control.revision),
        moved(
            old(resetting).control.packet_session_generation,
            final(resetting).control.packet_session_generation,
        ),
        final(restoring).state == old(resetting).state,
        final(restoring).control.quality_source == old(resetting).control.quality_source,
        final(restoring).control.status == old(resetting).control.status,
        moved(final(resetting).control.revision, final(restoring).control.revision),
        final(restoring).pending_abyss_archives == old(resetting).pending_abyss_archives,
{
}

/// A session put back counts as active from now on where somebody dealt
/// damage in it, and as never active where nobody did.
pub proof fn restored_sessions_are_idle_from_now(
    service: &mut LiveCaptureService,
    state: CombatState,
    source: CaptureQualitySource,
    now: u128,
)
    requires
        call_ensures(LiveCaptureService::restore_session, (service, state, source, now), ()),
    ensures
        final(service).state == state,
        final(service).control.quality_source == source,
        final(service).control.last_outgoing_hit_at is Some ==> final(service).control.last_outgoing_hit_at->0 == now,
        forall|at: int|
            0 <= at < state.battle.team.hits@.len() && (#[trigger] state.battle.team.hits@[at]).direction
                is Outgoing ==> final(service).control.last_outgoing_hit_at is Some,
        (forall|at: int|
            0 <= at < state.battle.team.hits@.len() ==> !((
            #[trigger] state.battle.team.hits@[at]).direction is Outgoing)) ==> final(service).control.last_outgoing_hit_at is None,
        final(service).control.outgoing_hit_revision == old(service).control.outgoing_hit_revision,
        moved(old(service).control.packet_revision, final(service).control.packet_revision),
{
}

/// The idle time is what passed since output was last seen, and never runs
/// backwards.
pub proof fn idle_time_is_what_passed(
    service: &LiveCaptureService,
    earlier: u128,
    then: Option<u128>,
    later: u128,
    now: Option<u128>,
)
    requires
        earlier <= later,
        call_ensures(LiveCaptureService::idle_elapsed, (service, earlier), then),
        call_ensures(LiveCaptureService::idle_elapsed, (service, later), now),
    ensures
        now is Some <==> service.control.last_outgoing_hit_at is Some,
        service.control.last_outgoing_hit_at matches Some(last) ==> {
            &&& last <= later ==> last + now->0 == later
            &&& last > later ==> now->0 == 0
            &&& last <= earlier ==> now->0 - then->0 == later - earlier
        },
{
}

/// Rounds handed out for the archive are all that waited, in order, and are
/// gone from the queue; put back, they wait again in the same places.
pub proof fn rounds_handed_out_can_be_put_back(
    taking: &mut LiveCaptureService,
    taken: Vec<PendingHistoryArchive>,
    restoring: &mut LiveCaptureService,
)
    requires
        old(taking).wf(),
        call_ensures(LiveCaptureService::take_pending_abyss_archives, (taking,), taken),
        *old(restoring) == *final(taking),
        call_ensures(
            LiveCaptureService::restore_pending_abyss_archives,
            (restoring, taken),
            (),
        ),
    ensures
        taken@ == old(taking).pending_abyss_archives@,
        final(taking).pending_abyss_archives@.len() == 0,
        final(taking).control == old(taking).control,
        final(taking).state == old(taking).state,
        final(restoring).pending_abyss_archives@ == old(taking).pending_abyss_archives@,
        final(restoring).control == old(taking).control,
        final(restoring).state == old(taking).state,
{
    assert(taken@ + final(taking).pending_abyss_archives@ =~= taken@);
}

/// Rounds that are put back come before those that came later, and none is
/// lost unheard: what no longer fits is counted, and it is the newest.
pub proof fn older_rounds_come_first(
    service: &mut LiveCaptureService,
    archives: Vec<PendingHistoryArchive>,
)
    requires
        old(service).wf(),
        old(service).control.dropped_history_archives + archives@.len() + 64 <= u64::MAX,
        call_ensures(
            LiveCaptureService::restore_pending_abyss_archives,
            (service, archives),
            (),
        ),
    ensures
        forall|at: int|
            0 <= at < archives@.len() && at < final(service).pending_abyss_archives@.len()
                ==> #[trigger] final(service).pending_abyss_archives@[at] == archives@[at],
        forall|at: int|
            archives@.len() <= at < final(service).pending_abyss_archives@.len()
                ==> #[trigger] final(service).pending_abyss_archives@[at] == old(service).pending_abyss_archives@[at - archives@.len()],
        final(service).pending_abyss_archives@.len() + (final(service).control.dropped_history_archives - old(service).control.dropped_history_archives)
            == archives@.len() + old(service).pending_abyss_archives@.len(),
        final(service).control.dropped_history_archives > old(service).control.dropped_history_archives ==> {
            &&& final(service).pending_abyss_archives@.len() == 64
            &&& final(service).control.status.issue == Some(LiveCaptureIssue::RuntimeWarning)
            &&& moved(old(service).control.revision, final(service).control.revision)
        },
        final(service).control.dropped_history_archives == old(service).control.dropped_history_archives ==> final(service).control == old(service).control,
        final(service).state == old(service).state,
{
    assert(archives.len() == archives@.len());
}

/// A finished round waits behind all others, with its details and source; one
/// without details does not wait at all, and one that finds the queue full is
/// counted.
pub proof fn finished_rounds_wait_at_the_end(
    service: &mut LiveCaptureService,
    details: Option<HistoryCombatDetails>,
    source: CaptureQualitySource,
)
    requires
        old(service).wf(),
        old(service).control.dropped_history_archives < u64::MAX,
        call_ensures(
            LiveCaptureService::queue_detached_abyss_round,
            (service, details, source),
            (),
        ),
    ensures
        details is None ==> *final(service) == *old(service),
        details is Some && old(service).pending_abyss_archives@.len() < 64 ==> {
            &&& final(service).pending_abyss_archives@.len() == old(service).pending_abyss_archives@.len() + 1
            &&& final(service).pending_abyss_archives@.last().details == details->0
            &&& final(service).pending_abyss_archives@.last().source == source
            &&& final(service).pending_abyss_archives@.drop_last() == old(service).pending_abyss_archives@
            &&& final(service).control == old(service).control
        },
        details is Some && old(service).pending_abyss_archives@.len() == 64 ==> {
            &&& final(service).pending_abyss_archives == old(service).pending_abyss_archives
            &&& final(service).control.dropped_history_archives == old(service).control.dropped_history_archives + 1
            &&& final(service).control.status.issue == Some(LiveCaptureIssue::RuntimeWarning)
            &&& final(service).control.status.phase == old(service).control.status.phase
        },
        final(service).state == old(service).state,
{
    if details is Some && old(service).pending_abyss_archives@.len() < 64 {
        assert(final(service).pending_abyss_archives@.drop_last() =~= old(service).pending_abyss_archives@);
    }
}

/// The packet page follows the packets' own counters.
pub proof fn packet_markers_are_the_packets_own(
    service: &LiveCaptureService,
    markers: PacketStreamRevision,
)
    requires
        call_ensures(LiveCaptureService::packet_stream_revision, (service,), markers),
    ensures
        markers.generation == service.control.packet_revision,
        markers.session_generation == service.control.packet_session_generation,
        markers.packet_generation == service.state.battle.packet_log.packets_generation,
        markers.observed_packet_count == service.state.battle.packet_log.packet_count,
{
}

/// The engine was asked for `update` on `battle`, and what it made of it is
/// `after`; a script tells whether a projection changed.
pub open spec fn engine_made<E: Fn(BattleState, &BattleUpdate) -> EngineStep>(
    engine: E,
    battle: BattleState,
    update: BattleUpdate,
    after: BattleState,
    changed: bool,
) -> bool {
    exists|step: EngineStep| #[trigger]
        call_ensures(engine, (battle, &update), step) && after == step.battle && changed
            == step.projection_changed
}

/// Every combat event goes to the engine as what it is, on the battle in
/// force, and what the engine makes of it is the battle from then on. The
/// inventory has no part in it.
pub proof fn combat_events_go_to_the_engine<E: Fn(BattleState, &BattleUpdate) -> EngineStep>(
    state: &mut CombatState,
    event: EngineEvent,
    engine: &E,
    signal: CoreSignal,
)
    requires
        call_ensures(apply_engine_event::<E>, (state, event, engine), signal),
    ensures
        event matches EngineEvent::Hit(hit) ==> signal is StateChanged && exists|changed: bool|
            #[trigger] engine_made(
                *engine,
                old(state).battle,
                BattleUpdate::Hit(hit),
                final(state).battle,
                changed,
            ),
        event matches EngineEvent::HitFollowUp(follow_up) ==> signal is StateChanged && exists|
            changed: bool|
            #[trigger] engine_made(
                *engine,
                old(state).battle,
                BattleUpdate::FollowUp(follow_up),
                final(state).battle,
                changed,
            ),
        event matches EngineEvent::HitDamageCorrection(correction) ==> signal is StateChanged
            && exists|changed: bool|
            #[trigger] engine_made(
                *engine,
                old(state).battle,
                BattleUpdate::DamageCorrection(correction),
                final(state).battle,
                changed,
            ),
        event matches EngineEvent::Packet(packet) ==> signal is DebugPacket && exists|changed: bool|
            #[trigger] engine_made(
                *engine,
                old(state).battle,
                BattleUpdate::Packet(packet),
                final(state).battle,
                changed,
            ),
        event matches EngineEvent::TimeStop(stop) ==> signal is StateChanged && exists|
            changed: bool|
            #[trigger] engine_made(
                *engine,
                old(state).battle,
                BattleUpdate::TimeStop(stop),
                final(state).battle,
                changed,
            ),
        event matches EngineEvent::ModScript(script) ==> (signal matches CoreSignal::ModScript {
            event: told,
            state_changed,
        } && *told == script && engine_made(
            *engine,
            old(state).battle,
            BattleUpdate::ModScript(script),
            final(state).battle,
            state_changed,
        )),
        update_of(event) is Some ==> final(state).inventory == old(state).inventory,
{
    reveal(reduces);
    if let Some(update) = update_of(event) {
        let (handed, step) = choose|handed: BattleState, step: EngineStep|
            {
                &&& handed_to_engine(old(state).battle, event, handed)
                &&& #[trigger] call_ensures(*engine, (handed, &update), step)
                &&& *final(state) == (CombatState { battle: step.battle, ..*old(state) })
                &&& signal_for(event, step.projection_changed, signal)
            };
        assert(engine_made(*engine, handed, update, step.battle, step.projection_changed));
    }
}

/// A challenge event goes to the engine too, on the challenge in force. A
/// restart after the challenge was left finds none.
pub proof fn challenge_events_go_to_the_engine<E: Fn(BattleState, &BattleUpdate) -> EngineStep>(
    state: &mut CombatState,
    abyss: AbyssEvent,
    engine: &E,
    signal: CoreSignal,
)
    requires
        call_ensures(apply_engine_event::<E>, (state, EngineEvent::Abyss(abyss), engine), signal),
    ensures
        signal is StateChanged,
        final(state).inventory == old(state).inventory,
        !(abyss is RestartDetected) || old(state).battle.abyss.active_half is Some || old(state).battle.abyss.exited_at is None ==> exists|changed: bool|
            #[trigger] engine_made(
                *engine,
                old(state).battle,
                BattleUpdate::Abyss(abyss),
                final(state).battle,
                changed,
            ),
        abyss is RestartDetected && old(state).battle.abyss.active_half is None && old(state).battle.abyss.exited_at is Some ==> exists|handed: BattleState, changed: bool|
            {
                &&& #[trigger] engine_made(
                    *engine,
                    handed,
                    BattleUpdate::Abyss(abyss),
                    final(state).battle,
                    changed,
                )
                &&& !handed.abyss.active
                &&& handed.abyss.exited_at is None
                &&& handed.abyss.floor is None
                &&& handed.abyss.first_half.hits@.len() == 0
                &&& handed.abyss.second_half.hits@.len() == 0
                &&& handed.team == old(state).battle.team
                &&& handed.packet_log == old(state).battle.packet_log
                &&& handed.started_at == old(state).battle.started_at
            },
{
    reveal(reduces);
    let event = EngineEvent::Abyss(abyss);
    let update = BattleUpdate::Abyss(abyss);
    let (handed, step) = choose|handed: BattleState, step: EngineStep|
        {
            &&& handed_to_engine(old(state).battle, event, handed)
            &&& #[trigger] call_ensures(*engine, (handed, &update), step)
            &&& *final(state) == (CombatState { battle: step.battle, ..*old(state) })
            &&& signal_for(event, step.projection_changed, signal)
        };
    assert(engine_made(*engine, handed, update, step.battle, step.projection_changed));
}

/// What needs no engine is done as it says: equipment and characters are
/// replaced, each with a marker of its own, the packet is counted, and what
/// only reports something changes nothing and is handed on.
pub proof fn other_events_do_what_they_say<E: Fn(BattleState, &BattleUpdate) -> EngineStep>(
    state: &mut CombatState,
    event: EngineEvent,
    engine: &E,
    signal: CoreSignal,
)
    requires
        call_ensures(apply_engine_event::<E>, (state, event, engine), signal),
    ensures
        event matches EngineEvent::EmptyCurtain(items) ==> {
            &&& signal is InventoryReplaced
            &&& final(state).battle == old(state).battle
            &&& final(state).inventory.items == items
            &&& moved(
                old(state).inventory.items_generation,
                final(state).inventory.items_generation,
            )
            &&& final(state).inventory.characters == old(state).inventory.characters
            &&& final(state).inventory.characters_generation == old(state).inventory.characters_generation
        },
        event matches EngineEvent::EmptyCurtainCharacters(characters) ==> {
            &&& signal is InventoryCharactersReplaced
            &&& final(state).battle == old(state).battle
            &&& final(state).inventory.characters == characters
            &&& moved(
                old(state).inventory.characters_generation,
                final(state).inventory.characters_generation,
            )
            &&& final(state).inventory.items == old(state).inventory.items
            &&& final(state).inventory.items_generation == old(state).inventory.items_generation
        },
        event matches EngineEvent::PartyEffects(snapshots) ==> {
            &&& signal is PartyEffectsReplaced
            &&& final(state).battle.party_effects == snapshots
            &&& final(state).battle.team == old(state).battle.team
            &&& final(state).battle.abyss == old(state).battle.abyss
            &&& final(state).inventory == old(state).inventory
        },
        event matches EngineEvent::PacketObservation(observation) ==> {
            &&& signal is PacketObserved
            &&& final(state).battle.team == old(state).battle.team
            &&& final(state).battle.abyss == old(state).battle.abyss
            &&& final(state).inventory == old(state).inventory
            &&& old(state).battle.packet_log.packet_count < u64::MAX ==> final(state).battle.packet_log.packet_count == old(state).battle.packet_log.packet_count + 1
            &&& observation.parsed_hits == 0 ==> final(state).battle.packet_log.packets_with_hits
                == old(state).battle.packet_log.packets_with_hits
            &&& observation.parsed_hits > 0 && old(state).battle.packet_log.packets_with_hits
                < u64::MAX ==> final(state).battle.packet_log.packets_with_hits == old(state).battle.packet_log.packets_with_hits + 1
        },
        event matches EngineEvent::Status(text) ==> *final(state) == *old(state) && signal
            == CoreSignal::Status(text),
        event matches EngineEvent::Warning(text) ==> *final(state) == *old(state) && signal
            == CoreSignal::Warning(text),
        event matches EngineEvent::Error(text) ==> *final(state) == *old(state) && signal
            == CoreSignal::Error(text),
        event is CaptureStopped ==> *final(state) == *old(state) && signal is CaptureStopped,
{
    reveal(reduces);
}

/// New party effects count as a change exactly where they differ from the
/// ones in force; the same ones once more do not.
pub proof fn party_effects_change_where_they_differ(
    state: &mut CombatState,
    snapshots: Vec<PartyEffectSnapshot>,
    changed: bool,
    repeated: &mut CombatState,
    again: bool,
)
    requires
        call_ensures(CombatState::replace_party_effects, (state, snapshots), changed),
        *old(repeated) == *final(state),
        call_ensures(CombatState::replace_party_effects, (repeated, snapshots), again),
    ensures
        final(state).battle.party_effects == snapshots,
        !again,
        *final(repeated) == *final(state),
        old(state).battle.party_effects@.len() != snapshots@.len() ==> changed,
        forall|at: int|
            0 <= at < snapshots@.len() && at < old(state).battle.party_effects@.len() && ((
            #[trigger] snapshots@[at]).character_id != old(state).battle.party_effects@[at].character_id || snapshots@[at].snapshot_sequence != old(state).battle.party_effects@[at].snapshot_sequence || snapshots@[at].effects@ != old(state).battle.party_effects@[at].effects@) ==> changed,
        snapshots@ == old(state).battle.party_effects@ ==> !changed,
{
    if !changed {
        assert forall|at: int|
            0 <= at < snapshots@.len() && at < old(state).battle.party_effects@.len() && ((
            #[trigger] snapshots@[at]).character_id != old(state).battle.party_effects@[at].character_id || snapshots@[at].snapshot_sequence != old(state).battle.party_effects@[at].snapshot_sequence || snapshots@[at].effects@ != old(state).battle.party_effects@[at].effects@) implies changed by {
            let was = old(state).battle.party_effects@[at];
        }
    }
}

/// Counting a packet and replacing equipment or characters by hand do what
/// the events do.
pub proof fn hands_and_events_agree(
    counting: &mut CombatState,
    observation: PacketObservation,
    equipping: &mut CombatState,
    items: Vec<EmptyCurtainItem>,
    naming: &mut CombatState,
    characters: Vec<EmptyCurtainCharacter>,
)
    requires
        call_ensures(CombatState::observe_packet, (counting, observation), ()),
        call_ensures(CombatState::replace_empty_curtain, (equipping, items), ()),
        call_ensures(CombatState::replace_empty_curtain_characters, (naming, characters), ()),
    ensures
        old(counting).battle.packet_log.packet_count < u64::MAX ==> final(counting).battle.packet_log.packet_count == old(counting).battle.packet_log.packet_count + 1,
        final(counting).battle.packet_log.packets_with_hits > old(counting).battle.packet_log.packets_with_hits ==> observation.parsed_hits > 0,
        observation.parsed_hits > 0 && old(counting).battle.packet_log.packets_with_hits < u64::MAX
            ==> final(counting).battle.packet_log.packets_with_hits == old(counting).battle.packet_log.packets_with_hits + 1,
        final(counting).inventory == old(counting).inventory,
        final(counting).battle.team == old(counting).battle.team,
        final(equipping).inventory.items == items,
        moved(
            old(equipping).inventory.items_generation,
            final(equipping).inventory.items_generation,
        ),
        final(equipping).inventory.characters == old(equipping).inventory.characters,
        final(equipping).battle == old(equipping).battle,
        final(naming).inventory.characters == characters,
        moved(
            old(naming).inventory.characters_generation,
            final(naming).inventory.characters_generation,
        ),
        final(naming).inventory.items == old(naming).inventory.items,
        final(naming).battle == old(naming).battle,
{
}

/// A detached battle is the one that was in force, without the inventory,
/// which stays behind with nothing else.
pub proof fn detached_battles_leave_the_inventory(
    state: &mut CombatState,
    detached: CombatState,
    cleared: &mut CombatState,
)
    requires
        call_ensures(CombatState::take_battle_preserving_inventory, (state,), detached),
        call_ensures(CombatState::clear_battle_preserving_inventory, (cleared,), ()),
    ensures
        detached.battle == old(state).battle,
        detached.inventory.items@.len() == 0,
        detached.inventory.characters@.len() == 0,
        final(state).inventory == old(state).inventory,
        nothing_seen(*final(state)),
        final(cleared).inventory == old(cleared).inventory,
        nothing_seen(*final(cleared)),
{
}

/// What the events of a capture's own life do to its status.
pub proof fn events_lead_the_lifecycle<
    E: Fn(BattleState, &BattleUpdate) -> EngineStep,
    D: Fn(&CombatState) -> Option<HistoryCombatDetails>,
>(
    service: &mut LiveCaptureService,
    event: EngineEvent,
    now: u128,
    engine: &E,
    details_of: &D,
    stopped: bool,
)
    requires
        call_ensures(
            LiveCaptureService::process_event::<E, D>,
            (service, event, now, engine, details_of),
            stopped,
        ),
    ensures
        stopped <==> event is CaptureStopped,
        event is Status ==> {
            &&& final(service).control.status.issue == old(service).control.status.issue
            &&& old(service).control.status.phase is Starting ==> final(service).control.status.phase is Running
            &&& !(old(service).control.status.phase is Starting) ==> final(service).control.status.phase == old(service).control.status.phase
        },
        event is Warning ==> {
            &&& final(service).control.status.phase == old(service).control.status.phase
            &&& final(service).control.status.issue == Some(LiveCaptureIssue::RuntimeWarning)
        },
        event is Error ==> {
            &&& final(service).control.status.phase is Failed
            &&& final(service).control.status.issue == Some(LiveCaptureIssue::RuntimeError)
        },
        event is CaptureStopped ==> {
            &&& !final(service).control.replay_running
            &&& old(service).control.status.phase is Failed ==> final(service).control.status.phase is Failed
            &&& !(old(service).control.status.phase is Failed) ==> final(service).control.status.phase is Stopped && final(service).control.status.issue is None
        },
        !(event is Status) && !(event is Error) && !(event is CaptureStopped) ==> final(service).control.status.phase == old(service).control.status.phase,
        !(event is Status) && !(event is Warning) && !(event is Error) && !(event is CaptureStopped)
            && !(event is Abyss) ==> final(service).control.status == old(service).control.status,
        !(event is CaptureStopped) ==> final(service).control.replay_running == old(service).control.replay_running,
        event is Status || event is Warning || event is Error ==> final(service).state == old(service).state,
        final(service).control.quality_source == old(service).control.quality_source,
        final(service).resources == old(service).resources,
{
    path_of(*engine, *details_of, *old(service), event, now, *final(service));
}

/// Everything that the laws on events need of an event's path.
proof fn path_of<
    E: Fn(BattleState, &BattleUpdate) -> EngineStep,
    D: Fn(&CombatState) -> Option<HistoryCombatDetails>,
>(
    engine: E,
    details_of: D,
    before: LiveCaptureService,
    event: EngineEvent,
    now: u128,
    after: LiveCaptureService,
) -> (path: EventPath)
    requires
        processes(engine, details_of, before, event, now, after),
    ensures
        processes_through(engine, details_of, before, event, now, after, path),
        path.queued.control == path.closed.control || path.queued.control
            == path.closed.control.with_dropped(1),
        path.last is None ==> path.queued == path.closed,
        path.queued.state == path.closed.state,
        path.queued.resources == before.resources,
        event !is Abyss ==> path.opened == before && path.first is None,
        path.opened.control == before.control || path.opened.control
            == before.control.with_round_detached(),
        path.closed.control == path.applied.control || path.closed.control
            == path.applied.control.with_round_detached(),
        event !is Abyss && event !is CaptureStopped ==> path.queued == path.applied,
        path.applied.control == path.opened.control.noted(event, now),
        path.applied.pending_abyss_archives == path.opened.pending_abyss_archives,
        after == (LiveCaptureService {
            control: path.queued.control.settled(path.signal),
            ..path.queued
        }),
        reduces(engine, path.opened.state, event, path.applied.state, path.signal),
        event is Status || event is Warning || event is Error || event is CaptureStopped
            ==> path.applied.state == path.opened.state,
        exists|changed: bool| #[trigger] signal_for(event, changed, path.signal),
{
    reveal(processes_through);
    reveal(LiveCaptureService::detaches);
    reveal(archives);
    let path = choose|path: EventPath| #[trigger]
        processes_through(engine, details_of, before, event, now, after, path);
    signal_tells_the_event(engine, path.opened.state, event, path.applied.state, path.signal);
    if event is Status || event is Warning || event is Error || event is CaptureStopped {
        lifecycle_events_leave_the_state(
            engine,
            path.opened.state,
            event,
            path.applied.state,
            path.signal,
        );
    }
    path
}

/// A hit moves the frontend's marker by one; a dealt hit moves the output's
/// marker too and is output at that moment. Packets move the packet page's
/// marker and leave the frontend's alone.
pub proof fn events_tell_their_readers<
    E: Fn(BattleState, &BattleUpdate) -> EngineStep,
    D: Fn(&CombatState) -> Option<HistoryCombatDetails>,
>(
    service: &mut LiveCaptureService,
    event: EngineEvent,
    now: u128,
    engine: &E,
    details_of: &D,
    stopped: bool,
)
    requires
        call_ensures(
            LiveCaptureService::process_event::<E, D>,
            (service, event, now, engine, details_of),
            stopped,
        ),
    ensures
        event is Hit || event is HitFollowUp || event is HitDamageCorrection || event is TimeStop
            || event is Warning ==> moved(
            old(service).control.revision,
            final(service).control.revision,
        ) && final(service).control.packet_revision == old(service).control.packet_revision,
        event is Status || event is Error ==> moved(
            old(service).control.revision,
            final(service).control.revision,
        ) && moved(old(service).control.packet_revision, final(service).control.packet_revision),
        event is Packet || event is PacketObservation ==> final(service).control.revision == old(service).control.revision && moved(
            old(service).control.packet_revision,
            final(service).control.packet_revision,
        ),
        event is EmptyCurtain || event is EmptyCurtainCharacters || event is PartyEffects ==> final(service).control == old(service).control,
        event matches EngineEvent::Hit(hit) ==> {
            &&& hit.direction is Outgoing ==> final(service).control.last_outgoing_hit_at == Some(
                now,
            ) && moved(
                old(service).control.outgoing_hit_revision,
                final(service).control.outgoing_hit_revision,
            )
            &&& !(hit.direction is Outgoing) ==> final(service).control.last_outgoing_hit_at
                == old(service).control.last_outgoing_hit_at && final(service).control.outgoing_hit_revision == old(service).control.outgoing_hit_revision
            &&& exists|changed: bool|
                #[trigger] engine_made(
                    *engine,
                    old(service).state.battle,
                    BattleUpdate::Hit(hit),
                    final(service).state.battle,
                    changed,
                )
        },
        !(event is Hit) ==> final(service).control.outgoing_hit_revision == old(service).control.outgoing_hit_revision,
        !(event is Abyss) && !(event is CaptureStopped) ==> final(service).pending_abyss_archives
            == old(service).pending_abyss_archives && final(service).control.packet_session_generation == old(service).control.packet_session_generation,
{
    let path = path_of(*engine, *details_of, *old(service), event, now, *final(service));
    reveal(reduces);
    if let EngineEvent::Hit(hit) = event {
        let update = BattleUpdate::Hit(hit);
        let (handed, step) = choose|handed: BattleState, step: EngineStep|
            {
                &&& handed_to_engine(path.opened.state.battle, event, handed)
                &&& #[trigger] call_ensures(*engine, (handed, &update), step)
                &&& path.applied.state == (CombatState {
                    battle: step.battle,
                    ..path.opened.state
                })
                &&& signal_for(event, step.projection_changed, path.signal)
            };
        assert(engine_made(*engine, handed, update, step.battle, step.projection_changed));
    }
}

/// The details of some state with this very battle.
pub open spec fn details_of_battle<D: Fn(&CombatState) -> Option<HistoryCombatDetails>>(
    details_of: D,
    battle: BattleState,
    details: Option<HistoryCombatDetails>,
) -> bool {
    exists|state: CombatState| #[trigger]
        call_ensures(details_of, (&state,), details) && state.battle == battle
}

/// The end of a capture closes the challenge round: where a half has hits, the
/// battle as it stood is archived behind all others, if it has details, with
/// its source, and the session starts over with the inventory it had.
pub proof fn the_end_of_a_capture_archives_its_round<
    E: Fn(BattleState, &BattleUpdate) -> EngineStep,
    D: Fn(&CombatState) -> Option<HistoryCombatDetails>,
>(
    service: &mut LiveCaptureService,
    now: u128,
    engine: &E,
    details_of: &D,
    stopped: bool,
)
    requires
        old(service).pending_abyss_archives@.len() < 64,
        call_ensures(
            LiveCaptureService::process_event::<E, D>,
            (service, EngineEvent::CaptureStopped, now, engine, details_of),
            stopped,
        ),
    ensures
        ({
            let halves_hit = old(service).state.battle.abyss.first_half.hits@.len() > 0 || old(service).state.battle.abyss.second_half.hits@.len() > 0;
            &&& !halves_hit ==> final(service).state == old(service).state && final(service).pending_abyss_archives == old(service).pending_abyss_archives
            &&& halves_hit ==> nothing_seen(final(service).state) && exists|
                details: Option<HistoryCombatDetails>,
            |
                {
                    &&& #[trigger] details_of_battle(
                        *details_of,
                        old(service).state.battle,
                        details,
                    )
                    &&& final(service).pending_abyss_archives@ == (match details {
                        Some(details) => old(service).pending_abyss_archives@.push(
                            PendingHistoryArchive {
                                details,
                                source: old(service).control.quality_source,
                            },
                        ),
                        None => old(service).pending_abyss_archives@,
                    })
                }
        }),
        final(service).state.inventory == old(service).state.inventory,
        final(service).control.dropped_history_archives == old(service).control.dropped_history_archives,
{
    let path = path_of(
        *engine,
        *details_of,
        *old(service),
        EngineEvent::CaptureStopped,
        now,
        *final(service),
    );
    reveal(processes_through);
    reveal(LiveCaptureService::detaches);
    reveal(archives);
    if let Some(round) = path.last {
        let details = choose|details: Option<HistoryCombatDetails>| #[trigger]
            call_ensures(*details_of, (&round.state,), details) && path.closed.queues(
                details,
                round.source,
                path.queued,
            );
        assert(details_of_battle(*details_of, old(service).state.battle, details));
    }
}

/// A restart, or a stage on another floor, ends the round before it: the
/// battle as it stood is archived, and the engine takes the event on an empty
/// one. A stage on the same floor, or where no floor was known, ends nothing.
pub proof fn boundaries_archive_the_round_before_them<
    E: Fn(BattleState, &BattleUpdate) -> EngineStep,
    D: Fn(&CombatState) -> Option<HistoryCombatDetails>,
>(
    service: &mut LiveCaptureService,
    abyss: AbyssEvent,
    now: u128,
    engine: &E,
    details_of: &D,
    stopped: bool,
)
    requires
        old(service).pending_abyss_archives@.len() < 64,
        !(abyss is Exit),
        call_ensures(
            LiveCaptureService::process_event::<E, D>,
            (service, EngineEvent::Abyss(abyss), now, engine, details_of),
            stopped,
        ),
    ensures
        ({
            let before = old(service).state.battle;
            let boundary = match abyss {
                AbyssEvent::RestartDetected { .. } => true,
                AbyssEvent::Stage { floor, .. } => floor is Some && before.abyss.floor is Some
                    && floor->0 != before.abyss.floor->0,
                _ => false,
            };
            let halves_hit = before.abyss.first_half.hits@.len() > 0
                || before.abyss.second_half.hits@.len() > 0;
            &&& !(boundary && halves_hit) ==> final(service).pending_abyss_archives == old(service).pending_abyss_archives
            &&& boundary && halves_hit ==> {
                &&& exists|details: Option<HistoryCombatDetails>|
                    {
                        &&& #[trigger] details_of_battle(*details_of, before, details)
                        &&& final(service).pending_abyss_archives@ == (match details {
                            Some(details) => old(service).pending_abyss_archives@.push(
                                PendingHistoryArchive {
                                    details,
                                    source: old(service).control.quality_source,
                                },
                            ),
                            None => old(service).pending_abyss_archives@,
                        })
                    }
                &&& exists|empty: CombatState, changed: bool|
                    {
                        &&& nothing_seen(empty)
                        &&& #[trigger] engine_made(
                            *engine,
                            empty.battle,
                            BattleUpdate::Abyss(abyss),
                            final(service).state.battle,
                            changed,
                        )
                    }
                &&& final(service).control.last_outgoing_hit_at is None
                &&& moved(
                    old(service).control.packet_session_generation,
                    final(service).control.packet_session_generation,
                )
            }
        }),
        final(service).state.inventory == old(service).state.inventory,
{
    let event = EngineEvent::Abyss(abyss);
    let path = path_of(*engine, *details_of, *old(service), event, now, *final(service));
    reveal(processes_through);
    reveal(LiveCaptureService::detaches);
    reveal(archives);
    reveal(reduces);
    let update = BattleUpdate::Abyss(abyss);
    let (handed, step) = choose|handed: BattleState, step: EngineStep|
        {
            &&& handed_to_engine(path.opened.state.battle, event, handed)
            &&& #[trigger] call_ensures(*engine, (handed, &update), step)
            &&& path.applied.state == (CombatState { battle: step.battle, ..path.opened.state })
            &&& signal_for(event, step.projection_changed, path.signal)
        };
    let empty = CombatState { battle: handed, ..path.opened.state };
    assert(engine_made(*engine, empty.battle, update, step.battle, step.projection_changed));
    if let Some(round) = path.last {
        let details = choose|details: Option<HistoryCombatDetails>| #[trigger]
            call_ensures(*details_of, (&round.state,), details) && path.closed.queues(
                details,
                round.source,
                path.queued,
            );
        assert(details_of_battle(*details_of, old(service).state.battle, details));
    }
}

/// A restart always ends a round; a stage ends it by its floor alone; the end
/// of a challenge never does.
pub proof fn rounds_end_by_restart_or_floor(
    current: Option<u32>,
    event: AbyssEvent,
    ends: bool,
    unknown: bool,
)
    requires
        call_ensures(abyss_event_starts_new_round, (current, &event), ends),
        call_ensures(abyss_event_starts_new_round, (None::<u32>, &event), unknown),
    ensures
        event is RestartDetected ==> ends && unknown,
        event is Success || event is Exit ==> !ends,
        event matches AbyssEvent::Stage { floor, .. } ==> !unknown && (ends <==> floor is Some
            && current is Some && floor->0 != current->0),
{
}

/// A fight that became due to be cut stays due as more time passes, and none
/// is due while capture does not run, something is paused, a challenge is
/// entered, nothing was hit or no output was ever seen.
pub proof fn idle_fights_stay_due(
    running: bool,
    paused: bool,
    abyss: bool,
    game_paused: bool,
    has_hits: bool,
    earlier: Option<u128>,
    later: Option<u128>,
    seconds: u32,
    then: bool,
    now: bool,
)
    requires
        earlier is Some ==> later is Some && earlier->0 <= later->0,
        call_ensures(
            auto_round_due,
            (running, paused, abyss, game_paused, has_hits, earlier, seconds),
            then,
        ),
        call_ensures(
            auto_round_due,
            (running, paused, abyss, game_paused, has_hits, later, seconds),
            now,
        ),
    ensures
        then ==> now,
        now ==> running && !paused && !abyss && !game_paused && has_hits && later is Some,
        now ==> later->0 >= seconds * 1_000_000_000,
        running && !paused && !abyss && !game_paused && has_hits && later is Some && later->0
            >= seconds * 1_000_000_000 ==> now,
{
}

/// An archive holds the details that were found and a summary made with the
/// source, the time basis and the reactions that were asked for: of the state
/// that the details restore, or of the state itself where there are none.
pub proof fn archives_summarize_what_they_hold<
    D: Fn(&CombatState) -> Option<HistoryCombatDetails>,
    R: Fn(&HistoryCombatDetails) -> CombatState,
    S: Fn(
        &CombatState,
        CaptureQualitySource,
        DpsTimeBasis,
        bool,
    ) -> Option<CombatSessionSummary>,
>(
    state: &CombatState,
    source: CaptureQualitySource,
    basis: DpsTimeBasis,
    separate: bool,
    details_of: &D,
    restore: &R,
    summarize: &S,
    archive: Option<PreparedHistoryArchive>,
)
    requires
        call_ensures(
            prepare_history_archive::<D, R, S>,
            (state, source, basis, separate, details_of, restore, summarize),
            archive,
        ),
    ensures
        archive matches Some(kept) ==> call_ensures(*details_of, (state,), kept.details),
        archive matches Some(kept) ==> (kept.details matches Some(details) ==> exists|
            restored: CombatState,
        |
            {
                &&& call_ensures(*restore, (&details,), restored)
                &&& #[trigger] call_ensures(
                    *summarize,
                    (&restored, source, basis, separate),
                    Some(kept.summary),
                )
            }),
        archive matches Some(kept) ==> (kept.details is None ==> call_ensures(
            *summarize,
            (state, source, basis, separate),
            Some(kept.summary),
        )),
        archive is None ==> exists|subject: CombatState| #[trigger]
            call_ensures(
                *summarize,
                (&subject, source, basis, separate),
                None::<CombatSessionSummary>,
            ),
{
}

} // verus!
