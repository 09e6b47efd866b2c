//! What the desktop program lets happen, takes back and reads out.
use std::collections::HashMap;

use vstd::prelude::*;

use crate::desktop::{
    has_exportable_state, session_has_data, should_request_stop, stop_wait, AppState,
    LiveCaptureOptions, ReplayOptions, StopWait,
};
use crate::error::{CoreError, CoreErrorCode};
use crate::lifecycle_laws::{moved, nothing_seen, only_the_status_moved, under_way};
use crate::live_capture::{
    CaptureReplayKind, LiveCaptureIssue, LiveCapturePhase, LiveCaptureService, PacketStreamRevision,
};
use crate::model::CombatState;
use crate::notices::{IslandNoticeState, IslandNotices, SessionUndoError, UndoSlot};
use crate::presentation::PresentationState;
use crate::readout::{
    capture_export_options, diagnostics_input, diagnostics_revision, empty_curtain_revision,
    packets_projection, CaptureExportNetwork, CaptureExportOptions, DiagnosticReading,
};
use crate::settings::UiConfig;
use crate::text::held;

verus! {

/// A session holds something that a new one would replace.
pub open spec fn holds_something(state: CombatState) -> bool {
    ||| state.battle.team.hits@.len() > 0
    ||| state.battle.packet_log.packets@.len() > 0
    ||| state.battle.team.stats@.len() > 0
    ||| state.inventory.items@.len() > 0
    ||| state.battle.abyss.active
}

/// Anything that was seen is data; only hits, packets and items can be
/// exported.
pub proof fn what_was_seen_is_data(state: &CombatState, data: bool, exportable: bool)
    requires
        call_ensures(session_has_data, (state,), data),
        call_ensures(has_exportable_state, (state,), exportable),
    ensures
        data <==> holds_something(*state),
        exportable ==> data,
        exportable <==> state.battle.team.hits@.len() > 0 || state.battle.packet_log.packets@.len()
            > 0 || state.inventory.items@.len() > 0,
{
}

/// A stop is asked for where something is under way and not yet stopping; a
/// wait for it is over once nothing is, however late, and gives up only after
/// its deadline.
pub proof fn stops_are_waited_for(
    phase: LiveCapturePhase,
    replay: bool,
    asks: bool,
    now: u128,
    deadline: u128,
    wait: StopWait,
)
    requires
        call_ensures(should_request_stop, (phase, replay), asks),
        call_ensures(stop_wait, (phase, replay, now, deadline), wait),
    ensures
        wait is Done <==> !under_way(phase) && !replay,
        wait is TimedOut <==> (under_way(phase) || replay) && now >= deadline,
        wait is Wait <==> (under_way(phase) || replay) && now < deadline,
        replay ==> asks,
        !replay ==> (asks <==> phase is Starting || phase is Running || phase is Failed),
{
}

/// The program starts with nothing chosen, reserved or remembered.
pub proof fn programs_start_afresh<Z: Fn(UiConfig) -> UiConfig>(
    config: UiConfig,
    live: LiveCaptureService,
    sanitize: &Z,
    app: AppState,
)
    requires
        call_ensures(AppState::new::<Z>, (config, live, sanitize), app),
    ensures
        call_ensures(*sanitize, (config,), app.settings.config),
        app.live == live,
        app.presentation.selected_round is None,
        app.presentation.paused is None,
        !app.presentation.control.processing_paused,
        app.session_undo.entry is None,
        app.session_undo.sequence == 0,
        !app.replay_import_reserved,
        !app.passthrough,
        !app.passthrough_hotkey_ready,
        app.onboarding_step == 0,
        app.sequence == 0,
        app.history.pending_archives@.len() == 0,
        app.settings.presentation_revision == 0,
        app.settings.settings_revision == 0,
{
}

/// Snapshots are numbered in turn.
pub proof fn snapshots_are_numbered_in_turn(
    first: &mut AppState,
    one: u64,
    second: &mut AppState,
    two: u64,
)
    requires
        old(first).sequence < u64::MAX - 1,
        call_ensures(AppState::next_sequence, (first,), one),
        *old(second) == *final(first),
        call_ensures(AppState::next_sequence, (second,), two),
    ensures
        one == old(first).sequence + 1,
        two == one + 1,
        final(first).sequence == one,
        final(first).live == old(first).live,
        final(first).presentation == old(first).presentation,
{
}

/// A capture listens on the chosen device, or on any, with the user's filter
/// and calibration; it takes incoming hits in and keeps what it records to
/// itself.
pub proof fn captures_are_taken_as_set(
    app: &AppState,
    options: LiveCaptureOptions,
    address: Option<String>,
    replay: ReplayOptions,
)
    requires
        call_ensures(AppState::live_capture_options, (app,), options),
        call_ensures(AppState::replay_options, (app, address), replay),
    ensures
        options.profile is Combat,
        app.settings.config.manual_capture_device is None ==> options.device is Auto,
        app.settings.config.manual_capture_device matches Some(name) ==> options.device is Name
            && options.device->Name_0 == name,
        options.filter == app.settings.config.capture_filter,
        options.include_incoming,
        options.server_damage_calibration
            == app.settings.config.plain.capture.server_damage_calibration,
        options.raw_capture is Enabled,
        !options.expose_raw_capture_path,
        options.full_debug_packets,
        replay.local_ip_hint == address,
        replay.include_incoming,
        replay.server_damage_calibration
            == app.settings.config.plain.capture.server_damage_calibration,
{
}

/// A session with data is replaced only at the user's word, and none while a
/// replay is being chosen.
pub proof fn sessions_are_replaced_at_the_users_word(
    app: &AppState,
    replace: bool,
    refusal: Option<CoreError>,
)
    requires
        call_ensures(AppState::capture_start_refusal, (app, replace), refusal),
    ensures
        refusal is Some <==> app.replay_import_reserved || (holds_something(app.live.state)
            && !replace),
        refusal matches Some(error) ==> error.code == CoreErrorCode::CaptureAlreadyRunning,
{
}

/// A capture that was granted is starting and presented live; one that was
/// not leaves the presentation alone, and one that was refused leaves
/// everything alone.
pub proof fn granted_captures_are_presented_live(
    app: &mut AppState,
    replace: bool,
    worker: Result<(), String>,
    starter: Result<(), String>,
    result: Result<(), CoreError>,
)
    requires
        call_ensures(AppState::request_capture_start, (app, replace, worker, starter), result),
    ensures
        result is Ok <==> !old(app).replay_import_reserved && (!holds_something(old(app).live.state)
            || replace) && worker is Ok && starter is Ok && !under_way(
            old(app).live.control.status.phase,
        ),
        result is Ok ==> {
            &&& final(app).live.control.status.phase is Starting
            &&& final(app).live.control.status.issue is None
            &&& final(app).presentation.selected_round is None
            &&& final(app).presentation.paused is None
            &&& !final(app).presentation.control.processing_paused
            &&& final(app).presentation.control.selected_abyss_half is None
            &&& final(app).presentation.control.selected_outgoing_revision == old(app).live.control.outgoing_hit_revision
            &&& moved(
                old(app).presentation.control.main_revision,
                final(app).presentation.control.main_revision,
            )
        },
        result is Err ==> final(app).presentation == old(app).presentation,
        old(app).replay_import_reserved || (holds_something(old(app).live.state) && !replace)
            ==> *final(app) == *old(app) && result->Err_0.code
            == CoreErrorCode::CaptureAlreadyRunning,
        only_the_status_moved(old(app).live, final(app).live),
        final(app).settings == old(app).settings,
        final(app).session_undo == old(app).session_undo,
        final(app).history == old(app).history,
{
}

/// A replay is reserved where none is yet, and where nothing runs and nothing
/// would be lost, or the user said so. A reservation that was given up can be
/// had again.
pub proof fn replays_are_reserved_once(
    app: &mut AppState,
    replace: bool,
    result: Result<(), CoreError>,
    again: &mut AppState,
    repeated: Result<(), CoreError>,
    released: &mut AppState,
)
    requires
        call_ensures(AppState::begin_replay_import, (app, replace), result),
        *old(again) == *final(app),
        call_ensures(AppState::begin_replay_import, (again, replace), repeated),
        *old(released) == *final(app),
        call_ensures(AppState::release_replay_import, (released,), ()),
    ensures
        result is Ok <==> !old(app).replay_import_reserved && (replace || (!under_way(
            old(app).live.control.status.phase,
        ) && !old(app).live.control.replay_running && !holds_something(old(app).live.state))),
        result is Err ==> *final(app) == *old(app) && result->Err_0.code
            == CoreErrorCode::CaptureAlreadyRunning,
        result is Ok ==> final(app).replay_import_reserved && repeated is Err,
        final(app).live == old(app).live,
        final(app).presentation == old(app).presentation,
        !final(released).replay_import_reserved,
        final(released).live == old(app).live,
{
}

/// The reservation ends with the replay, started or not. A replay that did
/// start is presented live; a stop that failed hands its own error on and
/// starts nothing.
pub proof fn reservations_end_with_the_replay(
    app: &mut AppState,
    kind: CaptureReplayKind,
    stopped: Result<(), CoreError>,
    worker: Result<(), String>,
    result: Result<(), CoreError>,
)
    requires
        call_ensures(AppState::start_reserved_replay, (app, kind, stopped, worker), result),
    ensures
        !final(app).replay_import_reserved,
        stopped is Err ==> result is Err && result->Err_0 == stopped->Err_0 && final(app).live
            == old(app).live,
        result is Ok <==> stopped is Ok && worker is Ok && !under_way(
            old(app).live.control.status.phase,
        ) && !old(app).live.control.replay_running,
        result is Ok ==> {
            &&& final(app).live.control.replay_running
            &&& final(app).live.control.status.phase is Running
            &&& kind is Pcapng ==> final(app).live.control.quality_source is PcapngReplay
            &&& kind is Json ==> final(app).live.control.quality_source is JsonReplay
            &&& nothing_seen(final(app).live.state)
            &&& final(app).presentation.selected_round is None
            &&& final(app).presentation.paused is None
            &&& !final(app).presentation.control.processing_paused
        },
        result is Err ==> final(app).presentation == old(app).presentation && final(app).live
            == old(app).live,
        final(app).settings == old(app).settings,
        final(app).session_undo == old(app).session_undo,
{
}

/// A session that is reset can be had back within five seconds, by its token
/// and as it was, as long as nothing runs and nothing new came in; once.
pub proof fn resets_are_taken_back_in_time(
    resetting: &mut AppState,
    reset_at: u128,
    token: Option<String>,
    undoing: &mut AppState,
    given: &str,
    now: u128,
    result: Result<(), SessionUndoError>,
    again: &mut AppState,
    repeated: Result<(), SessionUndoError>,
)
    requires
        old(resetting).session_undo.sequence < u64::MAX,
        holds_something(old(resetting).live.state),
        !under_way(old(resetting).live.control.status.phase),
        !old(resetting).live.control.replay_running,
        reset_at <= now <= reset_at + 5_000_000_000,
        reset_at <= u128::MAX - 5_000_000_000,
        call_ensures(AppState::reset_session_with_undo, (resetting, reset_at), token),
        token matches Some(text) ==> given@ == text@,
        *old(undoing) == *final(resetting),
        call_ensures(AppState::undo_session_reset, (undoing, given, now), result),
        *old(again) == *final(undoing),
        call_ensures(AppState::undo_session_reset, (again, given, now), repeated),
    ensures
        token is Some,
        nothing_seen(final(resetting).live.state),
        final(resetting).presentation.selected_round is None,
        final(resetting).presentation.paused is None,
        final(resetting).live.control.status == old(resetting).live.control.status,
        result is Ok,
        final(undoing).live.state == old(resetting).live.state,
        final(undoing).live.control.quality_source == old(resetting).live.control.quality_source,
        final(undoing).session_undo.entry is None,
        repeated is Err,
        final(again).live == final(undoing).live,
{
}

/// A reset that is taken back too late, with another token, while something
/// runs or over new data is not taken back, and each is told apart.
pub proof fn late_undos_are_refused(
    app: &mut AppState,
    token: &str,
    now: u128,
    result: Result<(), SessionUndoError>,
)
    requires
        call_ensures(AppState::undo_session_reset, (app, token, now), result),
    ensures
        ({
            let busy = under_way(old(app).live.control.status.phase) || old(app).live.control.replay_running;
            let known = old(app).session_undo.entry is Some && old(app).session_undo.entry->0.token@ == token@;
            &&& busy ==> result is Err && result->Err_0 is Busy && *final(app) == *old(app)
            &&& !busy && holds_something(old(app).live.state) ==> result is Err && result->Err_0
                is NewData && *final(app) == *old(app)
            &&& !busy && !holds_something(old(app).live.state) && !known ==> result is Err
                && result->Err_0 is Missing && *final(app) == *old(app)
            &&& !busy && !holds_something(old(app).live.state) && known && now > old(app).session_undo.entry->0.expires_at ==> result is Err && result->Err_0 is Expired
                && final(app).live == old(app).live && final(app).session_undo.entry is None
            &&& !busy && !holds_something(old(app).live.state) && known && now <= old(app).session_undo.entry->0.expires_at ==> result is Ok && final(app).live.state == old(app).session_undo.entry->0.value.state
        }),
        final(app).presentation == old(app).presentation,
        final(app).settings == old(app).settings,
{
}

/// A session without data leaves nothing to take back, and a session cleared
/// for good never does.
pub proof fn cleared_sessions_are_gone(
    resetting: &mut AppState,
    now: u128,
    token: Option<String>,
    clearing: &mut AppState,
)
    requires
        old(resetting).session_undo.sequence < u64::MAX,
        call_ensures(AppState::reset_session_with_undo, (resetting, now), token),
        call_ensures(AppState::clear_session, (clearing,), ()),
    ensures
        token is Some <==> holds_something(old(resetting).live.state),
        token is None ==> final(resetting).session_undo == old(resetting).session_undo,
        nothing_seen(final(resetting).live.state),
        nothing_seen(final(clearing).live.state),
        final(clearing).session_undo.entry is None,
        final(clearing).live.control.status == old(clearing).live.control.status,
        final(clearing).presentation.selected_round is None,
        !final(clearing).presentation.control.processing_paused,
        moved(
            old(clearing).live.control.revision,
            final(clearing).live.control.revision,
        ),
        final(clearing).settings == old(clearing).settings,
{
}

/// Letting clicks through is drawn where it changes; the hotkey is not.
pub proof fn passthrough_is_drawn_where_it_changes(
    app: &mut AppState,
    enabled: bool,
    readied: &mut AppState,
    ready: bool,
)
    requires
        call_ensures(AppState::set_passthrough, (app, enabled), ()),
        call_ensures(AppState::set_passthrough_hotkey_ready, (readied, ready), ()),
    ensures
        final(app).passthrough == enabled,
        old(app).passthrough == enabled ==> *final(app) == *old(app),
        old(app).passthrough != enabled ==> moved(
            old(app).settings.presentation_revision,
            final(app).settings.presentation_revision,
        ),
        final(app).settings.settings_revision == old(app).settings.settings_revision,
        final(app).settings.config == old(app).settings.config,
        final(readied).passthrough_hotkey_ready == ready,
        final(readied).settings == old(readied).settings,
        final(readied).passthrough == old(readied).passthrough,
{
}

/// A pause freezes a copy of the live session with its packets' markers, and
/// the capture goes on; once resumed, nothing is frozen.
pub proof fn pauses_freeze_the_live_session<K: Fn(&CombatState) -> CombatState>(
    app: &mut AppState,
    paused: bool,
    copy: &K,
)
    requires
        call_ensures(AppState::set_main_processing_paused::<K>, (app, paused, copy), ()),
    ensures
        final(app).presentation.control.processing_paused == paused,
        final(app).live == old(app).live,
        final(app).settings.config == old(app).settings.config,
        old(app).presentation.control.processing_paused == paused ==> *final(app) == *old(app),
        old(app).presentation.control.processing_paused != paused ==> {
            &&& final(app).presentation.paused is Some <==> paused
            &&& moved(
                old(app).settings.presentation_revision,
                final(app).settings.presentation_revision,
            )
            &&& moved(
                old(app).presentation.control.main_revision,
                final(app).presentation.control.main_revision,
            )
        },
        !old(app).presentation.control.processing_paused && paused ==> {
            let frozen = final(app).presentation.paused->0;
            &&& call_ensures(*copy, (&old(app).live.state,), frozen.state)
            &&& frozen.packet_revision.generation == old(app).live.control.packet_revision
            &&& frozen.packet_revision.session_generation == old(app).live.control.packet_session_generation
            &&& frozen.packet_revision.packet_generation == old(app).live.state.battle.packet_log.packets_generation
        },
{
}

/// A notice is shown for five seconds under a name of its own, and goes when
/// it is dismissed by that name.
pub proof fn notices_are_shown_for_a_while(
    notices: &mut IslandNotices,
    tone: &'static str,
    key: &'static str,
    arguments: Vec<String>,
    undo: Option<String>,
    published_at: u128,
    id: String,
    reading: &mut IslandNotices,
    now: u128,
    shown: Option<&IslandNoticeState>,
    dismissing: &mut IslandNotices,
    given: &str,
    dismissed: bool,
)
    requires
        old(notices).revision < u64::MAX,
        published_at <= u128::MAX - 5_000_000_000,
        call_ensures(
            IslandNotices::publish_island_notice,
            (notices, tone, key, arguments, undo, published_at),
            id,
        ),
        *old(reading) == *final(notices),
        call_ensures(IslandNotices::island_notice, (reading, now), shown),
        *old(dismissing) == *final(notices),
        call_ensures(IslandNotices::dismiss_island_notice, (dismissing, given), dismissed),
    ensures
        final(notices).revision == old(notices).revision + 1,
        final(notices).current is Some,
        final(notices).current->0.id@ == id@,
        final(notices).current->0.tone == tone,
        final(notices).current->0.message_key == key,
        final(notices).current->0.message_arguments == arguments,
        final(notices).current->0.undo_token == undo,
        now <= published_at + 5_000_000_000 ==> shown is Some && *shown->0
            == final(notices).current->0 && *final(reading) == *old(reading),
        now > published_at + 5_000_000_000 ==> shown is None && final(reading).current is None,
        dismissed <==> given@ == id@,
        dismissed ==> final(dismissing).current is None,
        !dismissed ==> *final(dismissing) == *old(dismissing),
{
}

/// A deleted record is given back once, in time, by its token; a wrong or late
/// token leaves it where it is. A session's token is used up by a late try.
pub proof fn remembered_things_are_given_back_once<T>(
    slot: &mut UndoSlot<T>,
    record: T,
    at: u128,
    token: String,
    taking: &mut UndoSlot<T>,
    given: &str,
    now: u128,
    taken: Option<T>,
    session: &mut UndoSlot<T>,
    result: Result<T, SessionUndoError>,
)
    requires
        old(slot).sequence < u64::MAX,
        at <= u128::MAX - 5_000_000_000,
        call_ensures(UndoSlot::<T>::remember_deleted, (slot, record, at), token),
        *old(taking) == *final(slot),
        call_ensures(UndoSlot::<T>::take_deleted, (taking, given, now), taken),
        *old(session) == *final(slot),
        call_ensures(UndoSlot::<T>::take_session, (session, given, now), result),
    ensures
        final(slot).sequence == old(slot).sequence + 1,
        given@ == token@ && now <= at + 5_000_000_000 ==> taken == Some(record) && final(taking).entry is None && result is Ok && result->Ok_0 == record && final(session).entry is None,
        given@ != token@ ==> taken is None && *final(taking) == *old(taking) && result is Err
            && result->Err_0 is Missing && *final(session) == *old(session),
        given@ == token@ && now > at + 5_000_000_000 ==> taken is None && *final(taking) == *old(taking) && result is Err && result->Err_0 is Expired && final(session).entry is None,
{
}

/// The diagnostics page reads the capture's own counters, tells a capture from
/// a replay, and names the issue.
pub proof fn diagnostics_read_the_capture(
    live: &LiveCaptureService,
    config: &UiConfig,
    filter: Option<String>,
    raw: Option<u64>,
    reading: DiagnosticReading,
    own: u64,
    markers: (u64, u64, u64),
)
    requires
        call_ensures(diagnostics_input, (live, config, filter, raw), reading),
        call_ensures(diagnostics_revision, (live, own), markers),
    ensures
        reading.capture_running <==> under_way(live.control.status.phase)
            && !live.control.replay_running,
        reading.replay_running == live.control.replay_running,
        !(reading.capture_running && reading.replay_running),
        reading.active_capture_filter == filter,
        raw is None ==> reading.raw_packet_count == 0,
        raw matches Some(count) ==> (count <= usize::MAX ==> reading.raw_packet_count == count),
        reading.parsed_packet_count == live.state.battle.packet_log.packet_count,
        reading.hit_count == live.state.battle.team.hits@.len(),
        reading.dropped_history_archives == live.control.dropped_history_archives,
        reading.include_incoming,
        reading.server_damage_calibration == config.plain.capture.server_damage_calibration,
        held(reading.manual_capture_device) == held(config.manual_capture_device),
        reading.last_diagnostic is Some <==> live.control.status.issue is Some,
        live.control.status.issue == Some(LiveCaptureIssue::RuntimeWarning)
            ==> reading.last_diagnostic->0@ == "RuntimeWarning"@,
        live.control.status.issue == Some(LiveCaptureIssue::RuntimeError)
            ==> reading.last_diagnostic->0@ == "RuntimeError"@,
        markers.0 == live.control.revision,
        markers.1 == live.control.packet_revision,
        markers.2 == own,
{
}

/// An export has the user's filter and the time basis that the rates are shown
/// with.
pub proof fn exports_follow_the_settings(
    config: &UiConfig,
    network: Option<CaptureExportNetwork>,
    options: CaptureExportOptions,
)
    requires
        call_ensures(capture_export_options, (config, network), options),
    ensures
        options.filter == config.capture_filter,
        options.include_incoming,
        options.game_network == network,
        config.plain.capture.dps_time_mode is TimeStopAdjusted ==> options.dps_time_mode
            is SubtractTimeStop,
        config.plain.capture.dps_time_mode is RealTime ==> options.dps_time_mode is WallClock,
{
}

/// The inventory page follows the live inventory, or what is presented while
/// processing is paused.
pub proof fn the_inventory_page_follows_the_inventory(
    presentation: &PresentationState,
    live: &LiveCaptureService,
    operation: u64,
    shown: &CombatState,
    markers: (u64, u64, u64),
)
    requires
        call_ensures(PresentationState::presented, (presentation, &live.state), shown),
        call_ensures(empty_curtain_revision, (presentation, live, operation), markers),
    ensures
        presentation.control.processing_paused ==> markers.0 == shown.inventory.items_generation
            && markers.1 == shown.inventory.characters_generation,
        !presentation.control.processing_paused ==> markers.0
            == live.state.inventory.items_generation && markers.1
            == live.state.inventory.characters_generation,
        markers.2 == operation,
{
}

/// The packet page is brought up to date from its cursor within the same
/// session, and drawn whole where that is not possible. While a frozen session
/// is shown, nothing is queued.
pub proof fn packet_pages_are_brought_up_to_date<
    P,
    N: Fn(&CombatState, PacketStreamRevision, usize, u64) -> Option<P>,
    R: Fn(&CombatState, PacketStreamRevision, usize) -> P,
>(
    presentation: &PresentationState,
    live: &LiveCaptureService,
    queued: usize,
    after: Option<PacketStreamRevision>,
    since: &N,
    recent: &R,
    page: (PacketStreamRevision, bool, P),
)
    requires
        call_ensures(
            packets_projection::<P, N, R>,
            (presentation, live, queued, after, since, recent),
            page,
        ),
    ensures
        ({
            let frozen = presentation.control.processing_paused && presentation.paused is Some;
            &&& frozen ==> page.0 == presentation.paused->0.packet_revision
            &&& !frozen ==> page.0.generation == live.control.packet_revision
                && page.0.session_generation == live.control.packet_session_generation
                && page.0.packet_generation == live.state.battle.packet_log.packets_generation
                && page.0.observed_packet_count == live.state.battle.packet_log.packet_count
            &&& !frozen && page.1 ==> call_ensures(*recent, (&live.state, page.0, queued), page.2)
            &&& frozen && page.1 ==> call_ensures(
                *recent,
                (&presentation.paused->0.state, page.0, 0usize),
                page.2,
            )
            &&& !page.1 ==> after is Some && after->0.session_generation
                == page.0.session_generation
            &&& !frozen && !page.1 ==> call_ensures(
                *since,
                (&live.state, page.0, queued, after->0.packet_generation),
                Some(page.2),
            )
            &&& frozen && !page.1 ==> call_ensures(
                *since,
                (&presentation.paused->0.state, page.0, 0usize, after->0.packet_generation),
                Some(page.2),
            )
        }),
{
}

} // verus!
