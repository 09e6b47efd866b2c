//! What the HUD's commands do, and what the single pages keep.
use vstd::prelude::*;

use crate::commands::{
    hud_reset_stops, hud_start_refusal, module_config, move_hud_module, moved_config,
    on_top_config, reports_change, reset_hud_session, set_hud_always_on_top,
    set_hud_module_visibility, set_hud_passthrough, set_hud_width, start_hud_capture,
    stop_hud_capture, width_config, HudCommandError,
};
use crate::desktop::AppState;
use crate::desktop_laws::holds_something;
use crate::error::CoreError;
use crate::hud::{HudConfig, HudModule};
use crate::lifecycle_laws::{moved, nothing_seen, only_the_status_moved, under_way};
use crate::live_capture::StopAction;
use crate::model::CombatState;
use crate::notices::IslandNotices;
use crate::operations::{
    exports_presented, offered, offered_team, EmptyCurtainOperationState, EncryptedIniContent,
    EncryptedIniProjection, EncryptedIniRuntimeError, EncryptedIniRuntimeState, LoaderNews,
    LoaderResponse, OperationStatus, PredictionTeams, TeamExport,
};
use crate::readout_laws::on_screen;
use crate::rpc::ModsPluginSubmitError;
use crate::settings::{copies, DpsTimeMode, UiConfig};
use crate::settings_laws::{changes_settle, same_but_hud, same_texts};
use crate::text::decimal;

verus! {

/// The one window that the commands are for.
pub open spec fn is_hud(label: &str) -> bool {
    label@ == "hud"@
}

/// One notice more, with this message and these arguments, for five seconds.
pub open spec fn one_notice_more(
    before: IslandNotices,
    message: Seq<char>,
    now: u128,
    after: IslandNotices,
) -> bool {
    &&& after.revision == before.revision + 1
    &&& after.current is Some
    &&& after.current->0.message_key@ == message
    &&& now + 5_000_000_000 <= u128::MAX ==> after.current->0.expires_at == now + 5_000_000_000
}

/// A capture is started from the HUD alone and replaces what is there. The
/// user hears of it where it was granted, and of nothing where it was not.
pub proof fn the_hud_starts_captures(
    label: &str,
    app: &mut AppState,
    notices: &mut IslandNotices,
    worker: Result<(), String>,
    starter: Result<(), String>,
    now: u128,
    result: Result<(), HudCommandError>,
)
    requires
        call_ensures(
            start_hud_capture,
            (label, app, notices, worker, starter, now),
            result,
        ),
    ensures
        result is Ok <==> is_hud(label) && !old(app).replay_import_reserved && worker is Ok
            && starter is Ok && !under_way(old(app).live.control.status.phase),
        !is_hud(label) ==> *final(app) == *old(app) && result->Err_0 is InvalidWindow,
        is_hud(label) && result is Err ==> result->Err_0 is Core,
        result is Ok ==> {
            &&& final(app).live.control.status.phase is Starting
            &&& final(app).presentation.selected_round is None
            &&& final(app).presentation.paused is None
            &&& one_notice_more(*old(notices), "Starting live capture..."@, now, *final(notices))
            &&& final(notices).current->0.tone@ == "status"@
            &&& final(notices).current->0.undo_token is None
        },
        result is Err ==> *final(notices) == *old(notices) && final(app).presentation == old(app).presentation,
        only_the_status_moved(old(app).live, final(app).live),
        final(app).settings == old(app).settings,
{
}

/// Before anything is done, a start from the HUD is refused for a wrong window
/// or while a replay is being chosen, and for nothing else.
pub proof fn hud_starts_are_refused_beforehand(
    label: &str,
    app: &AppState,
    refusal: Option<HudCommandError>,
)
    requires
        call_ensures(hud_start_refusal, (label, app), refusal),
    ensures
        refusal is None <==> is_hud(label) && !app.replay_import_reserved,
        !is_hud(label) ==> refusal->0 is InvalidWindow,
        is_hud(label) && app.replay_import_reserved ==> refusal->0 is Core,
{
}

/// A capture is stopped from the HUD alone, and the user hears of it where
/// there was one to stop.
pub proof fn the_hud_stops_captures(
    label: &str,
    app: &mut AppState,
    notices: &mut IslandNotices,
    now: u128,
    result: Result<StopAction, HudCommandError>,
)
    requires
        call_ensures(
            stop_hud_capture,
            (label, app, notices, Ok::<(), String>(()), now),
            result,
        ),
    ensures
        result is Ok <==> is_hud(label) && !(old(app).live.control.status.phase is Idle) && !(old(app).live.control.status.phase is Stopped),
        !is_hud(label) ==> result->Err_0 is InvalidWindow,
        result is Ok ==> {
            &&& final(app).live.control.status.phase is Stopping
            &&& one_notice_more(*old(notices), "Stopping live capture..."@, now, *final(notices))
            &&& result->Ok_0.stop_replay ==> old(app).live.control.replay_running
            &&& result->Ok_0.spawn_stop_worker ==> !old(app).live.control.replay_running
        },
        result is Err ==> *final(notices) == *old(notices) && *final(app) == *old(app),
        final(app).presentation == old(app).presentation,
        final(app).settings == old(app).settings,
        only_the_status_moved(old(app).live, final(app).live),
{
}

/// A reset from the HUD stops what runs first, and nothing for another window.
pub proof fn resets_stop_what_runs(
    label: &str,
    app: &AppState,
    result: Result<bool, HudCommandError>,
)
    requires
        call_ensures(hud_reset_stops, (label, app), result),
    ensures
        result is Ok <==> is_hud(label),
        result matches Ok(stops) ==> stops == (under_way(app.live.control.status.phase)
            || app.live.control.replay_running),
        result is Err ==> result->Err_0 is InvalidWindow,
{
}

/// A reset empties the session. One that nothing was stopped for can be taken
/// back by the token in the notice, where it held something; one that a
/// capture was stopped for is gone for good. A stop that failed resets
/// nothing.
pub proof fn the_hud_resets_sessions(
    label: &str,
    app: &mut AppState,
    notices: &mut IslandNotices,
    stopped: Option<Result<(), CoreError>>,
    now: u128,
    result: Result<(), HudCommandError>,
)
    requires
        old(app).session_undo.sequence < u64::MAX,
        call_ensures(reset_hud_session, (label, app, notices, stopped, now), result),
    ensures
        result is Ok <==> is_hud(label) && !(stopped is Some && stopped->0 is Err),
        result is Err ==> *final(app) == *old(app) && *final(notices) == *old(notices),
        is_hud(label) && result is Err ==> result->Err_0 is Core && result->Err_0->Core_0
            == stopped->0->Err_0,
        result is Ok ==> {
            let undoable = stopped is None && holds_something(old(app).live.state);
            &&& nothing_seen(final(app).live.state)
            &&& final(app).presentation.selected_round is None
            &&& final(app).presentation.paused is None
            &&& final(notices).revision == old(notices).revision + 1
            &&& final(notices).current is Some
            &&& final(notices).current->0.tone@ == "success"@
            &&& final(notices).current->0.undo_token is Some <==> undoable
            &&& undoable ==> {
                let entry = final(app).session_undo.entry;
                &&& entry is Some
                &&& entry->0.token == final(notices).current->0.undo_token->0
                &&& entry->0.value.state == old(app).live.state
                &&& entry->0.value.source == old(app).live.control.quality_source
                &&& final(notices).current->0.message_key@
                    == "Session reset · use Undo within 5 seconds"@
            }
            &&& !undoable ==> final(notices).current->0.message_key@ == "Stats reset"@
            &&& stopped is Some ==> final(app).session_undo.entry is None
        },
        final(app).settings == old(app).settings,
{
}

/// Clicks are let through only where the key that leads back works; the notice
/// names that key.
pub proof fn clicks_pass_only_with_a_way_back(
    label: &str,
    enabled: bool,
    hotkey: String,
    app: &mut AppState,
    notices: &mut IslandNotices,
    now: u128,
    result: Result<(), HudCommandError>,
)
    requires
        call_ensures(
            set_hud_passthrough,
            (label, enabled, hotkey, app, notices, now),
            result,
        ),
    ensures
        result is Ok <==> is_hud(label) && (!enabled || old(app).passthrough_hotkey_ready),
        result is Ok ==> {
            &&& final(app).passthrough == enabled
            &&& final(notices).current is Some
            &&& final(notices).current->0.message_arguments@.len() == 1
            &&& final(notices).current->0.message_arguments@[0] == hotkey
            &&& old(app).passthrough != enabled ==> moved(
                old(app).settings.presentation_revision,
                final(app).settings.presentation_revision,
            )
            &&& enabled ==> one_notice_more(
                *old(notices),
                "HUD passthrough on; press {} to enter edit mode"@,
                now,
                *final(notices),
            )
            &&& !enabled ==> one_notice_more(
                *old(notices),
                "HUD edit mode on; press {} to return to game passthrough"@,
                now,
                *final(notices),
            )
        },
        result is Err ==> *final(app) == *old(app) && *final(notices) == *old(notices),
        is_hud(label) && result is Err ==> result->Err_0 is HotkeyUnavailable,
        final(app).live == old(app).live,
        final(app).settings.config == old(app).settings.config,
{
}

/// What a change of the settings comes to: it is in force once it was made
/// valid and saved, and everything stays where it was not.
pub open spec fn takes_force<Z: Fn(UiConfig) -> UiConfig, V: Fn(&UiConfig) -> Result<(), String>>(
    sanitize: Z,
    save: V,
    before: AppState,
    candidate: UiConfig,
    after: AppState,
    result: Result<bool, HudCommandError>,
) -> bool {
    &&& result matches Ok(changed) ==> {
        &&& !changed ==> after == before
        &&& changed ==> {
            &&& call_ensures(sanitize, (candidate,), after.settings.config)
            &&& call_ensures(save, (&after.settings.config,), Ok::<(), String>(()))
            &&& moved(before.settings.presentation_revision, after.settings.presentation_revision)
        }
    }
    &&& result matches Err(error) ==> error is HudConfigSaveFailed && after == before
    &&& after.live == before.live
    &&& after.presentation == before.presentation
}

/// A change that a command reports comes to that.
proof fn reports_take_force<Z: Fn(UiConfig) -> UiConfig, V: Fn(&UiConfig) -> Result<(), String>>(
    sanitize: Z,
    save: V,
    before: AppState,
    candidate: UiConfig,
    after: AppState,
    result: Result<bool, HudCommandError>,
)
    requires
        reports_change(sanitize, save, before, candidate, after, result),
    ensures
        takes_force(sanitize, save, before, candidate, after, result),
{
    let changed = choose|changed: Result<bool, String>|
        {
            &&& #[trigger] before.settings.changes(
                sanitize,
                save,
                candidate,
                true,
                after.settings,
                changed,
            )
            &&& result == (match changed {
                Ok(changed) => Ok::<bool, HudCommandError>(changed),
                Err(_) => Err(HudCommandError::HudConfigSaveFailed),
            })
        };
    changes_settle(
        sanitize,
        save,
        before.settings,
        candidate,
        true,
        after.settings,
        changed,
    );
}

/// The HUD is kept on top, or not, with nothing else of the settings touched;
/// the user hears which it is.
pub proof fn the_hud_is_kept_on_top<
    Z: Fn(UiConfig) -> UiConfig,
    V: Fn(&UiConfig) -> Result<(), String>,
>(
    label: &str,
    enabled: bool,
    app: &mut AppState,
    notices: &mut IslandNotices,
    sanitize: &Z,
    save: &V,
    now: u128,
    result: Result<bool, HudCommandError>,
)
    requires
        call_ensures(
            set_hud_always_on_top::<Z, V>,
            (label, enabled, app, notices, sanitize, save, now),
            result,
        ),
    ensures
        !is_hud(label) ==> result is Err && result->Err_0 is InvalidWindow && *final(app) == *old(app),
        is_hud(label) ==> exists|candidate: UiConfig|
            {
                &&& #[trigger] takes_force(
                    *sanitize,
                    *save,
                    *old(app),
                    candidate,
                    *final(app),
                    result,
                )
                &&& candidate.plain.on_top.hud == enabled
                &&& candidate.plain.on_top.always_on_top == enabled
                &&& candidate.plain.on_top.main_dps
                    == old(app).settings.config.plain.on_top.main_dps
                &&& candidate.plain.on_top.console == old(app).settings.config.plain.on_top.console
                &&& candidate.plain.interface == old(app).settings.config.plain.interface
                &&& candidate.measured == old(app).settings.config.measured
                &&& same_texts(old(app).settings.config, candidate)
            },
        result is Ok && enabled ==> one_notice_more(
            *old(notices),
            "Always-on-top enabled"@,
            now,
            *final(notices),
        ),
        result is Ok && !enabled ==> one_notice_more(
            *old(notices),
            "Always-on-top disabled"@,
            now,
            *final(notices),
        ),
        result is Err ==> *final(notices) == *old(notices),
{
    if is_hud(label) {
        let candidate = choose|candidate: UiConfig|
            {
                &&& #[trigger] copies(candidate, on_top_config(old(app).settings.config, enabled))
                &&& reports_change(
                    *sanitize,
                    *save,
                    *old(app),
                    candidate,
                    *final(app),
                    result,
                )
            };
        reports_take_force(*sanitize, *save, *old(app), candidate, *final(app), result);
    }
}

/// A width, a module's visibility and its place are changed from the HUD
/// alone, and nothing but the HUD's settings with them.
pub proof fn the_hud_is_rearranged<
    M: Fn(&HudConfig, HudModule, bool) -> HudConfig,
    N: Fn(&HudConfig, HudModule, HudModule, bool) -> HudConfig,
    Z: Fn(UiConfig) -> UiConfig,
    V: Fn(&UiConfig) -> Result<(), String>,
>(
    label: &str,
    sanitize: &Z,
    save: &V,
    width: u16,
    resizing: &mut AppState,
    resized: Result<bool, HudCommandError>,
    module: HudModule,
    visible: bool,
    toggling: &mut AppState,
    set_visible: &M,
    toggled: Result<bool, HudCommandError>,
    target: HudModule,
    insert_after: bool,
    moving: &mut AppState,
    move_module: &N,
    reordered: Result<bool, HudCommandError>,
)
    requires
        call_ensures(set_hud_width::<Z, V>, (label, width, resizing, sanitize, save), resized),
        call_ensures(
            set_hud_module_visibility::<M, Z, V>,
            (label, module, visible, toggling, set_visible, sanitize, save),
            toggled,
        ),
        call_ensures(
            move_hud_module::<N, Z, V>,
            (label, module, target, insert_after, moving, move_module, sanitize, save),
            reordered,
        ),
    ensures
        !is_hud(label) ==> {
            &&& resized is Err && resized->Err_0 is InvalidWindow && *final(resizing) == *old(resizing)
            &&& toggled is Err && toggled->Err_0 is InvalidWindow && *final(toggling) == *old(toggling)
            &&& reordered is Err && reordered->Err_0 is InvalidWindow && *final(moving) == *old(moving)
        },
        is_hud(label) ==> exists|candidate: UiConfig|
            {
                &&& #[trigger] takes_force(
                    *sanitize,
                    *save,
                    *old(resizing),
                    candidate,
                    *final(resizing),
                    resized,
                )
                &&& same_but_hud(old(resizing).settings.config, candidate)
                &&& candidate.hud.width == width
                &&& candidate.hud.show_title == old(resizing).settings.config.hud.show_title
                &&& candidate.hud.module_order@
                    == old(resizing).settings.config.hud.module_order@
            },
        is_hud(label) ==> exists|candidate: UiConfig|
            {
                &&& #[trigger] takes_force(
                    *sanitize,
                    *save,
                    *old(toggling),
                    candidate,
                    *final(toggling),
                    toggled,
                )
                &&& same_but_hud(old(toggling).settings.config, candidate)
                &&& call_ensures(
                    *set_visible,
                    (&old(toggling).settings.config.hud, module, visible),
                    candidate.hud,
                )
            },
        is_hud(label) ==> exists|candidate: UiConfig|
            {
                &&& #[trigger] takes_force(
                    *sanitize,
                    *save,
                    *old(moving),
                    candidate,
                    *final(moving),
                    reordered,
                )
                &&& same_but_hud(old(moving).settings.config, candidate)
                &&& call_ensures(
                    *move_module,
                    (&old(moving).settings.config.hud, module, target, insert_after),
                    candidate.hud,
                )
            },
{
    if is_hud(label) {
        let wider = choose|candidate: UiConfig|
            {
                &&& #[trigger] copies(candidate, width_config(old(resizing).settings.config, width))
                &&& reports_change(
                    *sanitize,
                    *save,
                    *old(resizing),
                    candidate,
                    *final(resizing),
                    resized,
                )
            };
        reports_take_force(*sanitize, *save, *old(resizing), wider, *final(resizing), resized);
        let shown = choose|candidate: UiConfig|
            {
                &&& #[trigger] module_config(
                    *set_visible,
                    old(toggling).settings.config,
                    module,
                    visible,
                    candidate,
                )
                &&& reports_change(
                    *sanitize,
                    *save,
                    *old(toggling),
                    candidate,
                    *final(toggling),
                    toggled,
                )
            };
        reports_take_force(*sanitize, *save, *old(toggling), shown, *final(toggling), toggled);
        let placed = choose|candidate: UiConfig|
            {
                &&& #[trigger] moved_config(
                    *move_module,
                    old(moving).settings.config,
                    module,
                    target,
                    insert_after,
                    candidate,
                )
                &&& reports_change(
                    *sanitize,
                    *save,
                    *old(moving),
                    candidate,
                    *final(moving),
                    reordered,
                )
            };
        reports_take_force(*sanitize, *save, *old(moving), placed, *final(moving), reordered);
    }
}

/// One operation is under way at a time: it waits for the answer that it is
/// numbered by, and a second one is refused meanwhile.
pub proof fn one_operation_waits_at_a_time(
    asking: &mut EmptyCurtainOperationState,
    submitted: Result<u64, ModsPluginSubmitError>,
    result: Result<u64, ModsPluginSubmitError>,
    free: bool,
)
    requires
        call_ensures(EmptyCurtainOperationState::can_submit, (&*old(asking),), free),
        call_ensures(EmptyCurtainOperationState::finish_submit, (asking, submitted), result),
    ensures
        free <==> old(asking).request_id is None,
        !free ==> result is Err && result->Err_0 is Busy && *final(asking) == *old(asking),
        free ==> result == submitted,
        free && submitted is Err ==> *final(asking) == *old(asking),
        free && submitted is Ok ==> {
            &&& final(asking).request_id == Some(submitted->Ok_0)
            &&& final(asking).status is Pending
            &&& final(asking).message_arguments@.len() == 0
            &&& moved(old(asking).revision, final(asking).revision)
        },
{
}

/// An answer counts for the operation it is numbered by alone. A dispatch and
/// a dry run are successes; any other status is an error that names it; an
/// answer that could not be had is an error with its reason.
pub proof fn answers_count_for_their_operation(
    operation: &mut EmptyCurtainOperationState,
    response: LoaderResponse,
)
    requires
        call_ensures(
            EmptyCurtainOperationState::refresh,
            (operation, LoaderNews::Answered(response)),
            (),
        ),
    ensures
        old(operation).request_id != Some(response.request_id) ==> *final(operation) == *old(operation),
        old(operation).request_id == Some(response.request_id) ==> {
            &&& final(operation).request_id is None
            &&& moved(old(operation).revision, final(operation).revision)
            &&& response.status matches Ok(status) ==> {
                &&& final(operation).status is Success <==> status <= 1
                &&& final(operation).status is Error <==> status > 1
                &&& status <= 1 ==> final(operation).message_arguments@.len() == 0
                &&& status > 1 ==> final(operation).message_arguments@.len() == 1 && final(operation).message_arguments@[0]@ == decimal(status as nat)
                &&& status == 0 ==> final(operation).message_key@
                    == "Equipment RPC dispatched; waiting for game synchronization"@
                &&& status == 1 ==> final(operation).message_key@
                    == "Equipment request passed plugin dry-run validation"@
            }
            &&& response.status matches Err(error) ==> final(operation).status is Error && final(operation).message_arguments@.len() == 1 && final(operation).message_arguments@[0] == error
        },
{
}

/// A lost loader fails the operation that waits for it, and no other; silence
/// changes nothing.
pub proof fn lost_loaders_fail_what_waits(
    losing: &mut EmptyCurtainOperationState,
    silent: &mut EmptyCurtainOperationState,
)
    requires
        call_ensures(
            EmptyCurtainOperationState::refresh,
            (losing, LoaderNews::Disconnected),
            (),
        ),
        call_ensures(EmptyCurtainOperationState::refresh, (silent, LoaderNews::Nothing), ()),
    ensures
        old(losing).request_id is None ==> *final(losing) == *old(losing),
        old(losing).request_id is Some ==> final(losing).status is Error && final(losing).request_id is None && moved(old(losing).revision, final(losing).revision),
        *final(silent) == *old(silent),
{
}

/// Every status has a name of its own.
pub proof fn statuses_have_names_of_their_own(
    left: OperationStatus,
    right: OperationStatus,
    ours: &'static str,
    theirs: &'static str,
)
    requires
        call_ensures(OperationStatus::text, (left,), ours),
        call_ensures(OperationStatus::text, (right,), theirs),
    ensures
        ours@ == theirs@ <==> left == right,
        left is Idle ==> ours@ == "idle"@,
        left is Pending ==> ours@ == "pending"@,
        left is Success ==> ours@ == "success"@,
        left is Error ==> ours@ == "error"@,
{
    reveal_strlit("idle");
    reveal_strlit("pending");
    reveal_strlit("success");
    reveal_strlit("error");
    assert("idle"@[0] == 'i');
    assert("pending"@[0] == 'p');
    assert("success"@[0] == 's');
    assert("error"@[0] == 'e');
}

/// A file that was opened is the one that is open, under a new generation; one
/// that could not be read changes nothing; and a closed one is gone.
pub proof fn opened_files_are_open<P, D, X>(
    opening: &mut EncryptedIniRuntimeState<P, D>,
    path: P,
    loaded: Result<D, X>,
    result: Result<(), EncryptedIniRuntimeError<X>>,
    closing: &mut EncryptedIniRuntimeState<P, D>,
)
    requires
        call_ensures(
            EncryptedIniRuntimeState::<P, D>::open::<X>,
            (opening, path, loaded),
            result,
        ),
        *old(closing) == *final(opening),
        call_ensures(EncryptedIniRuntimeState::<P, D>::clear, (closing,), ()),
    ensures
        result is Ok <==> loaded is Ok,
        loaded is Ok ==> {
            &&& final(opening).path == Some(path)
            &&& final(opening).document == Some(loaded->Ok_0)
            &&& moved(old(opening).generation, final(opening).generation)
        },
        loaded is Err ==> *final(opening) == *old(opening) && result->Err_0 is Document
            && result->Err_0->Document_0 == loaded->Err_0,
        final(closing).path is None,
        final(closing).document is None,
        moved(old(closing).generation, final(closing).generation),
{
}

/// Only the page of the generation in force can save, and only an open file.
/// What is written is the text and the key of that page; a write that failed
/// keeps the generation.
pub proof fn pages_save_their_own_generation<P, D, X, O, K, W: Fn(&P, &D, String, K) -> (
    D,
    Result<O, X>,
)>(
    state: &mut EncryptedIniRuntimeState<P, D>,
    expected: u64,
    plaintext: String,
    key: K,
    write: &W,
    result: Result<O, EncryptedIniRuntimeError<X>>,
)
    requires
        call_ensures(
            EncryptedIniRuntimeState::<P, D>::save::<X, O, K, W>,
            (state, expected, plaintext, key, write),
            result,
        ),
    ensures
        old(state).generation != expected ==> result is Err && result->Err_0 is StaleGeneration
            && *final(state) == *old(state),
        old(state).generation == expected && (old(state).path is None || old(state).document is None)
            ==> result is Err && result->Err_0 is NoFile && *final(state) == *old(state),
        result is Ok ==> {
            &&& old(state).generation == expected
            &&& final(state).document is Some
            &&& moved(old(state).generation, final(state).generation)
            &&& call_ensures(
                *write,
                (&old(state).path->0, &old(state).document->0, plaintext, key),
                (final(state).document->0, Ok::<O, X>(result->Ok_0)),
            )
        },
        result is Err ==> final(state).generation == old(state).generation,
        final(state).path == old(state).path,
{
    if old(state).save_refused::<X>(expected) is None {
        let written = choose|written: (D, Result<O, X>)| #[trigger]
            call_ensures(
                *write,
                (&old(state).path->0, &old(state).document->0, plaintext, key),
                written,
            ) && match written.1 {
                Err(error) => result is Err,
                Ok(outcome) => result == Ok::<O, EncryptedIniRuntimeError<X>>(outcome) && final(state).document == Some(written.0),
            };
        if result is Ok {
            assert(written == (final(state).document->0, Ok::<O, X>(result->Ok_0)));
        }
    }
}

/// Reading the file again needs one that is open, keeps its path, and changes
/// nothing where it fails.
pub proof fn reloads_keep_the_path<P, D, X, L: Fn(&P) -> Result<D, X>>(
    state: &mut EncryptedIniRuntimeState<P, D>,
    load: &L,
    result: Result<(), EncryptedIniRuntimeError<X>>,
)
    requires
        call_ensures(EncryptedIniRuntimeState::<P, D>::reload::<X, L>, (state, load), result),
    ensures
        old(state).path is None ==> result is Err && result->Err_0 is NoFile,
        result is Err ==> *final(state) == *old(state),
        result is Ok ==> {
            &&& old(state).path is Some
            &&& final(state).document is Some
            &&& call_ensures(
                *load,
                (&old(state).path->0,),
                Ok::<D, X>(final(state).document->0),
            )
            &&& moved(old(state).generation, final(state).generation)
        },
        final(state).path == old(state).path,
{
}

/// A page shows the open file under its generation: its path, its name and
/// what its document holds; with no file open, nothing of one.
pub proof fn pages_show_the_open_file<
    P,
    D,
    K,
    S: Fn(&P) -> String,
    N: Fn(&P) -> Option<String>,
    R: Fn(&D) -> EncryptedIniContent<K>,
>(
    state: &EncryptedIniRuntimeState<P, D>,
    path_text: &S,
    file_name: &N,
    read: &R,
    no_key: K,
    shown: EncryptedIniProjection<K>,
)
    requires
        call_ensures(
            EncryptedIniRuntimeState::<P, D>::projection::<K, S, N, R>,
            (state, path_text, file_name, read, no_key),
            shown,
        ),
    ensures
        shown.generation == state.generation,
        shown.display_path is Some <==> state.path is Some,
        state.path matches Some(path) ==> call_ensures(
            *path_text,
            (&path,),
            shown.display_path->0,
        ) && call_ensures(*file_name, (&path,), shown.file_name),
        state.path is None ==> shown.file_name is None,
        state.document is None ==> shown.plaintext@.len() == 0 && shown.encrypted_line_count == 0
            && shown.key == no_key,
        state.document matches Some(document) ==> exists|content: EncryptedIniContent<K>|
            {
                &&& #[trigger] call_ensures(*read, (&document,), content)
                &&& shown.key == content.key
                &&& shown.plaintext == content.plaintext
                &&& shown.encrypted_line_count == content.encrypted_line_count
            },
{
    if let Some(document) = state.document {
        let content = EncryptedIniContent {
            key: shown.key,
            plaintext: shown.plaintext,
            encrypted_line_count: shown.encrypted_line_count,
        };
        assert(call_ensures(*read, (&document,), content));
    }
}

/// Setting a line sets that line; exchanging the lines twice puts both back.
pub proof fn prediction_lines_are_set_one_by_one<T: Clone>(
    setting: &mut PredictionTeams<T>,
    upper: bool,
    team: Option<T>,
    marker: &mut u64,
    once: &mut PredictionTeams<T>,
    first: &mut u64,
    twice: &mut PredictionTeams<T>,
    second: &mut u64,
)
    requires
        call_ensures(PredictionTeams::<T>::set_line, (setting, upper, team, marker), ()),
        call_ensures(PredictionTeams::<T>::swap_abyss_teams, (once, first), ()),
        *old(twice) == *final(once),
        call_ensures(PredictionTeams::<T>::swap_abyss_teams, (twice, second), ()),
    ensures
        upper ==> final(setting).upper == team && final(setting).lower == old(setting).lower,
        !upper ==> final(setting).lower == team && final(setting).upper == old(setting).upper,
        moved(*old(marker), *final(marker)),
        final(once).upper == old(once).lower,
        final(once).lower == old(once).upper,
        moved(*old(first), *final(first)),
        *final(twice) == *old(once),
{
}

/// An export fills each line with its own team, or with its single one; for
/// one line alone it changes nothing where it has neither.
pub proof fn imports_fill_the_lines<T: Clone>(
    export: TeamExport<T>,
    both: &mut PredictionTeams<T>,
    marker: &mut u64,
    one: &mut PredictionTeams<T>,
    upper: bool,
    other: &mut u64,
    imported: bool,
)
    requires
        call_ensures(PredictionTeams::<T>::import_team_data, (both, export, marker), ()),
        call_ensures(
            PredictionTeams::<T>::import_abyss_team,
            (one, export, upper, other),
            imported,
        ),
    ensures
        export.upper is Some ==> final(both).upper == export.upper,
        final(both).upper is Some <==> export.upper is Some || export.single is Some,
        export.lower is Some ==> final(both).lower == export.lower,
        export.lower is None ==> final(both).lower == export.single,
        moved(*old(marker), *final(marker)),
        upper ==> final(one).lower == old(one).lower,
        !upper ==> final(one).upper == old(one).upper,
        upper && export.upper is Some ==> imported && final(one).upper == export.upper,
        !upper && export.lower is Some ==> imported && final(one).lower == export.lower,
        upper && export.upper is None && export.single is Some ==> imported && final(one).upper
            == export.single,
        !upper && export.lower is None && export.single is Some ==> imported && final(one).lower
            == export.single,
        upper && export.upper is None && export.single is None ==> !imported,
        !upper && export.lower is None && export.single is None ==> !imported,
        !imported ==> *final(one) == *old(one) && *final(other) == *old(other),
        imported ==> moved(*old(other), *final(other)),
{
}

/// Outside of a challenge a session offers its only team for either line, in
/// one the team of the half.
pub proof fn sessions_offer_the_team_of_the_half<T: Clone>(
    export: TeamExport<T>,
    upper: bool,
    outside: Option<T>,
    within: Option<T>,
    nothing: Option<T>,
)
    requires
        call_ensures(offered_team::<T>, (Some(export), false, upper), outside),
        call_ensures(offered_team::<T>, (Some(export), true, upper), within),
        call_ensures(offered_team::<T>, (None::<TeamExport<T>>, true, upper), nothing),
    ensures
        outside == export.single,
        upper ==> within == export.upper,
        !upper ==> within == export.lower,
        nothing is None,
{
}

/// The team that is taken over is the one that the presented session offers
/// for that line; where it offers none, nothing changes.
pub proof fn current_teams_are_taken_over<
    T: Clone,
    X: Fn(&CombatState, bool, bool, Option<&T>, Option<&T>) -> Option<TeamExport<T>>,
>(
    app: &mut AppState,
    teams: &mut PredictionTeams<T>,
    upper: bool,
    export: &X,
    imported: bool,
    leaves_stops_out: bool,
    offer: TeamExport<T>,
)
    requires
        leaves_stops_out == (old(app).settings.config.plain.capture.dps_time_mode
            == DpsTimeMode::TimeStopAdjusted),
        forall|exported: Option<TeamExport<T>>| #[trigger]
            call_ensures(
                *export,
                (
                    &on_screen(*old(app)),
                    leaves_stops_out,
                    old(app).settings.config.plain.capture.separate_reaction_damage,
                    None,
                    None,
                ),
                exported,
            ) ==> exported == Some(offer),
        call_ensures(
            AppState::import_current_abyss_team::<T, X>,
            (app, teams, upper, export),
            imported,
        ),
    ensures
        ({
            let challenge = on_screen(*old(app)).battle.abyss.active;
            let team = if !challenge {
                offer.single
            } else if upper {
                offer.upper
            } else {
                offer.lower
            };
            &&& imported <==> team is Some
            &&& imported && upper ==> final(teams).upper == team
            &&& imported && !upper ==> final(teams).lower == team
            &&& upper ==> final(teams).lower == old(teams).lower
            &&& !upper ==> final(teams).upper == old(teams).upper
            &&& !imported ==> *final(teams) == *old(teams)
            &&& imported ==> moved(
                old(app).settings.settings_revision,
                final(app).settings.settings_revision,
            )
        }),
        final(app).live == old(app).live,
        final(app).settings.config == old(app).settings.config,
{
    assert(old(app).presents() == on_screen(*old(app)));
    let exported = choose|exported: Option<TeamExport<T>>|
        {
            let team = offered(exported, old(app).presents().battle.abyss.active, upper);
            &&& #[trigger] exports_presented(*export, *old(app), None, None, exported)
            &&& imported == (team is Some)
            &&& *final(teams) == (if imported {
                old(teams).with_line(upper, team)
            } else {
                *old(teams)
            })
        };
    assert(exported == Some(offer));
}

} // verus!
