//! The commands of the HUD window. Each is for that window alone, and most
//! tell the user what they did.
use vstd::prelude::*;

use crate::desktop::{has_data, is_reset, reset_notice, start_refused, starts, AppState};
use crate::error::{CoreError, CoreErrorCode};
use crate::hud::{HudConfig, HudModule};
use crate::live_capture::{halts, StopAction};
use crate::notices::{notice_name, session_token, window_end, IslandNotices, UndoSlot};
use crate::preferences::with_on_top;
use crate::reducer::next_generation;
use crate::settings::{
    copies, stores, DesktopWindowKind, PlainSettings, SettingsStore, UiConfig,
};
use crate::windows::{may_set_passthrough, validate_window};

verus! {

/// Why a command was refused.
#[derive(Clone, Debug)]
pub enum HudCommandError {
    InvalidWindow,
    HotkeyUnavailable,
    Core(CoreError),
    HudConfigSaveFailed,
}

/// How the HUD window is called.
pub open spec fn hud_label() -> Seq<char> {
    "hud"@
}

/// `after` shows one notice more than `before`.
pub open spec fn announces(
    before: IslandNotices,
    tone: Seq<char>,
    message: Seq<char>,
    arguments: Seq<String>,
    undo_token: Option<String>,
    now: u128,
    after: IslandNotices,
) -> bool {
    &&& after.revision == before.revision + 1
    &&& after.current matches Some(notice)
    &&& notice.id@ == notice_name(after.revision)
    &&& notice.tone@ == tone
    &&& notice.message_key@ == message
    &&& notice.message_arguments@ == arguments
    &&& notice.undo_token == undo_token
    &&& notice.expires_at == window_end(now)
}

/// Why a capture may not be started from the HUD now.
pub fn hud_start_refusal(label: &str, app: &AppState) -> (refusal: Option<HudCommandError>)
    ensures
        if label@ != hud_label() {
            refusal == Some(HudCommandError::InvalidWindow)
        } else {
            match start_refused(app.replay_import_reserved, app.live.state, true) {
                Some(message) => {
                    &&& refusal matches Some(HudCommandError::Core(error))
                    &&& error.code == CoreErrorCode::CaptureAlreadyRunning
                    &&& error.message@ == message
                },
                None => refusal is None,
            }
        },
{
    if !validate_window(label, "hud") {
        return Some(HudCommandError::InvalidWindow);
    }
    match app.capture_start_refusal(true) {
        Some(error) => Some(HudCommandError::Core(error)),
        None => None,
    }
}

/// Starts a capture from the HUD. This is a new session at the user's word, so
/// a stopped one is replaced without asking.
pub fn start_hud_capture(
    label: &str,
    app: &mut AppState,
    notices: &mut IslandNotices,
    worker: Result<(), String>,
    starter: Result<(), String>,
    now: u128,
) -> (result: Result<(), HudCommandError>)
    requires
        old(notices).revision < u64::MAX,
    ensures
        if label@ != hud_label() {
            &&& result == Err::<(), _>(HudCommandError::InvalidWindow)
            &&& *final(app) == *old(app)
            &&& *final(notices) == *old(notices)
        } else {
            match result {
                Ok(_) => {
                    &&& starts(*old(app), true, worker, starter, *final(app), Ok(()))
                    &&& announces(
                        *old(notices),
                        "status"@,
                        "Starting live capture..."@,
                        Seq::empty(),
                        None,
                        now,
                        *final(notices),
                    )
                },
                Err(refusal) => {
                    &&& refusal matches HudCommandError::Core(error)
                    &&& starts(*old(app), true, worker, starter, *final(app), Err(error))
                    &&& *final(notices) == *old(notices)
                },
            }
        },
{
    if !validate_window(label, "hud") {
        return Err(HudCommandError::InvalidWindow);
    }
    match app.request_capture_start(true, worker, starter) {
        Err(error) => Err(HudCommandError::Core(error)),
        Ok(_) => {
            let _ = notices.publish_island_notice(
                "status",
                "Starting live capture...",
                Vec::new(),
                None,
                now,
            );
            Ok(())
        },
    }
}

/// Ends a capture from the HUD.
pub fn stop_hud_capture(
    label: &str,
    app: &mut AppState,
    notices: &mut IslandNotices,
    stopper: Result<(), String>,
    now: u128,
) -> (result: Result<StopAction, HudCommandError>)
    requires
        old(notices).revision < u64::MAX,
    ensures
        if label@ != hud_label() {
            &&& result == Err::<StopAction, _>(HudCommandError::InvalidWindow)
            &&& *final(app) == *old(app)
            &&& *final(notices) == *old(notices)
        } else {
            &&& *final(app) == (AppState { live: final(app).live, ..*old(app) })
            &&& match result {
                Ok(action) => {
                    &&& halts(old(app).live, stopper, final(app).live, Ok(action))
                    &&& announces(
                        *old(notices),
                        "status"@,
                        "Stopping live capture..."@,
                        Seq::empty(),
                        None,
                        now,
                        *final(notices),
                    )
                },
                Err(refusal) => {
                    &&& refusal matches HudCommandError::Core(error)
                    &&& halts(old(app).live, stopper, final(app).live, Err(error))
                    &&& *final(notices) == *old(notices)
                },
            }
        },
{
    if !validate_window(label, "hud") {
        return Err(HudCommandError::InvalidWindow);
    }
    match app.live.request_stop(stopper) {
        Err(error) => Err(HudCommandError::Core(error)),
        Ok(action) => {
            let _ = notices.publish_island_notice(
                "status",
                "Stopping live capture...",
                Vec::new(),
                None,
                now,
            );
            Ok(action)
        },
    }
}

/// Whether a reset from the HUD first brings a capture or a replay to its end.
/// Nothing is stopped for another window.
pub fn hud_reset_stops(label: &str, app: &AppState) -> (result: Result<bool, HudCommandError>)
    ensures
        result == (if label@ != hud_label() {
            Err(HudCommandError::InvalidWindow)
        } else {
            Ok(app.busy())
        }),
{
    if !validate_window(label, "hud") {
        return Err(HudCommandError::InvalidWindow);
    }
    Ok(app.is_busy())
}

/// Resets the session from the HUD. `stopped` tells how the capture that was
/// under way was brought to its end, where one was; such a session is gone for
/// good, another can be taken back.
pub fn reset_hud_session(
    label: &str,
    app: &mut AppState,
    notices: &mut IslandNotices,
    stopped: Option<Result<(), CoreError>>,
    now: u128,
) -> (result: Result<(), HudCommandError>)
    requires
        old(notices).revision < u64::MAX,
        old(app).session_undo.sequence < u64::MAX,
    ensures
        if label@ != hud_label() {
            &&& result == Err::<(), _>(HudCommandError::InvalidWindow)
            &&& *final(app) == *old(app)
            &&& *final(notices) == *old(notices)
        } else if let Some(Err(error)) = stopped {
            &&& result == Err::<(), _>(HudCommandError::Core(error))
            &&& *final(app) == *old(app)
            &&& *final(notices) == *old(notices)
        } else {
            let undo = stopped is None && has_data(old(app).live.state);
            &&& result is Ok
            &&& is_reset(old(app).live, final(app).live)
            &&& *final(app) == (AppState {
                live: final(app).live,
                presentation: old(app).presentation.back_to_live(
                    old(app).live.control.outgoing_hit_revision,
                ),
                session_undo: final(app).session_undo,
                ..*old(app)
            })
            &&& final(notices).current matches Some(notice)
            &&& announces(
                *old(notices),
                "success"@,
                if undo {
                    "Session reset · use Undo within 5 seconds"@
                } else {
                    "Stats reset"@
                },
                Seq::empty(),
                notice.undo_token,
                now,
                *final(notices),
            )
            &&& if undo {
                &&& final(app).session_undo.sequence == old(app).session_undo.sequence + 1
                &&& final(app).session_undo.entry matches Some(entry)
                &&& entry.token@ == session_token((old(app).session_undo.sequence + 1) as u64)
                &&& entry.value.state == old(app).live.state
                &&& entry.value.source == old(app).live.control.quality_source
                &&& entry.expires_at == window_end(now)
                &&& notice.undo_token == Some(entry.token)
            } else {
                &&& notice.undo_token is None
                &&& final(app).session_undo == (if stopped is Some {
                    UndoSlot { entry: None, ..old(app).session_undo }
                } else {
                    old(app).session_undo
                })
            }
        },
{
    if !validate_window(label, "hud") {
        return Err(HudCommandError::InvalidWindow);
    }
    let token: Option<String> = match stopped {
        Some(Err(error)) => {
            return Err(HudCommandError::Core(error));
        },
        Some(Ok(_)) => {
            app.clear_session();
            None
        },
        None => app.reset_session_with_undo(now),
    };
    let message = reset_notice(token.is_some());
    let _ = notices.publish_island_notice("success", message, Vec::new(), token, now);
    Ok(())
}

/// Lets clicks through the HUD or not. Without the key that leads back, none
/// are let through.
pub fn set_hud_passthrough(
    label: &str,
    enabled: bool,
    hotkey: String,
    app: &mut AppState,
    notices: &mut IslandNotices,
    now: u128,
) -> (result: Result<(), HudCommandError>)
    requires
        old(notices).revision < u64::MAX,
    ensures
        if label@ != hud_label() || (enabled && !old(app).passthrough_hotkey_ready) {
            &&& result == Err::<(), _>(
                if label@ != hud_label() {
                    HudCommandError::InvalidWindow
                } else {
                    HudCommandError::HotkeyUnavailable
                },
            )
            &&& *final(app) == *old(app)
            &&& *final(notices) == *old(notices)
        } else {
            &&& result is Ok
            &&& *final(app) == (AppState {
                passthrough: enabled,
                settings: SettingsStore {
                    presentation_revision: if old(app).passthrough == enabled {
                        old(app).settings.presentation_revision
                    } else {
                        next_generation(old(app).settings.presentation_revision)
                    },
                    ..old(app).settings
                },
                ..*old(app)
            })
            &&& announces(
                *old(notices),
                "status"@,
                if enabled {
                    "HUD passthrough on; press {} to enter edit mode"@
                } else {
                    "HUD edit mode on; press {} to return to game passthrough"@
                },
                seq![hotkey],
                None,
                now,
                *final(notices),
            )
        },
{
    if !validate_window(label, "hud") {
        return Err(HudCommandError::InvalidWindow);
    }
    if !may_set_passthrough(enabled, app.passthrough_hotkey_ready) {
        return Err(HudCommandError::HotkeyUnavailable);
    }
    app.set_passthrough(enabled);
    let message: &'static str = if enabled {
        "HUD passthrough on; press {} to enter edit mode"
    } else {
        "HUD edit mode on; press {} to return to game passthrough"
    };
    let mut arguments: Vec<String> = Vec::new();
    arguments.push(hotkey);
    assert(arguments@ =~= seq![hotkey]);
    let _ = notices.publish_island_notice("status", message, arguments, None, now);
    Ok(())
}

/// A change of the settings as a command reports it.
pub open spec fn reports_change<
    Z: Fn(UiConfig) -> UiConfig,
    V: Fn(&UiConfig) -> Result<(), String>,
>(
    sanitize: Z,
    save: V,
    before: AppState,
    candidate: UiConfig,
    after: AppState,
    result: Result<bool, HudCommandError>,
) -> bool {
    exists|changed: Result<bool, String>|
        {
            &&& #[trigger] before.settings.changes(
                sanitize,
                save,
                candidate,
                true,
                after.settings,
                changed,
            )
            &&& after == (AppState { settings: after.settings, ..before })
            &&& result == (match changed {
                Ok(changed) => Ok::<bool, HudCommandError>(changed),
                Err(_) => Err(HudCommandError::HudConfigSaveFailed),
            })
        }
}

fn change<Z: Fn(UiConfig) -> UiConfig, V: Fn(&UiConfig) -> Result<(), String>>(
    app: &mut AppState,
    candidate: UiConfig,
    sanitize: &Z,
    save: &V,
) -> (result: Result<bool, HudCommandError>)
    requires
        stores(*sanitize, *save),
    ensures
        reports_change(*sanitize, *save, *old(app), candidate, *final(app), result),
{
    let changed = app.settings.update_ui_config(candidate, sanitize, save);
    assert(old(app).settings.changes(*sanitize, *save, candidate, true, app.settings, changed));
    match changed {
        Ok(changed) => Ok(changed),
        Err(_) => Err(HudCommandError::HudConfigSaveFailed),
    }
}

/// Keeps the HUD on top or not.
pub fn set_hud_always_on_top<
    Z: Fn(UiConfig) -> UiConfig,
    V: Fn(&UiConfig) -> Result<(), String>,
>(
    label: &str,
    enabled: bool,
    app: &mut AppState,
    notices: &mut IslandNotices,
    sanitize: &Z,
    save: &V,
    now: u128,
) -> (result: Result<bool, HudCommandError>)
    requires
        old(notices).revision < u64::MAX,
        stores(*sanitize, *save),
    ensures
        if label@ != hud_label() {
            &&& result == Err::<bool, _>(HudCommandError::InvalidWindow)
            &&& *final(app) == *old(app)
            &&& *final(notices) == *old(notices)
        } else {
            &&& exists|candidate: UiConfig|
                {
                    &&& #[trigger] copies(
                        candidate,
                        on_top_config(old(app).settings.config, enabled),
                    )
                    &&& reports_change(
                        *sanitize,
                        *save,
                        *old(app),
                        candidate,
                        *final(app),
                        result,
                    )
                }
            &&& if result is Ok {
                announces(
                    *old(notices),
                    "status"@,
                    if enabled {
                        "Always-on-top enabled"@
                    } else {
                        "Always-on-top disabled"@
                    },
                    Seq::empty(),
                    None,
                    now,
                    *final(notices),
                )
            } else {
                *final(notices) == *old(notices)
            }
        },
{
    if !validate_window(label, "hud") {
        return Err(HudCommandError::InvalidWindow);
    }
    let candidate = app.settings.config.with_window_on_top(DesktopWindowKind::Hud, enabled);
    let ghost asked = candidate;
    let result = change(app, candidate, sanitize, save);
    assert(copies(asked, on_top_config(old(app).settings.config, enabled)));
    if result.is_ok() {
        let message: &'static str = if enabled {
            "Always-on-top enabled"
        } else {
            "Always-on-top disabled"
        };
        let _ = notices.publish_island_notice("status", message, Vec::new(), None, now);
    }
    result
}

/// The settings with the HUD on top or not.
pub open spec fn on_top_config(config: UiConfig, enabled: bool) -> UiConfig {
    config.with_plain(
        PlainSettings {
            on_top: with_on_top(config.plain.on_top, DesktopWindowKind::Hud, enabled),
            ..config.plain
        },
    )
}

/// The settings with a module of the HUD shown or hidden.
pub open spec fn module_config<M: Fn(&HudConfig, HudModule, bool) -> HudConfig>(
    set_visible: M,
    config: UiConfig,
    module: HudModule,
    visible: bool,
    candidate: UiConfig,
) -> bool {
    &&& candidate == (UiConfig { hud: candidate.hud, ..config })
    &&& call_ensures(set_visible, (&config.hud, module, visible), candidate.hud)
}

/// Shows or hides a module of the HUD, as `set_visible` does it. Where that
/// changed something, the window needs a new height.
pub fn set_hud_module_visibility<
    M: Fn(&HudConfig, HudModule, bool) -> HudConfig,
    Z: Fn(UiConfig) -> UiConfig,
    V: Fn(&UiConfig) -> Result<(), String>,
>(
    label: &str,
    module: HudModule,
    visible: bool,
    app: &mut AppState,
    set_visible: &M,
    sanitize: &Z,
    save: &V,
) -> (result: Result<bool, HudCommandError>)
    requires
        forall|hud: HudConfig| #[trigger] call_requires(*set_visible, (&hud, module, visible)),
        stores(*sanitize, *save),
    ensures
        if label@ != hud_label() {
            result == Err::<bool, _>(HudCommandError::InvalidWindow) && *final(app) == *old(app)
        } else {
            exists|candidate: UiConfig|
                {
                    &&& #[trigger] module_config(
                        *set_visible,
                        old(app).settings.config,
                        module,
                        visible,
                        candidate,
                    )
                    &&& reports_change(
                        *sanitize,
                        *save,
                        *old(app),
                        candidate,
                        *final(app),
                        result,
                    )
                }
        },
{
    if !validate_window(label, "hud") {
        return Err(HudCommandError::InvalidWindow);
    }
    let candidate = app.settings.config.with_module_visibility(module, visible, set_visible);
    assert(module_config(*set_visible, old(app).settings.config, module, visible, candidate));
    change(app, candidate, sanitize, save)
}

/// The settings with the HUD at another width.
pub open spec fn width_config(config: UiConfig, width: u16) -> UiConfig {
    UiConfig { hud: HudConfig { width, ..config.hud }, ..config }
}

/// Sets the width of the HUD. Where that changed something, the window is
/// resized.
pub fn set_hud_width<Z: Fn(UiConfig) -> UiConfig, V: Fn(&UiConfig) -> Result<(), String>>(
    label: &str,
    width: u16,
    app: &mut AppState,
    sanitize: &Z,
    save: &V,
) -> (result: Result<bool, HudCommandError>)
    requires
        stores(*sanitize, *save),
    ensures
        if label@ != hud_label() {
            result == Err::<bool, _>(HudCommandError::InvalidWindow) && *final(app) == *old(app)
        } else {
            exists|candidate: UiConfig|
                {
                    &&& #[trigger] copies(
                        candidate,
                        width_config(old(app).settings.config, width),
                    )
                    &&& reports_change(
                        *sanitize,
                        *save,
                        *old(app),
                        candidate,
                        *final(app),
                        result,
                    )
                }
        },
{
    if !validate_window(label, "hud") {
        return Err(HudCommandError::InvalidWindow);
    }
    let candidate = app.settings.config.with_hud_width(width);
    assert(copies(candidate, width_config(old(app).settings.config, width)));
    change(app, candidate, sanitize, save)
}

/// The settings with a module of the HUD moved.
pub open spec fn moved_config<M: Fn(&HudConfig, HudModule, HudModule, bool) -> HudConfig>(
    move_module: M,
    config: UiConfig,
    dragged: HudModule,
    target: HudModule,
    insert_after: bool,
    candidate: UiConfig,
) -> bool {
    &&& candidate == (UiConfig { hud: candidate.hud, ..config })
    &&& call_ensures(move_module, (&config.hud, dragged, target, insert_after), candidate.hud)
}

/// Moves a module of the HUD next to another, as `move_module` does it.
pub fn move_hud_module<
    M: Fn(&HudConfig, HudModule, HudModule, bool) -> HudConfig,
    Z: Fn(UiConfig) -> UiConfig,
    V: Fn(&UiConfig) -> Result<(), String>,
>(
    label: &str,
    dragged: HudModule,
    target: HudModule,
    insert_after: bool,
    app: &mut AppState,
    move_module: &M,
    sanitize: &Z,
    save: &V,
) -> (result: Result<bool, HudCommandError>)
    requires
        forall|hud: HudConfig| #[trigger]
            call_requires(*move_module, (&hud, dragged, target, insert_after)),
        stores(*sanitize, *save),
    ensures
        if label@ != hud_label() {
            result == Err::<bool, _>(HudCommandError::InvalidWindow) && *final(app) == *old(app)
        } else {
            exists|candidate: UiConfig|
                {
                    &&& #[trigger] moved_config(
                        *move_module,
                        old(app).settings.config,
                        dragged,
                        target,
                        insert_after,
                        candidate,
                    )
                    &&& reports_change(
                        *sanitize,
                        *save,
                        *old(app),
                        candidate,
                        *final(app),
                        result,
                    )
                }
        },
{
    if !validate_window(label, "hud") {
        return Err(HudCommandError::InvalidWindow);
    }
    let candidate =
        app.settings.config.with_module_moved(dragged, target, insert_after, move_module);
    assert(moved_config(
        *move_module,
        old(app).settings.config,
        dragged,
        target,
        insert_after,
        candidate,
    ));
    change(app, candidate, sanitize, save)
}

} // verus!
