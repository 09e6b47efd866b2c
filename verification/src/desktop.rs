//! The session as the desktop windows see it: what may start, what is reset,
//! and what can be taken back.
use vstd::prelude::*;

use crate::error::{CoreError, CoreErrorCode};
use crate::hud::HudConfig;
use crate::live_capture::{
    begins, holds_outgoing, replays, CaptureControl, CaptureReplayKind, LiveCapturePhase,
    LiveCaptureService,
};
use crate::model::{CaptureQualitySource, CombatState};
use crate::notices::{
    put_back, session_token, window_end, SessionUndoError, UndoEntry, UndoSlot, NOTICE_WINDOW,
};
use crate::preferences::with_preset;
use crate::presentation::{PausedPresentation, PresentationControl, PresentationState};
use crate::reducer::{advance_generation, next_generation};
use crate::rounds::HistoryService;
use crate::rpc::{CaptureDeviceSelector, CaptureProfile, RawCaptureMode};
use crate::settings::{copies, stores, PlainSettings, SettingsStore, UiConfig};

verus! {

/// A session that was reset, with where its data came from.
#[derive(Clone, Debug)]
pub struct ResetSession {
    pub state: CombatState,
    pub source: CaptureQualitySource,
}

/// Whether a session holds anything that a new one would replace.
pub open spec fn has_data(state: CombatState) -> bool {
    state.battle.team.hits@.len() > 0 || state.battle.packet_log.packets@.len() > 0
        || state.battle.team.stats@.len() > 0 || state.inventory.items@.len() > 0
        || state.battle.abyss.active
}

pub fn session_has_data(state: &CombatState) -> (result: bool)
    ensures
        result == has_data(*state),
{
    state.battle.team.hits.len() > 0 || state.battle.packet_log.packets.len() > 0
        || state.battle.team.stats.len() > 0 || state.inventory.items.len() > 0
        || state.battle.abyss.is_active()
}

/// Whether there is anything to export: hits, packets or items.
pub fn has_exportable_state(state: &CombatState) -> (result: bool)
    ensures
        result == (state.battle.team.hits@.len() > 0 || state.battle.packet_log.packets@.len() > 0
            || state.inventory.items@.len() > 0),
{
    state.battle.team.hits.len() > 0 || state.battle.packet_log.packets.len() > 0
        || state.inventory.items.len() > 0
}

/// What a live capture is started with.
#[derive(Clone, Debug)]
pub struct LiveCaptureOptions {
    pub profile: CaptureProfile,
    pub device: CaptureDeviceSelector,
    pub filter: String,
    pub include_incoming: bool,
    pub server_damage_calibration: bool,
    pub raw_capture: RawCaptureMode,
    pub expose_raw_capture_path: bool,
    /// Packets are kept with their payload.
    pub full_debug_packets: bool,
}

/// How a wait for the end of a capture goes on.
#[derive(Clone, Copy, Debug, PartialEq, Eq, Structural)]
pub enum StopWait {
    Done,
    TimedOut,
    /// Sleep for a moment and ask again.
    Wait,
}

/// Something is under way that a stop request ends.
pub fn should_request_stop(phase: LiveCapturePhase, replay_running: bool) -> (result: bool)
    ensures
        result == (phase == LiveCapturePhase::Starting || phase == LiveCapturePhase::Running
            || phase == LiveCapturePhase::Failed || replay_running),
{
    matches!(
        phase,
        LiveCapturePhase::Starting | LiveCapturePhase::Running | LiveCapturePhase::Failed
    ) || replay_running
}

/// Whether a wait is over. The end counts even when it comes late.
pub fn stop_wait(
    phase: LiveCapturePhase,
    replay_running: bool,
    now: u128,
    deadline: u128,
) -> (result: StopWait)
    ensures
        result == (if !phase.active() && !replay_running {
            StopWait::Done
        } else if now >= deadline {
            StopWait::TimedOut
        } else {
            StopWait::Wait
        }),
{
    if !phase.is_active() && !replay_running {
        StopWait::Done
    } else if now >= deadline {
        StopWait::TimedOut
    } else {
        StopWait::Wait
    }
}

/// The error of a wait that took too long.
pub fn stop_timed_out() -> (result: CoreError)
    ensures
        result.code == CoreErrorCode::SystemProbeFailed,
        result.message@ == "capture or replay did not stop before the replacement timeout"@,
{
    CoreError::new(
        CoreErrorCode::SystemProbeFailed,
        "capture or replay did not stop before the replacement timeout",
    )
}

/// What the notice says after a reset.
pub fn reset_notice(can_undo: bool) -> (result: &'static str)
    ensures
        result@ == (if can_undo {
            "Session reset · use Undo within 5 seconds"@
        } else {
            "Stats reset"@
        }),
{
    if can_undo {
        "Session reset · use Undo within 5 seconds"
    } else {
        "Stats reset"
    }
}

#[derive(Clone, Debug)]
pub struct AppState {
    pub live: LiveCaptureService,
    pub presentation: PresentationState,
    pub settings: SettingsStore,
    pub history: HistoryService,
    pub session_undo: UndoSlot<ResetSession>,
    pub replay_import_reserved: bool,
    pub passthrough: bool,
    pub passthrough_hotkey_ready: bool,
    pub onboarding_step: u64,
    /// The number of the last snapshot that was drawn.
    pub sequence: u64,
}

/// What a replay is read with.
#[derive(Clone, Debug)]
pub struct ReplayOptions {
    /// The address of this computer, where the last diagnosis found one.
    pub local_ip_hint: Option<String>,
    pub include_incoming: bool,
    pub server_damage_calibration: bool,
}

/// Why a capture may not start.
pub open spec fn start_refused(
    reserved: bool,
    state: CombatState,
    replace_current: bool,
) -> Option<Seq<char>> {
    if reserved {
        Some("a replay import dialog is active"@)
    } else if has_data(state) && !replace_current {
        Some("starting capture requires confirmation before replacing the current session"@)
    } else {
        None
    }
}

/// Why a replay may not be imported.
pub open spec fn import_refused(
    reserved: bool,
    active: bool,
    state: CombatState,
    replace_current: bool,
) -> Option<Seq<char>> {
    if reserved || (active && !replace_current) {
        Some("capture or replay is already active"@)
    } else if has_data(state) && !replace_current {
        Some("replay import requires confirmation before replacing the current session"@)
    } else {
        None
    }
}

/// Why a reset cannot be taken back.
pub open spec fn undo_refused(
    control: CaptureControl,
    state: CombatState,
) -> Option<SessionUndoError> {
    if control.status.phase.active() || control.replay_running {
        Some(SessionUndoError::Busy)
    } else if has_data(state) {
        Some(SessionUndoError::NewData)
    } else {
        None
    }
}

/// A service as a reset leaves it.
pub open spec fn is_reset(before: LiveCaptureService, after: LiveCaptureService) -> bool {
    &&& after.state.blank()
    &&& after == (LiveCaptureService {
        state: after.state,
        control: before.control.with_round_detached().with_revision(),
        ..before
    })
}

/// What becomes of asking for a live capture. On success the live session is
/// presented again.
pub open spec fn starts(
    before: AppState,
    replace_current: bool,
    worker: Result<(), String>,
    starter: Result<(), String>,
    after: AppState,
    result: Result<(), CoreError>,
) -> bool {
    match start_refused(before.replay_import_reserved, before.live.state, replace_current) {
        Some(message) => {
            &&& result matches Err(error)
            &&& error.code == CoreErrorCode::CaptureAlreadyRunning
            &&& error.message@ == message
            &&& after == before
        },
        None => {
            &&& begins(before.live, worker, starter, after.live, result)
            &&& after == (AppState {
                live: after.live,
                presentation: if result is Ok {
                    before.presentation.back_to_live(before.live.control.outgoing_hit_revision)
                } else {
                    before.presentation
                },
                ..before
            })
        },
    }
}

impl AppState {
    /// The program as it starts: with valid settings, the live session
    /// presented, and nothing to take back.
    pub fn new<Z: Fn(UiConfig) -> UiConfig>(
        config: UiConfig,
        live: LiveCaptureService,
        sanitize: &Z,
    ) -> (app: AppState)
        requires
            call_requires(*sanitize, (config,)),
        ensures
            call_ensures(*sanitize, (config,), app.settings.config),
            app.settings.presentation_revision == 0,
            app.settings.settings_revision == 0,
            app.live == live,
            app.presentation.fresh(),
            app.history.wf(),
            app.history.revision == 0,
            app.history.pending_archives@.len() == 0,
            app.session_undo.sequence == 0,
            app.session_undo.entry is None,
            !app.replay_import_reserved,
            !app.passthrough,
            !app.passthrough_hotkey_ready,
            app.onboarding_step == 0,
            app.sequence == 0,
    {
        let config = sanitize(config);
        AppState {
            live,
            presentation: PresentationState::new(),
            settings: SettingsStore { config, presentation_revision: 0, settings_revision: 0 },
            history: HistoryService::new(),
            session_undo: UndoSlot::new(),
            replay_import_reserved: false,
            passthrough: false,
            passthrough_hotkey_ready: false,
            onboarding_step: 0,
            sequence: 0,
        }
    }

    /// The number of the next snapshot.
    pub fn next_sequence(&mut self) -> (sequence: u64)
        requires
            old(self).sequence < u64::MAX,
        ensures
            *final(self) == (AppState { sequence, ..*old(self) }),
            sequence == old(self).sequence + 1,
    {
        self.sequence = self.sequence + 1;
        self.sequence
    }

    /// The options of a live capture.
    pub fn live_capture_options(&self) -> (options: LiveCaptureOptions)
        ensures
            options.profile == CaptureProfile::Combat,
            options.device == (match self.settings.config.manual_capture_device {
                Some(name) => CaptureDeviceSelector::Name(name),
                None => CaptureDeviceSelector::Auto,
            }),
            options.filter == self.settings.config.capture_filter,
            options.include_incoming,
            options.server_damage_calibration
                == self.settings.config.plain.capture.server_damage_calibration,
            options.raw_capture == RawCaptureMode::Enabled,
            !options.expose_raw_capture_path,
            options.full_debug_packets,
    {
        LiveCaptureOptions {
            profile: CaptureProfile::Combat,
            device: match &self.settings.config.manual_capture_device {
                Some(name) => CaptureDeviceSelector::Name(name.clone()),
                None => CaptureDeviceSelector::Auto,
            },
            filter: self.settings.config.capture_filter.clone(),
            include_incoming: true,
            server_damage_calibration: self.settings.config.plain.capture.server_damage_calibration,
            raw_capture: RawCaptureMode::Enabled,
            expose_raw_capture_path: false,
            full_debug_packets: true,
        }
    }

    /// The options of a replay. `local_ip` is the address that the last
    /// diagnosis found, where it is a valid one.
    pub fn replay_options(&self, local_ip: Option<String>) -> (options: ReplayOptions)
        ensures
            options == (ReplayOptions {
                local_ip_hint: local_ip,
                include_incoming: true,
                server_damage_calibration:
                    self.settings.config.plain.capture.server_damage_calibration,
            }),
    {
        ReplayOptions {
            local_ip_hint: local_ip,
            include_incoming: true,
            server_damage_calibration: self.settings.config.plain.capture.server_damage_calibration,
        }
    }

    /// Pauses or resumes processing. Pausing freezes a copy of the live session
    /// with the markers of its packets.
    pub fn set_main_processing_paused<K: Fn(&CombatState) -> CombatState>(
        &mut self,
        paused: bool,
        copy: &K,
    )
        requires
            call_requires(*copy, (&old(self).live.state,)),
        ensures
            if old(self).presentation.control.processing_paused == paused {
                *final(self) == *old(self)
            } else {
                &&& *final(self) == (AppState {
                    presentation: PresentationState {
                        control: PresentationControl {
                            processing_paused: paused,
                            ..old(self).presentation.control.with_main_revision()
                        },
                        paused: final(self).presentation.paused,
                        ..old(self).presentation
                    },
                    settings: SettingsStore {
                        presentation_revision: next_generation(
                            old(self).settings.presentation_revision,
                        ),
                        ..old(self).settings
                    },
                    ..*old(self)
                })
                &&& match final(self).presentation.paused {
                    Some(frozen) => {
                        &&& paused
                        &&& call_ensures(*copy, (&old(self).live.state,), frozen.state)
                        &&& frozen.packet_revision == old(self).live.packet_markers()
                    },
                    None => !paused,
                }
            },
    {
        let frozen = if paused && !self.presentation.control.processing_paused {
            Some(
                PausedPresentation {
                    state: copy(&self.live.state),
                    packet_revision: self.live.packet_stream_revision(),
                },
            )
        } else {
            None
        };
        self.presentation.set_main_processing_paused(
            paused,
            frozen,
            &mut self.settings.presentation_revision,
        );
    }

    /// A capture or a replay is under way.
    pub open spec fn busy(self) -> bool {
        self.live.control.status.phase.active() || self.live.control.replay_running
    }

    pub fn is_busy(&self) -> (result: bool)
        ensures
            result == self.busy(),
    {
        self.live.status().phase.is_active() || self.live.replay_running()
    }

    /// Why a live capture may not be asked for now. This is settled before
    /// anything is done for the capture.
    pub fn capture_start_refusal(&self, replace_current: bool) -> (refusal: Option<CoreError>)
        ensures
            match start_refused(self.replay_import_reserved, self.live.state, replace_current) {
                Some(message) => {
                    &&& refusal matches Some(error)
                    &&& error.code == CoreErrorCode::CaptureAlreadyRunning
                    &&& error.message@ == message
                },
                None => refusal is None,
            },
    {
        if self.replay_import_reserved {
            return Some(
                CoreError::new(
                    CoreErrorCode::CaptureAlreadyRunning,
                    "a replay import dialog is active",
                ),
            );
        }
        if session_has_data(&self.live.state) && !replace_current {
            return Some(
                CoreError::new(
                    CoreErrorCode::CaptureAlreadyRunning,
                    "starting capture requires confirmation before replacing the current session",
                ),
            );
        }
        None
    }

    /// Asks for a live capture. A session with data is replaced only at the
    /// user's word. On success the live session is presented again.
    pub fn request_capture_start(
        &mut self,
        replace_current: bool,
        worker: Result<(), String>,
        starter: Result<(), String>,
    ) -> (result: Result<(), CoreError>)
        ensures
            starts(*old(self), replace_current, worker, starter, *final(self), result),
    {
        if let Some(error) = self.capture_start_refusal(replace_current) {
            return Err(error);
        }
        let result = self.live.request_start(worker, starter);
        if result.is_ok() {
            let outgoing: u64 = self.live.outgoing_hit_revision();
            self.presentation.return_main_presentation_to_live(outgoing);
        }
        result
    }

    /// Reserves the session for a replay that is about to be chosen.
    pub fn begin_replay_import(&mut self, replace_current: bool) -> (result: Result<(), CoreError>)
        ensures
            match import_refused(
                old(self).replay_import_reserved,
                old(self).busy(),
                old(self).live.state,
                replace_current,
            ) {
                Some(message) => {
                    &&& result matches Err(error)
                    &&& error.code == CoreErrorCode::CaptureAlreadyRunning
                    &&& error.message@ == message
                    &&& *final(self) == *old(self)
                },
                None => {
                    &&& result is Ok
                    &&& *final(self) == (AppState { replay_import_reserved: true, ..*old(self) })
                },
            },
    {
        if self.replay_import_reserved || (self.is_busy() && !replace_current) {
            return Err(
                CoreError::new(
                    CoreErrorCode::CaptureAlreadyRunning,
                    "capture or replay is already active",
                ),
            );
        }
        if session_has_data(&self.live.state) && !replace_current {
            return Err(
                CoreError::new(
                    CoreErrorCode::CaptureAlreadyRunning,
                    "replay import requires confirmation before replacing the current session",
                ),
            );
        }
        self.replay_import_reserved = true;
        Ok(())
    }

    /// Gives up a reservation.
    pub fn release_replay_import(&mut self)
        ensures
            *final(self) == (AppState { replay_import_reserved: false, ..*old(self) }),
    {
        self.replay_import_reserved = false;
    }

    /// Starts the replay that the session is reserved for, once the current
    /// capture was stopped where that was needed. The reservation ends either
    /// way.
    pub fn start_reserved_replay(
        &mut self,
        kind: CaptureReplayKind,
        stopped: Result<(), CoreError>,
        worker: Result<(), String>,
    ) -> (result: Result<(), CoreError>)
        ensures
            *final(self) == (AppState {
                live: final(self).live,
                presentation: if result is Ok {
                    old(self).presentation.back_to_live(
                        old(self).live.control.outgoing_hit_revision,
                    )
                } else {
                    old(self).presentation
                },
                replay_import_reserved: false,
                ..*old(self)
            }),
            match stopped {
                Err(error) => result == Err::<(), _>(error) && final(self).live == old(self).live,
                Ok(_) => replays(old(self).live, kind, worker, final(self).live, result),
            },
    {
        let result = match stopped {
            Err(error) => Err(error),
            Ok(_) => {
                let requested = self.live.request_replay(kind, worker);
                if requested.is_ok() {
                    let outgoing: u64 = self.live.outgoing_hit_revision();
                    self.presentation.return_main_presentation_to_live(outgoing);
                }
                requested
            },
        };
        self.replay_import_reserved = false;
        result
    }

    /// Resets the session. One that holds data can be taken back with the
    /// token that is returned.
    pub fn reset_session_with_undo(&mut self, now: u128) -> (token: Option<String>)
        requires
            old(self).session_undo.sequence < u64::MAX,
        ensures
            is_reset(old(self).live, final(self).live),
            final(self).presentation == old(self).presentation.back_to_live(
                old(self).live.control.outgoing_hit_revision,
            ),
            *final(self) == (AppState {
                live: final(self).live,
                presentation: final(self).presentation,
                session_undo: final(self).session_undo,
                ..*old(self)
            }),
            if has_data(old(self).live.state) {
                &&& final(self).session_undo.sequence == old(self).session_undo.sequence + 1
                &&& token matches Some(text)
                &&& text@ == session_token(final(self).session_undo.sequence)
                &&& final(self).session_undo.entry == Some(
                    UndoEntry {
                        token: text,
                        value: ResetSession {
                            state: old(self).live.state,
                            source: old(self).live.control.quality_source,
                        },
                        expires_at: window_end(now),
                    },
                )
            } else {
                token is None && final(self).session_undo == old(self).session_undo
            },
    {
        let remember = session_has_data(&self.live.state);
        let source = self.live.quality_source();
        let mut previous: CombatState = CombatState::default();
        std::mem::swap(&mut self.live.state, &mut previous);
        let token = if remember {
            let token = self.session_undo.remember_session(
                ResetSession { state: previous, source },
                now,
            );
            Some(token)
        } else {
            None
        };
        self.live.reset_session();
        let outgoing: u64 = self.live.outgoing_hit_revision();
        self.presentation.return_main_presentation_to_live(outgoing);
        token
    }

    /// Resets the session for good.
    pub fn clear_session(&mut self)
        ensures
            is_reset(old(self).live, final(self).live),
            final(self).session_undo.entry is None,
            final(self).session_undo.sequence == old(self).session_undo.sequence,
            *final(self) == (AppState {
                live: final(self).live,
                presentation: old(self).presentation.back_to_live(
                    old(self).live.control.outgoing_hit_revision,
                ),
                session_undo: final(self).session_undo,
                ..*old(self)
            }),
    {
        self.session_undo.entry = None;
        self.live.reset_session();
        let outgoing: u64 = self.live.outgoing_hit_revision();
        self.presentation.return_main_presentation_to_live(outgoing);
    }

    /// Takes a reset back: not while something runs, and not over new data.
    pub fn undo_session_reset(&mut self, token: &str, now: u128) -> (result: Result<
        (),
        SessionUndoError,
    >)
        ensures
            match undo_refused(old(self).live.control, old(self).live.state) {
                Some(error) => result == Err::<(), _>(error) && *final(self) == *old(self),
                None => match put_back(old(self).session_undo.entry, token@, now) {
                    Ok(session) => {
                        &&& result is Ok
                        &&& final(self).live.state == session.state
                        &&& final(self).live == (LiveCaptureService {
                            state: session.state,
                            control: (CaptureControl {
                                quality_source: session.source,
                                last_outgoing_hit_at: if holds_outgoing(
                                    session.state.battle.team.hits@,
                                ) {
                                    Some(now)
                                } else {
                                    None
                                },
                                ..old(self).live.control
                            }).with_packet_session().with_revision(),
                            ..old(self).live
                        })
                        &&& final(self).session_undo.entry is None
                    },
                    Err(error) => {
                        &&& result == Err::<(), _>(error)
                        &&& final(self).live == old(self).live
                        &&& final(self).session_undo.entry == (if error
                            == SessionUndoError::Missing {
                            old(self).session_undo.entry
                        } else {
                            None
                        })
                    },
                },
            },
            final(self).session_undo.sequence == old(self).session_undo.sequence,
            *final(self) == (AppState {
                live: final(self).live,
                session_undo: final(self).session_undo,
                ..*old(self)
            }),
    {
        if self.is_busy() {
            return Err(SessionUndoError::Busy);
        }
        if session_has_data(&self.live.state) {
            return Err(SessionUndoError::NewData);
        }
        match self.session_undo.take_session(token, now) {
            Err(error) => Err(error),
            Ok(session) => {
                self.live.restore_session(session.state, session.source, now);
                Ok(())
            },
        }
    }

    /// Lets clicks through, or not.
    pub fn set_passthrough(&mut self, enabled: bool)
        ensures
            *final(self) == (AppState {
                passthrough: enabled,
                settings: SettingsStore {
                    presentation_revision: if old(self).passthrough == enabled {
                        old(self).settings.presentation_revision
                    } else {
                        next_generation(old(self).settings.presentation_revision)
                    },
                    ..old(self).settings
                },
                ..*old(self)
            }),
    {
        if self.passthrough != enabled {
            self.passthrough = enabled;
            self.settings.presentation_revision =
            advance_generation(self.settings.presentation_revision);
        }
    }

    /// The hotkey that ends passing clicks through is there, or not. Nothing
    /// on screen depends on it.
    pub fn set_passthrough_hotkey_ready(&mut self, ready: bool)
        ensures
            *final(self) == (AppState { passthrough_hotkey_ready: ready, ..*old(self) }),
    {
        self.passthrough_hotkey_ready = ready;
    }

    /// `self` at a step of the introduction; there are three.
    pub open spec fn at_step(self, step: int) -> Self {
        AppState {
            onboarding_step: if step < 3 {
                step as u64
            } else {
                3
            },
            presentation: PresentationState {
                control: self.presentation.control.with_main_revision(),
                ..self.presentation
            },
            ..self
        }
    }

    fn note_onboarding_step(&mut self, step: usize)
        ensures
            *final(self) == old(self).at_step(step as int),
    {
        self.onboarding_step =
        if step < 3 {
            step as u64
        } else {
            3
        };
        self.presentation.bump_main_dps_revision();
    }

    /// Keeps how far the introduction has come, and whether it is over. The
    /// step counts even where the settings cannot be saved.
    pub fn set_onboarding_progress<
        Z: Fn(UiConfig) -> UiConfig,
        V: Fn(&UiConfig) -> Result<(), String>,
    >(&mut self, step: usize, done: bool, sanitize: &Z, save: &V) -> (result: Result<bool, String>)
        requires
            stores(*sanitize, *save),
        ensures
            *final(self) == (AppState {
                settings: final(self).settings,
                ..old(self).at_step(step as int)
            }),
            exists|candidate: UiConfig|
                {
                    &&& #[trigger] copies(
                        candidate,
                        introduced(old(self).settings.config, done),
                    )
                    &&& old(self).settings.changes(
                        *sanitize,
                        *save,
                        candidate,
                        true,
                        final(self).settings,
                        result,
                    )
                },
    {
        self.note_onboarding_step(step);
        let candidate = self.settings.config.with_onboarding_done(done);
        assert(copies(candidate, introduced(old(self).settings.config, done)));
        self.settings.update_ui_config(candidate, sanitize, save)
    }

    /// Ends the introduction with the HUD chosen in it. Where the settings
    /// cannot be saved, it goes on.
    pub fn finish_onboarding<
        Z: Fn(UiConfig) -> UiConfig,
        V: Fn(&UiConfig) -> Result<(), String>,
    >(&mut self, preset: &HudConfig, sanitize: &Z, save: &V) -> (result: Result<bool, String>)
        requires
            stores(*sanitize, *save),
        ensures
            *final(self) == (if result is Ok {
                AppState { settings: final(self).settings, ..old(self).at_step(3) }
            } else {
                *old(self)
            }),
            exists|candidate: UiConfig|
                {
                    &&& #[trigger] copies(
                        candidate,
                        equipped(introduced(old(self).settings.config, true), *preset),
                    )
                    &&& old(self).settings.changes(
                        *sanitize,
                        *save,
                        candidate,
                        true,
                        final(self).settings,
                        result,
                    )
                },
    {
        let candidate = self.settings.config.with_onboarding_finished(preset);
        let ghost asked = candidate;
        let result = self.settings.update_ui_config(candidate, sanitize, save);
        assert(copies(asked, equipped(introduced(old(self).settings.config, true), *preset)));
        if result.is_ok() {
            self.note_onboarding_step(3);
        }
        result
    }
}

/// The settings with the introduction over or not.
pub open spec fn introduced(config: UiConfig, done: bool) -> UiConfig {
    config.with_plain(PlainSettings { onboarding_done: done, ..config.plain })
}

/// The settings with the HUD of a preset.
pub open spec fn equipped(config: UiConfig, preset: HudConfig) -> UiConfig {
    UiConfig { hud: with_preset(config.hud, preset), ..config }
}

/// A session that was reset comes back as it was, with the right token and in
/// time; a wrong token costs nothing.
pub proof fn resets_can_be_taken_back(
    token: String,
    session: ResetSession,
    reset_at: u128,
    wrong: Seq<char>,
    now: u128,
)
    requires
        reset_at <= now <= reset_at + NOTICE_WINDOW,
        reset_at <= u128::MAX - NOTICE_WINDOW,
        wrong != token@,
    ensures
        ({
            let entry = Some(
                UndoEntry { token, value: session, expires_at: window_end(reset_at) },
            );
            &&& put_back(entry, wrong, now) == Err::<ResetSession, _>(SessionUndoError::Missing)
            &&& put_back(entry, token@, now) == Ok::<ResetSession, SessionUndoError>(session)
        }),
{
}

/// While a replay is being chosen, neither a capture nor another replay can
/// start.
pub proof fn reservations_keep_the_session(
    active: bool,
    state: CombatState,
    replace_current: bool,
)
    ensures
        start_refused(true, state, replace_current) is Some,
        import_refused(true, active, state, replace_current) is Some,
        !active && !has_data(state) ==> start_refused(false, state, replace_current) is None
            && import_refused(false, active, state, replace_current) is None,
{
}

} // verus!
