use nte_dps_tool::combat_details::CombatDetailFilter;
use nte_dps_tool::commands::{
    hud_reset_stops, hud_start_refusal, move_hud_module, reset_hud_session, set_hud_always_on_top,
    set_hud_module_visibility, set_hud_passthrough, set_hud_width, start_hud_capture,
    stop_hud_capture, HudCommandError,
};
use nte_dps_tool::desktop::{
    has_exportable_state, reset_notice, session_has_data, should_request_stop, stop_timed_out,
    stop_wait, AppState, StopWait,
};
use nte_dps_tool::detail::{HitDetailColumnsConfig, HitDirectionSummary, MainDpsDetailRequest};
use nte_dps_tool::detail_cache::{
    MainDpsDetailCache, MainDpsDetailCacheKey, MainDpsStreamRevision,
    MAIN_DPS_DETAIL_CACHE_CAPACITY,
};
use nte_dps_tool::detail_pages::DetailPages;
use nte_dps_tool::double::{Arith, Double};
use nte_dps_tool::error::CoreErrorCode;
use nte_dps_tool::history::{
    CaptureQualitySummary, CombatSessionSummary, HistoryCombatDetails, PendingHistoryArchive,
    PreparedHistoryArchive, NANOS_PER_SECOND,
};
use nte_dps_tool::hud::{HudConfig, HudConfigSnapshot, HudModule, HudModuleSnapshot};
use nte_dps_tool::live_capture::{
    CaptureReplayKind, LiveCaptureIssue, LiveCapturePhase, LiveCaptureResources,
    LiveCaptureService, PacketStreamRevision,
};
use nte_dps_tool::model::{
    AbyssHalf, CaptureQualitySource, CharacterInfo, CombatState, DpsTimeBasis, EmptyCurtainItem, Hit,
    HitCharacterSource, HitClassification, HitDirection, HtItemNetId, Language, PartyCombatState,
};
use nte_dps_tool::names::{AbilityNames, DisplayNames, NameTable};
use nte_dps_tool::notices::{IslandNotices, SessionUndoError, UndoSlot, NOTICE_WINDOW};
use nte_dps_tool::operations::{
    EmptyCurtainOperationState, EncryptedIniContent, EncryptedIniProjection,
    EncryptedIniRuntimeError, EncryptedIniRuntimeState, LoaderNews, LoaderResponse,
    OperationStatus, PredictionTeams, TeamExport,
};
use nte_dps_tool::preferences::{
    hud_initial_height, HudSettingOption, HUD_BASE_INITIAL_HEIGHT, HUD_CHARACTERS_HEIGHT,
    HUD_EDITOR_MIN_HEIGHT, HUD_EDITOR_MODULE_HEADER_HEIGHT, HUD_MINI_TIMELINE_HEIGHT,
    HUD_OPTIONAL_STATUS_HEIGHT, HUD_OPTIONAL_TITLE_HEIGHT, HUD_SUMMARY_HEIGHT,
};
use nte_dps_tool::presentation::{
    find_round, next_live_abyss_selection, packet_cursor, stream_revision, HistoryRoundIndex,
    MainRoundCache, PresentationState, SelectedRoundPresentation,
};
use nte_dps_tool::readout::{
    capture_export_options, diagnostics_input, diagnostics_revision, empty_curtain_revision,
    packets_projection, CaptureExportNetwork,
};
use nte_dps_tool::rounds::{HistoryService, SummaryPolicy, MAX_PENDING_HISTORY_ARCHIVES};
use nte_dps_tool::rpc::ModsPluginSubmitError;
use nte_dps_tool::settings::{
    CaptureSettings, Choice, DesktopWindowKind, DpsTimeMode, InterfaceSettings,
    MainDpsDetailKind, MeasuredSettings, ModsPluginGameRegion, OnTopSettings, PlainSettings,
    ScreenPoint, SettingsStore, UiConfig,
};
use nte_dps_tool::single::{Pair, Single};
use nte_dps_tool::streams::StreamRegistry;
use nte_dps_tool::timeline::{BucketWidth, TimelineReadings, TimelineScope, TimelineSeries};
use nte_dps_tool::updates::{
    install_blocked_message_key, update_is_busy, AvailableComponentUpdate, PreparedUpdate,
    UpdateActionError, UpdateComponent, UpdateRuntimeState, UpdateStatus,
};
use nte_dps_tool::windows::{
    island_physical_position, island_physical_size, may_set_passthrough,
    migrate_legacy_default_size, native_window_event_may_reset_opacity, notice_monitor,
    notice_target, restorable_main_window_position, restored_geometry, should_persist_geometry,
    should_reveal_after_page_load, validate_window, MonitorArea, NativeWindowEvent, NoticeTarget,
    PageLoadEvent, WindowSight,
};
use std::cell::RefCell;
use std::collections::HashMap;
use std::path::PathBuf;

const WIDTH_MAX: u16 = 720;

fn double(value: f64) -> Double {
    Double { bits: value.to_bits() }
}

fn number(value: Double) -> f64 {
    f64::from_bits(value.bits)
}

fn single(value: f32) -> Single {
    Single { bits: value.to_bits() }
}

fn pair(first: f32, second: f32) -> Pair {
    Pair { first: single(first), second: single(second) }
}

fn ops(request: Arith) -> Double {
    double(match request {
        Arith::Sum(left, right) => number(left) + number(right),
        Arith::Difference(left, right) => number(left) - number(right),
        Arith::Product(left, right) => number(left) * number(right),
        Arith::Quotient(left, right) => number(left) / number(right),
        Arith::FromCount(count) => count as f64,
        Arith::FromSingle(value) => f64::from(f32::from_bits(value.bits)),
    })
}

fn test_hit(damage: f64) -> Hit {
    Hit {
        timestamp: double(1.0),
        char_id: 7,
        char_name: "Fixture".to_owned(),
        char_known: true,
        damage: double(damage),
        byte_offset: 0,
        bit_shift: 0,
        char_source: HitCharacterSource::Packet,
        direction: HitDirection::Outgoing,
        target_hp_before: double(1_000.0),
        target_hp_after: double(1_000.0 - damage),
        target_max_hp: double(1_000.0),
        target_hp_percent: double(50.0),
        target_id: None,
        target_name: None,
        target_name_en: None,
        target_name_ja: None,
        target_monster_id: None,
        target_context: Vec::new(),
        gameplay_effect_index: Some(17),
        gameplay_effect_name: Some("GE_Fixture".to_owned()),
        ability_name: Some("GA_Fixture".to_owned()),
        damage_name: Some("Fixture Damage".to_owned()),
        damage_component: None,
        attack_type: Some("Skill".to_owned()),
        damage_attribute: None,
        follow_up_damage: double(0.0),
        follow_up_timestamp: None,
        follow_up_damage_name: None,
        follow_up_attack_type: None,
        follow_up_damage_attribute: None,
        active_effects: Vec::new(),
        class: HitClassification {
            total_damage: double(damage),
            reaction_damage: double(0.0),
            unbalance: false,
            qte_follow_up: false,
            attack_type_is_qte: false,
            follow_up_type_is_qte: false,
        },
    }
}

fn session(damages: &[f64]) -> CombatState {
    let mut state = CombatState::default();
    for damage in damages {
        state.battle.team.hits.push(test_hit(*damage));
        state.battle.team.hits_generation += 1;
        state.battle.team.total_damage =
            double(number(state.battle.team.total_damage) + damage);
    }
    state
}

fn damage_of(state: &CombatState) -> f64 {
    number(state.battle.team.total_damage)
}

fn details_of(state: &CombatState) -> Option<HistoryCombatDetails> {
    if state.battle.team.hits.is_empty() {
        return None;
    }
    Some(HistoryCombatDetails {
        global_hits: state.battle.team.hits.clone(),
        first_half_hits: Vec::new(),
        second_half_hits: Vec::new(),
        exited_at: None,
    })
}

fn restore(details: &HistoryCombatDetails) -> CombatState {
    let damages: Vec<f64> = details.global_hits.iter().map(|hit| number(hit.damage)).collect();
    session(&damages)
}

fn summarize(
    state: &CombatState,
    source: CaptureQualitySource,
    dps_time_basis: DpsTimeBasis,
    _separate_reaction_damage: bool,
) -> Option<CombatSessionSummary> {
    if state.battle.team.hits.is_empty() {
        return None;
    }
    Some(CombatSessionSummary {
        total_damage: state.battle.team.total_damage,
        duration_seconds: double(1.0),
        dps_time_basis,
        quality: CaptureQualitySummary { source },
    })
}

fn policy() -> SummaryPolicy {
    SummaryPolicy {
        dps_time_basis: DpsTimeBasis::SubtractTimeStop,
        separate_reaction_damage: false,
    }
}

fn standard_config() -> UiConfig {
    UiConfig {
        plain: PlainSettings {
            interface: InterfaceSettings {
                language: Language::SimplifiedChinese,
                dark_mode: false,
                theme_preset: Choice { index: 0 },
                accent: Choice { index: 0 },
                density: Choice { index: 0 },
                reduce_motion: false,
                island_notifications: true,
            },
            on_top: OnTopSettings {
                always_on_top: true,
                main_dps: true,
                hud: true,
                console: false,
                abyss_values: false,
                character_details: false,
                team_details: false,
            },
            capture: CaptureSettings {
                server_damage_calibration: false,
                separate_reaction_damage: false,
                auto_round_after_idle: false,
                auto_round_idle_seconds: 30,
                dps_time_mode: DpsTimeMode::TimeStopAdjusted,
                passthrough_hotkey: Choice { index: 0 },
            },
            auto_check_updates: true,
            auto_download_updates: false,
            onboarding_done: false,
            timeline_dps_view_mode: Choice { index: 0 },
            hit_detail_columns: HitDetailColumnsConfig {
                show_time: true,
                show_character: true,
                show_type: true,
                show_damage: true,
                show_target_hp: true,
                time_width: 80,
                character_width: 120,
                type_width: 140,
                damage_width: 100,
                target_hp_width: 160,
            },
            hud_window_position: None,
        },
        measured: MeasuredSettings {
            opacity: single(1.0),
            island_offset_x: single(0.0),
            timeline_bucket_seconds: single(1.0),
            main_window_size: None,
            main_window_position: None,
            console_window_size: None,
            console_window_position: None,
            abyss_window_size: None,
            abyss_window_position: None,
            hit_detail_window_size: None,
            hit_detail_window_position: None,
            team_hit_detail_window_size: None,
            team_hit_detail_window_position: None,
        },
        hud: HudConfig {
            width: 360,
            module_order: all_modules(),
            show_title: false,
            show_team_dps: true,
            show_duration: true,
            show_total_damage: true,
            show_character_rows: true,
            show_damage_taken: false,
            show_abyss_half: false,
            show_passthrough_state: false,
            show_mini_timeline: false,
        },
        capture_filter: "udp".to_owned(),
        manual_capture_device: None,
        mod_studio_china_game_directory: None,
        mod_studio_global_game_directory: None,
        global_hotkeys: String::new(),
    }
}

fn all_modules() -> Vec<HudModule> {
    vec![
        HudModule::Title,
        HudModule::Summary,
        HudModule::Status,
        HudModule::Characters,
        HudModule::Timeline,
    ]
}

fn detailed_hud() -> HudConfig {
    HudConfig {
        show_title: true,
        show_damage_taken: true,
        show_abyss_half: true,
        show_passthrough_state: true,
        show_mini_timeline: true,
        ..standard_config().hud
    }
}

fn sanitize_hud(hud: &HudConfig) -> HudConfig {
    HudConfig { width: hud.width.min(WIDTH_MAX), ..hud.clone() }
}

fn has_summary_row(hud: &HudConfig) -> bool {
    hud.show_team_dps || hud.show_duration || hud.show_total_damage || hud.show_damage_taken
}

fn module_visible(hud: &HudConfig, module: HudModule) -> bool {
    match module {
        HudModule::Title => hud.show_title,
        HudModule::Summary => has_summary_row(hud),
        HudModule::Status => hud.show_abyss_half || hud.show_passthrough_state,
        HudModule::Characters => hud.show_character_rows,
        HudModule::Timeline => hud.show_mini_timeline,
    }
}

fn set_visible(hud: &HudConfig, module: HudModule, visible: bool) -> HudConfig {
    let mut hud = hud.clone();
    match module {
        HudModule::Title => hud.show_title = visible,
        HudModule::Summary => {
            hud.show_team_dps = visible;
            hud.show_duration = visible;
            hud.show_total_damage = visible;
            hud.show_damage_taken = visible;
        }
        HudModule::Status => {
            hud.show_abyss_half = visible;
            hud.show_passthrough_state = visible;
        }
        HudModule::Characters => hud.show_character_rows = visible,
        HudModule::Timeline => hud.show_mini_timeline = visible,
    }
    hud
}

fn move_module(
    hud: &HudConfig,
    dragged: HudModule,
    target: HudModule,
    insert_after: bool,
) -> HudConfig {
    let mut hud = hud.clone();
    hud.module_order.retain(|module| *module != dragged);
    let at = hud.module_order.iter().position(|module| *module == target).expect("the target");
    hud.module_order.insert(at + usize::from(insert_after), dragged);
    hud
}

fn width(seconds: Single) -> BucketWidth {
    let seconds = f64::from(f32::from_bits(seconds.bits));
    BucketWidth {
        seconds: double(seconds.clamp(0.5, 10.0)),
        min: double(0.5),
        max: double(10.0),
    }
}

/// A series that holds its width, and the total of the session.
fn series(
    state: &CombatState,
    _half: Option<AbyssHalf>,
    bucket_seconds: Double,
    _subtract_time_stop: bool,
) -> TimelineSeries {
    TimelineSeries {
        bucket_seconds,
        start_timestamp: None,
        end_timestamp: None,
        total_damage: state.battle.team.total_damage,
        buckets: Vec::new(),
        time_stop_intervals: Vec::new(),
        markers: Vec::new(),
    }
}

fn read(
    state: &CombatState,
    _scope: TimelineScope,
    bucket_seconds: Double,
    subtract_time_stop: bool,
) -> TimelineReadings {
    TimelineReadings {
        series: series(state, None, bucket_seconds, subtract_time_stop),
        half_markers: Vec::new(),
        segments: Vec::new(),
    }
}

fn unknown_share(_directions: HitDirectionSummary) -> Double {
    double(0.0)
}

fn absent_duration(_party: &PartyCombatState, _subtract_time_stop: bool) -> Double {
    double(0.0)
}

fn sanitize(mut config: UiConfig) -> UiConfig {
    config.hud.width = config.hud.width.min(WIDTH_MAX);
    let columns = &mut config.plain.hit_detail_columns;
    columns.type_width = columns.type_width.min(600);
    config
}

fn accept(_config: &UiConfig) -> Result<(), String> {
    Ok(())
}

fn refuse(_config: &UiConfig) -> Result<(), String> {
    Err("disk full".to_owned())
}

fn store_of(config: UiConfig) -> SettingsStore {
    SettingsStore { config, presentation_revision: 0, settings_revision: 0 }
}

/// Saves a change and returns what was written.
fn saved_change(store: &mut SettingsStore, candidate: UiConfig) -> (bool, Option<UiConfig>) {
    let written = RefCell::new(None);
    let save = |config: &UiConfig| -> Result<(), String> {
        *written.borrow_mut() = Some(config.clone());
        Ok(())
    };
    let changed = store
        .update_ui_config(candidate, &sanitize, &save)
        .expect("the change is saved");
    (changed, written.into_inner())
}

fn app_with(live: LiveCaptureService) -> AppState {
    AppState {
        live,
        presentation: PresentationState::new(),
        settings: store_of(standard_config()),
        history: HistoryService::new(),
        session_undo: UndoSlot::new(),
        replay_import_reserved: false,
        passthrough: false,
        passthrough_hotkey_ready: false,
        onboarding_step: 0,
        sequence: 0,
    }
}

fn idle_live() -> LiveCaptureService {
    LiveCaptureService::new(LiveCaptureResources::default())
}

fn live_with(damages: &[f64], source: CaptureQualitySource) -> LiveCaptureService {
    let mut live = idle_live();
    live.restore_session(session(damages), source, 0);
    live
}

#[test]
fn replacing_subscription_stops_previous_stream() {
    let mut streams = StreamRegistry::new();
    let (previous, replaced) = streams.begin_stream("hud".to_owned(), "technical".to_owned());
    assert_eq!(replaced, None);
    let (current, replaced) = streams.begin_stream("hud".to_owned(), "technical".to_owned());

    assert_eq!(replaced, Some(previous));
    assert_ne!(current, previous);
}

#[test]
fn finishing_replaced_stream_keeps_current_registration() {
    let mut streams = StreamRegistry::new();
    let (previous, _) = streams.begin_stream("hud".to_owned(), "technical".to_owned());
    let (current, _) = streams.begin_stream("hud".to_owned(), "technical".to_owned());

    streams.finish_stream("technical", previous);
    assert_eq!(streams.stop_stream("technical"), Some(current));
    assert_eq!(streams.stop_stream("technical"), None);
}

#[test]
fn destroying_owner_window_stops_only_its_streams_and_clears_registry_entries() {
    let mut streams = StreamRegistry::new();
    let (hud_first, _) = streams.begin_stream("hud".to_owned(), "hud:first".to_owned());
    let (hud_second, _) = streams.begin_stream("hud".to_owned(), "hud:second".to_owned());
    let (console, _) = streams.begin_stream("console".to_owned(), "console:first".to_owned());

    let stopped = streams.stop_streams_for_window("hud");
    assert_eq!(stopped.len(), 2);
    assert!(stopped.contains(&hud_first) && stopped.contains(&hud_second));
    assert!(!stopped.contains(&console));
    assert_eq!(streams.stop_streams_for_window("hud").len(), 0);

    assert_eq!(streams.stop_stream("console:first"), Some(console));
}

#[test]
fn selected_rounds_are_presented_until_the_next_hit() {
    let index = vec![
        HistoryRoundIndex {
            path: "a".to_owned(),
            id: "bare-round".to_owned(),
            display_time: "1".to_owned(),
            abyss_floor: None,
            has_details: false,
        },
        HistoryRoundIndex {
            path: "b".to_owned(),
            id: "selected-round".to_owned(),
            display_time: "2".to_owned(),
            abyss_floor: Some(12),
            has_details: true,
        },
    ];
    assert_eq!(find_round(&index, "selected-round", true), Some(1));
    assert_eq!(find_round(&index, "bare-round", true), None);
    assert_eq!(find_round(&index, "bare-round", false), Some(0));
    assert_eq!(find_round(&index, "other-round", false), None);

    let live = session(&[5.0]);
    let mut presentation = PresentationState::new();
    presentation.set_main_selected_round(
        Some(SelectedRoundPresentation {
            record_id: "selected-round".to_owned(),
            state: session(&[125.0]),
        }),
        3,
    );
    assert_eq!(damage_of(presentation.presented(&live)), 125.0);
    assert_eq!(
        presentation.main_selected_round_id(3).as_deref(),
        Some("selected-round")
    );
    presentation.drop_stale_selection(&index);
    assert!(presentation.selected_round.is_some());
    assert_eq!(presentation.main_selected_round_id(4), None);
    assert_eq!(damage_of(presentation.presented(&live)), 5.0);
}

#[test]
fn selections_that_are_no_longer_listed_are_dropped() {
    let mut presentation = PresentationState::new();
    presentation.set_main_selected_round(
        Some(SelectedRoundPresentation {
            record_id: "gone".to_owned(),
            state: session(&[125.0]),
        }),
        0,
    );
    let revision = presentation.control.main_revision;
    presentation.drop_stale_selection(&Vec::new());
    assert!(presentation.selected_round.is_none());
    assert_eq!(presentation.control.main_revision, revision + 1);
}

#[test]
fn empty_curtain_data_snapshot_is_detached_from_live_state() {
    let mut combat = CombatState::default();
    combat.replace_empty_curtain(vec![EmptyCurtainItem {
        id: HtItemNetId { solt: 1, serial: 2 },
        item_id: "fixture-item".to_owned(),
        level: 1,
        main_stats: Vec::new(),
        sub_stats: Vec::new(),
        locked: false,
        discarded: false,
        character_net_id: None,
        equipped_character_id: None,
        equipped_placement: None,
    }]);
    let mut app = app_with(idle_live());
    app.live.restore_session(combat, CaptureQualitySource::Live, 0);

    let inventory = app.presentation.presented(&app.live.state).inventory.clone();
    assert_eq!(empty_curtain_revision(&app.presentation, &app.live, 6), (1, 0, 6));
    app.live
        .restore_session(CombatState::default(), CaptureQualitySource::Live, 0);

    assert_eq!(inventory.items.len(), 1);
    assert_eq!(inventory.items[0].item_id, "fixture-item");
    assert!(inventory.characters.is_empty());
}

#[test]
fn pause_freezes_the_presented_state_until_resume() {
    let mut app = app_with(live_with(&[125.0], CaptureQualitySource::Live));
    app.set_main_processing_paused(true, &CombatState::clone);
    assert_eq!(
        app.presentation.paused.as_ref().expect("a frozen session").packet_revision,
        app.live.packet_stream_revision()
    );
    let stream = |app: &AppState| {
        app.presentation.main_dps_stream_revision(
            app.live.revision(),
            app.live.control.packet_revision,
            app.settings.presentation_revision,
            app.history.revision,
        )
    };
    let paused_revision = stream(&app);
    app.live
        .restore_session(session(&[300.0, 25.0]), CaptureQualitySource::Live, 0);

    assert_eq!(damage_of(app.presentation.presented(&app.live.state)), 125.0);
    assert!(app.presentation.main_paused_event_counts(&app.live.state).0 > 0);
    assert_ne!(stream(&app), paused_revision);

    app.set_main_processing_paused(false, &CombatState::clone);
    assert_eq!(damage_of(app.presentation.presented(&app.live.state)), 325.0);
    assert_eq!(app.presentation.main_paused_event_counts(&app.live.state), (0, 0));
}

#[test]
fn cut_round_freezes_replay_source_and_queues_failed_persistence() {
    let mut live = live_with(&[444.0], CaptureQualitySource::JsonReplay);
    let mut history = HistoryService::new();
    let fail = |_archive: &PreparedHistoryArchive| Err("disk full".to_owned());

    assert_eq!(
        history.archive_current_history_round_with(
            &mut live,
            policy(),
            &details_of,
            &restore,
            &summarize,
            &fail,
        ),
        Ok(true)
    );
    assert!(live.state.battle.team.hits.is_empty());
    assert_eq!(history.pending_archives.len(), 1);
    assert_eq!(
        history.pending_archives[0].summary.quality.source,
        CaptureQualitySource::JsonReplay
    );

    live.restore_session(session(&[99.0]), CaptureQualitySource::Live, 0);
    assert_eq!(damage_of(&live.state), 99.0);
    let template = history.pending_archives[0].clone();
    while history.pending_archives.len() < MAX_PENDING_HISTORY_ARCHIVES {
        history.pending_archives.push(template.clone());
    }
    let untouched = |_archive: &PreparedHistoryArchive| -> Result<(), String> {
        panic!("a full retry queue must reject before persistence")
    };
    assert!(history
        .archive_current_history_round_with(
            &mut live,
            policy(),
            &details_of,
            &restore,
            &summarize,
            &untouched,
        )
        .is_err());
    assert_eq!(damage_of(&live.state), 99.0);
}

#[test]
fn rounds_are_summed_up_as_the_settings_say() {
    let mut app = app_with(live_with(&[8.0], CaptureQualitySource::Live));
    app.settings.config.plain.capture.dps_time_mode = DpsTimeMode::RealTime;
    app.settings.config.plain.capture.separate_reaction_damage = true;
    let asked = |state: &CombatState,
                 source: CaptureQualitySource,
                 basis: DpsTimeBasis,
                 separate: bool| {
        assert!(separate);
        summarize(state, source, basis, separate)
    };
    let kept = RefCell::new(Vec::new());
    let keep = |archive: &PreparedHistoryArchive| -> Result<(), String> {
        kept.borrow_mut().push(archive.summary.dps_time_basis);
        Ok(())
    };
    assert_eq!(
        app.archive_current_history_round(&details_of, &restore, &asked, &keep),
        Ok(true)
    );
    assert_eq!(*kept.borrow(), vec![DpsTimeBasis::WallClock]);
    assert_eq!(app.history.revision, 1);

    app.live.restore_session(session(&[9.0]), CaptureQualitySource::Live, 0);
    app.live.control.status.phase = LiveCapturePhase::Running;
    app.settings.config.plain.capture.auto_round_idle_seconds = 45;
    app.settings.config.plain.capture.auto_round_after_idle = false;
    app.maintain_history_rounds(46 * NANOS_PER_SECOND, &details_of, &restore, &asked, &keep);
    assert_eq!(damage_of(&app.live.state), 9.0);
    app.settings.config.plain.capture.auto_round_after_idle = true;
    app.maintain_history_rounds(44 * NANOS_PER_SECOND, &details_of, &restore, &asked, &keep);
    assert_eq!(damage_of(&app.live.state), 9.0);
    app.maintain_history_rounds(46 * NANOS_PER_SECOND, &details_of, &restore, &asked, &keep);
    assert!(app.live.state.battle.team.hits.is_empty());
    assert_eq!(app.history.revision, 2);
}

#[test]
fn pending_rounds_are_retried_in_order() {
    let mut live = live_with(&[1.0], CaptureQualitySource::Live);
    let mut history = HistoryService::new();
    let fail = |_archive: &PreparedHistoryArchive| Err("disk full".to_owned());
    for damage in [1.0, 2.0] {
        live.restore_session(session(&[damage]), CaptureQualitySource::Live, 0);
        assert_eq!(
            history.archive_current_history_round_with(
                &mut live,
                policy(),
                &details_of,
                &restore,
                &summarize,
                &fail,
            ),
            Ok(true)
        );
    }
    assert_eq!(history.revision, 0);
    let seen = RefCell::new(Vec::new());
    let keep = |archive: &PreparedHistoryArchive| -> Result<(), String> {
        seen.borrow_mut().push(number(archive.summary.total_damage));
        Ok(())
    };
    history.retry_pending_history_archives(&keep);
    assert_eq!(seen.into_inner(), vec![1.0, 2.0]);
    assert!(history.pending_archives.is_empty());
    assert!(history.revision > 0);
    assert_eq!(
        history.archive_current_history_round_with(
            &mut live,
            policy(),
            &details_of,
            &restore,
            &summarize,
            &fail,
        ),
        Ok(false)
    );
}

#[test]
fn maintenance_archives_waiting_rounds_and_idle_ones() {
    let mut live = live_with(&[8.0], CaptureQualitySource::Live);
    live.request_start(Ok(()), Ok(())).expect("idle service starts");
    live.control.status.phase = LiveCapturePhase::Running;
    live.restore_pending_abyss_archives(vec![PendingHistoryArchive {
        details: details_of(&session(&[3.0])).expect("details"),
        source: CaptureQualitySource::Live,
    }]);
    let mut history = HistoryService::new();
    let seen = RefCell::new(Vec::new());
    let keep = |archive: &PreparedHistoryArchive| -> Result<(), String> {
        seen.borrow_mut().push(number(archive.summary.total_damage));
        Ok(())
    };
    history.maintain_history_rounds(
        &mut live,
        policy(),
        Some(30),
        10 * NANOS_PER_SECOND,
        &details_of,
        &restore,
        &summarize,
        &keep,
    );
    assert_eq!(*seen.borrow(), vec![3.0]);
    assert_eq!(damage_of(&live.state), 8.0);
    history.maintain_history_rounds(
        &mut live,
        policy(),
        Some(30),
        40 * NANOS_PER_SECOND,
        &details_of,
        &restore,
        &summarize,
        &keep,
    );
    assert_eq!(*seen.borrow(), vec![3.0, 8.0]);
    assert!(live.state.battle.team.hits.is_empty());
}

#[test]
fn reset_undo_restores_session_and_rejects_a_wrong_token_without_consuming_it() {
    let mut app = app_with(live_with(&[222.0], CaptureQualitySource::Live));
    app.set_main_processing_paused(true, &CombatState::clone);
    let token = app.reset_session_with_undo(1_000).expect("reset undo token");
    assert!(!session_has_data(&app.live.state));
    assert!(!app.presentation.control.processing_paused);
    assert_eq!(
        app.undo_session_reset("wrong-token", 1_000),
        Err(SessionUndoError::Missing)
    );
    app.undo_session_reset(&token, 1_000)
        .expect("restore reset session");
    assert_eq!(damage_of(app.presentation.presented(&app.live.state)), 222.0);
    assert_eq!(
        app.undo_session_reset(&token, 1_000),
        Err(SessionUndoError::NewData)
    );
}

#[test]
fn resets_can_be_taken_back_for_five_seconds() {
    let mut app = app_with(live_with(&[222.0], CaptureQualitySource::Live));
    assert!(app_with(idle_live()).reset_session_with_undo(0).is_none());
    let token = app.reset_session_with_undo(1_000).expect("reset undo token");
    assert_eq!(
        app.undo_session_reset(&token, 1_001 + NOTICE_WINDOW),
        Err(SessionUndoError::Expired)
    );
    assert_eq!(
        app.undo_session_reset(&token, 1_000),
        Err(SessionUndoError::Missing)
    );
    app.live.restore_session(session(&[7.0]), CaptureQualitySource::Live, 0);
    let token = app.reset_session_with_undo(1_000).expect("reset undo token");
    app.live.control.status.phase = LiveCapturePhase::Running;
    assert_eq!(
        app.undo_session_reset(&token, 1_000),
        Err(SessionUndoError::Busy)
    );
    app.live.control.status.phase = LiveCapturePhase::Stopped;
    assert_eq!(app.undo_session_reset(&token, 1_000 + NOTICE_WINDOW), Ok(()));
    assert_eq!(damage_of(&app.live.state), 7.0);
    app.clear_session();
    assert!(!session_has_data(&app.live.state));
    assert!(app.session_undo.entry.is_none());
    assert_eq!(reset_notice(true), "Session reset · use Undo within 5 seconds");
    assert_eq!(reset_notice(false), "Stats reset");
}

#[test]
fn onboarding_progress_and_completion_persist() {
    let mut app = app_with(idle_live());
    let written = RefCell::new(None);
    let save = |config: &UiConfig| -> Result<(), String> {
        *written.borrow_mut() = Some(config.clone());
        Ok(())
    };
    app.set_onboarding_progress(2, false, &sanitize, &save)
        .expect("save onboarding step");
    assert_eq!(app.onboarding_step, 2);
    app.finish_onboarding(&detailed_hud(), &sanitize, &save)
        .expect("finish onboarding");

    let saved = written.into_inner().expect("saved UI config");
    assert!(saved.plain.onboarding_done);
    assert!(saved.hud.show_mini_timeline);
    assert_eq!(app.onboarding_step, 3);
}

#[test]
fn an_introduction_that_cannot_be_saved_goes_on() {
    let mut app = app_with(idle_live());
    assert!(app.set_onboarding_progress(9, true, &sanitize, &refuse).is_err());
    assert_eq!(app.onboarding_step, 3);
    assert!(!app.settings.config.plain.onboarding_done);
    assert!(app.set_onboarding_progress(1, false, &sanitize, &refuse).is_ok());
    assert!(app
        .finish_onboarding(&detailed_hud(), &sanitize, &refuse)
        .is_err());
    assert_eq!(app.onboarding_step, 1);
    assert_eq!(app.presentation.control.main_revision, 2);
}

#[test]
fn replay_import_reservation_blocks_live_capture_until_released() {
    let mut app = app_with(idle_live());
    app.begin_replay_import(false).expect("reserve replay import");

    let duplicate_error = app
        .begin_replay_import(false)
        .expect_err("second replay reservation must be rejected");
    assert_eq!(duplicate_error.code, CoreErrorCode::CaptureAlreadyRunning);
    assert_eq!(
        app.request_capture_start(false, Ok(()), Ok(()))
            .expect_err("capture start must respect replay reservation")
            .code,
        CoreErrorCode::CaptureAlreadyRunning
    );

    app.release_replay_import();
    assert!(app.begin_replay_import(false).is_ok());
}

#[test]
fn sessions_with_data_are_replaced_only_on_request() {
    let mut app = app_with(live_with(&[5.0], CaptureQualitySource::Live));
    assert!(app.request_capture_start(false, Ok(()), Ok(())).is_err());
    assert!(app.begin_replay_import(false).is_err());
    app.begin_replay_import(true).expect("the session is given up");
    let error = app
        .start_reserved_replay(CaptureReplayKind::Json, Err(stop_timed_out()), Ok(()))
        .expect_err("the capture did not stop");
    assert_eq!(error.code, CoreErrorCode::SystemProbeFailed);
    assert!(!app.replay_import_reserved);
    app.begin_replay_import(true).expect("reserve again");
    app.start_reserved_replay(CaptureReplayKind::Json, Ok(()), Ok(()))
        .expect("the replay starts");
    assert!(app.live.replay_running());
    assert!(!session_has_data(&app.live.state));
    app.live.control.replay_running = false;
    app.live.control.status.phase = LiveCapturePhase::Stopped;
    app.request_capture_start(true, Ok(()), Ok(())).expect("a capture starts");
    assert_eq!(app.live.status().phase, LiveCapturePhase::Starting);
}

#[test]
fn waits_for_the_end_of_a_capture_are_bounded() {
    assert!(should_request_stop(LiveCapturePhase::Failed, false));
    assert!(should_request_stop(LiveCapturePhase::Idle, true));
    assert!(!should_request_stop(LiveCapturePhase::Stopping, false));
    assert_eq!(stop_wait(LiveCapturePhase::Running, false, 5, 10), StopWait::Wait);
    assert_eq!(stop_wait(LiveCapturePhase::Running, false, 10, 10), StopWait::TimedOut);
    assert_eq!(stop_wait(LiveCapturePhase::Stopped, false, 11, 10), StopWait::Done);
    assert_eq!(
        stop_timed_out().message,
        "capture or replay did not stop before the replacement timeout"
    );
}

#[test]
fn capture_options_follow_the_settings() {
    let mut app = app_with(idle_live());
    app.settings.config.manual_capture_device = Some("device".to_owned());
    app.settings.config.plain.capture.server_damage_calibration = true;
    let options = app.live_capture_options();
    assert_eq!(options.filter, "udp");
    assert!(options.include_incoming && options.server_damage_calibration);
    assert!(!options.expose_raw_capture_path);
}

/// A document is its text, its key a letter.
fn ini_shown(
    state: &EncryptedIniRuntimeState<PathBuf, (String, char)>,
) -> EncryptedIniProjection<char> {
    state.projection(
        &|path: &PathBuf| path.display().to_string(),
        &|path: &PathBuf| path.file_name().map(|name| name.to_string_lossy().into_owned()),
        &|document: &(String, char)| EncryptedIniContent {
            key: document.1,
            plaintext: document.0.clone(),
            encrypted_line_count: document.0.lines().count(),
        },
        'g',
    )
}

#[test]
fn encrypted_ini_session_orders_save_and_clear_generations() {
    let mut state: EncryptedIniRuntimeState<PathBuf, (String, char)> =
        EncryptedIniRuntimeState::new();
    let path = PathBuf::from("game").join("Engine.ini");
    state
        .open(path.clone(), Ok::<(String, char), String>(("Value=1".to_owned(), 'g')))
        .expect("open INI fixture");
    let opened = ini_shown(&state);
    assert_eq!(opened.generation, 1);
    assert_eq!(opened.plaintext, "Value=1");
    let write = |_path: &PathBuf, _document: &(String, char), plaintext: String, key: char| {
        ((plaintext, key), Ok::<&str, String>("saved"))
    };
    assert!(matches!(
        state.save(0, "Value=2".to_owned(), 'g', &write),
        Err(EncryptedIniRuntimeError::StaleGeneration)
    ));
    let outcome = state
        .save(opened.generation, "Value=2".to_owned(), 'g', &write)
        .map_err(|_| ())
        .expect("save INI fixture");
    assert_eq!(outcome, "saved");
    let saved = ini_shown(&state);
    assert_eq!(saved.generation, 2);
    assert_eq!(saved.plaintext, "Value=2");
    state.clear();
    assert_eq!(ini_shown(&state).generation, 3);
    assert!(matches!(
        state.save(3, String::new(), 'g', &write),
        Err(EncryptedIniRuntimeError::NoFile)
    ));
    let load = |_path: &PathBuf| -> Result<(String, char), String> { Err("gone".to_owned()) };
    assert!(matches!(
        state.reload(&load),
        Err(EncryptedIniRuntimeError::NoFile)
    ));
    assert!(matches!(
        state.open(path, Err::<(String, char), String>("broken".to_owned())),
        Err(EncryptedIniRuntimeError::Document(error)) if error == "broken"
    ));
}

#[test]
fn pages_show_the_encrypted_file_that_is_open() {
    let mut state: EncryptedIniRuntimeState<PathBuf, (String, char)> =
        EncryptedIniRuntimeState::new();
    let blank = ini_shown(&state);
    assert_eq!((blank.generation, blank.key, blank.encrypted_line_count), (0, 'g', 0));
    assert!(blank.display_path.is_none() && blank.file_name.is_none());
    assert_eq!(blank.plaintext, "");
    let path = PathBuf::from("game").join("Engine.ini");
    let shown_path = path.display().to_string();
    state
        .open(path, Ok::<(String, char), String>(("A=1\nB=2".to_owned(), 'x')))
        .expect("open INI fixture");
    let shown = ini_shown(&state);
    assert_eq!(shown.display_path, Some(shown_path));
    assert_eq!(shown.file_name.as_deref(), Some("Engine.ini"));
    assert_eq!((shown.generation, shown.key, shown.encrypted_line_count), (1, 'x', 2));
    assert_eq!(shown.plaintext, "A=1\nB=2");
}

#[test]
fn a_file_that_cannot_be_written_keeps_its_generation() {
    let mut state: EncryptedIniRuntimeState<PathBuf, (String, char)> =
        EncryptedIniRuntimeState::new();
    state
        .open(PathBuf::from("Engine.ini"), Ok::<(String, char), String>(("A=1".to_owned(), 'g')))
        .expect("open INI fixture");
    let write = |_path: &PathBuf, document: &(String, char), _plaintext: String, _key: char| {
        (document.clone(), Err::<(), String>("read only".to_owned()))
    };
    assert!(matches!(
        state.save(1, "A=2".to_owned(), 'g', &write),
        Err(EncryptedIniRuntimeError::Document(error)) if error == "read only"
    ));
    let shown = ini_shown(&state);
    assert_eq!((shown.generation, shown.plaintext.as_str()), (1, "A=1"));
}

#[test]
fn abyss_team_mutations_keep_each_prediction_line_explicit() {
    let mut teams: PredictionTeams<u32> = PredictionTeams::new();
    let mut revision = 0;
    let export = TeamExport { single: Some(12_345), upper: None, lower: None };

    assert!(teams.import_abyss_team(export, true, &mut revision));
    assert_eq!(teams.upper, Some(12_345));
    assert!(teams.lower.is_none());

    teams.swap_abyss_teams(&mut revision);
    assert!(teams.upper.is_none());
    assert_eq!(teams.lower, Some(12_345));

    teams.set_line(false, None, &mut revision);
    assert!(teams.upper.is_none());
    assert!(teams.lower.is_none());
    assert_eq!(revision, 3);
    teams.import_team_data(
        TeamExport { single: Some(1), upper: None, lower: Some(2) },
        &mut revision,
    );
    assert_eq!((teams.upper, teams.lower), (Some(1), Some(2)));
}

#[test]
fn initial_window_and_hud_projection_follow_loaded_config() {
    let mut config = standard_config();
    config.plain.on_top.always_on_top = false;
    config.plain.on_top.hud = false;
    config.plain.capture.passthrough_hotkey = Choice { index: 8 };
    config.hud.width = 512;
    config.hud.show_total_damage = false;
    let mut app = app_with(idle_live());
    app.settings = store_of(config);

    assert!(!app.settings.config.window_always_on_top(DesktopWindowKind::Hud));
    assert!(!app.passthrough_hotkey_ready);
    let shown = HudConfigSnapshot::from(&app.settings.config.hud, &sanitize_hud);
    assert_eq!(
        hud_initial_height(
            &app.settings.config.hud,
            app.passthrough,
            &has_summary_row,
            &module_visible
        ),
        (HUD_BASE_INITIAL_HEIGHT
            + HUD_SUMMARY_HEIGHT
            + HUD_CHARACTERS_HEIGHT
            + HUD_EDITOR_MODULE_HEADER_HEIGHT * 2)
            .max(HUD_EDITOR_MIN_HEIGHT)
    );
    assert_eq!(shown.width, 512);
    assert!(!shown.show_total_damage);
}

#[test]
fn passthrough_hotkey_readiness_is_runtime_only() {
    let mut app = app_with(idle_live());
    let initial = app.settings.presentation_revision;

    app.set_passthrough_hotkey_ready(true);

    assert!(app.passthrough_hotkey_ready);
    assert_eq!(app.settings.presentation_revision, initial);
    assert!(may_set_passthrough(true, true));
    assert!(!may_set_passthrough(true, false));
    assert!(may_set_passthrough(false, false));
}

#[test]
fn live_abyss_selection_follows_only_real_half_transitions() {
    assert_eq!(
        next_live_abyss_selection(None, None, Some(AbyssHalf::First)),
        (Some(AbyssHalf::First), Some(AbyssHalf::First))
    );
    assert_eq!(
        next_live_abyss_selection(
            Some(AbyssHalf::First),
            Some(AbyssHalf::First),
            Some(AbyssHalf::Second),
        ),
        (Some(AbyssHalf::Second), Some(AbyssHalf::Second))
    );
    assert_eq!(
        next_live_abyss_selection(
            Some(AbyssHalf::First),
            Some(AbyssHalf::Second),
            Some(AbyssHalf::Second),
        ),
        (Some(AbyssHalf::First), Some(AbyssHalf::Second))
    );
    assert_eq!(
        next_live_abyss_selection(Some(AbyssHalf::Second), Some(AbyssHalf::Second), None),
        (None, None)
    );
}

#[test]
fn detailed_hud_initial_height_reserves_optional_modules() {
    assert_eq!(
        hud_initial_height(&detailed_hud(), false, &has_summary_row, &module_visible),
        HUD_BASE_INITIAL_HEIGHT
            + HUD_SUMMARY_HEIGHT
            + HUD_CHARACTERS_HEIGHT
            + HUD_OPTIONAL_TITLE_HEIGHT
            + HUD_OPTIONAL_STATUS_HEIGHT
            + HUD_MINI_TIMELINE_HEIGHT
            + HUD_EDITOR_MODULE_HEADER_HEIGHT * 5
    );
}

#[test]
fn hidden_core_modules_keep_the_full_editor_height() {
    let config = standard_config()
        .with_module_visibility(HudModule::Summary, false, &set_visible)
        .with_module_visibility(HudModule::Characters, false, &set_visible);
    assert_eq!(
        hud_initial_height(&config.hud, false, &has_summary_row, &module_visible),
        HUD_EDITOR_MIN_HEIGHT
    );
}

#[test]
fn stream_revision_changes_only_when_presentation_state_changes() {
    let mut app = app_with(idle_live());
    let revision = |app: &AppState| {
        stream_revision(
            app.presentation.control.processing_paused,
            app.live.revision(),
            app.settings.presentation_revision,
        )
    };
    let initial = revision(&app);

    app.set_passthrough(false);
    let same = app.settings.config.with_window_on_top(DesktopWindowKind::Hud, true);
    assert!(!app
        .settings
        .update_ui_config(same, &sanitize, &accept)
        .expect("same-value always-on-top"));
    assert_eq!(revision(&app), initial);

    app.set_passthrough(true);
    assert_ne!(revision(&app), initial);
}

fn available() -> AvailableComponentUpdate {
    AvailableComponentUpdate {
        component: UpdateComponent::App,
        release_id: "release".to_owned(),
        version: "0.4.0".to_owned(),
        published_at: "2026-07-31T00:00:00Z".to_owned(),
        notes: "notes".to_owned(),
        artifact_url: "https://example.invalid/app.zip".to_owned(),
        artifact_size: 1_024,
        artifact_sha256: [7; 32],
    }
}

#[test]
fn settings_revision_tracks_async_update_status_changes() {
    let mut updates = UpdateRuntimeState::default();
    let mut revision = 4;

    updates.begin_update_check(&mut revision).expect("begin update check");

    assert!(revision > 4);
    assert_eq!(updates.progress.status.text(), "checking");
}

#[test]
fn update_runtime_projects_available_download_and_prepared_states() {
    let mut updates = UpdateRuntimeState::default();
    let mut revision = 0;

    updates.begin_update_check(&mut revision).expect("begin update check");
    updates.finish_update_check(vec![available()], &mut revision);
    assert_eq!(updates.progress.status.text(), "available");
    assert_eq!(updates.available[0].component, UpdateComponent::App);

    updates
        .begin_update_download(UpdateComponent::App, &mut revision)
        .expect("begin update download");
    updates.update_download_progress(UpdateComponent::App, 512, 1_024, &mut revision);
    assert_eq!(updates.progress.status.text(), "downloading");
    assert_eq!(updates.progress.downloaded_bytes, 512);

    updates.finish_update_download(
        PreparedUpdate { component: UpdateComponent::App, version: "0.4.0".to_owned() },
        &mut revision,
    );
    assert_eq!(updates.progress.status.text(), "ready");
    assert_eq!(
        updates.prepared.as_ref().map(|item| item.component),
        Some(UpdateComponent::App)
    );
    assert_eq!(
        install_blocked_message_key(
            Some(UpdateComponent::App),
            LiveCapturePhase::Idle,
            Ok(false)
        ),
        None
    );
}

#[test]
fn updates_go_one_step_at_a_time() {
    let mut updates = UpdateRuntimeState::default();
    let mut revision = 0;
    assert_eq!(
        updates.begin_update_install(&mut revision).err(),
        Some(UpdateActionError::NotPrepared)
    );
    assert_eq!(
        updates
            .begin_update_download(UpdateComponent::App, &mut revision)
            .err(),
        Some(UpdateActionError::Unavailable)
    );
    updates.begin_update_check(&mut revision).expect("begin update check");
    assert_eq!(
        updates.begin_update_check(&mut revision),
        Err(UpdateActionError::Busy)
    );
    updates.fail_update_check(
        "The official update channel is not configured in this build",
        &mut revision,
    );
    assert_eq!(updates.progress.status, UpdateStatus::NotConfigured);
    updates.begin_update_check(&mut revision).expect("begin update check");
    updates.fail_update_check("Update check failed.", &mut revision);
    assert_eq!(updates.progress.status, UpdateStatus::Error);
    updates.begin_update_check(&mut revision).expect("begin update check");
    updates.finish_update_check(Vec::new(), &mut revision);
    assert_eq!(updates.progress.status, UpdateStatus::UpToDate);
    updates.finish_update_check(vec![available()], &mut revision);
    updates
        .begin_update_download(UpdateComponent::App, &mut revision)
        .expect("begin update download");
    updates.update_download_progress(UpdateComponent::ModsPlugin, 9, 9, &mut revision);
    assert_eq!(updates.progress.downloaded_bytes, 0);
    updates.update_download_progress(UpdateComponent::App, 2_000, 1_024, &mut revision);
    assert_eq!(updates.progress.downloaded_bytes, 1_024);
    updates.fail_update_download(&mut revision);
    assert_eq!(updates.message_key, "Update download failed.");
    updates.finish_update_download(
        PreparedUpdate { component: UpdateComponent::ModsPlugin, version: "2".to_owned() },
        &mut revision,
    );
    assert_eq!(updates.message_key, "Mod loader {} is ready to install");
    let prepared = updates
        .begin_update_install(&mut revision)
        .expect("begin update install");
    assert_eq!(prepared.version, "2");
    updates.fail_update_install(&mut revision);
    assert_eq!(updates.message_key, "Update installation could not start.");
    updates.finish_plugin_update_install("2".to_owned(), &mut revision);
    assert!(!update_is_busy(updates.progress.status));
    assert_eq!(
        install_blocked_message_key(
            Some(UpdateComponent::App),
            LiveCapturePhase::Running,
            Ok(false)
        ),
        Some("Stop capture or replay before installing the update")
    );
    assert_eq!(
        install_blocked_message_key(
            Some(UpdateComponent::ModsPlugin),
            LiveCapturePhase::Idle,
            Ok(true)
        ),
        Some("Close HTGame.exe before installing the Mod loader update")
    );
}

#[test]
fn module_visibility_is_saved_before_the_projection_changes() {
    let mut store = store_of(standard_config());
    let initial = store.presentation_revision;
    let candidate = store.config.with_module_visibility(HudModule::Timeline, true, &set_visible);
    let (changed, saved) = saved_change(&mut store, candidate);
    assert!(changed);
    assert!(store.config.hud.show_mini_timeline);
    assert_ne!(store.presentation_revision, initial);
    assert!(saved.expect("saved UI config").hud.show_mini_timeline);

    let revision = store.presentation_revision;
    let same = store.config.with_module_visibility(HudModule::Timeline, true, &set_visible);
    let (changed, saved) = saved_change(&mut store, same);
    assert!(!changed && saved.is_none());
    assert_eq!(store.presentation_revision, revision);
}

#[test]
fn settings_hud_option_is_persisted_and_projected() {
    let mut store = store_of(standard_config());
    let candidate = store
        .config
        .with_hud_option(HudSettingOption::DamageTaken, true);
    let (changed, saved) = saved_change(&mut store, candidate);
    assert!(changed);
    assert!(store.config.hud.show_damage_taken);
    assert!(saved.expect("saved UI config").hud.show_damage_taken);
}

#[test]
fn settings_hud_preset_preserves_width_and_canonical_order() {
    let mut config = standard_config();
    config.hud.width = 620;
    config.hud.module_order = vec![
        HudModule::Timeline,
        HudModule::Characters,
        HudModule::Status,
        HudModule::Summary,
        HudModule::Title,
    ];
    let mut store = store_of(config);
    let candidate = store.config.with_hud_preset(&detailed_hud());
    let (changed, _) = saved_change(&mut store, candidate);
    assert!(changed);
    let shown = HudConfigSnapshot::from(&store.config.hud, &sanitize_hud);
    assert_eq!(shown.width, 620);
    assert_eq!(
        shown.module_order,
        [
            HudModuleSnapshot::Timeline,
            HudModuleSnapshot::Characters,
            HudModuleSnapshot::Status,
            HudModuleSnapshot::Summary,
            HudModuleSnapshot::Title,
        ]
    );
    assert!(shown.show_mini_timeline);
    assert!(shown.show_damage_taken);
}

#[test]
fn non_hud_settings_are_saved_and_projected_from_rust_state() {
    let mut store = store_of(standard_config());
    let candidate = store.config.with_interface(
        InterfaceSettings {
            language: Language::Japanese,
            dark_mode: true,
            theme_preset: Choice { index: 2 },
            accent: Choice { index: 3 },
            density: Choice { index: 1 },
            reduce_motion: true,
            island_notifications: false,
        },
        single(48.0),
    );
    assert!(saved_change(&mut store, candidate).0);
    let candidate = store.config.with_capture(
        "udp port 30196".to_owned(),
        Some("capture-device".to_owned()),
        CaptureSettings {
            server_damage_calibration: true,
            separate_reaction_damage: true,
            auto_round_after_idle: true,
            auto_round_idle_seconds: 45,
            dps_time_mode: DpsTimeMode::RealTime,
            passthrough_hotkey: Choice { index: 5 },
        },
    );
    let (changed, saved) = saved_change(&mut store, candidate);
    assert!(changed);
    let saved = saved.expect("saved UI config");
    assert_eq!(saved.plain.interface.language, Language::Japanese);
    assert!(saved.plain.interface.dark_mode && saved.plain.interface.reduce_motion);
    assert_eq!(saved.plain.interface.theme_preset, Choice { index: 2 });
    assert_eq!(saved.plain.interface.accent, Choice { index: 3 });
    assert_eq!(saved.capture_filter, "udp port 30196");
    assert_eq!(saved.manual_capture_device.as_deref(), Some("capture-device"));
    assert!(saved.plain.capture.separate_reaction_damage);
    assert_eq!(saved.plain.capture.auto_round_idle_seconds, 45);
    assert_eq!(saved.plain.capture.dps_time_mode, DpsTimeMode::RealTime);
    assert!(store.config.is_equal_to(&saved));

    let hotkeys = "toggle_capture=ctrl+shift+F8";
    let candidate = store.config.with_global_hotkeys(hotkeys.to_owned());
    let (changed, saved) = saved_change(&mut store, candidate);
    assert!(changed);
    assert_eq!(store.config.global_hotkeys, hotkeys);
    let saved = saved.expect("saved UI config");
    assert_eq!(saved.global_hotkeys, hotkeys);
    assert!(!store.config.is_equal_to(&saved.with_global_hotkeys(String::new())));

    let restored = AppState::new(saved, idle_live(), &sanitize);
    assert_eq!(restored.settings.config.capture_filter, "udp port 30196");
    assert_eq!(restored.settings.config.global_hotkeys, hotkeys);
}

#[test]
fn mod_studio_game_directory_survives_state_reload() {
    let mut store = store_of(standard_config());
    let candidate = store.config.with_mod_studio_game_directory(
        ModsPluginGameRegion::China,
        Some("D:\\CustomGame".to_owned()),
    );
    let (changed, saved) = saved_change(&mut store, candidate);
    assert!(changed);
    assert_eq!(
        store.config.mod_studio_game_directory(ModsPluginGameRegion::China),
        Some("D:\\CustomGame")
    );

    let mut restored = store_of(saved.expect("saved UI config"));
    assert_eq!(
        restored
            .config
            .mod_studio_game_directory(ModsPluginGameRegion::China),
        Some("D:\\CustomGame")
    );
    let cleared = restored
        .config
        .with_mod_studio_game_directory(ModsPluginGameRegion::China, None);
    saved_change(&mut restored, cleared);
    assert_eq!(
        restored
            .config
            .mod_studio_game_directory(ModsPluginGameRegion::China),
        None
    );
}

#[test]
fn module_order_is_saved_before_the_projection_changes() {
    let mut store = store_of(standard_config());
    let initial = store.presentation_revision;
    let candidate =
        store
            .config
            .with_module_moved(HudModule::Title, HudModule::Characters, true, &move_module);
    let (changed, saved) = saved_change(&mut store, candidate);
    assert!(changed);
    assert_ne!(store.presentation_revision, initial);
    let order = [
        HudModule::Summary,
        HudModule::Status,
        HudModule::Characters,
        HudModule::Title,
        HudModule::Timeline,
    ];
    assert_eq!(store.config.hud.module_order, order);
    assert_eq!(saved.expect("saved UI config").hud.module_order, order);

    let revision = store.presentation_revision;
    let same = store
        .config
        .with_module_moved(HudModule::Title, HudModule::Characters, true, &move_module);
    assert!(!saved_change(&mut store, same).0);
    assert_eq!(store.presentation_revision, revision);
}

#[test]
fn hud_width_is_sanitized_and_saved_before_projection_changes() {
    let mut store = store_of(standard_config());
    let initial = store.presentation_revision;
    let candidate = store.config.with_hud_width(u16::MAX);
    let (changed, saved) = saved_change(&mut store, candidate);
    assert!(changed);
    assert_eq!(store.config.hud.width, WIDTH_MAX);
    assert_ne!(store.presentation_revision, initial);
    assert_eq!(saved.expect("saved UI config").hud.width, WIDTH_MAX);
}

#[test]
fn always_on_top_is_saved_before_projection_changes() {
    let mut store = store_of(standard_config());
    let initial = store.presentation_revision;
    let candidate = store.config.with_window_on_top(DesktopWindowKind::Hud, false);
    let (changed, saved) = saved_change(&mut store, candidate);
    assert!(changed);
    assert!(!store.config.window_always_on_top(DesktopWindowKind::Hud));
    assert_ne!(store.presentation_revision, initial);
    let saved = saved.expect("saved UI config");
    assert!(!saved.plain.on_top.hud);
    assert!(!saved.plain.on_top.always_on_top);
    assert!(saved.plain.on_top.main_dps);

    let revision = store.presentation_revision;
    let same = store.config.with_window_on_top(DesktopWindowKind::Hud, false);
    assert!(!saved_change(&mut store, same).0);
    assert_eq!(store.presentation_revision, revision);
}

#[test]
fn desktop_window_always_on_top_preferences_are_independent() {
    let mut store = store_of(standard_config());
    let candidate = store
        .config
        .with_window_on_top(DesktopWindowKind::MainDps, false);
    assert!(saved_change(&mut store, candidate).0);
    let candidate = store
        .config
        .with_window_on_top(DesktopWindowKind::Console, true);
    let (changed, saved) = saved_change(&mut store, candidate);
    assert!(changed);

    assert!(!store.config.window_always_on_top(DesktopWindowKind::MainDps));
    assert!(store.config.window_always_on_top(DesktopWindowKind::Hud));
    assert!(store.config.window_always_on_top(DesktopWindowKind::Console));
    assert!(!store.config.window_always_on_top(DesktopWindowKind::AbyssValues));
    let saved = saved.expect("saved UI config");
    assert!(!saved.plain.on_top.main_dps);
    assert!(saved.plain.on_top.hud);
    assert!(saved.plain.on_top.console);
    assert!(!saved.plain.on_top.abyss_values);
}

#[test]
fn hud_window_position_is_saved_without_changing_projection_revision() {
    let mut store = store_of(standard_config());
    let initial = store.presentation_revision;
    let position = ScreenPoint { x: -1920, y: 84 };
    let written = RefCell::new(None);
    let save = |config: &UiConfig| -> Result<(), String> {
        *written.borrow_mut() = config.plain.hud_window_position;
        Ok(())
    };
    assert!(store
        .set_hud_window_position(position, &save)
        .expect("HUD position save"));
    assert_eq!(store.config.plain.hud_window_position, Some(position));
    assert_eq!(store.presentation_revision, initial);
    assert_eq!(written.into_inner(), Some(position));
    assert!(!store
        .set_hud_window_position(position, &refuse)
        .expect("same-value HUD position"));
}

#[test]
fn console_geometry_is_saved_without_publishing_combat_or_settings_state() {
    let mut store = store_of(standard_config());
    let candidate = store
        .config
        .with_console_window_geometry(pair(1180.0, 760.0), pair(-1920.0, 84.0));
    assert!(store
        .update_quietly(candidate, &sanitize, &accept)
        .expect("Console geometry save"));
    assert_eq!(store.config.measured.console_window_size, Some(pair(1180.0, 760.0)));
    assert_eq!(store.config.measured.console_window_position, Some(pair(-1920.0, 84.0)));
    assert_eq!(store.presentation_revision, 0);
    assert_eq!(store.settings_revision, 0);
    let same = store
        .config
        .with_console_window_geometry(pair(1180.0, 760.0), pair(-1920.0, 84.0));
    assert!(!store
        .update_quietly(same, &sanitize, &accept)
        .expect("same-value Console geometry"));
}

#[test]
fn combat_detail_columns_and_positions_persist_in_the_existing_ui_config() {
    let mut store = store_of(standard_config());
    let columns = HitDetailColumnsConfig {
        show_time: false,
        type_width: u16::MAX,
        ..store.config.plain.hit_detail_columns
    };
    let candidate = store.config.with_hit_detail_columns(columns);
    assert!(saved_change(&mut store, candidate).0);
    assert!(!store.config.plain.hit_detail_columns.show_time);
    assert_eq!(store.config.plain.hit_detail_columns.type_width, 600);

    let candidate = store.config.with_detail_window_geometry(
        pair(920.0, 640.0),
        pair(120.0, 80.0),
        MainDpsDetailKind::Team,
    );
    assert!(saved_change(&mut store, candidate).0);
    let candidate = store.config.with_detail_window_geometry(
        pair(840.0, 600.0),
        pair(240.0, 160.0),
        MainDpsDetailKind::Character,
    );
    let (changed, saved) = saved_change(&mut store, candidate);
    assert!(changed);
    assert_eq!(
        store
            .config
            .main_dps_detail_window_geometry(MainDpsDetailKind::Character),
        (Some(pair(840.0, 600.0)), Some(pair(240.0, 160.0)))
    );
    let saved = saved.expect("saved UI config").measured;
    assert_eq!(saved.team_hit_detail_window_position, Some(pair(120.0, 80.0)));
    assert_eq!(saved.hit_detail_window_position, Some(pair(240.0, 160.0)));
    assert_eq!(saved.team_hit_detail_window_size, Some(pair(920.0, 640.0)));
    assert_eq!(saved.hit_detail_window_size, Some(pair(840.0, 600.0)));
}

#[test]
fn failed_module_visibility_save_keeps_the_previous_projection() {
    let mut store = store_of(standard_config());
    let candidate = store.config.with_module_visibility(HudModule::Title, true, &set_visible);
    assert_eq!(
        store.update_ui_config(candidate, &sanitize, &refuse),
        Err("disk full".to_owned())
    );
    assert!(!store.config.hud.show_title);
    assert_eq!(store.presentation_revision, 0);
}

#[test]
fn failed_always_on_top_save_keeps_the_previous_projection() {
    let mut store = store_of(standard_config());
    let candidate = store.config.with_window_on_top(DesktopWindowKind::Hud, false);
    assert!(store.update_ui_config(candidate, &sanitize, &refuse).is_err());
    assert!(store.config.window_always_on_top(DesktopWindowKind::Hud));
    assert_eq!(store.presentation_revision, 0);
}

#[test]
fn failed_hud_window_position_save_keeps_the_previous_position() {
    let mut store = store_of(standard_config());
    assert!(store
        .set_hud_window_position(ScreenPoint { x: 120, y: 80 }, &refuse)
        .is_err());
    assert_eq!(store.config.plain.hud_window_position, None);
    assert_eq!(store.presentation_revision, 0);
}

#[test]
fn modules_move_next_to_their_target() {
    let config = standard_config().with_module_moved(HudModule::Timeline, HudModule::Title, false, &move_module);
    assert_eq!(config.hud.module_order[0], HudModule::Timeline);
    assert_eq!(config.hud.module_order[1], HudModule::Title);
    assert_eq!(config.hud.module_order.len(), 5);
    let shown = standard_config().with_module_visibility(HudModule::Status, true, &set_visible);
    assert!(shown.hud.show_abyss_half && shown.hud.show_passthrough_state);
    assert!(!shown.hud.show_title);
}

#[test]
fn deleted_history_undo_token_is_opaque_and_single_use() {
    let mut slot: UndoSlot<String> = UndoSlot::new();
    let token = slot.remember_deleted("history-record".to_owned(), 100);

    assert!(!token.contains("history-record"));
    assert_eq!(slot.take_deleted("other", 100), None);
    assert_eq!(
        slot.take_deleted(&token, 100).as_deref(),
        Some("history-record")
    );
    assert!(slot.take_deleted(&token, 100).is_none());
    let late = slot.remember_deleted("second".to_owned(), 100);
    assert_ne!(late, token);
    assert!(slot.take_deleted(&late, 101 + NOTICE_WINDOW).is_none());
}

#[test]
fn stale_island_dismiss_keeps_the_newer_notice() {
    let mut notices = IslandNotices::new();
    let stale_id = notices.publish_island_notice("info", "First notice", Vec::new(), None, 0);
    let current_id =
        notices.publish_island_notice("success", "Second notice", Vec::new(), None, 0);

    assert!(!notices.dismiss_island_notice(&stale_id));
    assert_eq!(
        notices.island_notice(0).map(|notice| notice.id.clone()),
        Some(current_id.clone())
    );
    assert!(notices.dismiss_island_notice(&current_id));
    assert!(notices.island_notice(0).is_none());
    notices.publish_island_notice("info", "Third notice", Vec::new(), None, 10);
    assert!(notices.island_notice(10 + NOTICE_WINDOW).is_some());
    assert!(notices.island_notice(11 + NOTICE_WINDOW).is_none());
}

#[test]
fn equipment_operations_wait_for_their_own_answer() {
    let mut operation = EmptyCurtainOperationState::new();
    assert_eq!(operation.status.text(), "idle");
    assert_eq!(operation.finish_submit(Ok(4)).ok(), Some(4));
    assert!(!operation.can_submit());
    assert!(matches!(
        operation.finish_submit(Ok(5)),
        Err(ModsPluginSubmitError::Busy)
    ));
    operation.refresh(LoaderNews::Answered(LoaderResponse { request_id: 3, status: Ok(0) }));
    assert_eq!(operation.status, OperationStatus::Pending);
    operation.refresh(LoaderNews::Answered(LoaderResponse { request_id: 4, status: Ok(7) }));
    assert_eq!(operation.status, OperationStatus::Error);
    assert_eq!(operation.message_arguments, vec!["7".to_owned()]);
    assert!(operation.can_submit());
    operation.finish_submit(Ok(5)).ok();
    operation.refresh(LoaderNews::Answered(LoaderResponse { request_id: 5, status: Ok(1) }));
    assert_eq!(operation.status, OperationStatus::Success);
    assert_eq!(
        operation.message_key,
        "Equipment request passed plugin dry-run validation"
    );
    operation.finish_submit(Ok(6)).ok();
    operation.refresh(LoaderNews::Disconnected);
    assert_eq!(operation.message_key, "Mod loader worker disconnected");
    operation.refresh(LoaderNews::Nothing);
    assert_eq!(operation.status, OperationStatus::Error);
}

#[test]
fn detail_pages_are_kept_for_their_keys() {
    let key = |offset: usize| MainDpsDetailCacheKey {
        revision: MainDpsStreamRevision {
            capture: 1,
            packet: 2,
            presentation: 3,
            history: 4,
            main: 5,
        },
        kind: MainDpsDetailKind::Team,
        request: MainDpsDetailRequest {
            character_id: None,
            filter: CombatDetailFilter::QteType("覆纹".to_owned()),
            skill_filter: Some("skill".to_owned()),
        },
        offset,
        limit: 50,
    };
    let mut cache = MainDpsDetailCache::new();
    for offset in 0..=MAIN_DPS_DETAIL_CACHE_CAPACITY {
        cache.store(key(offset), offset);
    }
    assert_eq!(cache.get(&key(0)), None);
    assert_eq!(cache.get(&key(1)), Some(&1));
    cache.store(key(1), 100);
    assert_eq!(cache.get(&key(1)), Some(&100));
    assert_eq!(cache.entries.len(), MAIN_DPS_DETAIL_CACHE_CAPACITY);
    let mut other = key(2);
    other.request.skill_filter = None;
    assert_eq!(cache.get(&other), None);
}

fn marker(session_generation: u64, packet_generation: u64) -> PacketStreamRevision {
    PacketStreamRevision {
        generation: 1,
        session_generation,
        packet_generation,
        observed_packet_count: 0,
    }
}

#[test]
fn packet_pages_are_brought_up_to_date_within_a_session() {
    assert_eq!(packet_cursor(Some(marker(1, 4)), marker(1, 9)), Some(4));
    assert_eq!(packet_cursor(Some(marker(1, 4)), marker(2, 9)), None);
    assert_eq!(packet_cursor(None, marker(1, 9)), None);
    let app = app_with(idle_live());
    let since = |_: &CombatState, _: PacketStreamRevision, _: usize, at: u64| {
        if at == 3 {
            None
        } else {
            Some(format!("since {at}"))
        }
    };
    let recent = |_: &CombatState, _: PacketStreamRevision, queued: usize| {
        format!("recent with {queued} queued")
    };
    let revision = app.live.packet_stream_revision();
    let after = |packet_generation: u64| PacketStreamRevision { packet_generation, ..revision };
    let page = |cursor: Option<PacketStreamRevision>| {
        packets_projection(&app.presentation, &app.live, 2, cursor, &since, &recent)
    };
    assert_eq!(page(Some(after(7))), (revision, false, "since 7".to_owned()));
    assert_eq!(page(Some(after(3))), (revision, true, "recent with 2 queued".to_owned()));
    assert_eq!(page(None), (revision, true, "recent with 2 queued".to_owned()));
}

#[test]
fn diagnostics_tell_a_capture_from_a_replay() {
    let mut app = app_with(live_with(&[5.0], CaptureQualitySource::Live));
    app.settings.config.plain.capture.server_damage_calibration = true;
    app.live.control.status.phase = LiveCapturePhase::Running;
    let reading =
        diagnostics_input(&app.live, &app.settings.config, Some("udp".to_owned()), Some(12));
    assert!(reading.capture_running && !reading.replay_running);
    assert_eq!(reading.hit_count, 1);
    assert_eq!(reading.active_capture_filter.as_deref(), Some("udp"));
    assert_eq!(reading.raw_packet_count, 12);
    assert!(reading.include_incoming && reading.server_damage_calibration);
    assert!(reading.last_diagnostic.is_none() && reading.manual_capture_device.is_none());
    app.live.control.replay_running = true;
    app.live.control.status.issue =
        Some(LiveCaptureIssue::Start(CoreErrorCode::CaptureDeviceNotFound));
    app.settings.config.manual_capture_device = Some("eth0".to_owned());
    app.settings.config.plain.capture.server_damage_calibration = false;
    let reading = diagnostics_input(&app.live, &app.settings.config, None, None);
    assert!(!reading.capture_running && reading.replay_running);
    assert!(!reading.server_damage_calibration);
    assert!(reading.active_capture_filter.is_none());
    assert_eq!(reading.raw_packet_count, 0);
    assert_eq!(reading.last_diagnostic.as_deref(), Some("Start(CaptureDeviceNotFound)"));
    assert_eq!(reading.manual_capture_device.as_deref(), Some("eth0"));
}

#[test]
fn diagnostics_name_every_issue() {
    for issue in [
        LiveCaptureIssue::Start(CoreErrorCode::NpcapNotFound),
        LiveCaptureIssue::Start(CoreErrorCode::GameProcessNotFound),
        LiveCaptureIssue::Start(CoreErrorCode::CaptureDeviceNotFound),
        LiveCaptureIssue::Start(CoreErrorCode::SystemProbeFailed),
        LiveCaptureIssue::Start(CoreErrorCode::CaptureAlreadyRunning),
        LiveCaptureIssue::Start(CoreErrorCode::CaptureNotRunning),
        LiveCaptureIssue::RuntimeWarning,
        LiveCaptureIssue::RuntimeError,
    ] {
        assert_eq!(issue.name(), format!("{issue:?}"));
    }
}

#[test]
fn only_the_hud_window_stops_a_capture_to_reset() {
    let mut app = app_with(idle_live());
    assert!(!app.is_busy());
    assert_eq!(hud_reset_stops("hud", &app).ok(), Some(false));
    app.live.control.status.phase = LiveCapturePhase::Stopping;
    assert!(app.is_busy());
    assert_eq!(hud_reset_stops("hud", &app).ok(), Some(true));
    assert!(matches!(
        hud_reset_stops("console", &app),
        Err(HudCommandError::InvalidWindow)
    ));
    app.live.control.status.phase = LiveCapturePhase::Failed;
    assert_eq!(hud_reset_stops("hud", &app).ok(), Some(false));
    app.live.control.replay_running = true;
    assert_eq!(hud_reset_stops("hud", &app).ok(), Some(true));
}

#[test]
fn starts_are_refused_before_anything_is_done() {
    let mut app = app_with(live_with(&[5.0], CaptureQualitySource::Live));
    assert!(app.capture_start_refusal(true).is_none());
    let refusal = app.capture_start_refusal(false).expect("the session has data");
    assert_eq!(
        refusal.message,
        "starting capture requires confirmation before replacing the current session"
    );
    assert!(hud_start_refusal("hud", &app).is_none());
    assert!(matches!(
        hud_start_refusal("main-dps", &app),
        Some(HudCommandError::InvalidWindow)
    ));
    app.replay_import_reserved = true;
    assert!(matches!(
        hud_start_refusal("hud", &app),
        Some(HudCommandError::Core(error))
            if error.code == CoreErrorCode::CaptureAlreadyRunning
                && error.message == "a replay import dialog is active"
    ));
}

#[test]
fn sessions_with_items_have_something_to_export() {
    let mut state = CombatState::default();
    assert!(!session_has_data(&state) && !has_exportable_state(&state));
    state.battle.abyss.active = true;
    assert!(session_has_data(&state) && !has_exportable_state(&state));
    assert!(has_exportable_state(&session(&[1.0])));
}

#[test]
fn halves_that_were_chosen_stay_until_the_next_half() {
    let mut presentation = PresentationState::new();
    assert_eq!(
        presentation.follow_live_abyss_half(Some(AbyssHalf::First)),
        Some(AbyssHalf::First)
    );
    presentation.set_main_selected_abyss_half(Some(AbyssHalf::Second));
    assert_eq!(
        presentation.follow_live_abyss_half(Some(AbyssHalf::First)),
        Some(AbyssHalf::Second)
    );
    assert_eq!(presentation.follow_live_abyss_half(None), None);
}

fn position_of(
    monitor: (i32, i32, u32),
    window_width: u32,
    scale: f64,
    offset: f64,
) -> (i32, i32) {
    let (x, y) = island_physical_position(
        MonitorArea {
            x: double(f64::from(monitor.0)),
            y: double(f64::from(monitor.1)),
            width: double(f64::from(monitor.2)),
        },
        double(f64::from(window_width)),
        double(scale),
        double(offset),
        &ops,
    );
    (number(x).round() as i32, number(y).round() as i32)
}

#[test]
fn centers_island_against_the_monitor_not_an_app_window() {
    assert_eq!(position_of((0, 0, 1920), 440, 1.0, 0.0), (740, 10));
}

#[test]
fn preserves_logical_island_size_across_monitor_dpi() {
    let size = |scale: f64| {
        let (width, height) = island_physical_size(double(scale), &ops);
        (number(width).round() as u32, number(height).round() as u32)
    };
    assert_eq!(size(1.0), (440, 76));
    assert_eq!(size(1.5), (660, 114));
}

#[test]
fn keeps_secondary_monitor_origin_and_dpi_scale() {
    assert_eq!(position_of((-2560, 120, 2560), 660, 1.5, 20.0), (-1580, 135));
}

#[test]
fn clamps_large_offsets_inside_screen_edges() {
    assert_eq!(position_of((0, 0, 1920), 440, 1.0, 5000.0), (1468, 10));
}

#[test]
fn native_reveal_fallback_only_targets_finished_main_page() {
    assert!(should_reveal_after_page_load("main-dps", PageLoadEvent::Finished));
    assert!(!should_reveal_after_page_load("main-dps", PageLoadEvent::Started));
    assert!(!should_reveal_after_page_load("console", PageLoadEvent::Finished));
    assert!(validate_window("hud", "hud"));
    assert!(!validate_window("hud", "console"));
}

#[test]
fn opacity_is_reasserted_for_native_window_changes() {
    assert!(native_window_event_may_reset_opacity(NativeWindowEvent::Moved));
    assert!(native_window_event_may_reset_opacity(NativeWindowEvent::Resized));
    assert!(native_window_event_may_reset_opacity(NativeWindowEvent::Focused(true)));
    assert!(!native_window_event_may_reset_opacity(NativeWindowEvent::Focused(false)));
}

#[test]
fn minimized_windows_sentinel_is_not_restored() {
    assert_eq!(
        restorable_main_window_position(Some(pair(-16_000.0, -16_000.0))),
        None
    );
    assert_eq!(
        restorable_main_window_position(Some(pair(-1920.0, 84.0))),
        Some(pair(-1920.0, 84.0))
    );
    assert_eq!(restorable_main_window_position(Some(pair(f32::NAN, 84.0))), None);
}

#[test]
fn transient_minimized_or_maximized_geometry_is_not_persisted() {
    assert!(should_persist_geometry(false, false));
    assert!(!should_persist_geometry(true, false));
    assert!(!should_persist_geometry(false, true));
}

#[test]
fn previous_tauri_default_height_moves_to_the_compact_baseline() {
    assert_eq!(
        migrate_legacy_default_size(pair(670.0, 692.0)),
        pair(670.0, 560.0)
    );
    assert_eq!(migrate_legacy_default_size(pair(720.0, 640.0)), pair(720.0, 640.0));
}

#[test]
fn notices_are_shown_where_the_user_looks() {
    let sight = |focused: bool, visible: bool, monitor: Option<u32>| WindowSight {
        focused,
        visible,
        monitor,
    };
    let windows = vec![sight(false, true, Some(1)), sight(true, true, Some(2))];
    assert_eq!(notice_monitor(&windows, Some(3), Some(4)), Some(2));
    let windows = vec![sight(true, false, None), sight(false, true, Some(1))];
    assert_eq!(notice_monitor(&windows, Some(3), Some(4)), Some(1));
    assert_eq!(notice_monitor(&Vec::new(), Some(3), Some(4)), Some(3));
    assert_eq!(notice_monitor(&Vec::new(), None, Some(4)), Some(4));
}

#[test]
fn capture_file_refresh_advances_settings_generation() {
    let mut store = store_of(standard_config());
    let generation = store.settings_revision;

    store.refresh_capture_file_stats();

    assert!(store.settings_revision > generation);
    assert_eq!(store.presentation_revision, 0);
}

#[test]
fn capture_devices_that_cannot_be_found_stay_as_they_are() {
    let mut store = store_of(standard_config());
    let mut devices = vec!["first".to_owned()];
    assert_eq!(
        store.refresh_capture_devices(&mut devices, Err("no driver".to_owned())),
        Err("no driver".to_owned())
    );
    assert_eq!(devices, ["first".to_owned()]);
    assert_eq!(store.settings_revision, 0);
    let found: Result<Vec<String>, String> = Ok(vec!["second".to_owned()]);
    assert!(store.refresh_capture_devices(&mut devices, found).is_ok());
    assert_eq!(devices, ["second".to_owned()]);
    assert_eq!(store.settings_revision, 1);
}

#[test]
fn programs_start_with_valid_settings_and_the_live_session() {
    let mut config = standard_config();
    config.hud.width = u16::MAX;
    let app = AppState::new(config, live_with(&[3.0], CaptureQualitySource::Live), &sanitize);
    assert_eq!(app.settings.config.hud.width, WIDTH_MAX);
    assert_eq!(app.settings.settings_revision, 0);
    assert_eq!(damage_of(app.presentation.presented(&app.live.state)), 3.0);
    assert!(!app.passthrough && !app.passthrough_hotkey_ready);
    assert!(app.session_undo.entry.is_none());
}

#[test]
fn commands_are_for_the_hud_window_alone() {
    let mut app = app_with(live_with(&[5.0], CaptureQualitySource::Live));
    let mut notices = IslandNotices::new();
    assert!(matches!(
        start_hud_capture("main", &mut app, &mut notices, Ok(()), Ok(()), 0),
        Err(HudCommandError::InvalidWindow)
    ));
    assert!(matches!(
        stop_hud_capture("main", &mut app, &mut notices, Ok(()), 0),
        Err(HudCommandError::InvalidWindow)
    ));
    assert!(matches!(
        reset_hud_session("main", &mut app, &mut notices, None, 0),
        Err(HudCommandError::InvalidWindow)
    ));
    assert!(matches!(
        set_hud_passthrough("main", false, "F8".to_owned(), &mut app, &mut notices, 0),
        Err(HudCommandError::InvalidWindow)
    ));
    assert!(matches!(
        set_hud_always_on_top("main", false, &mut app, &mut notices, &sanitize, &accept, 0),
        Err(HudCommandError::InvalidWindow)
    ));
    assert!(matches!(
        set_hud_module_visibility(
            "main",
            HudModule::Title,
            true,
            &mut app,
            &set_visible,
            &sanitize,
            &accept
        ),
        Err(HudCommandError::InvalidWindow)
    ));
    assert!(matches!(
        set_hud_width("main", 400, &mut app, &sanitize, &accept),
        Err(HudCommandError::InvalidWindow)
    ));
    assert!(matches!(
        move_hud_module(
            "main",
            HudModule::Title,
            HudModule::Characters,
            true,
            &mut app,
            &move_module,
            &sanitize,
            &accept
        ),
        Err(HudCommandError::InvalidWindow)
    ));
    assert!(notices.current.is_none());
    assert_eq!(app.settings.settings_revision, 0);
    assert_eq!(damage_of(&app.live.state), 5.0);
}

#[test]
fn captures_are_started_and_stopped_from_the_hud() {
    let mut app = app_with(live_with(&[5.0], CaptureQualitySource::Live));
    let mut notices = IslandNotices::new();
    assert!(matches!(
        stop_hud_capture("hud", &mut app, &mut notices, Ok(()), 0),
        Err(HudCommandError::Core(error)) if error.code == CoreErrorCode::CaptureNotRunning
    ));
    assert!(notices.current.is_none());

    start_hud_capture("hud", &mut app, &mut notices, Ok(()), Ok(()), 7).expect("a capture starts");
    assert_eq!(app.live.status().phase, LiveCapturePhase::Starting);
    let notice = notices.current.clone().expect("a notice");
    assert_eq!(notice.message_key, "Starting live capture...");
    assert_eq!(notice.tone, "status");
    assert_eq!(notice.expires_at, 7 + NOTICE_WINDOW);

    assert!(matches!(
        start_hud_capture("hud", &mut app, &mut notices, Ok(()), Ok(()), 8),
        Err(HudCommandError::Core(error)) if error.code == CoreErrorCode::CaptureAlreadyRunning
    ));
    assert_eq!(notices.revision, 1);

    let action = stop_hud_capture("hud", &mut app, &mut notices, Ok(()), 9).expect("it stops");
    assert!(!action.stop_replay && !action.spawn_stop_worker);
    assert_eq!(app.live.status().phase, LiveCapturePhase::Stopping);
    let notice = notices.current.clone().expect("a notice");
    assert_eq!(notice.message_key, "Stopping live capture...");

    app.live.control.status.phase = LiveCapturePhase::Running;
    assert!(matches!(
        stop_hud_capture("hud", &mut app, &mut notices, Err("no thread".to_owned()), 10),
        Err(HudCommandError::Core(error)) if error.code == CoreErrorCode::SystemProbeFailed
    ));
    assert_eq!(app.live.status().phase, LiveCapturePhase::Failed);
    assert_eq!(notices.revision, 2);
}

#[test]
fn sessions_are_reset_from_the_hud() {
    let mut app = app_with(live_with(&[5.0], CaptureQualitySource::Live));
    let mut notices = IslandNotices::new();
    assert!(matches!(
        reset_hud_session("hud", &mut app, &mut notices, Some(Err(stop_timed_out())), 0),
        Err(HudCommandError::Core(error)) if error.code == CoreErrorCode::SystemProbeFailed
    ));
    assert_eq!(damage_of(&app.live.state), 5.0);

    reset_hud_session("hud", &mut app, &mut notices, None, 0).expect("the session is reset");
    assert!(!session_has_data(&app.live.state));
    let notice = notices.current.clone().expect("a notice");
    assert_eq!(notice.message_key, "Session reset \u{b7} use Undo within 5 seconds");
    let token = notice.undo_token.expect("an undo token");
    assert_eq!(token, "session-undo-0000000000000001");
    app.undo_session_reset(&token, 1).expect("the session comes back");
    assert_eq!(damage_of(&app.live.state), 5.0);

    reset_hud_session("hud", &mut app, &mut notices, Some(Ok(())), 2).expect("reset");
    let notice = notices.current.clone().expect("a notice");
    assert_eq!(notice.message_key, "Stats reset");
    assert!(notice.undo_token.is_none());
    assert!(app.session_undo.entry.is_none());
}

#[test]
fn clicks_go_through_only_with_a_way_back() {
    let mut app = app_with(idle_live());
    let mut notices = IslandNotices::new();
    assert!(matches!(
        set_hud_passthrough("hud", true, "F8".to_owned(), &mut app, &mut notices, 0),
        Err(HudCommandError::HotkeyUnavailable)
    ));
    assert!(!app.passthrough);
    app.set_passthrough_hotkey_ready(true);
    set_hud_passthrough("hud", true, "F8".to_owned(), &mut app, &mut notices, 0)
        .expect("clicks go through");
    assert!(app.passthrough);
    let notice = notices.current.clone().expect("a notice");
    assert_eq!(notice.message_key, "HUD passthrough on; press {} to enter edit mode");
    assert_eq!(notice.message_arguments, ["F8".to_owned()]);
    set_hud_passthrough("hud", false, "F8".to_owned(), &mut app, &mut notices, 0)
        .expect("the HUD can be edited");
    let notice = notices.current.clone().expect("a notice");
    assert_eq!(
        notice.message_key,
        "HUD edit mode on; press {} to return to game passthrough"
    );
    assert_eq!(app.settings.presentation_revision, 2);
}

#[test]
fn hud_settings_are_changed_from_the_hud() {
    let mut app = app_with(idle_live());
    let mut notices = IslandNotices::new();
    assert!(matches!(
        set_hud_always_on_top("hud", false, &mut app, &mut notices, &sanitize, &refuse, 0),
        Err(HudCommandError::HudConfigSaveFailed)
    ));
    assert!(app.settings.config.plain.on_top.hud && notices.current.is_none());
    assert!(matches!(
        set_hud_always_on_top("hud", false, &mut app, &mut notices, &sanitize, &accept, 0),
        Ok(true)
    ));
    assert!(!app.settings.config.plain.on_top.hud);
    let notice = notices.current.clone().expect("a notice");
    assert_eq!(notice.message_key, "Always-on-top disabled");

    assert!(matches!(
        set_hud_module_visibility(
            "hud",
            HudModule::Title,
            true,
            &mut app,
            &set_visible,
            &sanitize,
            &accept
        ),
        Ok(true)
    ));
    assert!(app.settings.config.hud.show_title);
    assert!(matches!(
        set_hud_module_visibility(
            "hud",
            HudModule::Title,
            true,
            &mut app,
            &set_visible,
            &sanitize,
            &accept
        ),
        Ok(false)
    ));

    assert!(matches!(
        set_hud_width("hud", u16::MAX, &mut app, &sanitize, &accept),
        Ok(true)
    ));
    assert_eq!(app.settings.config.hud.width, WIDTH_MAX);

    let order = app.settings.config.hud.module_order.clone();
    assert!(matches!(
        move_hud_module(
            "hud",
            order[0],
            order[2],
            true,
            &mut app,
            &move_module,
            &sanitize,
            &accept
        ),
        Ok(true)
    ));
    assert_eq!(
        app.settings.config.hud.module_order[..3],
        [order[1], order[2], order[0]]
    );
}

#[test]
fn rounds_are_selected_by_their_ids() {
    let mut state = PresentationState::new();
    let entry = |id: &str, has_details| HistoryRoundIndex {
        path: format!("{id}.json"),
        id: id.to_owned(),
        display_time: "now".to_owned(),
        abyss_floor: None,
        has_details,
    };
    let index = vec![entry("plain", false), entry("full", true)];
    let load = |round: &HistoryRoundIndex| -> Option<CombatState> {
        if round.id == "full" {
            Some(session(&[9.0]))
        } else {
            None
        }
    };
    let fail = |_round: &HistoryRoundIndex| -> Option<CombatState> { None };
    let live = session(&[1.0]);
    assert!(state
        .set_main_selected_round_id(Some("plain".to_owned()), &index, 0, &load)
        .is_err());
    assert!(state
        .set_main_selected_round_id(Some("full".to_owned()), &index, 0, &fail)
        .is_err());
    assert_eq!(damage_of(state.presented(&live)), 1.0);
    assert!(state
        .set_main_selected_round_id(Some("full".to_owned()), &index, 0, &load)
        .is_ok());
    assert_eq!(damage_of(state.presented(&live)), 9.0);
    assert_eq!(state.main_selected_round_id(0), Some("full".to_owned()));
    assert!(state.set_main_selected_round_id(None, &index, 0, &load).is_ok());
    assert_eq!(damage_of(state.presented(&live)), 1.0);
}

#[test]
fn current_teams_are_taken_over_line_by_line() {
    let mut app = app_with(live_with(&[7.0], CaptureQualitySource::Live));
    app.settings.config.plain.capture.separate_reaction_damage = true;
    let mut teams: PredictionTeams<u32> = PredictionTeams::new();
    let offer = |single, upper, lower| {
        move |state: &CombatState,
              subtract: bool,
              separate: bool,
              imported_upper: Option<&u32>,
              imported_lower: Option<&u32>| {
            assert_eq!(damage_of(state), 7.0);
            assert!(subtract && separate);
            assert!(imported_upper.is_none() && imported_lower.is_none());
            Some(TeamExport { single, upper, lower })
        }
    };
    let nothing = |_: &CombatState, _: bool, _: bool, _: Option<&u32>, _: Option<&u32>| None;
    assert!(!app.import_current_abyss_team(&mut teams, true, &nothing));
    app.live.state.battle.abyss.active = true;
    assert!(!app.import_current_abyss_team(&mut teams, true, &offer(Some(1), None, None)));
    assert_eq!(app.settings.settings_revision, 0);
    assert_eq!(app.current_abyss_team(false, &offer(Some(1), None, Some(2))), Some(2));
    assert!(app.import_current_abyss_team(&mut teams, false, &offer(Some(1), None, Some(2))));
    assert_eq!((teams.upper, teams.lower), (None, Some(2)));
    assert_eq!(app.settings.settings_revision, 1);
    app.live.state.battle.abyss.active = false;
    assert!(app.import_current_abyss_team(&mut teams, true, &offer(Some(3), None, None)));
    let mut revision = app.settings.settings_revision;
    teams.swap_abyss_teams(&mut revision);
    assert_eq!((teams.upper, teams.lower, revision), (Some(2), Some(3), 3));

    let together = |_: &CombatState, _: bool, _: bool, upper: Option<&u32>, lower: Option<&u32>| {
        Some(TeamExport { single: None, upper: upper.copied(), lower: lower.copied() })
    };
    let exported = app.export_team_data(&teams, &together).expect("an export");
    assert_eq!((exported.upper, exported.lower), (Some(2), Some(3)));
}

#[test]
fn exports_follow_the_settings() {
    let mut config = standard_config();
    let network = CaptureExportNetwork {
        pid: 4,
        local_ip: "10.0.0.2".to_owned(),
        remote_ip: "10.0.0.3".to_owned(),
        remote_port: 30196,
    };
    let options = capture_export_options(&config, Some(network));
    assert_eq!(options.game_network.map(|network| network.remote_port), Some(30196));
    assert_eq!(options.filter, "udp");
    assert!(options.include_incoming);
    assert!(matches!(options.dps_time_mode, DpsTimeBasis::SubtractTimeStop));
    config.plain.capture.dps_time_mode = DpsTimeMode::RealTime;
    assert!(matches!(
        capture_export_options(&config, None).dps_time_mode,
        DpsTimeBasis::WallClock
    ));
}

#[test]
fn main_window_opens_at_a_usable_size() {
    let place = restored_geometry(Some(pair(100.0, 900.0)), Some(pair(10.0, 20.0)));
    assert_eq!(place.size, Some(pair(420.0, 900.0)));
    assert_eq!(place.position, Some(pair(10.0, 20.0)));
    let place = restored_geometry(Some(pair(f32::NAN, -3.0)), Some(pair(-32_000.0, -32_000.0)));
    assert_eq!(place.size, Some(pair(420.0, 360.0)));
    assert_eq!(place.position, None);
    assert_eq!(restored_geometry(None, None).size, None);
}

#[test]
fn round_lists_are_read_once_for_every_change_of_the_archive() {
    let mut cache = MainRoundCache::new();
    let mut presentation = PresentationState::new();
    let reads = RefCell::new(0);
    let entry = |id: &str| HistoryRoundIndex {
        path: format!("{id}.json"),
        id: id.to_owned(),
        display_time: "now".to_owned(),
        abyss_floor: Some(3),
        has_details: true,
    };
    let load = || {
        *reads.borrow_mut() += 1;
        vec![entry(&format!("round-{}", reads.borrow()))]
    };
    let index = cache.main_round_index(&mut presentation, 7, 0, &load);
    assert_eq!(index[0].id, "round-1");
    presentation.set_main_selected_round(
        Some(SelectedRoundPresentation {
            record_id: "round-1".to_owned(),
            state: session(&[2.0]),
        }),
        0,
    );
    let index = cache.main_round_index(&mut presentation, 7, 0, &load);
    assert_eq!(index[0].id, "round-1");
    assert!(presentation.selected_round.is_some());
    let revision = presentation.control.main_revision;
    let index = cache.main_round_index(&mut presentation, 8, 0, &load);
    assert_eq!(index[0].id, "round-2");
    assert!(presentation.selected_round.is_none());
    assert_eq!(presentation.control.main_revision, revision + 1);
    assert_eq!(reads.into_inner(), 2);
}

#[test]
fn notices_stay_away_where_they_are_switched_off() {
    let windows = vec![WindowSight { focused: true, visible: true, monitor: Some(4) }];
    assert_eq!(notice_target(false, &windows, Some(1), None), NoticeTarget::Silent);
    assert_eq!(
        notice_target(true, &windows, Some(1), None),
        NoticeTarget::Show { monitor: Some(4) }
    );
    assert_eq!(
        notice_target(true, &Vec::new(), None, None),
        NoticeTarget::Show { monitor: None }
    );
}

#[test]
fn diagnostics_follow_the_capture_and_the_packets() {
    let mut live = idle_live();
    live.control.revision = 4;
    live.control.packet_revision = 5;
    assert_eq!(diagnostics_revision(&live, 6), (4, 5, 6));
}

#[test]
fn timelines_are_drawn_of_the_presented_session() {
    let mut app = app_with(live_with(&[1.0], CaptureQualitySource::Live));
    let outgoing = app.live.outgoing_hit_revision();
    app.settings.config.measured.timeline_bucket_seconds = single(2.5);
    app.presentation.set_main_selected_round(
        Some(SelectedRoundPresentation {
            record_id: "round".to_owned(),
            state: session(&[125.0]),
        }),
        outgoing,
    );
    let asked = |state: &CombatState, scope: TimelineScope, seconds: Double, subtract: bool| {
        assert_eq!(scope, TimelineScope::Second);
        assert_eq!(number(seconds), 2.5);
        assert!(subtract);
        read(state, scope, seconds, subtract)
    };
    let chart = app.timeline_projection(TimelineScope::Second, &asked, &width, &ops);
    assert_eq!(number(chart.total_damage), 125.0);
    assert_eq!(number(chart.bucket_seconds), 2.5);

    app.live.control.outgoing_hit_revision += 1;
    let chart = app.timeline_projection(TimelineScope::Whole, &read, &width, &ops);
    assert_eq!(number(chart.total_damage), 1.0);
    assert!(app.presentation.selected_round.is_none());
}

#[test]
fn selected_round_drives_timeline_and_skills_projection_input() {
    let mut app = app_with(live_with(&[5.0], CaptureQualitySource::Live));
    app.settings.config.plain.interface.language = Language::English;
    let outgoing = app.live.outgoing_hit_revision();
    let index = vec![HistoryRoundIndex {
        path: "selected.json".to_owned(),
        id: "selected-round".to_owned(),
        display_time: "now".to_owned(),
        abyss_floor: None,
        has_details: true,
    }];
    let load = |_entry: &HistoryRoundIndex| Some(session(&[125.0]));
    app.presentation
        .set_main_selected_round_id(Some("selected-round".to_owned()), &index, outgoing, &load)
        .expect("selected round combat state");

    let timeline = app.timeline_projection(TimelineScope::Whole, &read, &width, &ops);
    let skills = app.skills_projection(
        TimelineScope::Whole,
        &|state: &CombatState, characters: &HashMap<u32, CharacterInfo>, scope, language| {
            assert_eq!(scope, TimelineScope::Whole);
            assert_eq!(language, Language::English);
            assert!(characters.is_empty());
            state.battle.team.total_damage
        },
    );

    assert_eq!(number(timeline.total_damage), 125.0);
    assert_eq!(number(skills), 125.0);
    assert!(app
        .presentation
        .set_main_selected_round_id(Some("other-round".to_owned()), &index, outgoing, &load)
        .is_err());
}

#[test]
fn the_main_window_follows_the_played_half_only_while_it_is_live() {
    let mut app = app_with(live_with(&[5.0], CaptureQualitySource::Live));
    app.live.state.battle.abyss.active = true;
    app.live.state.battle.abyss.active_half = Some(AbyssHalf::Second);
    let readout =
        |app: &mut AppState, round: Option<&str>| {
            app.main_dps_readout(round, &detailed_hud(), &series, &sanitize_hud, &width, &ops)
        };
    readout(&mut app, Some("round"));
    assert_eq!(app.presentation.control.selected_abyss_half, None);
    readout(&mut app, None);
    assert_eq!(app.presentation.control.selected_abyss_half, Some(AbyssHalf::Second));
    app.set_main_processing_paused(true, &CombatState::clone);
    app.presentation.paused.as_mut().expect("a frozen session").state.battle.abyss.active_half =
        Some(AbyssHalf::First);
    readout(&mut app, None);
    assert_eq!(app.presentation.control.selected_abyss_half, Some(AbyssHalf::Second));
}

#[test]
fn snapshots_and_pages_are_numbered_in_turn() {
    let mut app = app_with(live_with(&[5.0], CaptureQualitySource::Live));
    let snapshot = app.snapshot(&series, &sanitize_hud, &width, &ops);
    assert_eq!(snapshot.sequence, "1");
    assert_eq!(snapshot.hud.config.width, 360);
    let mut pages = DetailPages::new();
    let names = DisplayNames {
        abilities: AbilityNames::empty(),
        skill_labels: NameTable::empty(),
        translations: NameTable::empty(),
    };
    let page = pages.page(
        &mut app,
        MainDpsDetailKind::Team,
        0,
        10,
        &names,
        &HashMap::new(),
        &absent_duration,
        &unknown_share,
        &ops,
    );
    assert_eq!(page.generation, "2");
    assert_eq!(app.snapshot(&series, &sanitize_hud, &width, &ops).sequence, "3");
}

#[test]
fn replays_are_read_as_the_settings_say() {
    let mut app = app_with(idle_live());
    app.settings.config.plain.capture.server_damage_calibration = true;
    let options = app.replay_options(Some("10.0.0.2".to_owned()));
    assert_eq!(options.local_ip_hint.as_deref(), Some("10.0.0.2"));
    assert!(options.include_incoming && options.server_damage_calibration);
}

#[test]
fn settings_change_one_by_one() {
    let config = standard_config();
    let changed = config.with_main_appearance(true, single(0.5));
    assert!(changed.plain.interface.dark_mode);
    assert_eq!(changed.measured.opacity, single(0.5));
    let changed = changed.with_density(Choice { index: 2 });
    assert_eq!(changed.plain.interface.density, Choice { index: 2 });
    let changed = changed.with_update_settings(false, true);
    assert!(!changed.plain.auto_check_updates && changed.plain.auto_download_updates);
    let changed = changed.with_onboarding_done(true);
    assert!(changed.plain.onboarding_done);
    let changed = changed.with_main_window_geometry(Some(pair(1.0, 2.0)), None);
    assert_eq!(changed.measured.main_window_size, Some(pair(1.0, 2.0)));
    assert_eq!(changed.measured.main_window_position, None);
    let changed = changed.with_abyss_window_geometry(pair(3.0, 4.0), pair(5.0, 6.0));
    assert_eq!(changed.measured.abyss_window_size, Some(pair(3.0, 4.0)));
    assert_eq!(changed.measured.abyss_window_position, Some(pair(5.0, 6.0)));
    let changed = changed.with_timeline_preferences(single(0.25), Choice { index: 1 });
    assert_eq!(changed.measured.timeline_bucket_seconds, single(0.25));
    assert_eq!(changed.plain.timeline_dps_view_mode, Choice { index: 1 });
    assert!(changed.plain.interface.dark_mode && changed.plain.onboarding_done);
    assert_eq!(changed.capture_filter, "udp");
}

#[test]
fn detail_pages_have_a_request_of_their_own() {
    let mut presentation = PresentationState::new();
    let request = MainDpsDetailRequest {
        character_id: Some(7),
        filter: CombatDetailFilter::All,
        skill_filter: Some("Skill".to_owned()),
    };
    presentation.set_main_dps_detail_request(MainDpsDetailKind::Team, request);
    let team = presentation.main_dps_detail_request(MainDpsDetailKind::Team);
    assert_eq!(team.character_id, Some(7));
    assert_eq!(team.skill_filter.as_deref(), Some("Skill"));
    let character = presentation.main_dps_detail_request(MainDpsDetailKind::Character);
    assert_eq!(character.character_id, None);
}

#[test]
fn archives_have_a_marker() {
    let mut history = HistoryService::new();
    history.bump_history_revision();
    assert_eq!(history.revision, 1);
}

#[test]
fn detail_pages_are_drawn_once() {
    let mut app = app_with(live_with(&[5.0, 7.0], CaptureQualitySource::Live));
    let mut pages = DetailPages::new();
    let names = DisplayNames {
        abilities: AbilityNames::empty(),
        skill_labels: NameTable::empty(),
        translations: NameTable::empty(),
    };
    let catalog = HashMap::new();
    let kind = MainDpsDetailKind::Team;
    let page = pages.page(&mut app, kind, 0, 10, &names, &catalog, &absent_duration, &unknown_share, &ops);
    assert_eq!(page.generation, "1");
    assert_eq!(page.total_hits, 2);
    assert_eq!(number(page.total_damage), 12.0);
    assert!(page.actions.can_start_capture);
    assert_eq!(page.hit_types[2].id, "incoming");
    let page = pages.page(&mut app, kind, 0, 10, &names, &catalog, &absent_duration, &unknown_share, &ops);
    assert_eq!(page.generation, "1");
    let page = pages.page(&mut app, kind, 1, 10, &names, &catalog, &absent_duration, &unknown_share, &ops);
    assert_eq!(page.generation, "2");
    assert_eq!(page.rows.len(), 1);
    app.live.control.revision += 1;
    let page = pages.page(&mut app, kind, 0, 10, &names, &catalog, &absent_duration, &unknown_share, &ops);
    assert_eq!(page.generation, "3");
    assert_eq!(app.sequence, 3);
}

#[test]
fn turning_pages_shows_every_listed_hit() {
    let mut app = app_with(live_with(&[1.0, 2.0, 4.0], CaptureQualitySource::Live));
    let mut pages = DetailPages::new();
    let names = DisplayNames {
        abilities: AbilityNames::empty(),
        skill_labels: NameTable::empty(),
        translations: NameTable::empty(),
    };
    let catalog = HashMap::new();
    let kind = MainDpsDetailKind::Character;
    let mut seen = Vec::new();
    for offset in [0, 2, 4] {
        let page = pages.page(&mut app, kind, offset, 2, &names, &catalog, &absent_duration, &unknown_share, &ops);
        assert_eq!(page.total_hits, 3);
        seen.extend(page.rows.iter().map(|row| number(row.damage)));
    }
    assert_eq!(seen, [1.0, 2.0, 4.0]);
    app.presentation.set_main_dps_detail_request(
        kind,
        MainDpsDetailRequest {
            character_id: None,
            filter: CombatDetailFilter::Incoming,
            skill_filter: None,
        },
    );
    let page = pages.page(&mut app, kind, 0, 2, &names, &catalog, &absent_duration, &unknown_share, &ops);
    assert_eq!(page.total_hits, 0);
    assert_eq!(number(page.direction.confirmed_output), 7.0);
}
