//! What the settings keep, and what each change of them changes.
use vstd::prelude::*;

use crate::detail::HitDetailColumnsConfig;
use crate::hud::{HudConfig, HudModule};
use crate::lifecycle_laws::moved;
use crate::preferences::{
    content_height, count_of, hud_initial_height, shows_modules, HudSettingOption,
};
use crate::settings::{
    equal_configs, CaptureSettings, Choice, DesktopWindowKind, DpsTimeMode, InterfaceSettings,
    MainDpsDetailKind, ModsPluginGameRegion, ScreenPoint, SettingsStore, UiConfig,
};
use crate::single::{Pair, Single};
use crate::text::{held, shown};

verus! {

/// All but the HUD is the same.
pub open spec fn same_but_hud(before: UiConfig, after: UiConfig) -> bool {
    &&& after.plain == before.plain
    &&& after.measured == before.measured
    &&& same_texts(before, after)
}

/// The texts are the same.
pub open spec fn same_texts(before: UiConfig, after: UiConfig) -> bool {
    &&& after.capture_filter == before.capture_filter
    &&& after.manual_capture_device == before.manual_capture_device
    &&& same_directories(before, after)
    &&& after.global_hotkeys == before.global_hotkeys
}

/// The game directories are the same.
pub open spec fn same_directories(before: UiConfig, after: UiConfig) -> bool {
    &&& after.mod_studio_china_game_directory == before.mod_studio_china_game_directory
    &&& after.mod_studio_global_game_directory == before.mod_studio_global_game_directory
}

/// The HUD shows the same, in the same order and width.
pub open spec fn hud_is_kept(before: HudConfig, after: HudConfig) -> bool {
    &&& after.width == before.width
    &&& after.module_order@ == before.module_order@
    &&& after.show_title == before.show_title
    &&& after.show_team_dps == before.show_team_dps
    &&& after.show_duration == before.show_duration
    &&& after.show_total_damage == before.show_total_damage
    &&& after.show_character_rows == before.show_character_rows
    &&& after.show_damage_taken == before.show_damage_taken
    &&& after.show_abyss_half == before.show_abyss_half
    &&& after.show_passthrough_state == before.show_passthrough_state
    &&& after.show_mini_timeline == before.show_mini_timeline
}

/// An option of the HUD sets its own switch and no other.
pub proof fn hud_options_are_set_one_by_one(
    before: &UiConfig,
    option: HudSettingOption,
    enabled: bool,
    after: UiConfig,
)
    requires
        call_ensures(UiConfig::with_hud_option, (before, option, enabled), after),
    ensures
        same_but_hud(*before, after),
        after.hud.width == before.hud.width,
        after.hud.module_order@ == before.hud.module_order@,
        after.hud.show_title == (if option is Title { enabled } else { before.hud.show_title }),
        after.hud.show_team_dps == (if option is TeamDps { enabled } else { before.hud.show_team_dps }),
        after.hud.show_duration == (if option is Duration { enabled } else { before.hud.show_duration }),
        after.hud.show_total_damage == (if option is TotalDamage {
            enabled
        } else {
            before.hud.show_total_damage
        }),
        after.hud.show_damage_taken == (if option is DamageTaken {
            enabled
        } else {
            before.hud.show_damage_taken
        }),
        after.hud.show_character_rows == (if option is CharacterRows {
            enabled
        } else {
            before.hud.show_character_rows
        }),
        after.hud.show_abyss_half == (if option is AbyssHalf {
            enabled
        } else {
            before.hud.show_abyss_half
        }),
        after.hud.show_passthrough_state == (if option is PassthroughState {
            enabled
        } else {
            before.hud.show_passthrough_state
        }),
        after.hud.show_mini_timeline == (if option is MiniTimeline {
            enabled
        } else {
            before.hud.show_mini_timeline
        }),
{
}

/// A preset decides what the HUD shows, and nothing else of it.
pub proof fn presets_decide_what_is_shown(
    before: &UiConfig,
    preset: &HudConfig,
    chosen: UiConfig,
    finished: UiConfig,
)
    requires
        call_ensures(UiConfig::with_hud_preset, (before, preset), chosen),
        call_ensures(UiConfig::with_onboarding_finished, (before, preset), finished),
    ensures
        same_but_hud(*before, chosen),
        chosen.hud.width == before.hud.width,
        chosen.hud.module_order@ == before.hud.module_order@,
        chosen.hud.show_title == preset.show_title,
        chosen.hud.show_team_dps == preset.show_team_dps,
        chosen.hud.show_duration == preset.show_duration,
        chosen.hud.show_total_damage == preset.show_total_damage,
        chosen.hud.show_character_rows == preset.show_character_rows,
        chosen.hud.show_damage_taken == preset.show_damage_taken,
        chosen.hud.show_abyss_half == preset.show_abyss_half,
        chosen.hud.show_passthrough_state == preset.show_passthrough_state,
        chosen.hud.show_mini_timeline == preset.show_mini_timeline,
        hud_is_kept(chosen.hud, finished.hud),
        finished.plain.onboarding_done,
        finished.plain.interface == before.plain.interface,
        finished.plain.on_top == before.plain.on_top,
        finished.plain.capture == before.plain.capture,
        finished.measured == before.measured,
        same_texts(*before, finished),
{
}

/// Modules are shown and moved as the HUD's own rules have it; a width is
/// taken over. Nothing but the HUD is touched.
pub proof fn hud_changes_stay_in_the_hud<
    M: Fn(&HudConfig, HudModule, bool) -> HudConfig,
    N: Fn(&HudConfig, HudModule, HudModule, bool) -> HudConfig,
>(
    before: &UiConfig,
    module: HudModule,
    visible: bool,
    set_visible: &M,
    toggled: UiConfig,
    target: HudModule,
    insert_after: bool,
    move_module: &N,
    reordered: UiConfig,
    width: u16,
    resized: UiConfig,
)
    requires
        call_ensures(
            UiConfig::with_module_visibility::<M>,
            (before, module, visible, set_visible),
            toggled,
        ),
        call_ensures(
            UiConfig::with_module_moved::<N>,
            (before, module, target, insert_after, move_module),
            reordered,
        ),
        call_ensures(UiConfig::with_hud_width, (before, width), resized),
    ensures
        same_but_hud(*before, toggled),
        call_ensures(*set_visible, (&before.hud, module, visible), toggled.hud),
        same_but_hud(*before, reordered),
        call_ensures(*move_module, (&before.hud, module, target, insert_after), reordered.hud),
        same_but_hud(*before, resized),
        resized.hud.width == width,
        hud_is_kept(before.hud, HudConfig { width: before.hud.width, ..resized.hud }),
{
}

/// A window set to stay on top does, and the others stay as they were. The
/// HUD speaks for the windows without a setting of their own.
pub proof fn windows_are_put_on_top_one_by_one(
    before: &UiConfig,
    window: DesktopWindowKind,
    enabled: bool,
    after: UiConfig,
    other: DesktopWindowKind,
    was: bool,
    is: bool,
)
    requires
        call_ensures(UiConfig::with_window_on_top, (before, window, enabled), after),
        call_ensures(UiConfig::window_always_on_top, (before, other), was),
        call_ensures(UiConfig::window_always_on_top, (&after, other), is),
    ensures
        is == (if other == window { enabled } else { was }),
        window is MainDps ==> after.plain.on_top.main_dps == enabled,
        window is Hud ==> after.plain.on_top.hud == enabled && after.plain.on_top.always_on_top
            == enabled,
        window is Console ==> after.plain.on_top.console == enabled,
        window is AbyssValues ==> after.plain.on_top.abyss_values == enabled,
        window is CharacterDetails ==> after.plain.on_top.character_details == enabled,
        window is TeamDetails ==> after.plain.on_top.team_details == enabled,
        !(window is Hud) ==> after.plain.on_top.always_on_top == before.plain.on_top.always_on_top,
        after.plain.interface == before.plain.interface,
        after.plain.capture == before.plain.capture,
        after.measured == before.measured,
        hud_is_kept(before.hud, after.hud),
        same_texts(*before, after),
{
}

/// What is written of the look is what is read of it, and nothing else moves.
pub proof fn looks_are_read_back(
    before: &UiConfig,
    interface: InterfaceSettings,
    offset: Single,
    restyled: UiConfig,
)
    requires
        call_ensures(UiConfig::with_interface, (before, interface, offset), restyled),
    ensures
        restyled.plain.interface == interface,
        restyled.measured.island_offset_x == offset,
        restyled.measured.opacity == before.measured.opacity,
        restyled.measured.timeline_bucket_seconds == before.measured.timeline_bucket_seconds,
        restyled.plain.capture == before.plain.capture,
        restyled.plain.on_top == before.plain.on_top,
        restyled.plain.onboarding_done == before.plain.onboarding_done,
        same_texts(*before, restyled),
        hud_is_kept(before.hud, restyled.hud),
{
}

/// The main window's look and the density are read back as written.
pub proof fn appearances_are_read_back(
    before: &UiConfig,
    dark_mode: bool,
    opacity: Single,
    dimmed: UiConfig,
    density: Choice,
    spaced: UiConfig,
)
    requires
        call_ensures(UiConfig::with_main_appearance, (before, dark_mode, opacity), dimmed),
        call_ensures(UiConfig::with_density, (before, density), spaced),
    ensures
        dimmed.plain.interface.dark_mode == dark_mode,
        dimmed.measured.opacity == opacity,
        dimmed.plain.interface.language == before.plain.interface.language,
        dimmed.plain.interface.accent == before.plain.interface.accent,
        dimmed.plain.interface.density == before.plain.interface.density,
        dimmed.measured.island_offset_x == before.measured.island_offset_x,
        dimmed.measured.timeline_bucket_seconds == before.measured.timeline_bucket_seconds,
        spaced.plain.interface.density == density,
        spaced.plain.interface.accent == before.plain.interface.accent,
        spaced.plain.interface.theme_preset == before.plain.interface.theme_preset,
        spaced.plain.interface.dark_mode == before.plain.interface.dark_mode,
        spaced.measured == before.measured,
        hud_is_kept(before.hud, dimmed.hud),
        hud_is_kept(before.hud, spaced.hud),
        same_texts(*before, dimmed),
        same_texts(*before, spaced),
{
}

/// How updates are looked for, whether the introduction is over, and which
/// columns are listed are read back as written.
pub proof fn switches_are_read_back(
    before: &UiConfig,
    auto_check: bool,
    auto_download: bool,
    updating: UiConfig,
    done: bool,
    introduced: UiConfig,
    columns: HitDetailColumnsConfig,
    listed: UiConfig,
)
    requires
        call_ensures(UiConfig::with_update_settings, (before, auto_check, auto_download), updating),
        call_ensures(UiConfig::with_onboarding_done, (before, done), introduced),
        call_ensures(UiConfig::with_hit_detail_columns, (before, columns), listed),
    ensures
        updating.plain.auto_check_updates == auto_check,
        updating.plain.auto_download_updates == auto_download,
        updating.plain.interface == before.plain.interface,
        updating.plain.capture == before.plain.capture,
        introduced.plain.onboarding_done == done,
        introduced.plain.interface == before.plain.interface,
        introduced.plain.auto_check_updates == before.plain.auto_check_updates,
        listed.plain.hit_detail_columns == columns,
        listed.plain.onboarding_done == before.plain.onboarding_done,
        updating.measured == before.measured,
        introduced.measured == before.measured,
        listed.measured == before.measured,
        same_texts(*before, updating),
        same_texts(*before, introduced),
        same_texts(*before, listed),
{
}

/// What is written of the capture is what is read of it.
pub proof fn capture_changes_are_read_back(
    before: &UiConfig,
    filter: String,
    device: Option<String>,
    capture: CaptureSettings,
    after: UiConfig,
    hotkeys: String,
    bound: UiConfig,
)
    requires
        call_ensures(UiConfig::with_capture, (before, filter, device, capture), after),
        call_ensures(UiConfig::with_global_hotkeys, (before, hotkeys), bound),
    ensures
        after.capture_filter == filter,
        after.manual_capture_device == device,
        after.plain.capture == capture,
        after.plain.interface == before.plain.interface,
        after.plain.on_top == before.plain.on_top,
        after.measured == before.measured,
        after.global_hotkeys == before.global_hotkeys,
        same_directories(*before, after),
        hud_is_kept(before.hud, after.hud),
        bound.global_hotkeys == hotkeys,
        bound.capture_filter == before.capture_filter,
        bound.manual_capture_device == before.manual_capture_device,
        bound.plain == before.plain,
        bound.measured == before.measured,
        same_directories(*before, bound),
{
}

/// Each window keeps its own place: what is written for one is read back for
/// it, and the others stay where they were.
pub proof fn windows_keep_their_places(
    before: &UiConfig,
    size: Pair,
    position: Pair,
    kind: MainDpsDetailKind,
    detail: UiConfig,
    other: MainDpsDetailKind,
    read: (Option<Pair>, Option<Pair>),
    untouched: (Option<Pair>, Option<Pair>),
    earlier: (Option<Pair>, Option<Pair>),
    console: UiConfig,
    abyss: UiConfig,
    main: UiConfig,
)
    requires
        other != kind,
        call_ensures(UiConfig::with_detail_window_geometry, (before, size, position, kind), detail),
        call_ensures(UiConfig::main_dps_detail_window_geometry, (&detail, kind), read),
        call_ensures(UiConfig::main_dps_detail_window_geometry, (&detail, other), untouched),
        call_ensures(UiConfig::main_dps_detail_window_geometry, (before, other), earlier),
        call_ensures(UiConfig::with_console_window_geometry, (before, size, position), console),
        call_ensures(UiConfig::with_abyss_window_geometry, (before, size, position), abyss),
        call_ensures(
            UiConfig::with_main_window_geometry,
            (before, Some(size), Some(position)),
            main,
        ),
    ensures
        read == (Some(size), Some(position)),
        untouched == earlier,
        kind is Character ==> detail.measured.hit_detail_window_size == Some(size)
            && detail.measured.hit_detail_window_position == Some(position),
        kind is Team ==> detail.measured.team_hit_detail_window_size == Some(size)
            && detail.measured.team_hit_detail_window_position == Some(position),
        detail.measured.main_window_size == before.measured.main_window_size,
        detail.measured.console_window_size == before.measured.console_window_size,
        detail.plain == before.plain,
        console.measured.console_window_size == Some(size),
        console.measured.console_window_position == Some(position),
        console.measured.abyss_window_size == before.measured.abyss_window_size,
        console.measured.abyss_window_position == before.measured.abyss_window_position,
        console.measured.main_window_size == before.measured.main_window_size,
        console.plain == before.plain,
        abyss.measured.abyss_window_size == Some(size),
        abyss.measured.abyss_window_position == Some(position),
        abyss.measured.console_window_size == before.measured.console_window_size,
        abyss.measured.main_window_position == before.measured.main_window_position,
        abyss.plain == before.plain,
        main.measured.main_window_size == Some(size),
        main.measured.main_window_position == Some(position),
        main.measured.console_window_position == before.measured.console_window_position,
        main.measured.abyss_window_size == before.measured.abyss_window_size,
        main.plain == before.plain,
        same_texts(*before, detail),
        same_texts(*before, console),
        same_texts(*before, abyss),
        same_texts(*before, main),
{
}

/// The width of a bucket and the view of the chart are read back as written.
pub proof fn timeline_changes_are_read_back(
    before: &UiConfig,
    seconds: Single,
    mode: Choice,
    after: UiConfig,
)
    requires
        call_ensures(UiConfig::with_timeline_preferences, (before, seconds, mode), after),
    ensures
        after.measured.timeline_bucket_seconds == seconds,
        after.plain.timeline_dps_view_mode == mode,
        after.measured.opacity == before.measured.opacity,
        after.plain.interface == before.plain.interface,
        after.plain.capture == before.plain.capture,
        same_texts(*before, after),
        hud_is_kept(before.hud, after.hud),
{
}

/// Each region has a directory of its own: what is written for one is read
/// back for it, and the other stays.
pub proof fn regions_keep_their_directories(
    before: &UiConfig,
    region: ModsPluginGameRegion,
    directory: Option<String>,
    after: UiConfig,
    read: Option<&str>,
    other: ModsPluginGameRegion,
    earlier: Option<&str>,
    later: Option<&str>,
)
    requires
        other != region,
        call_ensures(UiConfig::with_mod_studio_game_directory, (before, region, directory), after),
        call_ensures(UiConfig::mod_studio_game_directory, (&after, region), read),
        call_ensures(UiConfig::mod_studio_game_directory, (before, other), earlier),
        call_ensures(UiConfig::mod_studio_game_directory, (&after, other), later),
    ensures
        shown(read) == held(directory),
        shown(later) == shown(earlier),
        region is China ==> after.mod_studio_china_game_directory == directory,
        region is Global ==> after.mod_studio_global_game_directory == directory,
        after.plain == before.plain,
        after.capture_filter == before.capture_filter,
        after.global_hotkeys == before.global_hotkeys,
{
}

/// A copy compares as equal wherever its numbers do; settings that compare as
/// equal agree in every text and switch.
pub proof fn equal_settings_agree(left: &UiConfig, right: &UiConfig, equal: bool, copy: UiConfig)
    requires
        call_ensures(UiConfig::is_equal_to, (left, right), equal),
        call_ensures(UiConfig::copied, (left,), copy),
    ensures
        equal ==> {
            &&& left.plain == right.plain
            &&& hud_is_kept(left.hud, right.hud)
            &&& left.capture_filter@ == right.capture_filter@
            &&& held(left.manual_capture_device) == held(right.manual_capture_device)
            &&& held(left.mod_studio_china_game_directory) == held(
                right.mod_studio_china_game_directory,
            )
            &&& held(left.mod_studio_global_game_directory) == held(
                right.mod_studio_global_game_directory,
            )
            &&& left.global_hotkeys@ == right.global_hotkeys@
            &&& left.measured.opacity.equals(right.measured.opacity)
            &&& left.measured.island_offset_x.equals(right.measured.island_offset_x)
            &&& left.measured.timeline_bucket_seconds.equals(
                right.measured.timeline_bucket_seconds,
            )
        },
        left.plain != right.plain || left.capture_filter@ != right.capture_filter@
            || left.hud.width != right.hud.width || left.hud.show_title != right.hud.show_title
            || left.hud.module_order@ != right.hud.module_order@ || left.global_hotkeys@
            != right.global_hotkeys@ || held(left.manual_capture_device) != held(
            right.manual_capture_device,
        ) || !left.measured.opacity.equals(right.measured.opacity) ==> !equal,
        same_but_hud(*left, copy),
        hud_is_kept(left.hud, copy.hud),
{
}

/// Saving these settings can fail for this reason.
pub open spec fn fails_with<V: Fn(&UiConfig) -> Result<(), String>>(
    save: V,
    config: UiConfig,
    error: String,
) -> bool {
    call_ensures(save, (&config,), Err::<(), String>(error))
}

/// A change is saved before it is in force, and announced once it is: settings
/// that cannot be saved, or are no change, leave everything as it was.
pub proof fn changes_are_saved_first<
    Z: Fn(UiConfig) -> UiConfig,
    V: Fn(&UiConfig) -> Result<(), String>,
>(
    store: &mut SettingsStore,
    candidate: UiConfig,
    sanitize: &Z,
    save: &V,
    result: Result<bool, String>,
    quiet: &mut SettingsStore,
    quietly: Result<bool, String>,
)
    requires
        call_ensures(
            SettingsStore::update_ui_config::<Z, V>,
            (store, candidate, sanitize, save),
            result,
        ),
        call_ensures(
            SettingsStore::update_quietly::<Z, V>,
            (quiet, candidate, sanitize, save),
            quietly,
        ),
    ensures
        result matches Ok(changed) ==> {
            &&& !changed ==> *final(store) == *old(store)
            &&& changed ==> {
                &&& call_ensures(*sanitize, (candidate,), final(store).config)
                &&& call_ensures(*save, (&final(store).config,), Ok::<(), String>(()))
                &&& moved(old(store).presentation_revision, final(store).presentation_revision)
                &&& moved(old(store).settings_revision, final(store).settings_revision)
            }
        },
        result matches Err(error) ==> *final(store) == *old(store) && exists|tried: UiConfig|
            #[trigger] fails_with(*save, tried, error),
        quietly matches Ok(changed) ==> {
            &&& !changed ==> *final(quiet) == *old(quiet)
            &&& changed ==> call_ensures(*sanitize, (candidate,), final(quiet).config)
        },
        quietly is Err ==> *final(quiet) == *old(quiet),
        final(quiet).presentation_revision == old(quiet).presentation_revision,
        final(quiet).settings_revision == old(quiet).settings_revision,
{
    changes_settle(*sanitize, *save, *old(store), candidate, true, *final(store), result);
    changes_settle(*sanitize, *save, *old(quiet), candidate, false, *final(quiet), quietly);
}

/// What a change that was tried came to.
pub proof fn changes_settle<Z: Fn(UiConfig) -> UiConfig, V: Fn(&UiConfig) -> Result<(), String>>(
    sanitize: Z,
    save: V,
    before: SettingsStore,
    candidate: UiConfig,
    announced: bool,
    after: SettingsStore,
    result: Result<bool, String>,
)
    requires
        before.changes(sanitize, save, candidate, announced, after, result),
    ensures
        result matches Ok(changed) ==> {
            &&& !changed ==> after == before
            &&& changed ==> {
                &&& call_ensures(sanitize, (candidate,), after.config)
                &&& call_ensures(save, (&after.config,), Ok::<(), String>(()))
                &&& announced ==> moved(before.presentation_revision, after.presentation_revision)
                    && moved(before.settings_revision, after.settings_revision)
                &&& !announced ==> after.presentation_revision == before.presentation_revision
                    && after.settings_revision == before.settings_revision
            }
        },
        result matches Err(error) ==> after == before && exists|tried: UiConfig|
            #[trigger] fails_with(save, tried, error),
{
    let valid = choose|valid: UiConfig| #[trigger]
        call_ensures(sanitize, (candidate,), valid) && before.settles(
            save,
            valid,
            announced,
            after,
            result,
        );
    if !equal_configs(valid, before.config) {
        let saved = choose|saved: Result<(), String>| #[trigger]
            call_ensures(save, (&valid,), saved) && match saved {
                Err(error) => after == before && result == Err::<bool, _>(error),
                Ok(_) => result == Ok::<bool, String>(true) && after.config == valid,
            };
        match saved {
            Ok(unit) => {
                assert(unit == ());
            },
            Err(error) => {
                assert(fails_with(save, valid, error));
            },
        }
        assert(result is Err ==> fails_with(save, valid, result->Err_0));
    }
    assert(result is Err ==> after == before);
}

/// A settings page is shown anew when its files or devices were looked at; a
/// search that failed keeps the devices that are known.
pub proof fn searches_keep_what_they_cannot_replace<D, E>(
    files: &mut SettingsStore,
    store: &mut SettingsStore,
    devices: &mut Vec<D>,
    found: Result<Vec<D>, E>,
    result: Result<(), E>,
)
    requires
        call_ensures(SettingsStore::refresh_capture_file_stats, (files,), ()),
        call_ensures(
            SettingsStore::refresh_capture_devices::<D, E>,
            (store, devices, found),
            result,
        ),
    ensures
        moved(old(files).settings_revision, final(files).settings_revision),
        final(files).config == old(files).config,
        final(files).presentation_revision == old(files).presentation_revision,
        result is Ok <==> found is Ok,
        found is Ok ==> *final(devices) == found->Ok_0 && moved(
            old(store).settings_revision,
            final(store).settings_revision,
        ),
        found is Err ==> *final(devices) == *old(devices) && *final(store) == *old(store),
        final(store).config == old(store).config,
        final(store).presentation_revision == old(store).presentation_revision,
{
}

/// The HUD's place is kept once it is saved, without anyone being told.
pub proof fn the_huds_place_is_kept_quietly<V: Fn(&UiConfig) -> Result<(), String>>(
    store: &mut SettingsStore,
    position: ScreenPoint,
    save: &V,
    result: Result<bool, String>,
)
    requires
        call_ensures(
            SettingsStore::set_hud_window_position::<V>,
            (store, position, save),
            result,
        ),
    ensures
        result is Ok ==> final(store).config.plain.hud_window_position == Some(position),
        result matches Ok(changed) ==> changed == (old(store).config.plain.hud_window_position
            != Some(position)),
        result is Err ==> *final(store) == *old(store),
        final(store).presentation_revision == old(store).presentation_revision,
        final(store).settings_revision == old(store).settings_revision,
        final(store).config.plain.interface == old(store).config.plain.interface,
        final(store).config.measured == old(store).config.measured,
        same_texts(old(store).config, final(store).config),
        hud_is_kept(old(store).config.hud, final(store).config.hud),
{
}

/// Only one time mode leaves stopped time out.
pub proof fn one_time_mode_leaves_stops_out(mode: DpsTimeMode, subtracts: bool)
    requires
        call_ensures(DpsTimeMode::subtracts_time_stop, (mode,), subtracts),
    ensures
        mode is TimeStopAdjusted ==> subtracts,
        mode is RealTime ==> !subtracts,
{
}

/// The parts of the HUD stack up to the height it opens with: each part that
/// is shown adds its own height, and while the HUD is edited each visible
/// module adds a header, with room for the editor at least.
pub proof fn hud_parts_stack_up<
    S: Fn(&HudConfig) -> bool,
    M: Fn(&HudConfig, HudModule) -> bool,
>(
    hud: &HudConfig,
    has_summary_row: &S,
    module_visible: &M,
    summary: bool,
    closed: u16,
    edited: u16,
)
    requires
        forall|answer: bool| #[trigger] call_ensures(*has_summary_row, (hud,), answer) ==> answer
            == summary,
        forall|module: HudModule, answer: bool| #[trigger]
            call_ensures(*module_visible, (hud, module), answer) ==> answer,
        call_ensures(
            hud_initial_height::<S, M>,
            (hud, true, has_summary_row, module_visible),
            closed,
        ),
        call_ensures(
            hud_initial_height::<S, M>,
            (hud, false, has_summary_row, module_visible),
            edited,
        ),
    ensures
        closed == 58 + (if summary { 64int } else { 0 }) + (if hud.show_character_rows {
            116int
        } else {
            0
        }) + (if hud.show_title { 22int } else { 0 }) + (if hud.show_abyss_half
            || hud.show_passthrough_state {
            22int
        } else {
            0
        }) + (if hud.show_mini_timeline { 42int } else { 0 }),
        edited >= 260,
        closed + 20 * hud.module_order@.len() >= 260 ==> edited == closed + 20
            * hud.module_order@.len(),
        closed + 20 * hud.module_order@.len() < 260 ==> edited == 260,
{
    let row = choose|row: bool|
        {
            &&& #[trigger] call_ensures(*has_summary_row, (hud,), row)
            &&& exists|answers: Seq<bool>|
                {
                    let height = content_height(*hud, row) + 20 * count_of(answers);
                    &&& #[trigger] shows_modules(*module_visible, *hud, answers)
                    &&& edited == (if height < 260 { 260int } else { height })
                }
        };
    let answers = choose|answers: Seq<bool>|
        {
            let height = content_height(*hud, row) + 20 * count_of(answers);
            &&& #[trigger] shows_modules(*module_visible, *hud, answers)
            &&& edited == (if height < 260 { 260int } else { height })
        };
    assert forall|k: int| 0 <= k < answers.len() implies #[trigger] answers[k] by {}
    all_answers_count(answers);
}

/// Where every answer is yes, all of them count.
proof fn all_answers_count(answers: Seq<bool>)
    requires
        forall|k: int| 0 <= k < answers.len() ==> #[trigger] answers[k],
    ensures
        count_of(answers) == answers.len(),
    decreases answers.len(),
{
    if answers.len() > 0 {
        all_answers_count(answers.drop_last());
    }
}

/// A module that is hidden adds no header: with none visible, the editor adds
/// nothing but its least room.
pub proof fn hidden_modules_add_no_header<
    S: Fn(&HudConfig) -> bool,
    M: Fn(&HudConfig, HudModule) -> bool,
>(
    hud: &HudConfig,
    has_summary_row: &S,
    module_visible: &M,
    summary: bool,
    closed: u16,
    edited: u16,
)
    requires
        forall|answer: bool| #[trigger] call_ensures(*has_summary_row, (hud,), answer) ==> answer
            == summary,
        forall|module: HudModule, answer: bool| #[trigger]
            call_ensures(*module_visible, (hud, module), answer) ==> !answer,
        call_ensures(
            hud_initial_height::<S, M>,
            (hud, true, has_summary_row, module_visible),
            closed,
        ),
        call_ensures(
            hud_initial_height::<S, M>,
            (hud, false, has_summary_row, module_visible),
            edited,
        ),
    ensures
        closed >= 260 ==> edited == closed,
        closed < 260 ==> edited == 260,
{
    let row = choose|row: bool|
        {
            &&& #[trigger] call_ensures(*has_summary_row, (hud,), row)
            &&& exists|answers: Seq<bool>|
                {
                    let height = content_height(*hud, row) + 20 * count_of(answers);
                    &&& #[trigger] shows_modules(*module_visible, *hud, answers)
                    &&& edited == (if height < 260 { 260int } else { height })
                }
        };
    let answers = choose|answers: Seq<bool>|
        {
            let height = content_height(*hud, row) + 20 * count_of(answers);
            &&& #[trigger] shows_modules(*module_visible, *hud, answers)
            &&& edited == (if height < 260 { 260int } else { height })
        };
    assert forall|k: int| 0 <= k < answers.len() implies !#[trigger] answers[k] by {}
    no_answer_counts(answers);
}

/// Where every answer is no, none of them counts.
proof fn no_answer_counts(answers: Seq<bool>)
    requires
        forall|k: int| 0 <= k < answers.len() ==> !#[trigger] answers[k],
    ensures
        count_of(answers) == 0,
    decreases answers.len(),
{
    if answers.len() > 0 {
        no_answer_counts(answers.drop_last());
    }
}

} // verus!
