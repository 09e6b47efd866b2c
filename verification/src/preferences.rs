//! The changes that can be made to the settings, and the HUD that they give.
use vstd::prelude::*;

use crate::detail::HitDetailColumnsConfig;
use crate::hud::{HudConfig, HudModule};
use crate::settings::{
    copies, CaptureSettings, Choice, DesktopWindowKind, InterfaceSettings, MainDpsDetailKind,
    MeasuredSettings, ModsPluginGameRegion, OnTopSettings, PlainSettings, UiConfig,
};
use crate::single::{Pair, Single};
use crate::text::{as_text, held, shown};

verus! {

#[derive(Clone, Copy, Debug, PartialEq, Eq, Structural)]
pub enum HudSettingOption {
    Title,
    TeamDps,
    Duration,
    TotalDamage,
    DamageTaken,
    CharacterRows,
    AbyssHalf,
    PassthroughState,
    MiniTimeline,
}

/// The HUD with one option set.
pub open spec fn with_option(hud: HudConfig, option: HudSettingOption, enabled: bool) -> HudConfig {
    match option {
        HudSettingOption::Title => HudConfig { show_title: enabled, ..hud },
        HudSettingOption::TeamDps => HudConfig { show_team_dps: enabled, ..hud },
        HudSettingOption::Duration => HudConfig { show_duration: enabled, ..hud },
        HudSettingOption::TotalDamage => HudConfig { show_total_damage: enabled, ..hud },
        HudSettingOption::DamageTaken => HudConfig { show_damage_taken: enabled, ..hud },
        HudSettingOption::CharacterRows => HudConfig { show_character_rows: enabled, ..hud },
        HudSettingOption::AbyssHalf => HudConfig { show_abyss_half: enabled, ..hud },
        HudSettingOption::PassthroughState => HudConfig { show_passthrough_state: enabled, ..hud },
        HudSettingOption::MiniTimeline => HudConfig { show_mini_timeline: enabled, ..hud },
    }
}

/// The HUD with what a preset shows; its width and its order stay.
pub open spec fn with_preset(hud: HudConfig, preset: HudConfig) -> HudConfig {
    HudConfig { width: hud.width, module_order: hud.module_order, ..preset }
}

pub const HUD_BASE_INITIAL_HEIGHT: u16 = 58;

/// The module editor needs this much even when every module is hidden.
pub const HUD_EDITOR_MIN_HEIGHT: u16 = 260;

pub const HUD_EDITOR_MODULE_HEADER_HEIGHT: u16 = 20;

pub const HUD_SUMMARY_HEIGHT: u16 = 64;

pub const HUD_CHARACTERS_HEIGHT: u16 = 116;

pub const HUD_OPTIONAL_TITLE_HEIGHT: u16 = 22;

pub const HUD_OPTIONAL_STATUS_HEIGHT: u16 = 22;

pub const HUD_MINI_TIMELINE_HEIGHT: u16 = 42;

/// The height of a part that is shown or not.
pub open spec fn height_if(shown: bool, height: u16) -> int {
    if shown {
        height as int
    } else {
        0
    }
}

/// The height of what the HUD shows, with or without a row for the summary.
pub open spec fn content_height(hud: HudConfig, summary_row: bool) -> int {
    HUD_BASE_INITIAL_HEIGHT + height_if(summary_row, HUD_SUMMARY_HEIGHT) + height_if(
        hud.show_character_rows,
        HUD_CHARACTERS_HEIGHT,
    ) + height_if(hud.show_title, HUD_OPTIONAL_TITLE_HEIGHT) + height_if(
        hud.show_abyss_half || hud.show_passthrough_state,
        HUD_OPTIONAL_STATUS_HEIGHT,
    ) + height_if(hud.show_mini_timeline, HUD_MINI_TIMELINE_HEIGHT)
}

/// How many answers say yes.
pub open spec fn count_of(answers: Seq<bool>) -> nat
    decreases answers.len(),
{
    if answers.len() == 0 {
        0
    } else {
        count_of(answers.drop_last()) + (if answers.last() {
            1nat
        } else {
            0
        })
    }
}

/// Whether these are the modules of the HUD that are visible, one by one.
pub open spec fn shows_modules<M: Fn(&HudConfig, HudModule) -> bool>(
    module_visible: M,
    hud: HudConfig,
    answers: Seq<bool>,
) -> bool {
    &&& answers.len() == hud.module_order@.len()
    &&& forall|k: int|
        0 <= k < answers.len() ==> call_ensures(
            module_visible,
            (&hud, hud.module_order@[k]),
            #[trigger] answers[k],
        )
}

/// The height that the HUD opens with. While it is edited, every module that
/// is visible has a header, and the editor has room.
pub open spec fn initial_height<S: Fn(&HudConfig) -> bool, M: Fn(&HudConfig, HudModule) -> bool>(
    has_summary_row: S,
    module_visible: M,
    hud: HudConfig,
    passthrough: bool,
    height: int,
) -> bool {
    exists|summary_row: bool|
        {
            &&& #[trigger] call_ensures(has_summary_row, (&hud,), summary_row)
            &&& if passthrough {
                height == content_height(hud, summary_row)
            } else {
                exists|answers: Seq<bool>|
                    {
                        let edited = content_height(hud, summary_row)
                            + HUD_EDITOR_MODULE_HEADER_HEIGHT * count_of(answers);
                        &&& #[trigger] shows_modules(module_visible, hud, answers)
                        &&& height == (if edited < HUD_EDITOR_MIN_HEIGHT {
                            HUD_EDITOR_MIN_HEIGHT as int
                        } else {
                            edited
                        })
                    }
            }
        }
}

/// The height that the HUD opens with. The settings tell whether the HUD has a
/// row for the summary and which modules are visible.
pub fn hud_initial_height<S: Fn(&HudConfig) -> bool, M: Fn(&HudConfig, HudModule) -> bool>(
    hud: &HudConfig,
    passthrough: bool,
    has_summary_row: &S,
    module_visible: &M,
) -> (height: u16)
    requires
        call_requires(*has_summary_row, (hud,)),
        forall|module: HudModule| #[trigger] call_requires(*module_visible, (hud, module)),
        !passthrough ==> content_height(*hud, true) + HUD_EDITOR_MODULE_HEADER_HEIGHT
            * hud.module_order@.len() <= u16::MAX,
    ensures
        initial_height(*has_summary_row, *module_visible, *hud, passthrough, height as int),
{
    let summary_row = has_summary_row(hud);
    let mut content: u16 = HUD_BASE_INITIAL_HEIGHT;
    if summary_row {
        content = content + HUD_SUMMARY_HEIGHT;
    }
    if hud.show_character_rows {
        content = content + HUD_CHARACTERS_HEIGHT;
    }
    if hud.show_title {
        content = content + HUD_OPTIONAL_TITLE_HEIGHT;
    }
    if hud.show_abyss_half || hud.show_passthrough_state {
        content = content + HUD_OPTIONAL_STATUS_HEIGHT;
    }
    if hud.show_mini_timeline {
        content = content + HUD_MINI_TIMELINE_HEIGHT;
    }
    assert(content == content_height(*hud, summary_row));
    assert(call_ensures(*has_summary_row, (hud,), summary_row));
    if passthrough {
        return content;
    }
    let ghost mut answers: Seq<bool> = Seq::empty();
    let mut edited: u16 = content;
    let mut i: usize = 0;
    while i < hud.module_order.len()
        invariant
            i <= hud.module_order@.len(),
            answers.len() == i,
            count_of(answers) <= i,
            edited == content + HUD_EDITOR_MODULE_HEADER_HEIGHT * count_of(answers),
            content <= content_height(*hud, true),
            content_height(*hud, true) + HUD_EDITOR_MODULE_HEADER_HEIGHT
                * hud.module_order@.len() <= u16::MAX,
            forall|module: HudModule| #[trigger] call_requires(*module_visible, (hud, module)),
            forall|k: int|
                0 <= k < i ==> call_ensures(
                    *module_visible,
                    (hud, hud.module_order@[k]),
                    #[trigger] answers[k],
                ),
        decreases hud.module_order.len() - i,
    {
        let visible = module_visible(hud, hud.module_order[i]);
        proof {
            assert(answers.push(visible).drop_last() =~= answers);
            answers = answers.push(visible);
        }
        if visible {
            edited = edited + HUD_EDITOR_MODULE_HEADER_HEIGHT;
        }
        i = i + 1;
    }
    assert(shows_modules(*module_visible, *hud, answers));
    if edited < HUD_EDITOR_MIN_HEIGHT {
        HUD_EDITOR_MIN_HEIGHT
    } else {
        edited
    }
}

/// Which windows stay on top once one of them is set. The HUD also decides for
/// windows that have no setting of their own.
pub open spec fn with_on_top(
    on_top: OnTopSettings,
    window: DesktopWindowKind,
    enabled: bool,
) -> OnTopSettings {
    match window {
        DesktopWindowKind::MainDps => OnTopSettings { main_dps: enabled, ..on_top },
        DesktopWindowKind::Hud => OnTopSettings { always_on_top: enabled, hud: enabled, ..on_top },
        DesktopWindowKind::Console => OnTopSettings { console: enabled, ..on_top },
        DesktopWindowKind::AbyssValues => OnTopSettings { abyss_values: enabled, ..on_top },
        DesktopWindowKind::CharacterDetails => OnTopSettings {
            character_details: enabled,
            ..on_top
        },
        DesktopWindowKind::TeamDetails => OnTopSettings { team_details: enabled, ..on_top },
    }
}

/// Whether a window stays on top.
pub open spec fn on_top_of(on_top: OnTopSettings, window: DesktopWindowKind) -> bool {
    match window {
        DesktopWindowKind::MainDps => on_top.main_dps,
        DesktopWindowKind::Hud => on_top.hud,
        DesktopWindowKind::Console => on_top.console,
        DesktopWindowKind::AbyssValues => on_top.abyss_values,
        DesktopWindowKind::CharacterDetails => on_top.character_details,
        DesktopWindowKind::TeamDetails => on_top.team_details,
    }
}

/// Each window has a setting of its own.
pub proof fn windows_stay_on_top_one_by_one(
    on_top: OnTopSettings,
    window: DesktopWindowKind,
    enabled: bool,
    other: DesktopWindowKind,
)
    ensures
        on_top_of(with_on_top(on_top, window, enabled), window) == enabled,
        other != window ==> on_top_of(with_on_top(on_top, window, enabled), other) == on_top_of(
            on_top,
            other,
        ),
{
}

/// The measures with the geometry of a detail window.
pub open spec fn with_detail_geometry(
    measured: MeasuredSettings,
    kind: MainDpsDetailKind,
    size: Pair,
    position: Pair,
) -> MeasuredSettings {
    match kind {
        MainDpsDetailKind::Character => MeasuredSettings {
            hit_detail_window_size: Some(size),
            hit_detail_window_position: Some(position),
            ..measured
        },
        MainDpsDetailKind::Team => MeasuredSettings {
            team_hit_detail_window_size: Some(size),
            team_hit_detail_window_position: Some(position),
            ..measured
        },
    }
}

fn set_option(hud: &mut HudConfig, option: HudSettingOption, enabled: bool)
    ensures
        *final(hud) == with_option(*old(hud), option, enabled),
{
    match option {
        HudSettingOption::Title => hud.show_title = enabled,
        HudSettingOption::TeamDps => hud.show_team_dps = enabled,
        HudSettingOption::Duration => hud.show_duration = enabled,
        HudSettingOption::TotalDamage => hud.show_total_damage = enabled,
        HudSettingOption::DamageTaken => hud.show_damage_taken = enabled,
        HudSettingOption::CharacterRows => hud.show_character_rows = enabled,
        HudSettingOption::AbyssHalf => hud.show_abyss_half = enabled,
        HudSettingOption::PassthroughState => hud.show_passthrough_state = enabled,
        HudSettingOption::MiniTimeline => hud.show_mini_timeline = enabled,
    }
}

fn set_on_top(on_top: &mut OnTopSettings, window: DesktopWindowKind, enabled: bool)
    ensures
        *final(on_top) == with_on_top(*old(on_top), window, enabled),
{
    match window {
        DesktopWindowKind::MainDps => on_top.main_dps = enabled,
        DesktopWindowKind::Hud => {
            on_top.always_on_top = enabled;
            on_top.hud = enabled;
        },
        DesktopWindowKind::Console => on_top.console = enabled,
        DesktopWindowKind::AbyssValues => on_top.abyss_values = enabled,
        DesktopWindowKind::CharacterDetails => on_top.character_details = enabled,
        DesktopWindowKind::TeamDetails => on_top.team_details = enabled,
    }
}

impl UiConfig {
    pub fn window_always_on_top(&self, window: DesktopWindowKind) -> (result: bool)
        ensures
            result == on_top_of(self.plain.on_top, window),
    {
        match window {
            DesktopWindowKind::MainDps => self.plain.on_top.main_dps,
            DesktopWindowKind::Hud => self.plain.on_top.hud,
            DesktopWindowKind::Console => self.plain.on_top.console,
            DesktopWindowKind::AbyssValues => self.plain.on_top.abyss_values,
            DesktopWindowKind::CharacterDetails => self.plain.on_top.character_details,
            DesktopWindowKind::TeamDetails => self.plain.on_top.team_details,
        }
    }

    pub fn main_dps_detail_window_geometry(&self, kind: MainDpsDetailKind) -> (result: (
        Option<Pair>,
        Option<Pair>,
    ))
        ensures
            result == (match kind {
                MainDpsDetailKind::Character => (
                    self.measured.hit_detail_window_size,
                    self.measured.hit_detail_window_position,
                ),
                MainDpsDetailKind::Team => (
                    self.measured.team_hit_detail_window_size,
                    self.measured.team_hit_detail_window_position,
                ),
            }),
    {
        match kind {
            MainDpsDetailKind::Character => (
                self.measured.hit_detail_window_size,
                self.measured.hit_detail_window_position,
            ),
            MainDpsDetailKind::Team => (
                self.measured.team_hit_detail_window_size,
                self.measured.team_hit_detail_window_position,
            ),
        }
    }

    pub fn mod_studio_game_directory(&self, region: ModsPluginGameRegion) -> (result: Option<&str>)
        ensures
            shown(result) == (match region {
                ModsPluginGameRegion::China => held(self.mod_studio_china_game_directory),
                ModsPluginGameRegion::Global => held(self.mod_studio_global_game_directory),
            }),
    {
        match region {
            ModsPluginGameRegion::China => as_text(&self.mod_studio_china_game_directory),
            ModsPluginGameRegion::Global => as_text(&self.mod_studio_global_game_directory),
        }
    }

    /// The settings with one option of the HUD set.
    pub fn with_hud_option(&self, option: HudSettingOption, enabled: bool) -> (result: UiConfig)
        ensures
            copies(result, (UiConfig { hud: with_option(self.hud, option, enabled), ..*self })),
    {
        let mut config = self.copied();
        set_option(&mut config.hud, option, enabled);
        config
    }

    /// The settings with the HUD of a preset.
    pub fn with_hud_preset(&self, preset: &HudConfig) -> (result: UiConfig)
        ensures
            copies(result, (UiConfig { hud: with_preset(self.hud, *preset), ..*self })),
    {
        let mut config = self.copied();
        config.hud.show_title = preset.show_title;
        config.hud.show_team_dps = preset.show_team_dps;
        config.hud.show_duration = preset.show_duration;
        config.hud.show_total_damage = preset.show_total_damage;
        config.hud.show_character_rows = preset.show_character_rows;
        config.hud.show_damage_taken = preset.show_damage_taken;
        config.hud.show_abyss_half = preset.show_abyss_half;
        config.hud.show_passthrough_state = preset.show_passthrough_state;
        config.hud.show_mini_timeline = preset.show_mini_timeline;
        config
    }

    /// The settings once the introduction is over, with the HUD chosen in it.
    pub fn with_onboarding_finished(&self, preset: &HudConfig) -> (result: UiConfig)
        ensures
            copies(
                result,
                (UiConfig {
                    hud: with_preset(self.hud, *preset),
                    plain: PlainSettings { onboarding_done: true, ..self.plain },
                    ..*self
                }),
            ),
    {
        let mut config = self.with_hud_preset(preset);
        config.plain.onboarding_done = true;
        config
    }

    /// The settings with a module of the HUD shown or hidden, as `set_visible`
    /// does it.
    pub fn with_module_visibility<M: Fn(&HudConfig, HudModule, bool) -> HudConfig>(
        &self,
        module: HudModule,
        visible: bool,
        set_visible: &M,
    ) -> (result: UiConfig)
        requires
            call_requires(*set_visible, (&self.hud, module, visible)),
        ensures
            call_ensures(*set_visible, (&self.hud, module, visible), result.hud),
            result == (UiConfig { hud: result.hud, ..*self }),
    {
        let mut config = self.copied();
        config.hud = set_visible(&self.hud, module, visible);
        config
    }

    /// The settings with a module of the HUD moved next to another, as
    /// `move_module` does it.
    pub fn with_module_moved<M: Fn(&HudConfig, HudModule, HudModule, bool) -> HudConfig>(
        &self,
        dragged: HudModule,
        target: HudModule,
        insert_after: bool,
        move_module: &M,
    ) -> (result: UiConfig)
        requires
            call_requires(*move_module, (&self.hud, dragged, target, insert_after)),
        ensures
            call_ensures(*move_module, (&self.hud, dragged, target, insert_after), result.hud),
            result == (UiConfig { hud: result.hud, ..*self }),
    {
        let mut config = self.copied();
        config.hud = move_module(&self.hud, dragged, target, insert_after);
        config
    }

    /// The settings with another width of the HUD.
    pub fn with_hud_width(&self, width: u16) -> (result: UiConfig)
        ensures
            copies(result, (UiConfig { hud: HudConfig { width, ..self.hud }, ..*self })),
    {
        let mut config = self.copied();
        config.hud.width = width;
        config
    }

    /// The settings with a window that stays on top or not.
    pub fn with_window_on_top(&self, window: DesktopWindowKind, enabled: bool) -> (result: UiConfig)
        ensures
            copies(
                result,
                self.with_plain(
                    PlainSettings {
                        on_top: with_on_top(self.plain.on_top, window, enabled),
                        ..self.plain
                    },
                ),
            ),
    {
        let mut config = self.copied();
        set_on_top(&mut config.plain.on_top, window, enabled);
        config
    }

    /// The settings with another look.
    pub fn with_interface(&self, interface: InterfaceSettings, island_offset_x: Single) -> (result:
        UiConfig)
        ensures
            copies(
                result,
                (UiConfig {
                    plain: PlainSettings { interface, ..self.plain },
                    measured: MeasuredSettings { island_offset_x, ..self.measured },
                    ..*self
                }),
            ),
    {
        let mut config = self.copied();
        config.plain.interface = interface;
        config.measured.island_offset_x = island_offset_x;
        config
    }

    /// The settings with another look of the main window.
    pub fn with_main_appearance(&self, dark_mode: bool, opacity: Single) -> (result: UiConfig)
        ensures
            copies(
                result,
                (UiConfig {
                    plain: PlainSettings {
                        interface: InterfaceSettings { dark_mode, ..self.plain.interface },
                        ..self.plain
                    },
                    measured: MeasuredSettings { opacity, ..self.measured },
                    ..*self
                }),
            ),
    {
        let mut config = self.copied();
        config.plain.interface.dark_mode = dark_mode;
        config.measured.opacity = opacity;
        config
    }

    pub fn with_density(&self, density: Choice) -> (result: UiConfig)
        ensures
            copies(
                result,
                self.with_plain(
                    PlainSettings {
                        interface: InterfaceSettings { density, ..self.plain.interface },
                        ..self.plain
                    },
                ),
            ),
    {
        let mut config = self.copied();
        config.plain.interface.density = density;
        config
    }

    /// The settings with another way to capture.
    pub fn with_capture(
        &self,
        filter: String,
        manual_capture_device: Option<String>,
        capture: CaptureSettings,
    ) -> (result: UiConfig)
        ensures
            copies(
                result,
                (UiConfig {
                    plain: PlainSettings { capture, ..self.plain },
                    capture_filter: filter,
                    manual_capture_device,
                    ..*self
                }),
            ),
    {
        let mut config = self.copied();
        config.capture_filter = filter;
        config.manual_capture_device = manual_capture_device;
        config.plain.capture = capture;
        config
    }

    /// The settings with other key bindings.
    pub fn with_global_hotkeys(&self, global_hotkeys: String) -> (result: UiConfig)
        ensures
            copies(result, (UiConfig { global_hotkeys, ..*self })),
    {
        let mut config = self.copied();
        config.global_hotkeys = global_hotkeys;
        config
    }

    pub fn with_update_settings(&self, auto_check: bool, auto_download: bool) -> (result: UiConfig)
        ensures
            copies(
                result,
                self.with_plain(
                    PlainSettings {
                        auto_check_updates: auto_check,
                        auto_download_updates: auto_download,
                        ..self.plain
                    },
                ),
            ),
    {
        let mut config = self.copied();
        config.plain.auto_check_updates = auto_check;
        config.plain.auto_download_updates = auto_download;
        config
    }

    pub fn with_onboarding_done(&self, done: bool) -> (result: UiConfig)
        ensures
            copies(
                result,
                self.with_plain(PlainSettings { onboarding_done: done, ..self.plain }),
            ),
    {
        let mut config = self.copied();
        config.plain.onboarding_done = done;
        config
    }

    pub fn with_hit_detail_columns(&self, columns: HitDetailColumnsConfig) -> (result: UiConfig)
        ensures
            copies(
                result,
                self.with_plain(PlainSettings { hit_detail_columns: columns, ..self.plain }),
            ),
    {
        let mut config = self.copied();
        config.plain.hit_detail_columns = columns;
        config
    }

    pub fn with_detail_window_geometry(
        &self,
        size: Pair,
        position: Pair,
        kind: MainDpsDetailKind,
    ) -> (result: UiConfig)
        ensures
            copies(
                result,
                (UiConfig {
                    measured: with_detail_geometry(self.measured, kind, size, position),
                    ..*self
                }),
            ),
    {
        let mut config = self.copied();
        match kind {
            MainDpsDetailKind::Character => {
                config.measured.hit_detail_window_size = Some(size);
                config.measured.hit_detail_window_position = Some(position);
            },
            MainDpsDetailKind::Team => {
                config.measured.team_hit_detail_window_size = Some(size);
                config.measured.team_hit_detail_window_position = Some(position);
            },
        }
        config
    }

    pub fn with_main_window_geometry(&self, size: Option<Pair>, position: Option<Pair>) -> (result:
        UiConfig)
        ensures
            copies(
                result,
                (UiConfig {
                    measured: MeasuredSettings {
                        main_window_size: size,
                        main_window_position: position,
                        ..self.measured
                    },
                    ..*self
                }),
            ),
    {
        let mut config = self.copied();
        config.measured.main_window_size = size;
        config.measured.main_window_position = position;
        config
    }

    pub fn with_console_window_geometry(&self, size: Pair, position: Pair) -> (result: UiConfig)
        ensures
            copies(
                result,
                (UiConfig {
                    measured: MeasuredSettings {
                        console_window_size: Some(size),
                        console_window_position: Some(position),
                        ..self.measured
                    },
                    ..*self
                }),
            ),
    {
        let mut config = self.copied();
        config.measured.console_window_size = Some(size);
        config.measured.console_window_position = Some(position);
        config
    }

    pub fn with_abyss_window_geometry(&self, size: Pair, position: Pair) -> (result: UiConfig)
        ensures
            copies(
                result,
                (UiConfig {
                    measured: MeasuredSettings {
                        abyss_window_size: Some(size),
                        abyss_window_position: Some(position),
                        ..self.measured
                    },
                    ..*self
                }),
            ),
    {
        let mut config = self.copied();
        config.measured.abyss_window_size = Some(size);
        config.measured.abyss_window_position = Some(position);
        config
    }

    pub fn with_timeline_preferences(&self, bucket_seconds: Single, view_mode: Choice) -> (result:
        UiConfig)
        ensures
            copies(
                result,
                (UiConfig {
                    plain: PlainSettings { timeline_dps_view_mode: view_mode, ..self.plain },
                    measured: MeasuredSettings {
                        timeline_bucket_seconds: bucket_seconds,
                        ..self.measured
                    },
                    ..*self
                }),
            ),
    {
        let mut config = self.copied();
        config.plain.timeline_dps_view_mode = view_mode;
        config.measured.timeline_bucket_seconds = bucket_seconds;
        config
    }

    pub fn with_mod_studio_game_directory(
        &self,
        region: ModsPluginGameRegion,
        directory: Option<String>,
    ) -> (result: UiConfig)
        ensures
            copies(
                result,
                (match region {
                    ModsPluginGameRegion::China => UiConfig {
                        mod_studio_china_game_directory: directory,
                        ..*self
                    },
                    ModsPluginGameRegion::Global => UiConfig {
                        mod_studio_global_game_directory: directory,
                        ..*self
                    },
                }),
            ),
    {
        let mut config = self.copied();
        match region {
            ModsPluginGameRegion::China => config.mod_studio_china_game_directory = directory,
            ModsPluginGameRegion::Global => config.mod_studio_global_game_directory = directory,
        }
        config
    }
}

} // verus!
