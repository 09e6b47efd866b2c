//! The user's settings, and what they make of the HUD.
//!
//! A change is worked out on a copy, made valid, saved, and only then put into
//! force; a change that cannot be saved leaves everything as it was.
use vstd::prelude::*;

use crate::detail::HitDetailColumnsConfig;
use crate::hud::{HudConfig, HudModule};
use crate::model::Language;
use crate::reducer::{advance_generation, next_generation};
use crate::single::{equal_pairs, pairs_are_equal, Pair, Single};
use crate::text::held;

verus! {

/// One of a fixed set of choices, by its place in the set.
#[derive(Clone, Copy, Debug, PartialEq, Eq, Structural)]
pub struct Choice {
    pub index: u8,
}

/// Whether stopped time is left out of rates.
#[derive(Clone, Copy, Debug, PartialEq, Eq, Structural)]
pub enum DpsTimeMode {
    TimeStopAdjusted,
    RealTime,
}

impl DpsTimeMode {
    pub fn subtracts_time_stop(self) -> (result: bool)
        ensures
            result == (self == DpsTimeMode::TimeStopAdjusted),
    {
        matches!(self, DpsTimeMode::TimeStopAdjusted)
    }
}

#[derive(Clone, Copy, Debug, PartialEq, Eq, Structural)]
pub enum DesktopWindowKind {
    MainDps,
    Hud,
    Console,
    AbyssValues,
    CharacterDetails,
    TeamDetails,
}

#[derive(Clone, Copy, Debug, PartialEq, Eq, Structural)]
pub enum MainDpsDetailKind {
    Character,
    Team,
}

#[derive(Clone, Copy, Debug, PartialEq, Eq, Structural)]
pub enum ModsPluginGameRegion {
    China,
    Global,
}

/// How the program looks.
#[derive(Clone, Copy, Debug, PartialEq, Eq, Structural)]
pub struct InterfaceSettings {
    pub language: Language,
    pub dark_mode: bool,
    pub theme_preset: Choice,
    pub accent: Choice,
    pub density: Choice,
    pub reduce_motion: bool,
    pub island_notifications: bool,
}

/// Which windows stay on top.
#[derive(Clone, Copy, Debug, PartialEq, Eq, Structural)]
pub struct OnTopSettings {
    pub always_on_top: bool,
    pub main_dps: bool,
    pub hud: bool,
    pub console: bool,
    pub abyss_values: bool,
    pub character_details: bool,
    pub team_details: bool,
}

/// How a capture is taken and counted.
#[derive(Clone, Copy, Debug, PartialEq, Eq, Structural)]
pub struct CaptureSettings {
    pub server_damage_calibration: bool,
    pub separate_reaction_damage: bool,
    pub auto_round_after_idle: bool,
    pub auto_round_idle_seconds: u32,
    pub dps_time_mode: DpsTimeMode,
    pub passthrough_hotkey: Choice,
}

/// A place on the screen, in device pixels.
#[derive(Clone, Copy, Debug, PartialEq, Eq, Structural)]
pub struct ScreenPoint {
    pub x: i32,
    pub y: i32,
}

/// Settings that are compared as they are.
#[derive(Clone, Copy, Debug, PartialEq, Eq, Structural)]
pub struct PlainSettings {
    pub interface: InterfaceSettings,
    pub on_top: OnTopSettings,
    pub capture: CaptureSettings,
    pub auto_check_updates: bool,
    pub auto_download_updates: bool,
    pub onboarding_done: bool,
    pub timeline_dps_view_mode: Choice,
    pub hit_detail_columns: HitDetailColumnsConfig,
    pub hud_window_position: Option<ScreenPoint>,
}

/// Settings that are compared as numbers.
#[derive(Clone, Copy, Debug, PartialEq, Eq, Structural)]
pub struct MeasuredSettings {
    pub opacity: Single,
    pub island_offset_x: Single,
    pub timeline_bucket_seconds: Single,
    pub main_window_size: Option<Pair>,
    pub main_window_position: Option<Pair>,
    pub console_window_size: Option<Pair>,
    pub console_window_position: Option<Pair>,
    pub abyss_window_size: Option<Pair>,
    pub abyss_window_position: Option<Pair>,
    pub hit_detail_window_size: Option<Pair>,
    pub hit_detail_window_position: Option<Pair>,
    pub team_hit_detail_window_size: Option<Pair>,
    pub team_hit_detail_window_position: Option<Pair>,
}

#[derive(Clone, Debug)]
pub struct UiConfig {
    pub plain: PlainSettings,
    pub measured: MeasuredSettings,
    pub hud: HudConfig,
    pub capture_filter: String,
    pub manual_capture_device: Option<String>,
    pub mod_studio_china_game_directory: Option<String>,
    pub mod_studio_global_game_directory: Option<String>,
    /// The key bindings of the program, in their stored form.
    pub global_hotkeys: String,
}

/// The measured settings that compare as equal.
pub open spec fn equal_measures(left: MeasuredSettings, right: MeasuredSettings) -> bool {
    &&& left.opacity.equals(right.opacity)
    &&& left.island_offset_x.equals(right.island_offset_x)
    &&& left.timeline_bucket_seconds.equals(right.timeline_bucket_seconds)
    &&& equal_pairs(left.main_window_size, right.main_window_size)
    &&& equal_pairs(left.main_window_position, right.main_window_position)
    &&& equal_pairs(left.console_window_size, right.console_window_size)
    &&& equal_pairs(left.console_window_position, right.console_window_position)
    &&& equal_pairs(left.abyss_window_size, right.abyss_window_size)
    &&& equal_pairs(left.abyss_window_position, right.abyss_window_position)
    &&& equal_pairs(left.hit_detail_window_size, right.hit_detail_window_size)
    &&& equal_pairs(left.hit_detail_window_position, right.hit_detail_window_position)
    &&& equal_pairs(left.team_hit_detail_window_size, right.team_hit_detail_window_size)
    &&& equal_pairs(left.team_hit_detail_window_position, right.team_hit_detail_window_position)
}

/// HUD settings with the same content.
pub open spec fn same_hud(left: HudConfig, right: HudConfig) -> bool {
    left.module_order@ == right.module_order@ && left == (HudConfig {
        module_order: left.module_order,
        ..right
    })
}

/// Settings that compare as equal.
pub open spec fn equal_configs(left: UiConfig, right: UiConfig) -> bool {
    &&& left.plain == right.plain
    &&& equal_measures(left.measured, right.measured)
    &&& same_hud(left.hud, right.hud)
    &&& left.capture_filter@ == right.capture_filter@
    &&& held(left.manual_capture_device) == held(right.manual_capture_device)
    &&& held(left.mod_studio_china_game_directory) == held(right.mod_studio_china_game_directory)
    &&& held(left.mod_studio_global_game_directory) == held(
        right.mod_studio_global_game_directory,
    )
    &&& left.global_hotkeys@ == right.global_hotkeys@
}

/// `left` is `right` but for its HUD, which has the same content.
pub open spec fn copies(left: UiConfig, right: UiConfig) -> bool {
    left == (UiConfig { hud: left.hud, ..right }) && same_hud(left.hud, right.hud)
}

fn measures_are_equal(left: &MeasuredSettings, right: &MeasuredSettings) -> (result: bool)
    ensures
        result == equal_measures(*left, *right),
{
    left.opacity.is_equal_to(right.opacity) && left.island_offset_x.is_equal_to(
        right.island_offset_x,
    ) && left.timeline_bucket_seconds.is_equal_to(right.timeline_bucket_seconds)
        && pairs_are_equal(left.main_window_size, right.main_window_size) && pairs_are_equal(
        left.main_window_position,
        right.main_window_position,
    ) && pairs_are_equal(left.console_window_size, right.console_window_size) && pairs_are_equal(
        left.console_window_position,
        right.console_window_position,
    ) && pairs_are_equal(left.abyss_window_size, right.abyss_window_size) && pairs_are_equal(
        left.abyss_window_position,
        right.abyss_window_position,
    ) && pairs_are_equal(left.hit_detail_window_size, right.hit_detail_window_size)
        && pairs_are_equal(left.hit_detail_window_position, right.hit_detail_window_position)
        && pairs_are_equal(left.team_hit_detail_window_size, right.team_hit_detail_window_size)
        && pairs_are_equal(
        left.team_hit_detail_window_position,
        right.team_hit_detail_window_position,
    )
}

fn orders_are_equal(left: &Vec<HudModule>, right: &Vec<HudModule>) -> (result: bool)
    ensures
        result == (left@ == right@),
{
    if left.len() != right.len() {
        return false;
    }
    let mut i: usize = 0;
    while i < left.len()
        invariant
            i <= left@.len(),
            left@.len() == right@.len(),
            forall|k: int| 0 <= k < i ==> left@[k] == #[trigger] right@[k],
        decreases left.len() - i,
    {
        if left[i] != right[i] {
            return false;
        }
        i = i + 1;
    }
    assert(left@ =~= right@);
    true
}

fn huds_are_equal(left: &HudConfig, right: &HudConfig) -> (result: bool)
    ensures
        result == same_hud(*left, *right),
{
    left.width == right.width && left.show_title == right.show_title && left.show_team_dps
        == right.show_team_dps && left.show_duration == right.show_duration
        && left.show_total_damage == right.show_total_damage && left.show_character_rows
        == right.show_character_rows && left.show_damage_taken == right.show_damage_taken
        && left.show_abyss_half == right.show_abyss_half && left.show_passthrough_state
        == right.show_passthrough_state && left.show_mini_timeline == right.show_mini_timeline
        && orders_are_equal(&left.module_order, &right.module_order)
}

fn texts_are_equal(left: &Option<String>, right: &Option<String>) -> (result: bool)
    ensures
        result == (held(*left) == held(*right)),
{
    match (left, right) {
        (None, None) => true,
        (Some(left), Some(right)) => *left == *right,
        _ => false,
    }
}

fn copy_order(order: &Vec<HudModule>) -> (result: Vec<HudModule>)
    ensures
        result@ == order@,
{
    let mut result: Vec<HudModule> = Vec::new();
    let mut i: usize = 0;
    while i < order.len()
        invariant
            i <= order@.len(),
            result@ == order@.take(i as int),
        decreases order.len() - i,
    {
        result.push(order[i]);
        i = i + 1;
        assert(result@ =~= order@.take(i as int));
    }
    assert(order@.take(i as int) =~= order@);
    result
}

impl UiConfig {
    pub open spec fn with_plain(self, plain: PlainSettings) -> Self {
        UiConfig { plain, ..self }
    }

    pub open spec fn with_hud_position(self, position: ScreenPoint) -> Self {
        self.with_plain(PlainSettings { hud_window_position: Some(position), ..self.plain })
    }

    pub fn is_equal_to(&self, other: &UiConfig) -> (result: bool)
        ensures
            result == equal_configs(*self, *other),
    {
        self.plain == other.plain && measures_are_equal(&self.measured, &other.measured)
            && huds_are_equal(&self.hud, &other.hud) && self.capture_filter
            == other.capture_filter && texts_are_equal(
            &self.manual_capture_device,
            &other.manual_capture_device,
        ) && texts_are_equal(
            &self.mod_studio_china_game_directory,
            &other.mod_studio_china_game_directory,
        ) && texts_are_equal(
            &self.mod_studio_global_game_directory,
            &other.mod_studio_global_game_directory,
        ) && self.global_hotkeys == other.global_hotkeys
    }

    pub fn copied(&self) -> (result: UiConfig)
        ensures
            copies(result, *self),
    {
        UiConfig {
            plain: self.plain,
            measured: self.measured,
            hud: HudConfig {
                width: self.hud.width,
                module_order: copy_order(&self.hud.module_order),
                show_title: self.hud.show_title,
                show_team_dps: self.hud.show_team_dps,
                show_duration: self.hud.show_duration,
                show_total_damage: self.hud.show_total_damage,
                show_character_rows: self.hud.show_character_rows,
                show_damage_taken: self.hud.show_damage_taken,
                show_abyss_half: self.hud.show_abyss_half,
                show_passthrough_state: self.hud.show_passthrough_state,
                show_mini_timeline: self.hud.show_mini_timeline,
            },
            capture_filter: self.capture_filter.clone(),
            manual_capture_device: self.manual_capture_device.clone(),
            mod_studio_china_game_directory: self.mod_studio_china_game_directory.clone(),
            mod_studio_global_game_directory: self.mod_studio_global_game_directory.clone(),
            global_hotkeys: self.global_hotkeys.clone(),
        }
    }
}

/// Settings can be made valid and saved.
pub open spec fn stores<Z: Fn(UiConfig) -> UiConfig, V: Fn(&UiConfig) -> Result<(), String>>(
    sanitize: Z,
    save: V,
) -> bool {
    &&& forall|config: UiConfig| #[trigger] call_requires(sanitize, (config,))
    &&& forall|config: UiConfig| #[trigger] call_requires(save, (&config,))
}

/// The settings in force, and the revisions that tell of a change.
#[derive(Clone, Debug)]
pub struct SettingsStore {
    pub config: UiConfig,
    /// Moves whenever something that is drawn can have changed.
    pub presentation_revision: u64,
    /// Moves whenever the settings page can have changed.
    pub settings_revision: u64,
}

impl SettingsStore {
    /// `after` is `self` after a change to `candidate` was tried. The revisions
    /// move only for a change that is announced.
    pub open spec fn changes<
        Z: Fn(UiConfig) -> UiConfig,
        V: Fn(&UiConfig) -> Result<(), String>,
    >(
        self,
        sanitize: Z,
        save: V,
        candidate: UiConfig,
        announced: bool,
        after: Self,
        result: Result<bool, String>,
    ) -> bool {
        exists|valid: UiConfig| #[trigger]
            call_ensures(sanitize, (candidate,), valid) && self.settles(
                save,
                valid,
                announced,
                after,
                result,
            )
    }

    /// What becomes of settings that are valid.
    pub open spec fn settles<V: Fn(&UiConfig) -> Result<(), String>>(
        self,
        save: V,
        valid: UiConfig,
        announced: bool,
        after: Self,
        result: Result<bool, String>,
    ) -> bool {
        if equal_configs(valid, self.config) {
            after == self && result == Ok::<bool, String>(false)
        } else {
            exists|saved: Result<(), String>| #[trigger]
                call_ensures(save, (&valid,), saved) && match saved {
                    Err(error) => after == self && result == Err::<bool, _>(error),
                    Ok(_) => result == Ok::<bool, String>(true) && after == (SettingsStore {
                        config: valid,
                        presentation_revision: if announced {
                            next_generation(self.presentation_revision)
                        } else {
                            self.presentation_revision
                        },
                        settings_revision: if announced {
                            next_generation(self.settings_revision)
                        } else {
                            self.settings_revision
                        },
                    }),
                }
        }
    }

    /// Tries a change and announces it.
    pub fn update_ui_config<
        Z: Fn(UiConfig) -> UiConfig,
        V: Fn(&UiConfig) -> Result<(), String>,
    >(&mut self, candidate: UiConfig, sanitize: &Z, save: &V) -> (result: Result<bool, String>)
        requires
            stores(*sanitize, *save),
        ensures
            old(self).changes(*sanitize, *save, candidate, true, *final(self), result),
    {
        let valid = sanitize(candidate);
        self.settle(valid, true, save)
    }

    /// Tries a change that nothing on screen depends on.
    pub fn update_quietly<
        Z: Fn(UiConfig) -> UiConfig,
        V: Fn(&UiConfig) -> Result<(), String>,
    >(&mut self, candidate: UiConfig, sanitize: &Z, save: &V) -> (result: Result<bool, String>)
        requires
            stores(*sanitize, *save),
        ensures
            old(self).changes(*sanitize, *save, candidate, false, *final(self), result),
    {
        let valid = sanitize(candidate);
        self.settle(valid, false, save)
    }

    fn settle<V: Fn(&UiConfig) -> Result<(), String>>(
        &mut self,
        valid: UiConfig,
        announced: bool,
        save: &V,
    ) -> (result: Result<bool, String>)
        requires
            forall|config: UiConfig| #[trigger] call_requires(*save, (&config,)),
        ensures
            old(self).settles(*save, valid, announced, *final(self), result),
    {
        if valid.is_equal_to(&self.config) {
            return Ok(false);
        }
        match save(&valid) {
            Err(error) => Err(error),
            Ok(_) => {
                self.config = valid;
                if announced {
                    self.presentation_revision = advance_generation(self.presentation_revision);
                    self.settings_revision = advance_generation(self.settings_revision);
                }
                Ok(true)
            },
        }
    }

    /// Has the settings page show the capture files anew.
    pub fn refresh_capture_file_stats(&mut self)
        ensures
            *final(self) == (SettingsStore {
                settings_revision: next_generation(old(self).settings_revision),
                ..*old(self)
            }),
    {
        self.settings_revision = advance_generation(self.settings_revision);
    }

    /// Takes over the capture devices that were found. Where the search failed,
    /// the known ones stay.
    pub fn refresh_capture_devices<D, E>(
        &mut self,
        devices: &mut Vec<D>,
        found: Result<Vec<D>, E>,
    ) -> (result: Result<(), E>)
        ensures
            match found {
                Err(error) => {
                    &&& result == Err::<(), E>(error)
                    &&& *final(devices) == *old(devices)
                    &&& *final(self) == *old(self)
                },
                Ok(found) => {
                    &&& result is Ok
                    &&& *final(devices) == found
                    &&& *final(self) == (SettingsStore {
                        settings_revision: next_generation(old(self).settings_revision),
                        ..*old(self)
                    })
                },
            },
    {
        match found {
            Err(error) => Err(error),
            Ok(found) => {
                *devices = found;
                self.settings_revision = advance_generation(self.settings_revision);
                Ok(())
            },
        }
    }

    /// Keeps where the HUD stands. Nothing is announced, and nothing has to be
    /// made valid.
    pub fn set_hud_window_position<V: Fn(&UiConfig) -> Result<(), String>>(
        &mut self,
        position: ScreenPoint,
        save: &V,
    ) -> (result: Result<bool, String>)
        requires
            forall|config: UiConfig| #[trigger] call_requires(*save, (&config,)),
        ensures
            if old(self).config.plain.hud_window_position == Some(position) {
                *final(self) == *old(self) && result == Ok::<bool, String>(false)
            } else {
                exists|candidate: UiConfig, saved: Result<(), String>|
                    {
                        &&& #[trigger] call_ensures(*save, (&candidate,), saved)
                        &&& #[trigger] copies(
                            candidate,
                            old(self).config.with_hud_position(position),
                        )
                        &&& match saved {
                            Err(error) => *final(self) == *old(self) && result == Err::<bool, _>(
                                error,
                            ),
                            Ok(_) => result == Ok::<bool, String>(true) && *final(self) == (
                            SettingsStore { config: candidate, ..*old(self) }),
                        }
                    }
            },
    {
        if self.config.plain.hud_window_position == Some(position) {
            return Ok(false);
        }
        let mut candidate = self.config.copied();
        candidate.plain.hud_window_position = Some(position);
        let ghost tried = candidate;
        let saved = save(&candidate);
        proof {
            assert(call_ensures(*save, (&tried,), saved));
            assert(copies(tried, old(self).config.with_hud_position(position)));
        }
        match saved {
            Err(error) => Err(error),
            Ok(_) => {
                self.config = candidate;
                Ok(true)
            },
        }
    }
}

/// A change that cannot be saved changes nothing, and so does one that is no
/// change; any other is in force once it is saved.
pub proof fn only_saved_changes_take_force<
    Z: Fn(UiConfig) -> UiConfig,
    V: Fn(&UiConfig) -> Result<(), String>,
>(
    sanitize: Z,
    save: V,
    before: SettingsStore,
    candidate: UiConfig,
    announced: bool,
    after: SettingsStore,
    result: Result<bool, String>,
)
    requires
        before.changes(sanitize, save, candidate, announced, after, result),
    ensures
        result != Ok::<bool, String>(true) ==> after == before,
        result == Ok::<bool, String>(true) ==> call_ensures(save, (&after.config,), Ok::<(), String>(())),
        result == Ok::<bool, String>(true) && announced ==> after.presentation_revision
            != before.presentation_revision && after.settings_revision != before.settings_revision,
        !announced ==> after.presentation_revision == before.presentation_revision
            && after.settings_revision == before.settings_revision,
{
    let valid = choose|valid: UiConfig| #[trigger]
        call_ensures(sanitize, (candidate,), valid) && before.settles(
            save,
            valid,
            announced,
            after,
            result,
        );
    if !equal_configs(valid, before.config) {
        let saved = choose|saved: Result<(), String>| #[trigger]
            call_ensures(save, (&valid,), saved) && match saved {
                Err(error) => after == before && result == Err::<bool, _>(error),
                Ok(_) => result == Ok::<bool, String>(true) && after == (SettingsStore {
                    config: valid,
                    presentation_revision: if announced {
                        next_generation(before.presentation_revision)
                    } else {
                        before.presentation_revision
                    },
                    settings_revision: if announced {
                        next_generation(before.settings_revision)
                    } else {
                        before.settings_revision
                    },
                }),
            };
        if saved is Ok {
            assert(saved->Ok_0 == ());
        }
    }
}

} // verus!
