//! What the main window, the HUD window and the diagnostics page read of the
//! session.
use std::collections::{HashMap, HashSet};

use vstd::prelude::*;

use crate::desktop::AppState;
use crate::detail::{find_row, info_of, row_of};
use crate::double::{lawful, Arith, Double};
use crate::hud::{
    draws_hud, half_shown, party_shown, project_hud, reads_every_series, shown_half,
    HudCharacterSnapshot, HudConfig, HudProjectionOptions, HudSnapshot,
};
use crate::live_capture::{
    issue_name, LiveCaptureService, LiveCaptureStatus, PacketStreamRevision,
};
use crate::model::{
    AbyssHalf, CharacterInfo, CombatState, DamageAttributionSummary, DpsTimeBasis, Language,
    PartyCombatState,
};
use crate::presentation::{
    followed, packet_cursor, usable_cursor, PresentationControl, PresentationState,
};
use crate::settings::{DpsTimeMode, UiConfig};
use crate::single::Single;
use crate::text::{as_text, decimal, decimal_text, held, to_text};
use crate::timeline::{
    draws_timeline, project_timeline, reads_timelines, sizes_buckets, BucketWidth,
    TimelineProjection, TimelineProjectionOptions, TimelineReadings, TimelineScope,
    TimelineSeries,
};

verus! {

broadcast use vstd::std_specs::hash::group_hash_axioms;

/// How often the HUD is drawn at most, in milliseconds.
pub const TECHNICAL_STREAM_INTERVAL_MS: u32 = 100;

/// How a session is read.
#[derive(Clone, Copy, Debug, PartialEq, Eq, Structural)]
pub struct ReadingPolicy {
    pub subtract_time_stop: bool,
    pub separate_reaction_damage: bool,
    pub timeline_bucket_seconds: Double,
}

/// How long a character fought.
#[derive(Clone, Copy, Debug, PartialEq, Eq, Structural)]
pub struct CharacterDuration {
    pub character_id: u32,
    pub seconds: Double,
}

/// What the main window shows.
#[derive(Clone, Debug)]
pub struct MainDpsReadout {
    pub hud: HudSnapshot,
    pub has_hits: bool,
    pub game_paused: bool,
    pub damage_attribution: DamageAttributionSummary,
    pub separate_reaction_damage: bool,
    pub character_durations: Vec<CharacterDuration>,
}

/// How long the characters of some rows fought; a row without a character of
/// the party has no duration.
pub open spec fn durations_of(
    rows: Seq<HudCharacterSnapshot>,
    party: PartyCombatState,
    subtract_time_stop: bool,
) -> Seq<CharacterDuration>
    decreases rows.len(),
{
    if rows.len() == 0 {
        Seq::empty()
    } else {
        let earlier = durations_of(rows.drop_last(), party, subtract_time_stop);
        let id = rows.last().character_id;
        match row_of(party, id) {
            Some(at) => earlier.push(
                CharacterDuration {
                    character_id: id,
                    seconds: party.stats@[at].combined.duration.picked(subtract_time_stop),
                },
            ),
            None => earlier,
        }
    }
}

fn character_durations(
    rows: &Vec<HudCharacterSnapshot>,
    party: &PartyCombatState,
    subtract_time_stop: bool,
) -> (result: Vec<CharacterDuration>)
    ensures
        result@ == durations_of(rows@, *party, subtract_time_stop),
{
    let mut result: Vec<CharacterDuration> = Vec::new();
    let mut i: usize = 0;
    while i < rows.len()
        invariant
            i <= rows@.len(),
            result@ == durations_of(rows@.take(i as int), *party, subtract_time_stop),
        decreases rows.len() - i,
    {
        assert(rows@.take(i + 1).drop_last() =~= rows@.take(i as int));
        let id: u32 = rows[i].character_id;
        if let Some(at) = find_row(party, id) {
            result.push(
                CharacterDuration {
                    character_id: id,
                    seconds: party.stats[at].combined.duration.pick(subtract_time_stop),
                },
            );
        }
        i = i + 1;
    }
    assert(rows@.take(i as int) =~= rows@);
    result
}

/// The options that the main window draws with.
pub open spec fn main_options(
    policy: ReadingPolicy,
    selected: Option<AbyssHalf>,
) -> HudProjectionOptions {
    HudProjectionOptions {
        dps_time_basis: if policy.subtract_time_stop {
            DpsTimeBasis::SubtractTimeStop
        } else {
            DpsTimeBasis::WallClock
        },
        separate_reaction_damage: policy.separate_reaction_damage,
        selected_abyss_half: selected,
        preview_when_empty: false,
        timeline_bucket_seconds: policy.timeline_bucket_seconds,
    }
}

/// No party of a session lists a character twice.
pub open spec fn lists_characters_once(state: CombatState) -> bool {
    state.battle.team.rows_are_distinct() && state.battle.abyss.first_half.rows_are_distinct()
        && state.battle.abyss.second_half.rows_are_distinct()
}

/// What the main window shows of a session. It always shows everything.
pub open spec fn reads_main<
    F: Fn(Arith) -> Double,
    T: Fn(&CombatState, Option<AbyssHalf>, Double, bool) -> TimelineSeries,
    Z: Fn(&HudConfig) -> HudConfig,
>(
    ops: F,
    series_of: T,
    sanitize: Z,
    state: CombatState,
    selected: Option<AbyssHalf>,
    policy: ReadingPolicy,
    config: HudConfig,
    readout: MainDpsReadout,
) -> bool {
    let half = half_shown(state.battle.abyss, selected);
    let party = party_shown(state, half);
    &&& draws_hud(
        ops,
        series_of,
        sanitize,
        state,
        config,
        Set::empty(),
        main_options(policy, selected),
        readout.hud,
    )
    &&& readout.has_hits == (state.battle.team.hits@.len() > 0)
    &&& readout.game_paused == state.battle.game_paused
    &&& readout.damage_attribution == party.attribution
    &&& readout.separate_reaction_damage == policy.separate_reaction_damage
    &&& readout.character_durations@ == durations_of(
        readout.hud.characters@,
        party,
        policy.subtract_time_stop,
    )
}

/// Reads the session for the main window. `config` is the HUD with everything
/// in it.
pub fn project_main_readout<
    F: Fn(Arith) -> Double,
    T: Fn(&CombatState, Option<AbyssHalf>, Double, bool) -> TimelineSeries,
    Z: Fn(&HudConfig) -> HudConfig,
>(
    state: &CombatState,
    selected: Option<AbyssHalf>,
    policy: ReadingPolicy,
    config: &HudConfig,
    series_of: &T,
    sanitize: &Z,
    ops: &F,
) -> (readout: MainDpsReadout)
    requires
        lawful(*ops),
        reads_every_series(*series_of),
        call_requires(*sanitize, (config,)),
        lists_characters_once(*state),
    ensures
        reads_main(*ops, *series_of, *sanitize, *state, selected, policy, *config, readout),
{
    let half = shown_half(&state.battle.abyss, selected);
    let party: &PartyCombatState = match half {
        Some(half) => state.battle.abyss.half(half),
        None => &state.battle.team,
    };
    let hidden: HashSet<u32> = HashSet::new();
    let options = HudProjectionOptions {
        dps_time_basis: DpsTimeBasis::from_subtract_time_stop(policy.subtract_time_stop),
        separate_reaction_damage: policy.separate_reaction_damage,
        selected_abyss_half: selected,
        preview_when_empty: false,
        timeline_bucket_seconds: policy.timeline_bucket_seconds,
    };
    assert(hidden@ =~= Set::empty());
    let hud = project_hud(state, config, &hidden, options, series_of, sanitize, ops);
    let durations = character_durations(&hud.characters, party, policy.subtract_time_stop);
    MainDpsReadout {
        hud,
        has_hits: state.battle.team.hits.len() > 0,
        game_paused: state.battle.game_paused,
        damage_attribution: party.attribution,
        separate_reaction_damage: policy.separate_reaction_damage,
        character_durations: durations,
    }
}

/// A row with the colour of its character.
pub open spec fn colored(
    plain: HudCharacterSnapshot,
    characters: Map<u32, CharacterInfo>,
    row: HudCharacterSnapshot,
) -> bool {
    &&& row == (HudCharacterSnapshot { color: row.color, ..plain })
    &&& held(row.color) == (match info_of(characters, plain.character_id) {
        Some(info) => held(info.color),
        None => None,
    })
}

/// A HUD with the colours of its characters.
pub open spec fn colors_hud(
    plain: HudSnapshot,
    characters: Map<u32, CharacterInfo>,
    hud: HudSnapshot,
) -> bool {
    &&& hud == (HudSnapshot { characters: hud.characters, ..plain })
    &&& hud.characters@.len() == plain.characters@.len()
    &&& forall|k: int|
        0 <= k < plain.characters@.len() ==> colored(
            plain.characters@[k],
            characters,
            #[trigger] hud.characters@[k],
        )
}

fn color_rows(
    rows: Vec<HudCharacterSnapshot>,
    characters: &HashMap<u32, CharacterInfo>,
) -> (result: Vec<HudCharacterSnapshot>)
    ensures
        result@.len() == rows@.len(),
        forall|k: int|
            0 <= k < rows@.len() ==> colored(rows@[k], characters@, #[trigger] result@[k]),
{
    let ghost all = rows@;
    let mut rest = rows;
    let mut result: Vec<HudCharacterSnapshot> = Vec::new();
    let ghost mut done: int = 0;
    while rest.len() > 0
        invariant
            0 <= done <= all.len(),
            rest@ == all.skip(done),
            result@.len() == done,
            forall|k: int|
                0 <= k < done ==> colored(all[k], characters@, #[trigger] result@[k]),
        decreases rest.len(),
    {
        let mut row = rest.remove(0);
        proof {
            assert(row == all[done]);
            assert(rest@ =~= all.skip(done + 1));
            done = done + 1;
        }
        row.color =
        match characters.get(&row.character_id) {
            Some(info) => to_text(as_text(&info.color)),
            None => None,
        };
        result.push(row);
    }
    result
}

/// What the HUD window gets.
#[derive(Clone, Debug)]
pub struct TechnicalSnapshot {
    pub sequence: String,
    pub bridge_status: &'static str,
    pub window_label: &'static str,
    pub stream_interval_ms: u32,
    pub passthrough: bool,
    pub always_on_top: bool,
    pub capture: LiveCaptureStatus,
    pub hud: HudSnapshot,
}

/// What the HUD window is drawn with.
pub struct HudView<'a> {
    pub sequence: u64,
    pub passthrough: bool,
    pub always_on_top: bool,
    pub capture: LiveCaptureStatus,
    pub selected_abyss_half: Option<AbyssHalf>,
    pub policy: ReadingPolicy,
    pub config: &'a HudConfig,
    pub characters: &'a HashMap<u32, CharacterInfo>,
}

/// The options that the HUD window draws with. While it is edited, a preview
/// stands in for an empty session.
pub open spec fn window_options(view: HudView) -> HudProjectionOptions {
    HudProjectionOptions {
        preview_when_empty: !view.passthrough,
        ..main_options(view.policy, view.selected_abyss_half)
    }
}

/// What the HUD window gets of a session.
pub open spec fn snapshots_hud<
    F: Fn(Arith) -> Double,
    T: Fn(&CombatState, Option<AbyssHalf>, Double, bool) -> TimelineSeries,
    Z: Fn(&HudConfig) -> HudConfig,
>(
    ops: F,
    series_of: T,
    sanitize: Z,
    state: CombatState,
    view: HudView,
    snapshot: TechnicalSnapshot,
) -> bool {
    &&& snapshot.sequence@ == decimal(view.sequence as nat)
    &&& snapshot.bridge_status@ == "ready"@
    &&& snapshot.window_label@ == "hud"@
    &&& snapshot.stream_interval_ms == TECHNICAL_STREAM_INTERVAL_MS
    &&& snapshot.passthrough == view.passthrough
    &&& snapshot.always_on_top == view.always_on_top
    &&& snapshot.capture == view.capture
    &&& exists|plain: HudSnapshot|
        {
            &&& #[trigger] draws_hud(
                ops,
                series_of,
                sanitize,
                state,
                *view.config,
                Set::empty(),
                window_options(view),
                plain,
            )
            &&& colors_hud(plain, view.characters@, snapshot.hud)
        }
}

/// Draws the HUD window.
pub fn technical_snapshot<
    F: Fn(Arith) -> Double,
    T: Fn(&CombatState, Option<AbyssHalf>, Double, bool) -> TimelineSeries,
    Z: Fn(&HudConfig) -> HudConfig,
>(
    state: &CombatState,
    view: &HudView<'_>,
    series_of: &T,
    sanitize: &Z,
    ops: &F,
) -> (snapshot: TechnicalSnapshot)
    requires
        lawful(*ops),
        reads_every_series(*series_of),
        call_requires(*sanitize, (view.config,)),
        lists_characters_once(*state),
    ensures
        snapshots_hud(*ops, *series_of, *sanitize, *state, *view, snapshot),
{
    let hidden: HashSet<u32> = HashSet::new();
    let options = HudProjectionOptions {
        dps_time_basis: DpsTimeBasis::from_subtract_time_stop(view.policy.subtract_time_stop),
        separate_reaction_damage: view.policy.separate_reaction_damage,
        selected_abyss_half: view.selected_abyss_half,
        preview_when_empty: !view.passthrough,
        timeline_bucket_seconds: view.policy.timeline_bucket_seconds,
    };
    assert(hidden@ =~= Set::empty());
    let mut hud = project_hud(state, view.config, &hidden, options, series_of, sanitize, ops);
    let ghost plain = hud;
    let mut rows: Vec<HudCharacterSnapshot> = Vec::new();
    std::mem::swap(&mut hud.characters, &mut rows);
    hud.characters = color_rows(rows, view.characters);
    proof {
        assert(draws_hud(
            *ops,
            *series_of,
            *sanitize,
            *state,
            *view.config,
            Set::empty(),
            window_options(*view),
            plain,
        ));
        assert(colors_hud(plain, view.characters@, hud));
    }
    TechnicalSnapshot {
        sequence: decimal_text(view.sequence),
        bridge_status: "ready",
        window_label: "hud",
        stream_interval_ms: TECHNICAL_STREAM_INTERVAL_MS,
        passthrough: view.passthrough,
        always_on_top: view.always_on_top,
        capture: view.capture,
        hud,
    }
}

/// What the diagnostics page reads of the session.
#[derive(Clone, Debug)]
pub struct DiagnosticReading {
    pub capture_running: bool,
    pub replay_running: bool,
    pub active_capture_filter: Option<String>,
    pub raw_packet_count: usize,
    pub parsed_packet_count: u64,
    pub hit_count: usize,
    pub dropped_history_archives: u64,
    pub include_incoming: bool,
    pub server_damage_calibration: bool,
    pub last_diagnostic: Option<String>,
    pub manual_capture_device: Option<String>,
}

/// Reads the session for the diagnostics page. The filter that is in use and
/// the number of raw packets, where any are recorded, come from the capture
/// itself.
pub fn diagnostics_input(
    live: &LiveCaptureService,
    config: &UiConfig,
    active_capture_filter: Option<String>,
    raw_packets: Option<u64>,
) -> (reading: DiagnosticReading)
    ensures
        reading.capture_running == (live.control.status.phase.active()
            && !live.control.replay_running),
        reading.replay_running == live.control.replay_running,
        reading.active_capture_filter == active_capture_filter,
        reading.raw_packet_count == (match raw_packets {
            Some(count) => count as usize,
            None => 0,
        }),
        reading.parsed_packet_count == live.state.battle.packet_log.packet_count,
        reading.hit_count == live.state.battle.team.hits@.len(),
        reading.dropped_history_archives == live.control.dropped_history_archives,
        reading.include_incoming,
        reading.server_damage_calibration == config.plain.capture.server_damage_calibration,
        held(reading.last_diagnostic) == (match live.control.status.issue {
            Some(issue) => Some(issue_name(issue)),
            None => None,
        }),
        held(reading.manual_capture_device) == held(config.manual_capture_device),
{
    let status = live.status();
    DiagnosticReading {
        capture_running: status.phase.is_active() && !live.replay_running(),
        replay_running: live.replay_running(),
        active_capture_filter,
        raw_packet_count: match raw_packets {
            Some(count) => count as usize,
            None => 0,
        },
        parsed_packet_count: live.state.battle.packet_log.packet_count,
        hit_count: live.state.battle.team.hits.len(),
        dropped_history_archives: live.dropped_history_archives(),
        include_incoming: true,
        server_damage_calibration: config.plain.capture.server_damage_calibration,
        last_diagnostic: match status.issue {
            Some(issue) => Some(issue.name().to_owned()),
            None => None,
        },
        manual_capture_device: to_text(as_text(&config.manual_capture_device)),
    }
}

/// How the settings have a session read, at a bucket width that is valid.
pub open spec fn policy_of(config: UiConfig, bucket: BucketWidth) -> ReadingPolicy {
    ReadingPolicy {
        subtract_time_stop: config.plain.capture.dps_time_mode == DpsTimeMode::TimeStopAdjusted,
        separate_reaction_damage: config.plain.capture.separate_reaction_damage,
        timeline_bucket_seconds: bucket.seconds,
    }
}

fn reading_policy(config: &UiConfig, bucket: BucketWidth) -> (policy: ReadingPolicy)
    ensures
        policy == policy_of(*config, bucket),
{
    ReadingPolicy {
        subtract_time_stop: config.plain.capture.dps_time_mode.subtracts_time_stop(),
        separate_reaction_damage: config.plain.capture.separate_reaction_damage,
        timeline_bucket_seconds: bucket.seconds,
    }
}

/// What a chart of the settings is drawn with.
pub open spec fn chart_options(config: UiConfig, scope: TimelineScope) -> TimelineProjectionOptions {
    TimelineProjectionOptions {
        scope,
        bucket_seconds: config.measured.timeline_bucket_seconds,
        subtract_time_stop: config.plain.capture.dps_time_mode == DpsTimeMode::TimeStopAdjusted,
        language: config.plain.interface.language,
    }
}

/// What the HUD window of the program is drawn with.
pub open spec fn hud_view<'a>(app: &'a AppState, sequence: u64, policy: ReadingPolicy) -> HudView<
    'a,
> {
    HudView {
        sequence,
        passthrough: app.passthrough,
        always_on_top: app.settings.config.plain.on_top.hud,
        capture: app.live.control.status,
        selected_abyss_half: app.presentation.control.selected_abyss_half,
        policy,
        config: &app.settings.config.hud,
        characters: &app.live.resources.characters,
    }
}

impl AppState {
    /// The program once a selected round that is over was left.
    pub open spec fn refreshed(self) -> AppState {
        AppState {
            presentation: self.presentation.refreshed(self.live.control.outgoing_hit_revision),
            ..self
        }
    }

    /// The session that is presented.
    pub open spec fn presents(self) -> CombatState {
        self.refreshed().presentation.presents(self.live.state)
    }

    /// The program once the half that is played was followed.
    pub open spec fn following(self) -> AppState {
        let control = self.presentation.control;
        let next = followed(
            control.selected_abyss_half,
            control.observed_abyss_half,
            self.presentation.presents(self.live.state).battle.abyss.active_half,
        );
        AppState {
            presentation: PresentationState {
                control: PresentationControl {
                    selected_abyss_half: next.0,
                    observed_abyss_half: next.1,
                    ..control
                },
                ..self.presentation
            },
            ..self
        }
    }

    /// Leaves a selected round that is over.
    pub(crate) fn refresh(&mut self)
        ensures
            *final(self) == old(self).refreshed(),
    {
        let outgoing: u64 = self.live.outgoing_hit_revision();
        let _ = self.presentation.main_selected_round_id(outgoing);
    }

    /// Hands the presented session over.
    pub fn with_main_presented_state<V, P: Fn(&CombatState) -> V>(&mut self, project: &P) -> (view:
        V)
        requires
            call_requires(*project, (&old(self).presents(),)),
        ensures
            *final(self) == old(self).refreshed(),
            call_ensures(*project, (&old(self).presents(),), view),
    {
        self.refresh();
        project(self.presentation.presented(&self.live.state))
    }

    /// Draws the skills of the presented session. `project` draws those of a
    /// session, with the characters that are known and in a language.
    pub fn skills_projection<
        S,
        V,
        P: Fn(&CombatState, &HashMap<u32, CharacterInfo>, S, Language) -> V,
    >(&mut self, scope: S, project: &P) -> (skills: V)
        requires
            call_requires(
                *project,
                (
                    &old(self).presents(),
                    &old(self).live.resources.characters,
                    scope,
                    old(self).settings.config.plain.interface.language,
                ),
            ),
        ensures
            *final(self) == old(self).refreshed(),
            call_ensures(
                *project,
                (
                    &old(self).presents(),
                    &old(self).live.resources.characters,
                    scope,
                    old(self).settings.config.plain.interface.language,
                ),
                skills,
            ),
    {
        self.refresh();
        let state = self.presentation.presented(&self.live.state);
        project(
            state,
            &self.live.resources.characters,
            scope,
            self.settings.config.plain.interface.language,
        )
    }

    /// Reads the presented session for the main window. The half that is
    /// played is followed only while no round is selected and processing goes
    /// on. `detailed` is the HUD with everything in it.
    pub fn main_dps_readout<
        F: Fn(Arith) -> Double,
        T: Fn(&CombatState, Option<AbyssHalf>, Double, bool) -> TimelineSeries,
        Z: Fn(&HudConfig) -> HudConfig,
        B: Fn(Single) -> BucketWidth,
    >(
        &mut self,
        selected_round_id: Option<&str>,
        detailed: &HudConfig,
        series_of: &T,
        sanitize: &Z,
        width: &B,
        ops: &F,
    ) -> (readout: MainDpsReadout)
        requires
            lawful(*ops),
            reads_every_series(*series_of),
            call_requires(*sanitize, (detailed,)),
            sizes_buckets(*width),
            lists_characters_once(old(self).presents()),
        ensures
            *final(self) == (if selected_round_id is None
                && !old(self).presentation.control.processing_paused {
                old(self).refreshed().following()
            } else {
                old(self).refreshed()
            }),
            exists|bucket: BucketWidth|
                {
                    &&& #[trigger] call_ensures(
                        *width,
                        (old(self).settings.config.measured.timeline_bucket_seconds,),
                        bucket,
                    )
                    &&& reads_main(
                        *ops,
                        *series_of,
                        *sanitize,
                        old(self).presents(),
                        final(self).presentation.control.selected_abyss_half,
                        policy_of(old(self).settings.config, bucket),
                        *detailed,
                        readout,
                    )
                },
    {
        let follow = selected_round_id.is_none() && !self.presentation.control.processing_paused;
        self.refresh();
        let active = self.presentation.presented(&self.live.state).battle.abyss.active_half;
        let selected = if follow {
            self.presentation.follow_live_abyss_half(active)
        } else {
            self.presentation.control.selected_abyss_half
        };
        let bucket = width(self.settings.config.measured.timeline_bucket_seconds);
        let policy = reading_policy(&self.settings.config, bucket);
        let state = self.presentation.presented(&self.live.state);
        project_main_readout(state, selected, policy, detailed, series_of, sanitize, ops)
    }

    /// Draws the HUD window, numbered in turn with the detail pages.
    pub fn snapshot<
        F: Fn(Arith) -> Double,
        T: Fn(&CombatState, Option<AbyssHalf>, Double, bool) -> TimelineSeries,
        Z: Fn(&HudConfig) -> HudConfig,
        B: Fn(Single) -> BucketWidth,
    >(&mut self, series_of: &T, sanitize: &Z, width: &B, ops: &F) -> (snapshot: TechnicalSnapshot)
        requires
            lawful(*ops),
            reads_every_series(*series_of),
            forall|hud: HudConfig| #[trigger] call_requires(*sanitize, (&hud,)),
            sizes_buckets(*width),
            lists_characters_once(old(self).presents()),
            old(self).sequence < u64::MAX,
        ensures
            *final(self) == (AppState {
                sequence: (old(self).sequence + 1) as u64,
                ..old(self).refreshed()
            }),
            exists|bucket: BucketWidth|
                {
                    &&& #[trigger] call_ensures(
                        *width,
                        (old(self).settings.config.measured.timeline_bucket_seconds,),
                        bucket,
                    )
                    &&& snapshots_hud(
                        *ops,
                        *series_of,
                        *sanitize,
                        old(self).presents(),
                        hud_view(
                            &*final(self),
                            final(self).sequence,
                            policy_of(old(self).settings.config, bucket),
                        ),
                        snapshot,
                    )
                },
    {
        let sequence: u64 = self.next_sequence();
        self.refresh();
        let bucket = width(self.settings.config.measured.timeline_bucket_seconds);
        let view = HudView {
            sequence,
            passthrough: self.passthrough,
            always_on_top: self.settings.config.plain.on_top.hud,
            capture: self.live.status(),
            selected_abyss_half: self.presentation.control.selected_abyss_half,
            policy: reading_policy(&self.settings.config, bucket),
            config: &self.settings.config.hud,
            characters: &self.live.resources.characters,
        };
        let state = self.presentation.presented(&self.live.state);
        technical_snapshot(state, &view, series_of, sanitize, ops)
    }

    /// Draws the timeline of the presented session. `width` makes the width of
    /// a bucket valid, and `read` asks the engine.
    pub fn timeline_projection<
        F: Fn(Arith) -> Double,
        R: Fn(&CombatState, TimelineScope, Double, bool) -> TimelineReadings,
        B: Fn(Single) -> BucketWidth,
    >(&mut self, scope: TimelineScope, read: &R, width: &B, ops: &F) -> (chart: TimelineProjection)
        requires
            lawful(*ops),
            reads_timelines(*read),
            sizes_buckets(*width),
        ensures
            *final(self) == old(self).refreshed(),
            draws_timeline(
                *ops,
                *read,
                *width,
                old(self).presents(),
                old(self).live.resources.characters@,
                chart_options(old(self).settings.config, scope),
                chart,
            ),
    {
        self.refresh();
        let config = &self.settings.config;
        let options = TimelineProjectionOptions {
            scope,
            bucket_seconds: config.measured.timeline_bucket_seconds,
            subtract_time_stop: config.plain.capture.dps_time_mode.subtracts_time_stop(),
            language: config.plain.interface.language,
        };
        let state = self.presentation.presented(&self.live.state);
        project_timeline(state, &self.live.resources.characters, options, read, width, ops)
    }
}

/// The markers of the diagnostics page: the capture's, the packets' and the
/// page's own.
pub fn diagnostics_revision(live: &LiveCaptureService, own: u64) -> (revision: (u64, u64, u64))
    ensures
        revision == (live.control.revision, live.control.packet_revision, own),
{
    (live.revision(), live.packet_stream_revision().generation, own)
}

/// The connection of the game, as the last diagnosis found it.
#[derive(Clone, Debug)]
pub struct CaptureExportNetwork {
    pub pid: u32,
    pub local_ip: String,
    pub remote_ip: String,
    pub remote_port: u16,
}

/// How the captured session is exported.
#[derive(Clone, Debug)]
pub struct CaptureExportOptions {
    pub filter: String,
    pub include_incoming: bool,
    pub game_network: Option<CaptureExportNetwork>,
    pub dps_time_mode: DpsTimeBasis,
}

pub fn capture_export_options(
    config: &UiConfig,
    game_network: Option<CaptureExportNetwork>,
) -> (options: CaptureExportOptions)
    ensures
        options.game_network == game_network,
        options.filter == config.capture_filter,
        options.include_incoming,
        options.dps_time_mode == (if config.plain.capture.dps_time_mode
            == DpsTimeMode::TimeStopAdjusted {
            DpsTimeBasis::SubtractTimeStop
        } else {
            DpsTimeBasis::WallClock
        }),
{
    CaptureExportOptions {
        filter: config.capture_filter.clone(),
        include_incoming: true,
        game_network,
        dps_time_mode: DpsTimeBasis::from_subtract_time_stop(
            config.plain.capture.dps_time_mode.subtracts_time_stop(),
        ),
    }
}

/// The markers of the inventory page: items, characters, and the operation
/// under way.
pub fn empty_curtain_revision(
    presentation: &PresentationState,
    live: &LiveCaptureService,
    operation_revision: u64,
) -> (result: (u64, u64, u64))
    ensures
        ({
            let state = if presentation.control.processing_paused {
                presentation.presents(live.state)
            } else {
                live.state
            };
            result == (
                state.inventory.items_generation,
                state.inventory.characters_generation,
                operation_revision,
            )
        }),
{
    if presentation.control.processing_paused {
        let state = presentation.presented(&live.state);
        (
            state.inventory.items_generation,
            state.inventory.characters_generation,
            operation_revision,
        )
    } else {
        let (items, characters) = live.inventory_revision();
        (items, characters, operation_revision)
    }
}

/// What the packet page is drawn of: the session, its markers, and how many
/// events are still queued.
pub open spec fn packet_source(
    presentation: PresentationState,
    live: LiveCaptureService,
    queued: usize,
) -> (CombatState, PacketStreamRevision, usize) {
    match presentation.paused {
        Some(paused) if presentation.control.processing_paused => (
            paused.state,
            paused.packet_revision,
            0,
        ),
        _ => (
            live.state,
            live.packet_markers(),
            queued,
        ),
    }
}

/// What the packet page gets: what came after its cursor where that is known,
/// else everything recent. The flag tells the two apart.
pub open spec fn pages_packets<
    P,
    N: Fn(&CombatState, PacketStreamRevision, usize, u64) -> Option<P>,
    R: Fn(&CombatState, PacketStreamRevision, usize) -> P,
>(
    since: N,
    recent: R,
    state: CombatState,
    revision: PacketStreamRevision,
    queued: usize,
    cursor: Option<u64>,
    page: (PacketStreamRevision, bool, P),
) -> bool {
    &&& page.0 == revision
    &&& match cursor {
        Some(cursor) => exists|found: Option<P>| #[trigger]
            call_ensures(since, (&state, revision, queued, cursor), found) && match found {
                Some(projection) => !page.1 && page.2 == projection,
                None => page.1 && call_ensures(recent, (&state, revision, queued), page.2),
            },
        None => page.1 && call_ensures(recent, (&state, revision, queued), page.2),
    }
}

fn draw_packets<
    P,
    N: Fn(&CombatState, PacketStreamRevision, usize, u64) -> Option<P>,
    R: Fn(&CombatState, PacketStreamRevision, usize) -> P,
>(
    state: &CombatState,
    revision: PacketStreamRevision,
    queued: usize,
    after: Option<PacketStreamRevision>,
    since: &N,
    recent: &R,
) -> (page: (PacketStreamRevision, bool, P))
    requires
        forall|any: CombatState, marker: PacketStreamRevision, count: usize, at: u64| #[trigger]
            call_requires(*since, (&any, marker, count, at)),
        forall|any: CombatState, marker: PacketStreamRevision, count: usize| #[trigger]
            call_requires(*recent, (&any, marker, count)),
    ensures
        pages_packets(
            *since,
            *recent,
            *state,
            revision,
            queued,
            usable_cursor(after, revision),
            page,
        ),
{
    if let Some(cursor) = packet_cursor(after, revision) {
        let found = since(state, revision, queued, cursor);
        assert(call_ensures(*since, (state, revision, queued, cursor), found));
        if let Some(projection) = found {
            return (revision, false, projection);
        }
    }
    (revision, true, recent(state, revision, queued))
}

/// Draws the packet page.
pub fn packets_projection<
    P,
    N: Fn(&CombatState, PacketStreamRevision, usize, u64) -> Option<P>,
    R: Fn(&CombatState, PacketStreamRevision, usize) -> P,
>(
    presentation: &PresentationState,
    live: &LiveCaptureService,
    queued: usize,
    after: Option<PacketStreamRevision>,
    since: &N,
    recent: &R,
) -> (page: (PacketStreamRevision, bool, P))
    requires
        forall|any: CombatState, marker: PacketStreamRevision, count: usize, at: u64| #[trigger]
            call_requires(*since, (&any, marker, count, at)),
        forall|any: CombatState, marker: PacketStreamRevision, count: usize| #[trigger]
            call_requires(*recent, (&any, marker, count)),
    ensures
        ({
            let source = packet_source(*presentation, *live, queued);
            pages_packets(
                *since,
                *recent,
                source.0,
                source.1,
                source.2,
                usable_cursor(after, source.1),
                page,
            )
        }),
{
    if presentation.control.processing_paused {
        if let Some(paused) = &presentation.paused {
            return draw_packets(&paused.state, paused.packet_revision, 0, after, since, recent);
        }
    }
    let revision = live.packet_stream_revision();
    draw_packets(&live.state, revision, queued, after, since, recent)
}

} // verus!
