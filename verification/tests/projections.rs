use nte_dps_tool::battle::{
    abyss_half_code, battle_axis, battle_record, battle_timeline, capture_source_code,
    character_source_code, hit_direction_code, timeline_scope_code, BattleReadError,
    BattleRecordContext,
};
use nte_dps_tool::combat_details::{
    damage_digit_key_for_hit, mixed_damage_digit_key, reaction_text_key_for_hit,
    reaction_text_key_from_trigger_attack_type, CombatDetailFilter,
};
use nte_dps_tool::detail::{
    effect_catalog, hit_type_summaries, percent, skill_summaries, DetailView, EffectCatalogEntry,
    HitDetailColumnsConfig, HitDirectionSummary, MainDpsAttributionSummary, MainDpsDetailActions,
    MainDpsDetailColumns,
    MainDpsDetailMetrics, MainDpsDetailRequest, MainDpsDetailSnapshot, MainDpsDirectionSummary,
    MainDpsHitSnapshot, MAIN_DPS_DETAIL_CONTRACT_VERSION, MAIN_DPS_DETAIL_DEFAULT_LIMIT,
    MAIN_DPS_DETAIL_PAGE_LIMIT, MAIN_DPS_DETAIL_SKILL_LIMIT,
};
use nte_dps_tool::detail_text::{
    filter_id, hit_type_display_text, is_technical_skill_name, localized_character_name,
    localized_target_name, translate_attack_type,
};
use nte_dps_tool::double::{Arith, Double};
use nte_dps_tool::hud::{
    project_hud, project_timeline as project_hud_timeline, HudAbyssHalf, HudConfig,
    HudConfigSnapshot, HudDataState, HudModule, HudModuleSnapshot, HudProjectionOptions,
    HUD_TIMELINE_MAX_BUCKETS, TEAM_DPS_MAX_MEMBERS,
};
use nte_dps_tool::live_capture::{LiveCapturePhase, LiveCaptureStatus};
use nte_dps_tool::model::{
    AbyssHalf, ActiveEffectKind, CaptureQualitySource, CharacterInfo, CharacterStats,
    CharacterTotals, CombatState, DpsTimeBasis, Hit, HitActiveEffect, HitCharacterSource,
    HitClassification, HitDirection, Language, PartyCombatState, PolicyReading, TimedReading,
};
use nte_dps_tool::names::{AbilityNames, DisplayNames, NameEntry, NameTable};
use nte_dps_tool::readout::{
    project_main_readout, technical_snapshot, HudView, ReadingPolicy,
    TECHNICAL_STREAM_INTERVAL_MS,
};
use nte_dps_tool::single::Single;
use nte_dps_tool::timeline::{
    character_color, character_name, chart_readings, project_timeline, timeline_time_stop_duration,
    valid_css_hex_color, BucketWidth, CombatSegment, RoleDamage, TimelineBucket,
    TimelineInterval, TimelineIntervalProjection, TimelineMarker, TimelineMarkerKind,
    TimelineProjectionOptions, TimelineReadings, TimelineScope, TimelineSeries,
};
use std::collections::{HashMap, HashSet};

fn double(value: f64) -> Double {
    Double { bits: value.to_bits() }
}

fn number(value: Double) -> f64 {
    f64::from_bits(value.bits)
}

fn ops(request: Arith) -> Double {
    double(match request {
        Arith::Sum(left, right) => number(left) + number(right),
        Arith::Difference(left, right) => number(left) - number(right),
        Arith::Product(left, right) => number(left) * number(right),
        Arith::Quotient(left, right) => number(left) / number(right),
        Arith::FromCount(count) => count as f64,
        Arith::FromSingle(value) => f64::from(f32::from_bits(value.bits)),
    })
}

fn whole(value: Double) -> usize {
    number(value) as usize
}

fn named_hit(timestamp: f64, char_id: u32, name: &str, damage: f64) -> Hit {
    Hit {
        timestamp: double(timestamp),
        char_id,
        char_name: name.to_owned(),
        char_known: true,
        damage: double(damage),
        byte_offset: 0,
        bit_shift: 0,
        char_source: HitCharacterSource::Packet,
        direction: HitDirection::Outgoing,
        target_hp_before: double(0.0),
        target_hp_after: double(0.0),
        target_max_hp: double(0.0),
        target_hp_percent: double(0.0),
        target_id: None,
        target_name: None,
        target_name_en: None,
        target_name_ja: None,
        target_monster_id: None,
        target_context: Vec::new(),
        gameplay_effect_index: None,
        gameplay_effect_name: None,
        ability_name: None,
        damage_name: None,
        damage_component: None,
        attack_type: None,
        damage_attribute: None,
        follow_up_damage: double(0.0),
        follow_up_timestamp: None,
        follow_up_damage_name: None,
        follow_up_attack_type: None,
        follow_up_damage_attribute: None,
        active_effects: Vec::new(),
        class: HitClassification {
            total_damage: double(damage),
            reaction_damage: double(0.0),
            unbalance: false,
            qte_follow_up: false,
            attack_type_is_qte: false,
            follow_up_type_is_qte: false,
        },
    }
}

fn hit(timestamp: f64, character_id: u32, damage: f64) -> Hit {
    named_hit(timestamp, character_id, &format!("Character {character_id}"), damage)
}

fn both(value: f64) -> TimedReading {
    TimedReading { wall_clock: double(value), subtract_time_stop: double(value) }
}

/// A party as an engine would read it off its hits.
fn party_of(hits: Vec<Hit>) -> PartyCombatState {
    let mut party = PartyCombatState::default();
    let first = hits.first().map_or(0.0, |hit| number(hit.timestamp));
    let last = hits.last().map_or(0.0, |hit| number(hit.timestamp));
    let duration = (last - first).max(1.0);
    let mut total = 0.0;
    let mut taken = 0.0;
    for hit in &hits {
        let damage = number(hit.class.total_damage);
        let incoming = hit.direction.is_incoming();
        if incoming {
            taken += damage;
        } else {
            total += damage;
        }
        let blank = CharacterTotals {
            hits: 0,
            attributed_hits: 0,
            damage: double(0.0),
            hits_taken: 0,
            damage_taken: double(0.0),
            dps: both(0.0),
            duration: both(duration),
        };
        let at = match party.stats.iter().position(|row| row.char_id == hit.char_id) {
            Some(at) => at,
            None => {
                party.stats.push(CharacterStats {
                    char_id: hit.char_id,
                    name: hit.char_name.clone(),
                    combined: blank,
                    separated: blank,
                });
                party.stats.len() - 1
            }
        };
        let row = &mut party.stats[at].combined;
        if incoming {
            row.hits_taken += 1;
            row.damage_taken = double(number(row.damage_taken) + damage);
        } else {
            row.hits += 1;
            row.attributed_hits += 1;
            row.damage = double(number(row.damage) + damage);
            row.dps = both(number(row.damage) / duration);
        }
    }
    for row in party.stats.iter_mut() {
        row.separated = row.combined;
    }
    party.hits_generation = hits.len() as u64;
    party.hits = hits;
    party.total_damage = double(total);
    party.total_damage_taken = double(taken);
    party.duration = both(duration);
    party.dps = both(total / duration);
    party.attribution.total_damage = double(total);
    party.attribution.character_damage =
        PolicyReading { combined: double(total), separated: double(total / 2.0) };
    party
}

fn state_of(hits: Vec<Hit>) -> CombatState {
    let mut state = CombatState::default();
    if let (Some(first), Some(last)) = (hits.first(), hits.last()) {
        state.battle.started_at = Some(first.timestamp);
        state.battle.ended_at = Some(last.timestamp);
    }
    state.battle.team = party_of(hits);
    state
}

/// The readings of some hits in buckets of one second.
fn series_of(hits: &[Hit]) -> TimelineSeries {
    series_at(hits, double(1.0))
}

/// The readings of some hits in buckets of a width.
fn series_at(hits: &[Hit], bucket_seconds: Double) -> TimelineSeries {
    let seconds = number(bucket_seconds);
    let mut series = TimelineSeries {
        bucket_seconds,
        start_timestamp: hits.first().map(|hit| hit.timestamp),
        end_timestamp: hits.last().map(|hit| hit.timestamp),
        total_damage: double(0.0),
        buckets: Vec::new(),
        time_stop_intervals: Vec::new(),
        markers: Vec::new(),
    };
    let Some(first) = hits.first() else {
        return series;
    };
    let start = number(first.timestamp);
    let mut total = 0.0;
    for hit in hits {
        let damage = number(hit.damage);
        total += damage;
        let at = ((number(hit.timestamp) - start) / seconds) as usize;
        while series.buckets.len() <= at {
            let offset = series.buckets.len() as f64 * seconds;
            series.buckets.push(TimelineBucket {
                start_offset: double(offset),
                end_offset: double(offset + seconds),
                dps: double(0.0),
                damage: double(0.0),
                hits: 0,
                cumulative_damage: double(0.0),
                role_damage: Vec::new(),
            });
        }
        let bucket = &mut series.buckets[at];
        bucket.hits += 1;
        bucket.damage = double(number(bucket.damage) + damage);
        bucket.dps = double(number(bucket.damage) / seconds);
        bucket.cumulative_damage = double(total);
        bucket.role_damage.push(RoleDamage {
            char_id: hit.char_id,
            char_name: hit.char_name.clone(),
            damage: double(damage),
            dps: double(damage / seconds),
        });
    }
    series.total_damage = double(total);
    series
}

fn readings_of(hits: &[Hit]) -> TimelineReadings {
    TimelineReadings { series: series_of(hits), half_markers: Vec::new(), segments: Vec::new() }
}

fn bucket(seconds: f64) -> BucketWidth {
    BucketWidth { seconds: double(seconds), min: double(0.2), max: double(10.0) }
}

/// The width of a bucket, made valid.
fn width(seconds: Single) -> BucketWidth {
    let seconds = f64::from(f32::from_bits(seconds.bits));
    bucket(if seconds.is_finite() { seconds.clamp(0.2, 10.0) } else { 1.0 })
}

fn single(value: f32) -> Single {
    Single { bits: value.to_bits() }
}

/// What an engine reads of a session without halves.
fn read(
    state: &CombatState,
    _scope: TimelineScope,
    bucket_seconds: Double,
    _subtract_time_stop: bool,
) -> TimelineReadings {
    TimelineReadings {
        series: series_at(&state.battle.team.hits, bucket_seconds),
        half_markers: Vec::new(),
        segments: Vec::new(),
    }
}

fn read_series(
    state: &CombatState,
    _half: Option<AbyssHalf>,
    bucket_seconds: Double,
    _subtract_time_stop: bool,
) -> TimelineSeries {
    series_at(&state.battle.team.hits, bucket_seconds)
}

fn all_modules() -> Vec<HudModule> {
    vec![
        HudModule::Title,
        HudModule::Summary,
        HudModule::Status,
        HudModule::Characters,
        HudModule::Timeline,
    ]
}

/// A configuration whose order names every module once.
fn sanitize_hud(config: &HudConfig) -> HudConfig {
    let mut valid = config.clone();
    valid.module_order.clear();
    for module in config.module_order.iter().copied().chain(all_modules()) {
        if !valid.module_order.contains(&module) {
            valid.module_order.push(module);
        }
    }
    valid
}

fn standard_hud() -> HudConfig {
    HudConfig {
        width: 360,
        module_order: all_modules(),
        show_title: true,
        show_team_dps: true,
        show_duration: true,
        show_total_damage: true,
        show_character_rows: true,
        show_damage_taken: false,
        show_abyss_half: true,
        show_passthrough_state: true,
        show_mini_timeline: false,
    }
}

fn detailed_hud() -> HudConfig {
    HudConfig { show_damage_taken: true, show_mini_timeline: true, ..standard_hud() }
}

fn no_names() -> DisplayNames {
    DisplayNames {
        abilities: AbilityNames::empty(),
        skill_labels: NameTable::empty(),
        translations: NameTable::empty(),
    }
}

fn table(entries: &[(&str, &str)]) -> NameTable {
    NameTable {
        entries: entries
            .iter()
            .map(|(key, name)| NameEntry { key: (*key).to_owned(), name: (*name).to_owned() })
            .collect(),
    }
}

fn character(name_zh: &str, name_en: &str, color: Option<&str>) -> CharacterInfo {
    CharacterInfo {
        name_zh: name_zh.to_owned(),
        name_en: name_en.to_owned(),
        color: color.map(str::to_owned),
        avatar: None,
        attribute: None,
    }
}

fn empty_series(
    _state: &CombatState,
    _half: Option<AbyssHalf>,
    _bucket_seconds: Double,
    _subtract_time_stop: bool,
) -> TimelineSeries {
    series_of(&[])
}

fn previewed() -> HudProjectionOptions {
    HudProjectionOptions { preview_when_empty: true, ..HudProjectionOptions::default() }
}

#[test]
fn empty_state_projects_preview_only_when_requested() {
    let state = CombatState::default();
    let config = standard_hud();
    let hidden = HashSet::new();

    let empty = project_hud(
        &state,
        &config,
        &hidden,
        HudProjectionOptions::default(),
        &empty_series,
        &sanitize_hud,
        &ops,
    );
    let preview = project_hud(&state, &config, &hidden, previewed(), &empty_series, &sanitize_hud, &ops);

    assert_eq!(empty.data_state, HudDataState::Empty);
    assert!(empty.summary.is_none());
    assert_eq!(preview.data_state, HudDataState::Preview);
    assert_eq!(preview.characters.len(), 4);
    assert_eq!(
        preview.characters[0].preview_label_suffix.as_deref(),
        Some("A")
    );
    assert_eq!(preview.characters[0].character_id, u32::MAX - 3);
    assert_eq!(preview.characters[0].hits, "38");
    assert_eq!(number(preview.characters[0].damage), 1_227_500.0);
    assert_eq!(number(preview.characters[0].dps), 1_227_500.0 / 34.9);
    assert_eq!(
        number(preview.characters[3].damage_share_percent),
        179_785.0 / 2_246_285.0 * 100.0
    );
    let summary = preview.summary.expect("preview summary");
    assert_eq!(number(summary.team_dps), 64_301.0);
    assert_eq!(number(summary.total_damage), 2_246_285.0);
    assert_eq!(number(summary.total_damage_taken), 2_834.0);
    assert_eq!(number(summary.duration_seconds), 34.9);
}

#[test]
fn live_projection_sorts_limits_and_keeps_u64_hits_as_strings() {
    let mut hits = Vec::new();
    for character_id in 1..=5 {
        hits.push(hit(1.0, character_id, f64::from(character_id) * 100.0));
        hits.push(hit(3.0, character_id, f64::from(character_id) * 100.0));
    }
    let state = state_of(hits);
    let snapshot = project_hud(
        &state,
        &standard_hud(),
        &HashSet::new(),
        HudProjectionOptions::default(),
        &empty_series,
        &sanitize_hud,
        &ops,
    );

    assert_eq!(snapshot.data_state, HudDataState::Live);
    assert_eq!(snapshot.characters.len(), TEAM_DPS_MAX_MEMBERS);
    assert_eq!(snapshot.characters[0].character_id, 5);
    assert_eq!(snapshot.characters[0].hits, "2");
    assert!(number(snapshot.summary.expect("live summary").team_dps) > 0.0);
}

#[test]
fn rows_with_equal_damage_stand_by_their_number() {
    let state = state_of(vec![hit(1.0, 9, 50.0), hit(1.0, 4, 50.0), hit(2.0, 6, 70.0)]);
    let snapshot = project_hud(
        &state,
        &standard_hud(),
        &HashSet::new(),
        HudProjectionOptions::default(),
        &empty_series,
        &sanitize_hud,
        &ops,
    );
    let order: Vec<u32> = snapshot.characters.iter().map(|row| row.character_id).collect();
    assert_eq!(order, vec![6, 4, 9]);
    assert_eq!(
        number(snapshot.characters[0].damage_share_percent),
        70.0 / 170.0 * 100.0
    );
}

#[test]
fn hidden_and_qte_pseudo_characters_do_not_reach_hud_rows() {
    let mut pseudo = hit(1.0, 2, 200.0);
    pseudo.char_known = false;
    pseudo.attack_type = Some("覆纹".to_owned());
    pseudo.class.qte_follow_up = true;
    let state = state_of(vec![hit(1.0, 1, 100.0), pseudo]);

    let snapshot = project_hud(
        &state,
        &standard_hud(),
        &HashSet::from([1]),
        HudProjectionOptions::default(),
        &empty_series,
        &sanitize_hud,
        &ops,
    );

    assert!(snapshot.characters.is_empty());
    assert_eq!(snapshot.data_state, HudDataState::Live);
}

#[test]
fn known_character_with_reaction_follow_up_remains_in_hud_rows() {
    let mut character = hit(1.0, 1003, 100.0);
    character.attack_type = Some("普攻".to_owned());
    character.follow_up_damage = double(25.0);
    character.follow_up_attack_type = Some("覆纹".to_owned());
    character.class.total_damage = double(125.0);
    character.class.follow_up_type_is_qte = true;
    let state = state_of(vec![character]);

    let snapshot = project_hud(
        &state,
        &standard_hud(),
        &HashSet::new(),
        HudProjectionOptions::default(),
        &empty_series,
        &sanitize_hud,
        &ops,
    );

    assert_eq!(snapshot.characters.len(), 1);
    assert_eq!(snapshot.characters[0].character_id, 1003);
    assert_eq!(number(snapshot.characters[0].damage), 125.0);
}

#[test]
fn config_projection_uses_sanitized_stable_module_order() {
    let config = HudConfig {
        module_order: vec![HudModule::Characters, HudModule::Characters],
        ..standard_hud()
    };

    let projected = HudConfigSnapshot::from(&config, &sanitize_hud);

    assert_eq!(projected.module_order.len(), all_modules().len());
    assert_eq!(projected.module_order[0], HudModuleSnapshot::Characters);
    assert_eq!(projected.module_order[1], HudModuleSnapshot::Title);
    assert_eq!(projected.module_order[4], HudModuleSnapshot::Timeline);
}

#[test]
fn preview_timeline_is_projected_only_when_the_module_is_visible() {
    let state = CombatState::default();
    let hidden = HashSet::new();
    let hidden_timeline =
        project_hud(&state, &standard_hud(), &hidden, previewed(), &empty_series, &sanitize_hud, &ops);
    let visible_timeline = project_hud(
        &state,
        &detailed_hud(),
        &hidden,
        previewed(),
        &empty_series,
        &sanitize_hud,
        &ops,
    );

    assert!(hidden_timeline.timeline.is_none());
    let timeline = visible_timeline.timeline.expect("detailed preview timeline");
    assert_eq!(timeline.buckets.len(), 9);
    assert_eq!(number(timeline.duration_seconds), 9.0);
    assert_eq!(number(timeline.peak_dps), 82_000.0);
    assert_eq!(number(timeline.buckets[3].damage), 70_000.0);
}

#[test]
fn live_timeline_is_bounded_and_preserves_aggregate_damage_and_hits() {
    let hits: Vec<Hit> = (0..121).map(|index| hit(index as f64, 1, 100.0)).collect();
    let state = state_of(hits);

    let snapshot = project_hud(
        &state,
        &detailed_hud(),
        &HashSet::new(),
        HudProjectionOptions::default(),
        &read_series,
        &sanitize_hud,
        &ops,
    );
    let timeline = snapshot.timeline.expect("live timeline");

    assert!(timeline.buckets.len() <= HUD_TIMELINE_MAX_BUCKETS);
    assert_eq!(
        timeline
            .buckets
            .iter()
            .map(|bucket| number(bucket.damage))
            .sum::<f64>(),
        12_100.0
    );
    assert_eq!(
        timeline
            .buckets
            .iter()
            .map(|bucket| bucket.hits.parse::<u64>().expect("bucket hits"))
            .sum::<u64>(),
        121
    );
    assert_eq!(number(timeline.duration_seconds), 121.0);
    assert!(number(timeline.peak_dps) > 0.0);
    assert_eq!(timeline.buckets.len(), 41);
    assert_eq!(number(timeline.bucket_seconds), 3.0);
    assert_eq!(timeline.buckets[0].hits, "3");
    assert_eq!(number(timeline.buckets[40].start_seconds), 120.0);
}

#[test]
fn the_hud_is_drawn_at_the_configured_width_and_basis() {
    let state = state_of(vec![hit(0.0, 1, 100.0), hit(3.0, 1, 50.0), hit(4.0, 1, 50.0)]);
    let options = HudProjectionOptions {
        timeline_bucket_seconds: double(2.0),
        dps_time_basis: DpsTimeBasis::WallClock,
        ..HudProjectionOptions::default()
    };
    let asked = |state: &CombatState, half: Option<AbyssHalf>, seconds: Double, subtract: bool| {
        assert_eq!(half, None);
        assert!(!subtract);
        series_at(&state.battle.team.hits, seconds)
    };
    let snapshot = project_hud(
        &state,
        &detailed_hud(),
        &HashSet::new(),
        options,
        &asked,
        &sanitize_hud,
        &ops,
    );
    let timeline = snapshot.timeline.expect("live timeline");
    assert_eq!(number(timeline.bucket_seconds), 2.0);
    assert_eq!(timeline.buckets.len(), 3);
    assert_eq!(number(timeline.buckets[1].damage), 50.0);
}

#[test]
fn an_empty_series_draws_no_timeline() {
    assert!(project_hud_timeline(&series_of(&[]), &ops).is_none());
    let drawn = project_hud_timeline(&series_of(&[hit(5.0, 1, 10.0)]), &ops).expect("one bucket");
    assert_eq!(drawn.buckets.len(), 1);
    assert_eq!(number(drawn.bucket_seconds), 1.0);
    assert_eq!(number(drawn.buckets[0].dps), 10.0);
}

#[test]
fn the_hud_shows_the_selected_half_of_a_challenge() {
    let mut state = state_of(vec![hit(1.0, 1, 100.0), hit(2.0, 2, 30.0)]);
    state.battle.abyss.active = true;
    state.battle.abyss.floor = Some(12);
    state.battle.abyss.active_half = Some(AbyssHalf::First);
    state.battle.abyss.first_half = party_of(vec![hit(1.0, 1, 100.0)]);
    state.battle.abyss.second_half = party_of(vec![hit(2.0, 2, 30.0)]);
    state.battle.abyss.success_at = Some(double(3.0));
    let selected = HudProjectionOptions {
        selected_abyss_half: Some(AbyssHalf::Second),
        ..HudProjectionOptions::default()
    };
    let second =
        project_hud(&state, &standard_hud(), &HashSet::new(), selected, &empty_series, &sanitize_hud, &ops);
    assert_eq!(second.characters.len(), 1);
    assert_eq!(second.characters[0].character_id, 2);
    assert_eq!(second.status.abyss_half, Some(HudAbyssHalf::Second));
    assert_eq!(second.status.abyss_floor, Some(12));
    assert!(second.status.abyss_detected && second.status.abyss_success);
    let active = project_hud(
        &state,
        &standard_hud(),
        &HashSet::new(),
        HudProjectionOptions::default(),
        &empty_series,
        &sanitize_hud,
        &ops,
    );
    assert_eq!(active.characters[0].character_id, 1);
}

#[test]
fn projection_keeps_aggregated_rows_and_stable_character_order() {
    let hits = vec![
        named_hit(10.0, 2, "Second", 25.0),
        named_hit(11.0, 1, "First", 75.0),
    ];
    let characters = HashMap::from([(1, character("第一", "First localized", Some("#123abc")))]);

    let projection = project_timeline(
        &state_of(hits),
        &characters,
        TimelineProjectionOptions {
            scope: TimelineScope::Whole,
            bucket_seconds: single(1.0),
            subtract_time_stop: true,
            language: Language::SimplifiedChinese,
        },
        &read,
        &width,
        &ops,
    );

    assert_eq!(number(projection.total_damage), 100.0);
    assert_eq!(projection.characters[0].id, 1);
    assert_eq!(projection.characters[0].name, "第一");
    assert_eq!(projection.characters[0].color, "#123abc");
    assert_eq!(projection.characters[1].name, "Second");
    assert_eq!(projection.characters[1].color, "#8b5cf6");
    assert_eq!(
        projection.buckets.iter().map(|row| row.hits).sum::<u64>(),
        2
    );
    assert!(number(projection.peak_dps) > 0.0);
}

#[test]
fn projection_sanitizes_bucket_interval_and_empty_state() {
    let projection = project_timeline(
        &CombatState::default(),
        &HashMap::new(),
        TimelineProjectionOptions {
            scope: TimelineScope::Whole,
            bucket_seconds: single(f32::NAN),
            subtract_time_stop: true,
            language: Language::English,
        },
        &read,
        &width,
        &ops,
    );

    assert_eq!(number(projection.bucket_seconds), 1.0);
    assert_eq!(number(projection.duration), 0.0);
    assert!(projection.buckets.is_empty());
}

#[test]
fn time_stop_duration_sums_projected_intervals() {
    let duration = timeline_time_stop_duration(
        &vec![
            TimelineIntervalProjection { start: double(1.0), end: double(2.5) },
            TimelineIntervalProjection { start: double(5.0), end: double(7.25) },
        ],
        &ops,
    );

    assert_eq!(number(duration), 3.75);
}

#[test]
fn a_half_shows_its_own_markers_and_its_segments() {
    let mut readings = readings_of(&[hit(1.0, 1, 10.0), hit(3.0, 1, 30.0)]);
    readings.series.markers.push(TimelineMarker {
        offset: double(0.0),
        label: "Whole".to_owned(),
        kind: TimelineMarkerKind::HalfStart,
    });
    readings.series.time_stop_intervals.push(TimelineInterval {
        start_offset: double(0.5),
        end_offset: double(1.5),
    });
    readings.half_markers.push(TimelineMarker {
        offset: double(-1.0),
        label: "Half".to_owned(),
        kind: TimelineMarkerKind::Exit,
    });
    readings.segments.push(CombatSegment {
        start_offset: double(0.0),
        end_offset: double(3.0),
        dps: double(20.0),
    });
    let chart = |scope: TimelineScope| {
        chart_readings(
            &readings,
            &HashMap::new(),
            TimelineProjectionOptions {
                scope,
                bucket_seconds: single(1.0),
                subtract_time_stop: true,
                language: Language::English,
            },
            bucket(1.0),
            &ops,
        )
    };
    let all = chart(TimelineScope::Whole);
    assert_eq!(all.markers[0].label_key, "Whole");
    assert_eq!(number(all.time_stop_duration), 1.0);
    assert_eq!(number(all.duration), 3.0);
    assert_eq!(all.segments.len(), 1);
    let half = chart(TimelineScope::First);
    assert_eq!(half.markers[0].label_key, "Half");
    assert_eq!(number(half.markers[0].offset), 0.0);
}

#[test]
fn characters_are_named_and_coloured_with_fallbacks() {
    let characters = HashMap::from([
        (1, character("一", "", Some("red"))),
        (2, character("", "Two", Some("#abc"))),
    ]);
    assert_eq!(character_name(1, "fallback", &characters, Language::SimplifiedChinese), "一");
    assert_eq!(character_name(1, "fallback", &characters, Language::English), "fallback");
    assert_eq!(character_name(2, "fallback", &characters, Language::Japanese), "Two");
    assert_eq!(character_color(1, &characters), "#f59e0b");
    assert_eq!(character_color(2, &characters), "#abc");
    assert_eq!(character_color(8, &characters), "#ef4444");
    assert!(valid_css_hex_color("#0fA"));
    assert!(valid_css_hex_color("#0123ef"));
    assert!(!valid_css_hex_color("#0123e"));
    assert!(!valid_css_hex_color("0123ef0"));
    assert!(!valid_css_hex_color("#12345g"));
}

fn filtered_hit(direction: HitDirection, known: bool, attack_type: Option<&str>) -> Hit {
    let mut value = named_hit(1.0, 1, "Character", 100.0);
    value.direction = direction;
    value.char_known = known;
    value.attack_type = attack_type.map(str::to_owned);
    value.class.unbalance = attack_type == Some("倾陷伤害");
    value
}

#[test]
fn attribution_filters_share_the_existing_engine_classification() {
    let direct = filtered_hit(HitDirection::Outgoing, true, None);
    assert!(CombatDetailFilter::CharacterAttributed.matches(&direct));
    assert!(CombatDetailFilter::CharacterDirect.matches(&direct));

    let shared = filtered_hit(HitDirection::Outgoing, true, Some("倾陷伤害"));
    assert!(CombatDetailFilter::SharedMechanics.matches(&shared));
    assert!(!CombatDetailFilter::CharacterAttributed.matches(&shared));

    let unknown = filtered_hit(HitDirection::Unknown, false, None);
    assert!(CombatDetailFilter::Unattributed.matches(&unknown));
}

#[test]
fn shared_detail_assets_match_the_established_frontend_rules() {
    let mut info = character("角色", "", None);
    info.attribute = Some("灵".to_owned());
    let characters = HashMap::from([(1, info)]);
    let mut value = filtered_hit(HitDirection::Outgoing, true, Some("环合·创生"));
    assert_eq!(reaction_text_key_for_hit(&value), Some(1));
    assert_eq!(damage_digit_key_for_hit(&value, &characters), Some("灵"));

    value.attack_type = Some("创生花".to_owned());
    value.damage_attribute = Some("光".to_owned());
    assert_eq!(
        damage_digit_key_for_hit(&value, &characters),
        Some("Guangling_G")
    );
}

#[test]
fn reactions_and_digits_are_told_by_their_names() {
    assert_eq!(reaction_text_key_from_trigger_attack_type("环合·失谐"), Some(8));
    assert_eq!(reaction_text_key_from_trigger_attack_type("环合·灼燃"), Some(4));
    assert_eq!(reaction_text_key_from_trigger_attack_type("失谐"), None);
    assert_eq!(reaction_text_key_from_trigger_attack_type("环合·其他"), None);
    assert_eq!(mixed_damage_digit_key("覆纹", None), Some("lingzhou_L"));
    assert_eq!(mixed_damage_digit_key("环合·覆纹", None), None);
    let incoming = filtered_hit(HitDirection::Incoming, true, None);
    assert_eq!(damage_digit_key_for_hit(&incoming, &HashMap::new()), Some("HP"));
    let mut qte = filtered_hit(HitDirection::Outgoing, true, None);
    qte.follow_up_attack_type = Some("黯星".to_owned());
    assert!(CombatDetailFilter::QteType("黯星".to_owned()).matches(&qte));
    assert!(!CombatDetailFilter::QteType("覆纹".to_owned()).matches(&qte));
    qte.class.reaction_damage = double(100.0);
    assert!(CombatDetailFilter::ReactionDamage.matches(&qte));
    assert!(!CombatDetailFilter::CharacterDirect.matches(&qte));
    assert!(CombatDetailFilter::Outgoing.matches(&qte));
    assert!(!CombatDetailFilter::Incoming.matches(&qte));
    assert!(CombatDetailFilter::All.matches(&incoming));
}

fn context(axis_base_sequence: u64) -> BattleRecordContext<'static> {
    BattleRecordContext {
        id: "battle-7",
        capture_operation_id: Some("capture-3"),
        generation: 9,
        finalized: false,
        finalized_at_unix_ms: None,
        axis_base_sequence,
        source: CaptureQualitySource::Live,
    }
}

fn axis_hit(timestamp: f64, damage: f64) -> Hit {
    let mut value = named_hit(timestamp, 7, "Character", damage);
    value.char_source = HitCharacterSource::Unknown;
    value.damage_name = Some("Skill".to_owned());
    value.attack_type = Some("normal".to_owned());
    value
}

#[test]
fn battle_read_axis_is_cursor_paginated_and_reports_trimmed_history() {
    let state = state_of(vec![axis_hit(1.0, 100.0), axis_hit(2.0, 200.0)]);

    let first = battle_axis(&state, context(0), None, 1, &ops).expect("first page");
    assert!(first.complete);
    assert_eq!(first.cursor, "1");
    assert_eq!(first.next_cursor.as_deref(), Some("2"));
    assert_eq!(first.total_hits, "2");
    assert_eq!(first.rows.len(), 1);
    assert_eq!(first.rows[0].battle_record_id, "battle-7");
    assert_eq!(first.rows[0].sequence, "1");
    assert_eq!(first.rows[0].attribution_status, "attributed");
    assert!(first.rows[0].attribution_unknown_reason.is_none());
    assert!(first.rows[0].team_snapshot_id.is_none());

    let trimmed = battle_axis(&state, context(5), Some(6), 10, &ops).expect("retained page");
    assert!(!trimmed.complete);
    assert_eq!(trimmed.first_available_cursor, "6");
    assert_eq!(trimmed.total_hits, "7");
    assert_eq!(trimmed.rows[0].sequence, "6");
    assert!(matches!(
        battle_axis(&state, context(5), Some(5), 10, &ops),
        Err(BattleReadError::AxisCursorExpired { first_available: 6 })
    ));
    assert!(matches!(
        battle_axis(&state, context(5), Some(9), 10, &ops),
        Err(BattleReadError::AxisCursorInvalid { last_available: 7 })
    ));
    let behind = battle_axis(&state, context(5), Some(8), 10, &ops).expect("the page behind");
    assert!(behind.rows.is_empty());
    assert!(behind.next_cursor.is_none());
}

#[test]
fn axis_rows_name_the_half_that_each_hit_belongs_to() {
    let hits = vec![axis_hit(1.0, 100.0), axis_hit(1.0, 100.0), axis_hit(4.0, 5.0)];
    let mut state = state_of(hits);
    state.battle.abyss.active = true;
    state.battle.abyss.first_half = party_of(vec![axis_hit(1.0, 100.0)]);
    state.battle.abyss.second_half = party_of(vec![axis_hit(1.0, 100.0)]);
    let axis = battle_axis(&state, context(0), None, 10, &ops).expect("one page");
    assert_eq!(axis.rows[0].abyss_half, Some("upper"));
    assert_eq!(axis.rows[1].abyss_half, Some("lower"));
    assert_eq!(axis.rows[2].abyss_half, None);
    assert_eq!(number(axis.rows[2].relative_time_seconds), 3.0);
    assert!(axis.next_cursor.is_none());
}

#[test]
fn records_tell_their_state_and_their_axis() {
    let state = state_of(vec![axis_hit(1.0, 100.0), axis_hit(2.0, 200.0)]);
    let summarize = |_state: &CombatState, source, basis, separate: bool| {
        assert!(!separate);
        (source == CaptureQualitySource::Live).then_some(basis)
    };
    let grade = |state: &CombatState, source| (state.battle.team.hits.len(), source);
    let stops = |_state: &CombatState, start: Double, end: Double| {
        vec![TimelineInterval { start_offset: start, end_offset: end }]
    };
    let live = battle_record(&state, context(5), true, &summarize, &grade, &stops);
    assert_eq!(live.contract_version, 1);
    assert_eq!(live.state, "live");
    assert_eq!(live.source, "live");
    assert_eq!(live.generation, "9");
    assert_eq!(live.capture_operation_id.as_deref(), Some("capture-3"));
    assert_eq!(live.axis_first_sequence, "6");
    assert_eq!(live.axis_total_hits, "7");
    assert!(!live.axis_complete);
    assert_eq!(live.time_stop_intervals.len(), 1);
    assert_eq!(number(live.time_stop_intervals[0].start_offset_seconds), 1.0);
    assert_eq!(number(live.time_stop_intervals[0].end_offset_seconds), 2.0);
    assert_eq!(live.started_at_unix, Some(double(1.0)));
    assert_eq!(live.ended_at_unix, Some(double(2.0)));
    assert_eq!(live.summary, Some(DpsTimeBasis::SubtractTimeStop));
    assert_eq!(live.quality, (2, CaptureQualitySource::Live));
    let mut finalized = context(0);
    finalized.finalized = true;
    finalized.finalized_at_unix_ms = Some(77);
    finalized.source = CaptureQualitySource::JsonReplay;
    let empty = CombatState::default();
    let record = battle_record(&empty, finalized, false, &summarize, &grade, &stops);
    assert_eq!(record.state, "finalized");
    assert_eq!(record.source, "json_replay");
    assert_eq!(record.finalized_at_unix_ms, Some(77));
    assert!(record.axis_complete);
    assert!(record.time_stop_intervals.is_empty());
    assert_eq!(record.summary, None);
    assert_eq!(record.quality, (0, CaptureQualitySource::JsonReplay));
    assert!(!record.abyss.detected);
}

#[test]
fn codes_are_stable() {
    assert_eq!(timeline_scope_code(TimelineScope::Whole), "all");
    assert_eq!(timeline_scope_code(TimelineScope::First), "upper");
    assert_eq!(abyss_half_code(AbyssHalf::Second), "lower");
    assert_eq!(capture_source_code(CaptureQualitySource::PcapngReplay), "pcapng_replay");
    assert_eq!(character_source_code(HitCharacterSource::GameplayEffect), "gameplay_effect");
    assert_eq!(hit_direction_code(HitDirection::Unknown), "unknown");
}

#[test]
fn battle_read_timeline_rejects_a_response_that_exceeds_the_bucket_budget() {
    let state = state_of(vec![axis_hit(0.0, 100.0), axis_hit(3_000.0, 200.0)]);

    assert!(matches!(
        battle_timeline(
            &state,
            &HashMap::new(),
            context(0),
            TimelineScope::Whole,
            single(0.2),
            true,
            &read,
            &width,
            &ops,
            &whole,
        ),
        Err(BattleReadError::TimelineTooLarge)
    ));
}

#[test]
fn battle_read_timeline_rejects_a_role_upper_bound_before_projection() {
    let mut hits: Vec<Hit> = (1..=11)
        .map(|character_id| {
            let mut hit = axis_hit(f64::from(character_id - 1), 1.0);
            hit.char_id = character_id;
            hit
        })
        .collect();
    let mut last = axis_hit(9_999.0, 1.0);
    last.char_id = 11;
    hits.push(last);
    let state = state_of(hits);
    let read = |_state: &CombatState,
                _scope: TimelineScope,
                _seconds: Double,
                _subtract: bool|
     -> TimelineReadings { panic!("the budget is settled before the projection") };

    assert!(matches!(
        battle_timeline(
            &state,
            &HashMap::new(),
            context(0),
            TimelineScope::Whole,
            single(1.0),
            true,
            &read,
            &width,
            &ops,
            &whole,
        ),
        Err(BattleReadError::TimelineTooLarge)
    ));
}

#[test]
fn timelines_within_the_budget_are_answered() {
    let state = state_of(vec![axis_hit(5.0, 100.0), axis_hit(7.5, 200.0)]);
    let timeline_at = |seconds: f32| {
        battle_timeline(
            &state,
            &HashMap::new(),
            context(0),
            TimelineScope::Whole,
            single(seconds),
            true,
            &read,
            &width,
            &ops,
            &whole,
        )
        .expect("a short battle")
    };
    let timeline = timeline_at(1.0);
    assert_eq!(timeline.scope, "all");
    assert_eq!(timeline.started_at_unix, Some(double(5.0)));
    assert_eq!(timeline.buckets.len(), 3);
    assert_eq!(timeline.buckets[2].hits, "1");
    assert_eq!(timeline.characters[0].name, "Character");
    assert_eq!(number(timeline.total_damage), 300.0);
    let wide = timeline_at(2.0);
    assert_eq!(number(wide.bucket_seconds), 2.0);
    assert_eq!(wide.buckets.len(), 2);
    assert_eq!(number(wide.buckets[0].end_offset_seconds), 2.0);
    let widest = timeline_at(50.0);
    assert_eq!(number(widest.bucket_seconds), 10.0);
    assert_eq!(widest.buckets.len(), 1);
}

#[test]
fn paging_reads_every_hit_once() {
    let hits: Vec<Hit> = (0..7).map(|at| axis_hit(f64::from(at / 2), f64::from(at))).collect();
    let mut state = state_of(hits.clone());
    state.battle.abyss.active = true;
    state.battle.abyss.first_half = party_of(hits[..3].to_vec());
    state.battle.abyss.second_half = party_of(hits[3..5].to_vec());
    let whole = battle_axis(&state, context(5), None, 7, &ops).expect("one page");
    assert!(whole.next_cursor.is_none());
    let mut rows = Vec::new();
    let mut cursor = None;
    loop {
        let page = battle_axis(&state, context(5), cursor, 2, &ops).expect("a page");
        rows.extend(page.rows);
        match page.next_cursor {
            Some(next) => cursor = Some(next.parse::<u64>().expect("a number")),
            None => break,
        }
    }
    assert_eq!(rows.len(), 7);
    for (at, (row, same)) in rows.iter().zip(&whole.rows).enumerate() {
        assert_eq!(row.sequence, (6 + at).to_string());
        assert_eq!(row.sequence, same.sequence);
        assert_eq!(row.abyss_half, same.abyss_half);
        assert_eq!(row.damage, hits[at].damage);
    }
    assert_eq!(rows[2].abyss_half, Some("upper"));
    assert_eq!(rows[4].abyss_half, Some("lower"));
    assert_eq!(rows[6].abyss_half, None);
}

fn skill_hit(
    damage: f64,
    ability_name: Option<&str>,
    damage_name: Option<&str>,
    attack_type: &str,
) -> Hit {
    let mut value = named_hit(1.0, 1010, "娜娜莉", damage);
    value.ability_name = ability_name.map(str::to_owned);
    value.damage_name = damage_name.map(str::to_owned);
    value.attack_type = Some(attack_type.to_owned());
    value.damage_attribute = Some("灵".to_owned());
    value.target_max_hp = double(1000.0);
    value
}

fn all_columns() -> HitDetailColumnsConfig {
    HitDetailColumnsConfig {
        show_time: true,
        show_character: true,
        show_type: true,
        show_damage: true,
        show_target_hp: true,
        time_width: 80,
        character_width: 120,
        type_width: 140,
        damage_width: 100,
        target_hp_width: 160,
    }
}

fn detail_page(
    state: &CombatState,
    request: &MainDpsDetailRequest,
    offset: usize,
    limit: usize,
) -> MainDpsDetailSnapshot {
    let characters = HashMap::new();
    let names = no_names();
    let catalog = HashMap::new();
    MainDpsDetailSnapshot::from_state(
        state,
        None,
        request,
        &DetailView {
            generation: 3,
            characters: &characters,
            names: &names,
            language: Language::SimplifiedChinese,
            subtract_time_stop: true,
            separate_reaction_damage: false,
            columns: all_columns(),
            actions: MainDpsDetailActions::from_state(LiveCapturePhase::Idle, false),
            effect_catalog: &catalog,
        },
        offset,
        limit,
        &absent_duration,
        &unknown_share,
        &ops,
    )
}

fn absent_duration(_party: &PartyCombatState, subtract_time_stop: bool) -> Double {
    double(if subtract_time_stop { 4.0 } else { 5.0 })
}

fn unknown_share(directions: HitDirectionSummary) -> Double {
    let unknown = number(directions.unknown_damage);
    let output = number(directions.outgoing_damage) + unknown;
    double(if output > 0.0 { unknown / output * 100.0 } else { 0.0 })
}

#[test]
fn pages_show_what_the_engine_reads_of_directions_and_attribution() {
    let mut candidate = hit(2.0, 1, 30.0);
    candidate.direction = HitDirection::Unknown;
    let mut state = state_of(vec![hit(1.0, 1, 10.0), candidate]);
    let team = &mut state.battle.team;
    team.attribution.character_damage =
        PolicyReading { combined: double(7.0), separated: double(3.0) };
    let attribution = team.attribution;
    let page = detail_page(&state, &MainDpsDetailRequest::default(), 0, 10);
    assert_eq!(number(page.direction.confirmed_output), 10.0);
    assert_eq!(number(page.direction.candidate_output), 30.0);
    assert_eq!(number(page.direction.candidate_share_percent), 75.0);
    assert_eq!(number(page.attribution.character_damage), 7.0);
    let combined = MainDpsAttributionSummary::new(attribution, false);
    assert_eq!(number(combined.character_damage), 7.0);
    assert_eq!(combined.character_filter, "characterAttributed");
    let separate = MainDpsAttributionSummary::new(attribution, true);
    assert_eq!(number(separate.character_damage), 3.0);
    assert_eq!(separate.character_filter, "characterDirect");
}

#[test]
fn a_character_without_a_row_has_the_duration_that_the_engine_gives() {
    let request = MainDpsDetailRequest { character_id: Some(9), ..MainDpsDetailRequest::default() };
    let page = detail_page(&state_of(vec![hit(1.0, 1, 10.0)]), &request, 0, 10);
    assert_eq!(number(page.metrics.duration_seconds), 4.0);
    assert_eq!(number(page.metrics.total_output), 0.0);
    assert_eq!(page.metrics.output_count, 0);
}

#[test]
fn detail_filters_have_stable_frontend_ids() {
    assert_eq!(filter_id(&CombatDetailFilter::All), "all");
    assert_eq!(filter_id(&CombatDetailFilter::CharacterDirect), "characterDirect");
    assert_eq!(filter_id(&CombatDetailFilter::SharedMechanics), "sharedMechanics");
    assert_eq!(
        filter_id(&CombatDetailFilter::QteType("创生花".to_owned())),
        "qteType"
    );
}

#[test]
fn candidate_direction_summary_keeps_unknown_share() {
    let summary = MainDpsDirectionSummary::from_summary(
        HitDirectionSummary {
            outgoing_damage: double(75.0),
            outgoing_hits: 3,
            unknown_damage: double(25.0),
            unknown_hits: 1,
            incoming_damage: double(5.0),
            incoming_hits: 1,
        },
        &unknown_share,
    );
    assert_eq!(summary.confirmed_hits, 3);
    assert_eq!(number(summary.candidate_share_percent), 25.0);
    assert_eq!(number(percent(double(5.0), double(0.0), &ops)), 0.0);
}

#[test]
fn empty_state_serializes_the_complete_detail_contract() {
    let snapshot = detail_page(&CombatState::default(), &MainDpsDetailRequest::default(), 0, 200);

    assert_eq!(snapshot.contract_version, MAIN_DPS_DETAIL_CONTRACT_VERSION);
    assert_eq!(number(snapshot.metrics.total_output), 0.0);
    assert_eq!(snapshot.direction.candidate_hits, 0);
    assert_eq!(snapshot.hit_types.len(), 3);
    assert!(snapshot.columns.show_time);
    assert!(snapshot.actions.can_start_capture);
    assert_eq!(number(snapshot.max_row_damage), 1.0);
    assert_eq!(snapshot.rows.len(), 0);
}

#[test]
fn fifty_thousand_hits_keep_totals_correct_and_return_only_the_requested_page() {
    let hits: Vec<Hit> = (0..50_000)
        .map(|index| {
            let mut hit = skill_hit(1.0, Some("GA_Fixture"), Some("Fixture"), "Skill");
            hit.timestamp = double(f64::from(index));
            hit
        })
        .collect();
    let state = state_of(hits);

    let snapshot = detail_page(
        &state,
        &MainDpsDetailRequest::default(),
        49_990,
        MAIN_DPS_DETAIL_PAGE_LIMIT,
    );

    assert_eq!(snapshot.total_hits, 50_000);
    assert_eq!(number(snapshot.total_damage), 50_000.0);
    assert_eq!(snapshot.rows.len(), 10);
    assert_eq!(number(snapshot.rows[0].timestamp), 49_990.0);
}

#[test]
fn skill_summary_output_is_server_bounded_with_explicit_truncation() {
    let hits: Vec<Hit> = (0..=MAIN_DPS_DETAIL_SKILL_LIMIT)
        .map(|index| {
            let mut hit = skill_hit(1.0, Some("GA_Fixture"), Some("Fixture"), "Skill");
            hit.ability_name = Some(format!("GA_Fixture_{index}"));
            hit.timestamp = double(index as f64);
            hit
        })
        .collect();
    let state = state_of(hits);
    let request = MainDpsDetailRequest {
        character_id: Some(1010),
        ..MainDpsDetailRequest::default()
    };

    let snapshot = detail_page(&state, &request, 0, MAIN_DPS_DETAIL_DEFAULT_LIMIT);

    assert_eq!(snapshot.skill_total_count, MAIN_DPS_DETAIL_SKILL_LIMIT + 1);
    assert_eq!(snapshot.skills.len(), MAIN_DPS_DETAIL_SKILL_LIMIT);
    assert!(snapshot.skills_truncated);
}

#[test]
fn filter_counts_use_the_authoritative_metric_counts() {
    let metrics = MainDpsDetailMetrics {
        total_output: double(2_300_409.0),
        dps: double(72_741.0),
        output_count: 509,
        incoming_count: 3,
        total_damage_taken: double(9_383.0),
        duration_seconds: double(31.6),
    };
    let summaries = hit_type_summaries(&metrics, &ops);
    assert_eq!(summaries[0].hits, 512);
    assert_eq!(summaries[1].hits, 509);
    assert_eq!(summaries[2].hits, 3);
    assert_eq!(number(summaries[0].damage), 2_309_792.0);
}

#[test]
fn skill_summaries_keep_stable_filter_ids_but_never_display_technical_names() {
    let mut names = no_names();
    names.abilities.ability_names = table(&[("GA_Nanally_UltraSkill", "柯林斯·终极术")]);
    names.abilities.damage_names = table(&[("GE_Nanally010_Lv3_Damage", "觉醒追加攻击")]);
    let ultimate = skill_hit(100.0, Some("GA_Nanally_UltraSkill"), None, "Q技能");
    let mut awakening = skill_hit(
        20.0,
        None,
        Some("Awakening Follow-up Attack"),
        "Awakening Damage",
    );
    awakening.gameplay_effect_name = Some("GE_Nanally010_Lv3_Damage".to_owned());
    awakening.damage_component = Some("Awakening Follow-up Attack".to_owned());
    let break_damage = skill_hit(10.0, None, Some("Buff_Tenacity_damage"), "倾陷伤害");
    let hits = vec![ultimate, awakening, break_damage];

    let (summaries, _) = skill_summaries(
        &hits,
        &MainDpsDetailRequest::default(),
        &names,
        double(130.0),
        &ops,
    );
    let ultimate = summaries
        .iter()
        .find(|summary| summary.id == "GA_Nanally_UltraSkill")
        .expect("ultimate summary");
    assert_eq!(ultimate.name, "柯林斯·终极术");
    let awakening = summaries
        .iter()
        .find(|summary| summary.id == "Awakening Follow-up Attack")
        .expect("awakening follow-up summary");
    assert_eq!(awakening.name, "觉醒追加攻击");
    let break_damage = summaries
        .iter()
        .find(|summary| summary.id == "Buff_Tenacity_damage")
        .expect("break damage summary");
    assert_eq!(break_damage.name, "倾陷伤害");
    assert_eq!(number(summaries[0].damage), 100.0);
    assert_eq!(number(summaries[0].share_percent), 100.0 / 130.0 * 100.0);
}

#[test]
fn detail_rows_follow_the_filters_of_the_request() {
    let mut incoming = skill_hit(7.0, None, None, "normal");
    incoming.direction = HitDirection::Incoming;
    let mut other = skill_hit(9.0, Some("GA_Other"), None, "normal");
    other.char_id = 4;
    let state = state_of(vec![skill_hit(5.0, Some("GA_One"), None, "Q"), incoming, other]);
    let page = detail_page(
        &state,
        &MainDpsDetailRequest {
            character_id: Some(1010),
            filter: CombatDetailFilter::Outgoing,
            skill_filter: None,
        },
        0,
        50,
    );
    assert_eq!(page.kind, "character");
    assert_eq!(page.rows.len(), 1);
    assert_eq!(page.rows[0].skill_id, "GA_One");
    assert_eq!(number(page.max_row_damage), 5.0);
    assert_eq!(page.filter, "outgoing");
    let by_skill = detail_page(
        &state,
        &MainDpsDetailRequest {
            character_id: None,
            filter: CombatDetailFilter::All,
            skill_filter: Some("GA_Other".to_owned()),
        },
        0,
        50,
    );
    assert_eq!(by_skill.total_hits, 1);
    assert_eq!(by_skill.rows[0].character_id, 4);
    assert_eq!(by_skill.skill_filter.as_deref(), Some("GA_Other"));
    let none = detail_page(&state, &MainDpsDetailRequest::default(), 9, 0);
    assert!(none.rows.is_empty());
    assert_eq!(none.total_hits, 3);
}

#[test]
fn effects_are_named_by_the_catalog() {
    let catalog = effect_catalog(vec![
        EffectCatalogEntry { hash: "0A".to_owned(), name: "first".to_owned() },
        EffectCatalogEntry { hash: "00a".to_owned(), name: "second".to_owned() },
        EffectCatalogEntry { hash: "zz".to_owned(), name: "broken".to_owned() },
    ]);
    assert_eq!(catalog.len(), 1);
    assert_eq!(catalog.get(&10).map(String::as_str), Some("second"));
    let mut value = skill_hit(5.0, None, None, "Q");
    value.active_effects.push(HitActiveEffect {
        name_hash: 10,
        effect_key: 1,
        stack_count: 2,
        duration_ms: 500,
        kind: ActiveEffectKind::Buff,
        inhibited: false,
        infinite: true,
    });
    let row = MainDpsHitSnapshot::from_hit(
        &value,
        4,
        &HashMap::new(),
        &no_names(),
        Language::English,
        &catalog,
    );
    assert_eq!(row.active_effects.len(), 1);
    assert_eq!(row.active_effects[0].name.as_deref(), Some("second"));
    assert_eq!(row.active_effects[0].kind, "buff");
    assert_eq!(row.active_effects[0].stack_count, 2);
    let page = detail_page(
        &state_of(vec![value]),
        &MainDpsDetailRequest::default(),
        0,
        10,
    );
    assert_eq!(page.effect_coverage.len(), 1);
    assert_eq!(page.effect_coverage[0].affected_hits, 1);
    assert!(page.effect_coverage[0].name.is_none());
}

#[test]
fn columns_are_made_valid_when_they_are_stored() {
    let sanitize = |columns: HitDetailColumnsConfig| HitDetailColumnsConfig {
        type_width: columns.type_width.min(600),
        ..columns
    };
    let columns = all_columns();
    let mut shown = MainDpsDetailColumns::from(columns);
    assert!(shown.show_target);
    assert_eq!(shown.target_width, 160);
    assert_eq!(HitDetailColumnsConfig::from(shown, &sanitize), columns);
    shown.type_width = u16::MAX;
    assert_eq!(HitDetailColumnsConfig::from(shown, &sanitize).type_width, 600);
}

#[test]
fn hit_texts_fall_back_in_order() {
    let mut names = no_names();
    names.skill_labels = table(&[("Q", "Ultimate"), ("覆纹", "Pattern")]);
    names.translations = table(&[
        ("Ultimate", "终结"),
        ("Pattern", "纹"),
        ("Incoming", "受击"),
        ("Esper Cycle", "环"),
    ]);
    assert_eq!(translate_attack_type(&names, "Q"), "终结");
    assert_eq!(translate_attack_type(&names, "环合·覆纹"), "环 · 纹");
    assert_eq!(translate_attack_type(&names, "unknown"), "unknown");
    let mut value = skill_hit(5.0, None, None, "Q");
    value.direction = HitDirection::Incoming;
    assert_eq!(hit_type_display_text(&names, &value), "受击");
    assert!(is_technical_skill_name("GA_Skill"));
    assert!(is_technical_skill_name("snake_case"));
    assert!(!is_technical_skill_name("Plain name"));
    value.target_name = Some("中".to_owned());
    value.target_name_en = Some("En".to_owned());
    assert_eq!(localized_target_name(&value, Language::SimplifiedChinese), Some("中"));
    assert_eq!(localized_target_name(&value, Language::Japanese), Some("En"));
    let info = character("名", "Name", None);
    assert_eq!(
        localized_character_name(Some(&info), Language::English, "fallback"),
        "Name"
    );
    assert_eq!(localized_character_name(None, Language::English, "fallback"), "fallback");
}

fn policy() -> ReadingPolicy {
    ReadingPolicy {
        subtract_time_stop: true,
        separate_reaction_damage: false,
        timeline_bucket_seconds: double(1.0),
    }
}

#[test]
fn the_main_window_reads_the_presented_session() {
    let selected = state_of(vec![named_hit(1.0, 7, "Selected Character", 321.0)]);
    let readout = project_main_readout(
        &selected,
        None,
        policy(),
        &detailed_hud(),
        &read_series,
        &sanitize_hud,
        &ops,
    );
    assert!(readout.has_hits);
    assert_eq!(number(readout.damage_attribution.total_damage), 321.0);
    assert_eq!(readout.hud.characters[0].name, "Selected Character");
    assert_eq!(readout.character_durations.len(), 1);
    assert_eq!(readout.character_durations[0].character_id, 7);
    assert_eq!(number(readout.character_durations[0].seconds), 1.0);
    assert_eq!(
        number(readout.hud.timeline.expect("timeline").buckets[0].damage),
        321.0
    );
}

#[test]
fn editor_snapshot_uses_rust_preview_and_passthrough_snapshot_is_empty() {
    let state = CombatState::default();
    let config = standard_hud();
    let characters = HashMap::new();
    let view = |passthrough: bool| HudView {
        sequence: 1,
        passthrough,
        always_on_top: true,
        capture: LiveCaptureStatus::default(),
        selected_abyss_half: None,
        policy: policy(),
        config: &config,
        characters: &characters,
    };
    let editor = technical_snapshot(&state, &view(false), &empty_series, &sanitize_hud, &ops);
    let passthrough = technical_snapshot(&state, &view(true), &empty_series, &sanitize_hud, &ops);

    assert_eq!(editor.hud.data_state, HudDataState::Preview);
    assert_eq!(passthrough.hud.data_state, HudDataState::Empty);
    assert_eq!(editor.sequence, "1");
    assert_eq!(editor.bridge_status, "ready");
    assert_eq!(editor.window_label, "hud");
    assert_eq!(editor.stream_interval_ms, TECHNICAL_STREAM_INTERVAL_MS);
}

#[test]
fn hud_rows_take_the_colours_of_their_characters() {
    let state = state_of(vec![hit(1.0, 1, 10.0), hit(1.0, 2, 5.0)]);
    let config = standard_hud();
    let characters = HashMap::from([(1, character("一", "One", Some("#abcdef")))]);
    let snapshot = technical_snapshot(
        &state,
        &HudView {
            sequence: 12,
            passthrough: true,
            always_on_top: false,
            capture: LiveCaptureStatus::default(),
            selected_abyss_half: None,
            policy: policy(),
            config: &config,
            characters: &characters,
        },
        &empty_series,
        &sanitize_hud,
        &ops,
    );
    assert_eq!(snapshot.sequence, "12");
    assert_eq!(snapshot.hud.characters[0].color.as_deref(), Some("#abcdef"));
    assert_eq!(snapshot.hud.characters[1].color, None);
}

#[test]
fn readings_are_ordered_and_displayed_as_numbers() {
    let nan = double(f64::NAN);
    assert!(nan.is_nan() && !nan.is_finite());
    assert!(!double(f64::INFINITY).is_finite());
    assert!(double(-0.0).precedes(double(0.0)));
    assert!(!double(-0.0).is_below(double(0.0)));
    assert!(double(-2.0).is_below(double(-1.0)));
    assert!(!nan.is_below(double(1.0)));
    assert_eq!(number(nan.max(double(3.0))), 3.0);
    assert_eq!(number(double(2.0).min(double(3.0))), 2.0);
    assert_eq!(number(double(-5.0).finite_non_negative()), 0.0);
    assert_eq!(number(double(f64::INFINITY).finite_non_negative()), 0.0);
    assert_eq!(number(double(1.5).finite_non_negative()), 1.5);
    assert!(double(f64::MIN_POSITIVE).is_positive() && !double(-1.0).is_positive());
}
