use crossbeam_channel::bounded;
use nte_dps_tool::double::Double;
use nte_dps_tool::error::CoreErrorCode;
use nte_dps_tool::history::{
    abyss_event_starts_new_round, auto_round_due, prepare_history_archive, CaptureQualitySummary,
    CombatSessionSummary, HistoryCombatDetails, NANOS_PER_SECOND,
};
use nte_dps_tool::lanes::{
    next_engine_event, turn_after_debug, turn_after_reliable, LaneTurn, Polled,
};
use nte_dps_tool::live_capture::{
    CaptureReplayKind, LiveCaptureIssue, LiveCapturePhase, LiveCaptureResources,
    LiveCaptureService, LiveCaptureStatus, MAX_PENDING_ABYSS_ARCHIVES,
};
use nte_dps_tool::model::{
    AbyssEvent, AbyssHalf, ActiveEffectKind, BattleState, CaptureQualitySource, CharacterStats,
    CharacterTotals, CombatState, DpsTimeBasis, EmptyCurtainCharacter, EmptyCurtainItem,
    EnemyIdentity, EngineEvent, Hit, HitActiveEffect, HitCharacterSource, HitClassification,
    HitDamageCorrection, HitDirection, HitFollowUp, HtItemNetId, ModScriptEvent,
    ModScriptEventPhase, PacketDebug, PacketObservation, PartyCombatState, PartyEffectSnapshot,
    TimeStopEvent, TimedReading,
};
use nte_dps_tool::names::AbilityNames;
use nte_dps_tool::reducer::{apply_engine_event, BattleUpdate, CoreSignal, EngineStep};
use std::collections::HashMap;

fn double(value: f64) -> Double {
    Double { bits: value.to_bits() }
}

fn number(value: Double) -> f64 {
    f64::from_bits(value.bits)
}

fn plus(left: Double, right: f64) -> Double {
    double(number(left) + right)
}

fn test_hit(timestamp: f64, char_id: u32, damage: f64) -> Hit {
    Hit {
        timestamp: double(timestamp),
        char_id,
        char_name: format!("角色{char_id}"),
        char_known: true,
        damage: double(damage),
        byte_offset: 0,
        bit_shift: 0,
        char_source: HitCharacterSource::Unknown,
        direction: HitDirection::Outgoing,
        target_hp_before: double(0.0),
        target_hp_after: double(0.0),
        target_max_hp: double(0.0),
        target_hp_percent: double(0.0),
        target_id: None,
        target_name: None,
        target_name_en: None,
        target_name_ja: None,
        target_monster_id: None,
        target_context: Vec::new(),
        gameplay_effect_index: None,
        gameplay_effect_name: None,
        ability_name: None,
        damage_name: None,
        damage_component: None,
        attack_type: None,
        damage_attribute: None,
        follow_up_damage: double(0.0),
        follow_up_timestamp: None,
        follow_up_damage_name: None,
        follow_up_attack_type: None,
        follow_up_damage_attribute: None,
        active_effects: Vec::new(),
        class: HitClassification {
            total_damage: double(damage),
            reaction_damage: double(0.0),
            unbalance: false,
            qte_follow_up: false,
            attack_type_is_qte: false,
            follow_up_type_is_qte: false,
        },
    }
}

/// A party that keeps its hits and their sum.
fn record(party: &mut PartyCombatState, hit: &Hit) {
    let damage = number(hit.damage);
    party.hits.push(hit.clone());
    party.hits_generation = party.hits_generation.wrapping_add(1);
    if !hit.direction.is_incoming() {
        party.total_damage = plus(party.total_damage, damage);
        party.attribution.total_damage = party.total_damage;
    }
    let totals = CharacterTotals {
        hits: 0,
        attributed_hits: 0,
        damage: double(0.0),
        hits_taken: 0,
        damage_taken: double(0.0),
        dps: TimedReading::zero(),
        duration: TimedReading::zero(),
    };
    let at = match party.stats.iter().position(|row| row.char_id == hit.char_id) {
        Some(at) => at,
        None => {
            party.stats.push(CharacterStats {
                char_id: hit.char_id,
                name: hit.char_name.clone(),
                combined: totals,
                separated: totals,
            });
            party.stats.len() - 1
        }
    };
    let row = &mut party.stats[at];
    row.combined.hits += 1;
    row.combined.damage = plus(row.combined.damage, damage);
    row.separated = row.combined;
}

/// An engine that keeps hits, packets, pauses and the halves of a challenge.
/// A character stays with the half that it first fought in.
fn engine(mut battle: BattleState, update: &BattleUpdate) -> EngineStep {
    let mut projection_changed = true;
    match update {
        BattleUpdate::Hit(hit) => {
            let mut hit = hit.clone();
            if let Some(snapshot) = battle
                .party_effects
                .iter()
                .find(|snapshot| snapshot.character_id == hit.char_id)
            {
                hit.active_effects = snapshot.effects.clone();
            }
            record(&mut battle.team, &hit);
            if let Some(half) = battle.abyss.active_half {
                let fought = |party: &PartyCombatState| {
                    party.hits.iter().any(|earlier| earlier.char_id == hit.char_id)
                };
                let half = if fought(&battle.abyss.first_half) {
                    AbyssHalf::First
                } else if fought(&battle.abyss.second_half) {
                    AbyssHalf::Second
                } else {
                    half
                };
                match half {
                    AbyssHalf::First => record(&mut battle.abyss.first_half, &hit),
                    AbyssHalf::Second => record(&mut battle.abyss.second_half, &hit),
                }
            }
        }
        BattleUpdate::FollowUp(follow_up) => {
            for hit in battle.team.hits.iter_mut() {
                if hit.timestamp == follow_up.source_timestamp
                    && hit.char_id == follow_up.source_char_id
                    && hit.damage == follow_up.source_damage
                {
                    hit.follow_up_damage = follow_up.damage;
                    battle.team.total_damage =
                        plus(battle.team.total_damage, number(follow_up.damage));
                    break;
                }
            }
        }
        BattleUpdate::DamageCorrection(correction) => {
            for hit in battle.team.hits.iter_mut() {
                if hit.timestamp == correction.source_timestamp
                    && hit.char_id == correction.source_char_id
                    && hit.damage == correction.source_damage
                {
                    let change = number(correction.damage) - number(hit.damage);
                    hit.damage = correction.damage;
                    battle.team.total_damage = plus(battle.team.total_damage, change);
                    battle.damage_correction_count += 1;
                    break;
                }
            }
        }
        BattleUpdate::Packet(packet) => {
            battle.packet_log.packets.push(packet.clone());
            battle.packet_log.packets_generation += 1;
        }
        BattleUpdate::Abyss(event) => {
            battle.abyss.event_count += 1;
            match event {
                AbyssEvent::RestartDetected { .. } => battle.abyss.active_half = None,
                AbyssEvent::Stage { timestamp, floor, half, .. } => {
                    battle.abyss.active = true;
                    battle.abyss.floor = *floor;
                    battle.abyss.active_half = Some(*half);
                    battle.abyss.exited_at = None;
                    match half {
                        AbyssHalf::First => battle.abyss.first_half_at = Some(*timestamp),
                        AbyssHalf::Second => battle.abyss.second_half_at = Some(*timestamp),
                    }
                }
                AbyssEvent::Success { timestamp } => battle.abyss.success_at = Some(*timestamp),
                AbyssEvent::Exit { timestamp } => {
                    battle.abyss.active = false;
                    battle.abyss.active_half = None;
                    battle.abyss.exited_at = Some(*timestamp);
                }
            }
        }
        BattleUpdate::TimeStop(event) => match event {
            TimeStopEvent::GamePauseStarted { .. } => battle.game_paused = true,
            TimeStopEvent::GamePauseEnded { .. } => battle.game_paused = false,
        },
        BattleUpdate::ModScript(script) => {
            projection_changed = false;
            if script.name == "enemy.hit_target" {
                if let Some(identity) = &script.enemy_identity {
                    for hit in battle.team.hits.iter_mut() {
                        if hit.target_name.is_none() {
                            hit.target_name = Some(identity.name_zh.clone());
                            battle.team.hits_generation += 1;
                            projection_changed = true;
                            break;
                        }
                    }
                }
            }
        }
    }
    EngineStep { battle, projection_changed }
}

/// The details of a session that holds hits.
fn details_of(state: &CombatState) -> Option<HistoryCombatDetails> {
    if state.battle.team.hits.is_empty() {
        return None;
    }
    Some(HistoryCombatDetails {
        global_hits: state.battle.team.hits.clone(),
        first_half_hits: state.battle.abyss.first_half.hits.clone(),
        second_half_hits: state.battle.abyss.second_half.hits.clone(),
        exited_at: state.battle.abyss.exited_at,
    })
}

/// The session that details describe.
fn restore(details: &HistoryCombatDetails) -> CombatState {
    let mut state = CombatState::default();
    for hit in &details.global_hits {
        record(&mut state.battle.team, hit);
    }
    state
}

/// The summary of a session that holds hits.
fn summarize(
    state: &CombatState,
    source: CaptureQualitySource,
    dps_time_basis: DpsTimeBasis,
    _separate_reaction_damage: bool,
) -> Option<CombatSessionSummary> {
    if state.battle.team.hits.is_empty() {
        return None;
    }
    Some(CombatSessionSummary {
        total_damage: state.battle.team.total_damage,
        duration_seconds: double(0.0),
        dps_time_basis,
        quality: CaptureQualitySummary { source },
    })
}

fn apply(state: &mut CombatState, event: EngineEvent) -> CoreSignal {
    apply_engine_event(state, event, &engine)
}

fn test_packet() -> PacketDebug {
    PacketDebug {
        timestamp: double(1.0),
        source: "10.0.0.1:1".to_owned(),
        destination: "10.0.0.2:2".to_owned(),
        direction: "outgoing".to_owned(),
        payload_len: 0,
        declared_ids: Vec::new(),
        parsed_hits: 0,
        note: String::new(),
        payload_preview: String::new(),
        payload_hex: String::new(),
        decoded_text: String::new(),
    }
}

fn filetime(timestamp: f64) -> u64 {
    116_444_736_000_000_000 + (timestamp * 10_000_000.0) as u64
}

fn enemy_identity_event(timestamp: f64) -> ModScriptEvent {
    ModScriptEvent {
        sequence: 1,
        filetime: filetime(timestamp),
        script: "enemy-telemetry".to_owned(),
        phase: ModScriptEventPhase::Preprocess,
        name: "pre.enemy.identity".to_owned(),
        values: vec![0x1234, 0x4d88_7b49_05d5_dbaf, 80],
        enemy_identity: Some(EnemyIdentity {
            config_hash: 0x4d88_7b49_05d5_dbaf,
            config_id: "Boss_016_BP".to_owned(),
            monster_id: "Boss_16".to_owned(),
            name_en: "Imaginadough".to_owned(),
            name_zh: "随心泥".to_owned(),
            name_ja: "イメージクレイ".to_owned(),
        }),
    }
}

fn enemy_hit_target_event(sequence: u64, timestamp: f64) -> ModScriptEvent {
    let mut event = enemy_identity_event(timestamp);
    event.sequence = sequence;
    event.phase = ModScriptEventPhase::Postprocess;
    event.name = "enemy.hit_target".to_owned();
    event
}

fn stage(timestamp: f64, floor: u32, half: AbyssHalf) -> EngineEvent {
    EngineEvent::Abyss(AbyssEvent::Stage {
        timestamp: double(timestamp),
        cycle: None,
        floor: Some(floor),
        half,
        allow_late_backfill: false,
    })
}

fn restart(timestamp: f64) -> EngineEvent {
    EngineEvent::Abyss(AbyssEvent::RestartDetected { timestamp: double(timestamp) })
}

fn exit(timestamp: f64) -> EngineEvent {
    EngineEvent::Abyss(AbyssEvent::Exit { timestamp: double(timestamp) })
}

fn hit(damage: f64) -> EngineEvent {
    EngineEvent::Hit(test_hit(1.0, 7, damage))
}

fn new_service() -> LiveCaptureService {
    LiveCaptureService::new(LiveCaptureResources::default())
}

fn process(service: &mut LiveCaptureService, event: EngineEvent) -> bool {
    service.process_event(event, 1_000, &engine, &details_of)
}

fn install_test_inventory(service: &mut LiveCaptureService) -> (u64, u64) {
    process(
        service,
        EngineEvent::EmptyCurtain(vec![EmptyCurtainItem {
            id: HtItemNetId { solt: 1, serial: 2 },
            item_id: "test-item".to_owned(),
            level: 1,
            main_stats: Vec::new(),
            sub_stats: Vec::new(),
            locked: false,
            discarded: false,
            character_net_id: None,
            equipped_character_id: None,
            equipped_placement: None,
        }]),
    );
    process(
        service,
        EngineEvent::EmptyCurtainCharacters(vec![EmptyCurtainCharacter {
            net_id: HtItemNetId { solt: 3, serial: 4 },
            character_id: 1020,
        }]),
    );
    service.inventory_revision()
}

fn assert_test_inventory(service: &LiveCaptureService, generations: (u64, u64)) {
    let inventory = &service.state.inventory;
    assert_eq!(inventory.items.len(), 1);
    assert_eq!(inventory.items[0].item_id, "test-item");
    assert_eq!(inventory.characters.len(), 1);
    assert_eq!(inventory.characters[0].character_id, 1020);
    assert_eq!(
        (inventory.items_generation, inventory.characters_generation),
        generations
    );
}

#[test]
fn hit_pushes_into_state() {
    let mut state = CombatState::default();
    let signal = apply(&mut state, EngineEvent::Hit(test_hit(1.0, 7, 100.0)));
    assert_eq!(signal, CoreSignal::StateChanged);
    assert_eq!(state.battle.team.hits.len(), 1);
    assert_eq!(number(state.battle.team.total_damage), 100.0);
}

#[test]
fn party_effect_snapshot_is_frozen_onto_the_next_matching_outgoing_hit() {
    let mut state = CombatState::default();
    let effect = HitActiveEffect {
        name_hash: 7,
        effect_key: 9,
        stack_count: 2,
        duration_ms: 5000,
        kind: ActiveEffectKind::Buff,
        inhibited: false,
        infinite: false,
    };
    assert_eq!(
        apply(
            &mut state,
            EngineEvent::PartyEffects(vec![PartyEffectSnapshot {
                snapshot_sequence: 3,
                character_id: 7,
                effects: vec![effect],
            }]),
        ),
        CoreSignal::PartyEffectsReplaced { state_changed: true }
    );
    apply(&mut state, EngineEvent::Hit(test_hit(1.0, 7, 100.0)));
    assert_eq!(state.battle.team.hits[0].active_effects, vec![effect]);
    let frozen_effects = state.battle.team.hits[0].active_effects.clone();
    assert_eq!(
        apply(
            &mut state,
            EngineEvent::PartyEffects(vec![PartyEffectSnapshot {
                snapshot_sequence: 3,
                character_id: 7,
                effects: frozen_effects,
            }]),
        ),
        CoreSignal::PartyEffectsReplaced { state_changed: false }
    );
}

#[test]
fn party_effects_that_differ_in_one_field_report_a_change() {
    let effect = HitActiveEffect {
        name_hash: 7,
        effect_key: 9,
        stack_count: 2,
        duration_ms: 5000,
        kind: ActiveEffectKind::Debuff,
        inhibited: false,
        infinite: false,
    };
    let snapshot = |effects: Vec<HitActiveEffect>| PartyEffectSnapshot {
        snapshot_sequence: 3,
        character_id: 7,
        effects,
    };
    let mut state = CombatState::default();
    assert!(state.replace_party_effects(vec![snapshot(vec![effect])]));
    assert!(!state.replace_party_effects(vec![snapshot(vec![effect])]));
    let stacked = HitActiveEffect { stack_count: 3, ..effect };
    assert!(state.replace_party_effects(vec![snapshot(vec![stacked])]));
    assert!(state.replace_party_effects(vec![snapshot(vec![stacked, stacked])]));
    assert!(state.replace_party_effects(Vec::new()));
    assert!(!state.replace_party_effects(Vec::new()));
}

#[test]
fn mod_script_event_without_backfill_does_not_change_combat_state() {
    let mut state = CombatState::default();
    let event = ModScriptEvent {
        sequence: 4,
        filetime: 9,
        script: "example".to_owned(),
        phase: ModScriptEventPhase::Preprocess,
        name: "pre.hit".to_owned(),
        values: vec![7, 8],
        enemy_identity: None,
    };

    let signal = apply(&mut state, EngineEvent::ModScript(event.clone()));

    assert_eq!(
        signal,
        CoreSignal::ModScript { event: Box::new(event), state_changed: false }
    );
    assert!(state.battle.team.hits.is_empty());
    assert_eq!(number(state.battle.team.total_damage), 0.0);
}

#[test]
fn mod_script_backfill_reports_projection_change_for_revision_bump() {
    let mut state = CombatState::default();
    apply(&mut state, EngineEvent::ModScript(enemy_identity_event(10.0)));
    apply(&mut state, EngineEvent::Hit(test_hit(10.02, 7, 100.0)));
    let generation = state.battle.team.hits_generation;

    let signal = apply(
        &mut state,
        EngineEvent::ModScript(enemy_hit_target_event(60, 10.04)),
    );

    match signal {
        CoreSignal::ModScript { state_changed, .. } => assert!(state_changed),
        _ => panic!("expected a ModScript signal"),
    }
    assert_eq!(
        state.battle.team.hits[0].target_name.as_deref(),
        Some("随心泥")
    );
    assert_ne!(state.battle.team.hits_generation, generation);
}

#[test]
fn duplicate_mod_script_backfill_is_reported_as_unchanged() {
    let mut state = CombatState::default();
    apply(&mut state, EngineEvent::ModScript(enemy_identity_event(20.0)));
    apply(&mut state, EngineEvent::Hit(test_hit(20.02, 7, 100.0)));
    let event = enemy_hit_target_event(70, 20.04);
    let first = apply(&mut state, EngineEvent::ModScript(event.clone()));
    let generation = state.battle.team.hits_generation;
    let second = apply(&mut state, EngineEvent::ModScript(event));

    match first {
        CoreSignal::ModScript { state_changed, .. } => assert!(state_changed),
        _ => panic!("expected a ModScript signal"),
    }
    match second {
        CoreSignal::ModScript { state_changed, .. } => assert!(!state_changed),
        _ => panic!("expected a ModScript signal"),
    }
    assert_eq!(state.battle.team.hits_generation, generation);
}

#[test]
fn follow_up_applies_to_matching_hit() {
    let mut state = CombatState::default();
    apply(&mut state, EngineEvent::Hit(test_hit(1.0, 7, 100.0)));
    let follow_up = HitFollowUp {
        source_timestamp: double(1.0),
        source_char_id: 7,
        source_damage: double(100.0),
        source_target_hp_before: double(0.0),
        source_target_hp_after: double(0.0),
        source_target_max_hp: double(0.0),
        source_gameplay_effect_index: None,
        timestamp: double(1.5),
        damage: double(25.0),
        target_hp_after: double(0.0),
        target_hp_percent: double(0.0),
        damage_name: None,
        attack_type: None,
        damage_attribute: None,
    };
    let signal = apply(&mut state, EngineEvent::HitFollowUp(follow_up));
    assert_eq!(signal, CoreSignal::StateChanged);
    assert_eq!(number(state.battle.team.hits[0].follow_up_damage), 25.0);
    assert_eq!(number(state.battle.team.total_damage), 125.0);
}

#[test]
fn damage_correction_applies_to_matching_hit() {
    let mut state = CombatState::default();
    apply(&mut state, EngineEvent::Hit(test_hit(1.0, 7, 100.0)));
    let correction = HitDamageCorrection {
        source_timestamp: double(1.0),
        source_char_id: 7,
        source_damage: double(100.0),
        source_target_hp_before: double(0.0),
        source_target_hp_after: double(0.0),
        source_target_max_hp: double(0.0),
        source_gameplay_effect_index: None,
        damage: double(150.0),
        target_hp_before: double(0.0),
        target_hp_after: double(0.0),
        target_hp_percent: double(0.0),
    };
    let signal = apply(&mut state, EngineEvent::HitDamageCorrection(correction));
    assert_eq!(signal, CoreSignal::StateChanged);
    assert_eq!(state.battle.damage_correction_count, 1);
    assert_eq!(number(state.battle.team.total_damage), 150.0);
}

#[test]
fn packet_lands_in_debug_ring() {
    let mut state = CombatState::default();
    let signal = apply(&mut state, EngineEvent::Packet(test_packet()));
    assert_eq!(signal, CoreSignal::DebugPacket);
    assert_eq!(state.battle.packet_log.packets.len(), 1);
    assert_eq!(state.battle.packet_log.packet_count, 0);
}

#[test]
fn packet_observation_updates_quality_without_debug_payload() {
    let mut state = CombatState::default();
    let signal = apply(
        &mut state,
        EngineEvent::PacketObservation(PacketObservation { parsed_hits: 2 }),
    );
    assert_eq!(signal, CoreSignal::PacketObserved);
    assert!(state.battle.packet_log.packets.is_empty());
    assert_eq!(state.battle.packet_log.packet_count, 1);
    assert_eq!(state.battle.packet_log.packets_with_hits, 1);
}

#[test]
fn packet_observation_and_debug_payload_count_once() {
    let mut state = CombatState::default();
    apply(
        &mut state,
        EngineEvent::PacketObservation(PacketObservation { parsed_hits: 1 }),
    );
    apply(&mut state, EngineEvent::Packet(test_packet()));

    assert_eq!(state.battle.packet_log.packets.len(), 1);
    assert_eq!(state.battle.packet_log.packet_count, 1);
    assert_eq!(state.battle.packet_log.packets_with_hits, 1);
}

#[test]
fn packets_without_hits_do_not_count_as_packets_with_hits() {
    let mut state = CombatState::default();
    apply(
        &mut state,
        EngineEvent::PacketObservation(PacketObservation { parsed_hits: 0 }),
    );
    assert_eq!(state.battle.packet_log.packet_count, 1);
    assert_eq!(state.battle.packet_log.packets_with_hits, 0);
    state.battle.packet_log.packet_count = u64::MAX;
    state.battle.packet_log.packets_with_hits = u64::MAX;
    apply(
        &mut state,
        EngineEvent::PacketObservation(PacketObservation { parsed_hits: 1 }),
    );
    assert_eq!(state.battle.packet_log.packet_count, u64::MAX);
    assert_eq!(state.battle.packet_log.packets_with_hits, u64::MAX);
}

#[test]
fn abyss_event_reaches_abyss_state() {
    let mut state = CombatState::default();
    let signal = apply(&mut state, restart(1.0));
    assert_eq!(signal, CoreSignal::StateChanged);
    assert_eq!(state.battle.abyss.event_count, 1);
}

#[test]
fn abyss_restart_after_exit_resets_previous_party_ownership() {
    let mut state = CombatState::default();
    let staged = |timestamp: f64, cycle: u32, half: AbyssHalf| {
        EngineEvent::Abyss(AbyssEvent::Stage {
            timestamp: double(timestamp),
            cycle: Some(cycle),
            floor: Some(12),
            half,
            allow_late_backfill: false,
        })
    };
    apply(&mut state, staged(1.0, 1, AbyssHalf::First));
    apply(&mut state, EngineEvent::Hit(test_hit(2.0, 1, 100.0)));
    apply(&mut state, staged(3.0, 1, AbyssHalf::Second));
    apply(&mut state, EngineEvent::Hit(test_hit(4.0, 2, 200.0)));
    apply(&mut state, exit(5.0));

    apply(&mut state, restart(6.0));
    apply(&mut state, staged(7.0, 2, AbyssHalf::First));
    apply(&mut state, EngineEvent::Hit(test_hit(8.0, 2, 300.0)));

    let abyss = &state.battle.abyss;
    assert_eq!(abyss.first_half.hits.len(), 1);
    assert_eq!(abyss.first_half.hits[0].char_id, 2);
    assert_eq!(number(abyss.first_half.hits[0].damage), 300.0);
    assert!(abyss.second_half.hits.is_empty());
}

#[test]
fn time_stop_event_reaches_tracker() {
    let mut state = CombatState::default();
    let signal = apply(
        &mut state,
        EngineEvent::TimeStop(TimeStopEvent::GamePauseStarted {
            timestamp: double(1.0),
            pause_type_mask: 1 << 2,
        }),
    );
    assert_eq!(signal, CoreSignal::StateChanged);
    assert!(state.battle.game_paused);
}

#[test]
fn empty_curtain_replaces_inventory() {
    let mut state = CombatState::default();
    let items = vec![EmptyCurtainItem {
        id: HtItemNetId { solt: 1, serial: 2 },
        item_id: "cell2_style1_1_Orange".to_owned(),
        level: 20,
        main_stats: Vec::new(),
        sub_stats: Vec::new(),
        locked: true,
        discarded: false,
        character_net_id: None,
        equipped_character_id: None,
        equipped_placement: None,
    }];
    let generation_before = state.inventory.items_generation;
    let signal = apply(&mut state, EngineEvent::EmptyCurtain(items));
    assert_eq!(signal, CoreSignal::InventoryReplaced);
    assert_eq!(state.inventory.items.len(), 1);
    assert_eq!(state.inventory.items[0].item_id, "cell2_style1_1_Orange");
    assert_eq!(
        state.inventory.items_generation,
        generation_before.wrapping_add(1)
    );
}

#[test]
fn inventory_generations_wrap_around() {
    let mut state = CombatState::default();
    state.inventory.items_generation = u64::MAX;
    state.inventory.characters_generation = u64::MAX;
    state.replace_empty_curtain(Vec::new());
    state.replace_empty_curtain_characters(Vec::new());
    assert_eq!(state.inventory.items_generation, 0);
    assert_eq!(state.inventory.characters_generation, 0);
}

#[test]
fn empty_curtain_character_mapping_reaches_state() {
    let mut state = CombatState::default();
    let character = EmptyCurtainCharacter {
        net_id: HtItemNetId { solt: 3, serial: 4 },
        character_id: 1020,
    };
    let signal = apply(
        &mut state,
        EngineEvent::EmptyCurtainCharacters(vec![character]),
    );
    assert_eq!(signal, CoreSignal::InventoryCharactersReplaced);
    assert_eq!(state.inventory.characters, vec![character]);
}

#[test]
fn lifecycle_events_pass_through_without_state_change() {
    let mut state = CombatState::default();
    assert_eq!(
        apply(&mut state, EngineEvent::Status("s".to_owned())),
        CoreSignal::Status("s".to_owned())
    );
    assert_eq!(
        apply(&mut state, EngineEvent::Warning("w".to_owned())),
        CoreSignal::Warning("w".to_owned())
    );
    assert_eq!(
        apply(&mut state, EngineEvent::Error("e".to_owned())),
        CoreSignal::Error("e".to_owned())
    );
    assert_eq!(
        apply(&mut state, EngineEvent::CaptureStopped),
        CoreSignal::CaptureStopped
    );
    assert_eq!(state.battle.team.hits.len(), 0);
    assert_eq!(state.battle.packet_log.packets.len(), 0);
}

#[test]
fn abyss_exit_is_not_a_pre_event_archive_boundary() {
    assert!(!abyss_event_starts_new_round(
        Some(12),
        &AbyssEvent::Exit { timestamp: double(10.0) },
    ));
}

#[test]
fn a_new_floor_starts_a_new_round_and_the_same_floor_does_not() {
    let on = |floor: Option<u32>| AbyssEvent::Stage {
        timestamp: double(1.0),
        cycle: None,
        floor,
        half: AbyssHalf::First,
        allow_late_backfill: false,
    };
    assert!(abyss_event_starts_new_round(Some(12), &on(Some(13))));
    assert!(!abyss_event_starts_new_round(Some(12), &on(Some(12))));
    assert!(!abyss_event_starts_new_round(Some(12), &on(None)));
    assert!(!abyss_event_starts_new_round(None, &on(Some(13))));
    assert!(abyss_event_starts_new_round(
        None,
        &AbyssEvent::RestartDetected { timestamp: double(1.0) },
    ));
}

#[test]
fn idle_round_requires_running_unpaused_non_abyss_combat() {
    let due = Some(30 * NANOS_PER_SECOND);
    assert!(auto_round_due(true, false, false, false, true, due, 30));
    assert!(!auto_round_due(false, false, false, false, true, due, 30));
    assert!(!auto_round_due(true, true, false, false, true, due, 30));
    assert!(!auto_round_due(true, false, true, false, true, due, 30));
    assert!(!auto_round_due(true, false, false, true, true, due, 30));
    assert!(!auto_round_due(true, false, false, false, false, due, 30));
    let early = Some(30 * NANOS_PER_SECOND - 1);
    assert!(!auto_round_due(true, false, false, false, true, early, 30));
    assert!(!auto_round_due(true, false, false, false, true, None, 30));
}

#[test]
fn empty_state_has_no_archive() {
    assert!(prepare_history_archive(
        &CombatState::default(),
        CaptureQualitySource::Live,
        DpsTimeBasis::SubtractTimeStop,
        false,
        &details_of,
        &restore,
        &summarize,
    )
    .is_none());
}

#[test]
fn archive_keeps_summary_and_bounded_details_from_one_state() {
    let mut state = CombatState::default();
    apply(&mut state, EngineEvent::Hit(test_hit(10.0, 7, 321.0)));

    let archive = prepare_history_archive(
        &state,
        CaptureQualitySource::Live,
        DpsTimeBasis::SubtractTimeStop,
        false,
        &details_of,
        &restore,
        &summarize,
    )
    .expect("combat archive");

    assert_eq!(number(archive.summary.total_damage), 321.0);
    assert_eq!(
        archive
            .details
            .as_ref()
            .expect("history details")
            .global_hits
            .len(),
        1
    );
}

#[test]
fn archives_are_summed_up_from_the_details_that_are_kept() {
    let mut state = CombatState::default();
    apply(&mut state, EngineEvent::Hit(test_hit(10.0, 7, 321.0)));
    apply(&mut state, EngineEvent::Hit(test_hit(11.0, 7, 79.0)));
    let last_hit_only = |state: &CombatState| {
        let mut details = details_of(state)?;
        details.global_hits.remove(0);
        Some(details)
    };
    let archive = prepare_history_archive(
        &state,
        CaptureQualitySource::JsonReplay,
        DpsTimeBasis::WallClock,
        true,
        &last_hit_only,
        &restore,
        &summarize,
    )
    .expect("combat archive");
    assert_eq!(number(archive.summary.total_damage), 79.0);
    assert_eq!(archive.summary.quality.source, CaptureQualitySource::JsonReplay);
    assert_eq!(archive.summary.dps_time_basis, DpsTimeBasis::WallClock);
}

#[test]
fn event_worker_routes_hits_through_the_shared_reducer() {
    let mut service = new_service();
    let initial_revision = service.revision();
    let (sender, receiver) = bounded(1);
    let (_debug_sender, debug_receiver) = bounded(1);
    sender.send(hit(321.0)).expect("test hit");
    match next_engine_event(&receiver, &debug_receiver, service.replay_running()) {
        LaneTurn::Handle(event) => process(&mut service, event),
        other => panic!("the hit is waiting: {other:?}"),
    };
    assert_eq!(number(service.state.battle.team.total_damage), 321.0);
    assert_eq!(service.state.battle.team.hits.len(), 1);
    assert!(service.revision() > initial_revision);
}

#[test]
fn event_worker_prioritizes_reliable_replay_events() {
    let (reliable_sender, reliable_receiver) = bounded(2);
    let (debug_sender, debug_receiver) = bounded(2);
    debug_sender
        .send(EngineEvent::Status("debug".to_owned()))
        .expect("debug event");
    reliable_sender
        .send(EngineEvent::Status("reliable".to_owned()))
        .expect("reliable event");

    let LaneTurn::Handle(EngineEvent::Status(first)) =
        next_engine_event(&reliable_receiver, &debug_receiver, false)
    else {
        panic!("test events are status values")
    };
    let LaneTurn::Handle(EngineEvent::Status(second)) =
        next_engine_event(&reliable_receiver, &debug_receiver, false)
    else {
        panic!("test events are status values")
    };

    assert_eq!(first, "reliable");
    assert_eq!(second, "debug");
}

#[test]
fn replay_bursts_defer_optional_debug_packets() {
    let (reliable_sender, reliable_receiver) = bounded(1);
    let (debug_sender, debug_receiver) = bounded(1);
    debug_sender
        .send(EngineEvent::Status("debug".to_owned()))
        .expect("debug event");

    assert!(matches!(
        next_engine_event(&reliable_receiver, &debug_receiver, true),
        LaneTurn::WaitReliable
    ));
    reliable_sender
        .send(EngineEvent::Status("reliable".to_owned()))
        .expect("reliable event");
    let EngineEvent::Status(event) = reliable_receiver.recv().expect("reliable replay event")
    else {
        panic!("test event is a status value")
    };
    assert_eq!(event, "reliable");
    assert_eq!(debug_receiver.len(), 1);
}

#[test]
fn closed_lanes_are_not_waited_for() {
    let (reliable_sender, reliable_receiver) = bounded(1);
    let (debug_sender, debug_receiver) = bounded(1);
    assert!(matches!(
        next_engine_event(&reliable_receiver, &debug_receiver, false),
        LaneTurn::WaitEither
    ));
    drop(debug_sender);
    assert!(matches!(
        next_engine_event(&reliable_receiver, &debug_receiver, false),
        LaneTurn::WaitReliable
    ));
    drop(reliable_sender);
    assert!(matches!(
        next_engine_event(&reliable_receiver, &debug_receiver, false),
        LaneTurn::WaitDebug
    ));
}

#[test]
fn each_look_at_a_lane_decides_the_turn() {
    assert!(turn_after_reliable(Polled::Empty).is_none());
    assert!(matches!(
        turn_after_reliable(Polled::Closed),
        Some(LaneTurn::WaitDebug)
    ));
    assert!(matches!(
        turn_after_reliable(Polled::Event(EngineEvent::CaptureStopped)),
        Some(LaneTurn::Handle(EngineEvent::CaptureStopped))
    ));
    assert!(matches!(turn_after_debug(Polled::Empty), LaneTurn::WaitEither));
    assert!(matches!(turn_after_debug(Polled::Closed), LaneTurn::WaitReliable));
    assert!(matches!(
        turn_after_debug(Polled::Event(EngineEvent::CaptureStopped)),
        LaneTurn::Handle(EngineEvent::CaptureStopped)
    ));
}

#[test]
fn mod_script_backfill_advances_only_when_projection_changes() {
    let mut service = new_service();
    process(&mut service, EngineEvent::ModScript(enemy_identity_event(1.0)));
    process(&mut service, hit(100.0));

    let before_target = service.revision();
    process(
        &mut service,
        EngineEvent::ModScript(enemy_hit_target_event(2, 1.05)),
    );
    assert!(service.revision() > before_target);
    assert_eq!(
        service.state.battle.team.hits[0].target_name,
        Some("随心泥".to_owned())
    );

    let before_duplicate = service.revision();
    process(
        &mut service,
        EngineEvent::ModScript(enemy_hit_target_event(3, 1.05)),
    );
    assert_eq!(service.revision(), before_duplicate);
}

#[test]
fn idle_policy_tracks_only_confirmed_outgoing_hits() {
    let mut service = new_service();
    assert!(service.idle_elapsed(2_000).is_none());

    let mut incoming = test_hit(1.0, 7, 1.0);
    incoming.direction = HitDirection::Incoming;
    process(&mut service, EngineEvent::Hit(incoming));
    assert!(service.idle_elapsed(2_000).is_none());

    let mut unknown = test_hit(1.0, 7, 2.0);
    unknown.direction = HitDirection::Unknown;
    process(&mut service, EngineEvent::Hit(unknown));
    assert!(service.idle_elapsed(2_000).is_none());

    process(&mut service, hit(3.0));
    assert_eq!(service.idle_elapsed(2_500), Some(1_500));
    assert_eq!(service.idle_elapsed(500), Some(0));
}

#[test]
fn inventory_events_advance_only_the_inventory_projection() {
    let mut service = new_service();
    let initial_revision = service.revision();
    let initial_inventory_revision = service.inventory_revision();

    process(&mut service, EngineEvent::EmptyCurtain(Vec::new()));
    let inventory_revision = service.inventory_revision();
    assert!(inventory_revision.0 > initial_inventory_revision.0);
    assert_eq!(service.revision(), initial_revision);

    process(&mut service, EngineEvent::EmptyCurtainCharacters(Vec::new()));
    assert!(service.inventory_revision().1 > inventory_revision.1);
    assert_eq!(service.revision(), initial_revision);
}

#[test]
fn cut_round_installs_replacement_before_persistence_work() {
    let mut service = new_service();
    let inventory_generations = install_test_inventory(&mut service);
    process(&mut service, hit(321.0));

    let cut = service.cut_round().expect("archivable round");
    process(&mut service, hit(99.0));

    assert_eq!(number(cut.state.battle.team.total_damage), 321.0);
    assert_eq!(cut.source, CaptureQualitySource::Unknown);
    assert!(cut.state.inventory.items.is_empty());
    assert!(cut.state.inventory.characters.is_empty());
    assert_test_inventory(&service, inventory_generations);
    assert_eq!(number(service.state.battle.team.total_damage), 99.0);
}

#[test]
fn cut_round_freezes_replay_source_and_empty_round_is_a_no_op() {
    let mut service = new_service();
    assert!(service.cut_round().is_none());
    service.control.quality_source = CaptureQualitySource::JsonReplay;
    process(&mut service, hit(321.0));

    let cut = service.cut_round().expect("archivable replay round");

    assert_eq!(cut.source, CaptureQualitySource::JsonReplay);
    assert_eq!(number(cut.state.battle.team.total_damage), 321.0);
    assert!(service.state.battle.team.hits.is_empty());
}

#[test]
fn abyss_restart_queues_the_previous_round_before_reducer_changes_state() {
    let mut service = new_service();
    let inventory_generations = install_test_inventory(&mut service);
    service.control.quality_source = CaptureQualitySource::PcapngReplay;
    apply(&mut service.state, stage(0.0, 12, AbyssHalf::First));
    apply(&mut service.state, hit(321.0));
    process(&mut service, restart(3.0));

    let archives = service.take_pending_abyss_archives();
    assert_eq!(archives.len(), 1);
    assert_eq!(archives[0].details.first_half_hits.len(), 1);
    assert_eq!(number(archives[0].details.first_half_hits[0].damage), 321.0);
    assert_eq!(archives[0].source, CaptureQualitySource::PcapngReplay);
    assert_test_inventory(&service, inventory_generations);
    assert!(service.state.battle.team.hits.is_empty());
}

#[test]
fn abyss_floor_transition_archives_previous_round_and_preserves_inventory() {
    let mut service = new_service();
    let inventory_generations = install_test_inventory(&mut service);
    process(&mut service, stage(0.0, 12, AbyssHalf::First));
    process(&mut service, hit(321.0));
    process(&mut service, stage(3.0, 13, AbyssHalf::First));

    let archives = service.take_pending_abyss_archives();
    assert_eq!(archives.len(), 1);
    assert_eq!(number(archives[0].details.first_half_hits[0].damage), 321.0);
    assert_test_inventory(&service, inventory_generations);
    assert_eq!(service.state.battle.abyss.floor, Some(13));
    assert!(service.state.battle.team.hits.is_empty());
}

#[test]
fn abyss_exit_archive_contains_the_real_exit_timestamp() {
    let mut service = new_service();
    let inventory_generations = install_test_inventory(&mut service);
    process(&mut service, stage(0.0, 12, AbyssHalf::First));
    process(&mut service, hit(321.0));
    process(&mut service, exit(10.0));

    let archives = service.take_pending_abyss_archives();
    assert_eq!(archives.len(), 1);
    assert_eq!(archives[0].details.first_half_hits.len(), 1);
    assert_eq!(number(archives[0].details.first_half_hits[0].damage), 321.0);
    assert_eq!(archives[0].details.exited_at, Some(double(10.0)));
    assert_test_inventory(&service, inventory_generations);
    assert!(service.state.battle.team.hits.is_empty());
}

#[test]
fn final_abyss_round_stays_pending_when_the_session_is_reset() {
    let mut service = new_service();
    apply(&mut service.state, stage(0.0, 12, AbyssHalf::Second));
    apply(&mut service.state, hit(654.0));

    assert!(process(&mut service, EngineEvent::CaptureStopped));
    service.reset_session();

    let archives = service.take_pending_abyss_archives();
    assert_eq!(archives.len(), 1);
    assert_eq!(archives[0].details.second_half_hits.len(), 1);
    assert_eq!(number(archives[0].details.second_half_hits[0].damage), 654.0);
    assert!(service.state.battle.team.hits.is_empty());
}

#[test]
fn capture_stopped_archives_after_prior_semantic_events() {
    let mut service = new_service();
    let inventory_generations = install_test_inventory(&mut service);

    process(&mut service, stage(0.0, 12, AbyssHalf::First));
    process(&mut service, hit(100.0));
    assert!(!process(&mut service, hit(200.0)));

    assert!(process(&mut service, EngineEvent::CaptureStopped));

    let archives = service.take_pending_abyss_archives();
    assert_eq!(archives.len(), 1);
    assert_eq!(archives[0].details.first_half_hits.len(), 2);
    assert_eq!(service.status().phase, LiveCapturePhase::Stopped);
    assert_test_inventory(&service, inventory_generations);
    assert!(service.state.battle.team.hits.is_empty());
}

#[test]
fn pending_abyss_archive_queue_is_bounded() {
    let mut service = new_service();
    process(&mut service, stage(0.0, 12, AbyssHalf::First));

    for round in 0..(MAX_PENDING_ABYSS_ARCHIVES + 4) {
        process(&mut service, hit((round + 1) as f64));
        process(&mut service, restart((round + 1) as f64));
        process(
            &mut service,
            stage((round + 1) as f64 + 0.5, 12, AbyssHalf::First),
        );
    }

    let archives = service.take_pending_abyss_archives();
    assert_eq!(archives.len(), MAX_PENDING_ABYSS_ARCHIVES);
    assert_eq!(number(archives[0].details.first_half_hits[0].damage), 1.0);
    assert_eq!(
        number(
            archives[MAX_PENDING_ABYSS_ARCHIVES - 1]
                .details
                .first_half_hits[0]
                .damage
        ),
        MAX_PENDING_ABYSS_ARCHIVES as f64
    );
    assert_eq!(service.dropped_history_archives(), 4);
}

#[test]
fn restoring_abyss_archive_retries_keeps_queue_bounded() {
    let mut service = new_service();
    process(&mut service, stage(0.0, 12, AbyssHalf::First));
    process(&mut service, hit(321.0));
    process(&mut service, EngineEvent::CaptureStopped);
    let template = service
        .take_pending_abyss_archives()
        .into_iter()
        .next()
        .expect("template archive");

    service.restore_pending_abyss_archives(vec![template; MAX_PENDING_ABYSS_ARCHIVES + 5]);

    assert_eq!(
        service.take_pending_abyss_archives().len(),
        MAX_PENDING_ABYSS_ARCHIVES
    );
    assert_eq!(service.dropped_history_archives(), 5);
}

#[test]
fn restored_archives_go_in_front_of_newer_ones() {
    let mut service = new_service();
    process(&mut service, stage(0.0, 12, AbyssHalf::First));
    process(&mut service, hit(1.0));
    process(&mut service, EngineEvent::CaptureStopped);
    let older = service.take_pending_abyss_archives();
    process(&mut service, stage(1.0, 12, AbyssHalf::First));
    process(&mut service, hit(2.0));
    process(&mut service, EngineEvent::CaptureStopped);
    service.restore_pending_abyss_archives(older);
    let archives = service.take_pending_abyss_archives();
    assert_eq!(archives.len(), 2);
    assert_eq!(number(archives[0].details.first_half_hits[0].damage), 1.0);
    assert_eq!(number(archives[1].details.first_half_hits[0].damage), 2.0);
    assert_eq!(service.dropped_history_archives(), 0);
}

#[test]
fn abyss_restart_dedupe_does_not_collide_across_rounds() {
    let mut service = new_service();
    process(&mut service, stage(0.0, 12, AbyssHalf::First));
    for _ in 0..4 {
        process(&mut service, hit(100.0));
    }
    process(&mut service, EngineEvent::CaptureStopped);

    process(&mut service, exit(10.0));
    process(&mut service, restart(11.0));
    process(&mut service, stage(12.0, 12, AbyssHalf::First));

    for _ in 0..2 {
        process(&mut service, hit(200.0));
    }
    process(&mut service, stage(20.0, 13, AbyssHalf::First));

    let archives = service.take_pending_abyss_archives();
    assert_eq!(archives.len(), 2);
    assert_eq!(archives[0].details.first_half_hits.len(), 4);
    assert_eq!(archives[1].details.first_half_hits.len(), 2);
}

#[test]
fn runtime_failures_keep_private_details_out_of_status() {
    let mut service = new_service();
    let initial_revision = service.revision();
    let initial_packet_revision = service.packet_stream_revision();

    process(
        &mut service,
        EngineEvent::Warning("private warning".to_owned()),
    );
    assert_eq!(
        service.status().issue,
        Some(LiveCaptureIssue::RuntimeWarning)
    );
    let warning_revision = service.revision();
    assert!(warning_revision > initial_revision);

    process(
        &mut service,
        EngineEvent::Error("private failure".to_owned()),
    );
    assert_eq!(
        service.status(),
        LiveCaptureStatus {
            phase: LiveCapturePhase::Failed,
            issue: Some(LiveCaptureIssue::RuntimeError),
        }
    );
    assert!(service.revision() > warning_revision);
    assert!(service.packet_stream_revision().generation > initial_packet_revision.generation);
}

#[test]
fn stopping_after_completed_runtime_failure_does_not_stick() {
    let mut service = new_service();
    process(&mut service, stage(0.0, 12, AbyssHalf::First));
    process(&mut service, hit(100.0));
    process(&mut service, hit(200.0));
    process(&mut service, EngineEvent::CaptureStopped);
    process(&mut service, EngineEvent::Error("capture failed".to_owned()));

    assert_eq!(service.status().phase, LiveCapturePhase::Failed);

    let action = service
        .request_stop(Ok(()))
        .expect("a failed capture must accept stop");
    assert!(action.spawn_stop_worker);
    assert!(!action.stop_replay);
    assert!(!service.finish_stop(false));
    assert_eq!(service.status().phase, LiveCapturePhase::Stopped);
    assert_eq!(service.take_pending_abyss_archives().len(), 1);
}

#[test]
fn packet_quality_observations_do_not_invalidate_hud_projection() {
    let mut service = new_service();
    let initial_revision = service.revision();
    let initial_packet_revision = service.packet_stream_revision();

    process(
        &mut service,
        EngineEvent::PacketObservation(PacketObservation { parsed_hits: 1 }),
    );

    assert_eq!(service.revision(), initial_revision);
    assert_eq!(service.state.battle.packet_log.packet_count, 1);
    assert!(service.packet_stream_revision().generation > initial_packet_revision.generation);
}

#[test]
fn outgoing_revision_advances_only_for_outgoing_hits() {
    let mut service = new_service();
    let initial = service.outgoing_hit_revision();
    let mut incoming = test_hit(1.0, 7, 12.0);
    incoming.direction = HitDirection::Incoming;

    process(&mut service, EngineEvent::Hit(incoming));
    assert_eq!(service.outgoing_hit_revision(), initial);

    process(&mut service, hit(34.0));
    assert_eq!(service.outgoing_hit_revision(), initial + 1);
}

#[test]
fn reset_session_can_restore_the_exact_previous_projection() {
    let mut service = new_service();
    process(&mut service, hit(321.0));
    let previous = service.state.clone();

    service.reset_session();
    assert!(service.state.battle.team.hits.is_empty());

    service.restore_session(previous, CaptureQualitySource::PcapngReplay, 5_000);
    assert_eq!(number(service.state.battle.team.total_damage), 321.0);
    assert_eq!(service.quality_source(), CaptureQualitySource::PcapngReplay);
}

#[test]
fn state_and_source_snapshot_uses_one_session_gate() {
    let mut service = new_service();
    let mut state = CombatState::default();
    apply(&mut state, hit(456.0));
    service.restore_session(state, CaptureQualitySource::JsonReplay, 5_000);

    let (snapshot, source) = service.state_and_source_snapshot();

    assert_eq!(number(snapshot.battle.team.total_damage), 456.0);
    assert_eq!(source, CaptureQualitySource::JsonReplay);
}

#[test]
fn sessions_are_read_with_their_markers() {
    let mut service = new_service();
    process(&mut service, hit(5.0));
    service.control.quality_source = CaptureQualitySource::Live;
    service.control.packet_revision = 9;
    assert_eq!(service.with_state(|state| number(state.battle.team.total_damage)), 5.0);
    let read = service.with_packet_state(3, |revision, pending, state: &CombatState| {
        (revision.generation, pending, state.battle.team.hits.len())
    });
    assert_eq!(read, (9, 3, 1));
    let summary = service.quality_summary(|_state, source| CaptureQualitySummary { source });
    assert_eq!(summary.source, CaptureQualitySource::Live);
}

#[test]
fn stopping_an_idle_service_reports_the_stable_core_error() {
    let mut service = new_service();

    let error = service
        .request_stop(Ok(()))
        .expect_err("idle capture must reject stop");

    assert_eq!(error.code, CoreErrorCode::CaptureNotRunning);
    assert_eq!(error.message, "capture is not running");
    assert_eq!(service.status(), LiveCaptureStatus::default());
}

#[test]
fn a_start_runs_through_its_phases() {
    let mut service = new_service();
    process(&mut service, hit(5.0));
    let error = service
        .request_start(Err("no worker".to_owned()), Ok(()))
        .expect_err("no worker");
    assert_eq!(error.code, CoreErrorCode::SystemProbeFailed);
    assert_eq!(error.message, "no worker");
    let revision = service.revision();
    let error = service
        .request_start(Ok(()), Err("no thread".to_owned()))
        .expect_err("no start worker");
    assert_eq!(error.code, CoreErrorCode::SystemProbeFailed);
    assert_eq!(error.message, "no thread");
    assert_eq!(service.status().phase, LiveCapturePhase::Failed);
    assert_eq!(service.revision(), revision + 2);
    service.request_start(Ok(()), Ok(())).expect("idle service starts");
    assert_eq!(service.status().phase, LiveCapturePhase::Starting);
    let error = service
        .request_start(Ok(()), Ok(()))
        .expect_err("a start is under way");
    assert_eq!(error.code, CoreErrorCode::CaptureAlreadyRunning);
    assert_eq!(error.message, "capture start is already active");
    assert!(!service.finish_start(Ok(())));
    assert_eq!(service.status().phase, LiveCapturePhase::Running);
    assert_eq!(service.quality_source(), CaptureQualitySource::Live);
    assert!(service.state.battle.team.hits.is_empty());
}

#[test]
fn a_stop_during_a_start_takes_force_once_the_start_is_through() {
    let mut service = new_service();
    service.request_start(Ok(()), Ok(())).expect("idle service starts");
    let action = service.request_stop(Ok(())).expect("a start can be stopped");
    assert!(!action.spawn_stop_worker);
    assert!(service.finish_start(Ok(())));
    assert_eq!(service.status().phase, LiveCapturePhase::Stopping);
    let again = service.request_stop(Ok(())).expect("asking again is granted");
    assert!(!again.spawn_stop_worker && !again.stop_replay);
    assert!(service.finish_stop(true));
    assert_eq!(service.status().phase, LiveCapturePhase::Stopping);
    process(&mut service, EngineEvent::CaptureStopped);
    assert_eq!(service.status(), LiveCaptureStatus {
        phase: LiveCapturePhase::Stopped,
        issue: None,
    });
}

#[test]
fn a_failed_start_keeps_its_code() {
    let mut service = new_service();
    service.request_start(Ok(()), Ok(())).expect("idle service starts");
    assert!(!service.finish_start(Err(CoreErrorCode::NpcapNotFound)));
    assert_eq!(service.status(), LiveCaptureStatus {
        phase: LiveCapturePhase::Failed,
        issue: Some(LiveCaptureIssue::Start(CoreErrorCode::NpcapNotFound)),
    });
    let error = service.worker_failed("spawn".to_owned());
    assert_eq!(error.code, CoreErrorCode::SystemProbeFailed);
    assert_eq!(service.status(), LiveCaptureStatus {
        phase: LiveCapturePhase::Failed,
        issue: Some(LiveCaptureIssue::Start(CoreErrorCode::SystemProbeFailed)),
    });
}

#[test]
fn a_replay_begins_a_fresh_session_and_excludes_another() {
    let mut service = new_service();
    process(&mut service, hit(5.0));
    let error = service
        .request_replay(CaptureReplayKind::Json, Err("no worker".to_owned()))
        .expect_err("no worker");
    assert_eq!(error.code, CoreErrorCode::SystemProbeFailed);
    service
        .request_replay(CaptureReplayKind::Json, Ok(()))
        .expect("idle service replays");
    assert!(service.replay_running());
    assert_eq!(service.quality_source(), CaptureQualitySource::JsonReplay);
    assert!(service.state.battle.team.hits.is_empty());
    let error = service
        .request_replay(CaptureReplayKind::Pcapng, Ok(()))
        .expect_err("a replay is under way");
    assert_eq!(error.code, CoreErrorCode::CaptureAlreadyRunning);
    assert_eq!(error.message, "capture or replay is already active");
    let action = service.request_stop(Ok(())).expect("a replay can be stopped");
    assert!(action.stop_replay && !action.spawn_stop_worker);
    process(&mut service, EngineEvent::CaptureStopped);
    assert!(!service.replay_running());
}

#[test]
fn failed_resources_are_replaced_and_reported_in_order() {
    let (resources, warnings) = LiveCaptureResources::load(
        Err("characters".to_owned()),
        (AbilityNames::empty(), Some("abilities".to_owned())),
    );
    assert!(resources.characters.is_empty());
    assert_eq!(warnings, vec!["characters".to_owned(), "abilities".to_owned()]);
    let (_, warnings) =
        LiveCaptureResources::load(Ok(HashMap::new()), (AbilityNames::empty(), None));
    assert!(warnings.is_empty());
}
