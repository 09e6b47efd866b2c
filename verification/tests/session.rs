use nte_dps_tool::battle::BattleReadError;
use nte_dps_tool::double::{Arith, Double};
use nte_dps_tool::error::CoreErrorCode;
use nte_dps_tool::history::{CaptureQualitySummary, CombatSessionSummary};
use nte_dps_tool::line::{line_event, BoundedLine, LineEvent, LineReader, MAX_LINE_BYTES};
use nte_dps_tool::model::{
    BattleState, CaptureQualitySource, CharacterStats, CharacterTotals, CombatState,
    DpsTimeBasis, EmptyCurtainCharacter, EmptyCurtainItem, EmptyCurtainPlacement, EngineEvent,
    Hit, HitCharacterSource, HitClassification, HitDirection, HitFollowUp, HtItemNetId,
    Inventory, PacketDebug, TimeStopEvent, TimedReading,
};
use nte_dps_tool::reducer::{BattleUpdate, EngineStep};
use nte_dps_tool::requests::{detect_reply, reader_failure, ReaderEvent, ReaderStep, Step};
use nte_dps_tool::rpc::{
    battle_read_error, capture_options, core_error, item_net_id, mods_plugin_request,
    timeline_scope, BattleAxisParams, BattleQuery, BattleRecordParams, BattleTimelineParams,
    BattleTimelineScopeParam, CaptureDeviceParam, CaptureDeviceSelector, CaptureProfile,
    CaptureProfileParam, CaptureStartParams, DomainError, EquipmentOperationParam, HelloParams,
    ItemUidParam, ModsPluginOperation, ModsPluginResponse, ModsPluginSubmitError,
    PlacementParam, RawCaptureMode, RawCaptureParam, Request, RpcError,
};
use nte_dps_tool::runtime::OperationId;
use nte_dps_tool::session::{
    CaptureStatus, Effect, EquipmentOutcome, Event, LatestMessage, Message, Reply, Runtime,
    StampedEvent, SummaryEvent, BATTLE_SUMMARY_INTERVAL_MS,
};
use nte_dps_tool::single::Single;
use nte_dps_tool::timeline::{
    BucketWidth, TimelineBucket, TimelineInterval, TimelineReadings, TimelineScope,
    TimelineSeries,
};
use std::cell::RefCell;
use std::collections::HashMap;

/// Item names by item id, and the characters.
type Contents = (Vec<String>, Vec<EmptyCurtainCharacter>);

fn double(value: f64) -> Double {
    Double { bits: value.to_bits() }
}

fn number(value: Double) -> f64 {
    f64::from_bits(value.bits)
}

fn ops(request: Arith) -> Double {
    double(match request {
        Arith::Sum(left, right) => number(left) + number(right),
        Arith::Difference(left, right) => number(left) - number(right),
        Arith::Product(left, right) => number(left) * number(right),
        Arith::Quotient(left, right) => number(left) / number(right),
        Arith::FromCount(count) => count as f64,
        Arith::FromSingle(value) => f64::from(f32::from_bits(value.bits)),
    })
}

fn whole(value: Double) -> usize {
    number(value) as usize
}

fn test_hit(timestamp: f64, damage: f64) -> Hit {
    Hit {
        timestamp: double(timestamp),
        char_id: 7,
        char_name: "Character".to_owned(),
        char_known: true,
        damage: double(damage),
        byte_offset: 0,
        bit_shift: 0,
        char_source: HitCharacterSource::Unknown,
        direction: HitDirection::Outgoing,
        target_hp_before: double(0.0),
        target_hp_after: double(0.0),
        target_max_hp: double(0.0),
        target_hp_percent: double(0.0),
        target_id: None,
        target_name: None,
        target_name_en: None,
        target_name_ja: None,
        target_monster_id: None,
        target_context: Vec::new(),
        gameplay_effect_index: None,
        gameplay_effect_name: None,
        ability_name: None,
        damage_name: Some("Skill".to_owned()),
        damage_component: None,
        attack_type: Some("normal".to_owned()),
        damage_attribute: None,
        follow_up_damage: double(0.0),
        follow_up_timestamp: None,
        follow_up_damage_name: None,
        follow_up_attack_type: None,
        follow_up_damage_attribute: None,
        active_effects: Vec::new(),
        class: HitClassification {
            total_damage: double(damage),
            reaction_damage: double(0.0),
            unbalance: false,
            qte_follow_up: false,
            attack_type_is_qte: false,
            follow_up_type_is_qte: false,
        },
    }
}

fn hit_event(timestamp: f64, damage: f64) -> EngineEvent {
    EngineEvent::Hit(test_hit(timestamp, damage))
}

/// How long the game was paused, and since when it is.
#[derive(Default)]
struct Pauses {
    since: Option<f64>,
    total: f64,
}

/// An engine that keeps hits and counts paused time.
fn step(pauses: &RefCell<Pauses>, mut battle: BattleState, update: &BattleUpdate) -> EngineStep {
    let projection_changed = match update {
        BattleUpdate::Hit(hit) => {
            let team = &mut battle.team;
            team.total_damage = double(number(team.total_damage) + number(hit.damage));
            team.hits.push(hit.clone());
            team.hits_generation += 1;
            if team.stats.is_empty() {
                let totals = CharacterTotals {
                    hits: 0,
                    attributed_hits: 0,
                    damage: double(0.0),
                    hits_taken: 0,
                    damage_taken: double(0.0),
                    dps: TimedReading::zero(),
                    duration: TimedReading::zero(),
                };
                team.stats.push(CharacterStats {
                    char_id: hit.char_id,
                    name: hit.char_name.clone(),
                    combined: totals,
                    separated: totals,
                });
            }
            let start = battle.started_at.unwrap_or(hit.timestamp);
            battle.started_at = Some(start);
            battle.ended_at = Some(hit.timestamp);
            let wall_clock = number(hit.timestamp) - number(start);
            team.duration = TimedReading {
                wall_clock: double(wall_clock),
                subtract_time_stop: double(wall_clock - pauses.borrow().total),
            };
            true
        }
        BattleUpdate::FollowUp(follow_up) => battle
            .team
            .hits
            .iter()
            .any(|hit| hit.timestamp == follow_up.source_timestamp),
        BattleUpdate::Packet(packet) => {
            battle.packet_log.packets.push(packet.clone());
            battle.packet_log.packets_generation += 1;
            false
        }
        BattleUpdate::TimeStop(TimeStopEvent::GamePauseStarted { timestamp, .. }) => {
            pauses.borrow_mut().since = Some(number(*timestamp));
            battle.game_paused = true;
            true
        }
        BattleUpdate::TimeStop(TimeStopEvent::GamePauseEnded { timestamp, .. }) => {
            let mut pauses = pauses.borrow_mut();
            match pauses.since.take() {
                Some(since) => {
                    pauses.total += number(*timestamp) - since;
                    battle.game_paused = false;
                    true
                }
                None => false,
            }
        }
        _ => false,
    };
    EngineStep { battle, projection_changed }
}

fn enrich(inventory: &Inventory) -> Contents {
    (
        inventory
            .items
            .iter()
            .map(|item| match item.item_id.as_str() {
                "cell2_style2_1_Orange" => "Type II Module".to_owned(),
                other => other.to_owned(),
            })
            .collect(),
        inventory.characters.clone(),
    )
}

fn summarize(
    state: &CombatState,
    source: CaptureQualitySource,
    dps_time_basis: DpsTimeBasis,
    _separate_reaction_damage: bool,
) -> Option<CombatSessionSummary> {
    if state.battle.team.hits.is_empty() {
        return None;
    }
    Some(CombatSessionSummary {
        total_damage: state.battle.team.total_damage,
        duration_seconds: state
            .battle
            .team
            .duration
            .pick(dps_time_basis.subtracts_time_stop()),
        dps_time_basis,
        quality: CaptureQualitySummary { source },
    })
}

fn grade(_state: &CombatState, source: CaptureQualitySource) -> CaptureQualitySummary {
    CaptureQualitySummary { source }
}

fn no_stops(_state: &CombatState, _start: Double, _end: Double) -> Vec<TimelineInterval> {
    Vec::new()
}

fn width(seconds: Single) -> BucketWidth {
    BucketWidth {
        seconds: double(f64::from(f32::from_bits(seconds.bits))),
        min: double(0.2),
        max: double(10.0),
    }
}

fn read_timeline(
    state: &CombatState,
    _scope: TimelineScope,
    bucket_seconds: Double,
    _subtract: bool,
) -> TimelineReadings {
    let hits = &state.battle.team.hits;
    TimelineReadings {
        series: TimelineSeries {
            bucket_seconds,
            start_timestamp: hits.first().map(|hit| hit.timestamp),
            end_timestamp: hits.last().map(|hit| hit.timestamp),
            total_damage: state.battle.team.total_damage,
            buckets: hits
                .iter()
                .enumerate()
                .map(|(at, hit)| TimelineBucket {
                    start_offset: double(at as f64),
                    end_offset: double(at as f64 + 1.0),
                    dps: hit.damage,
                    damage: hit.damage,
                    hits: 1,
                    cumulative_damage: hit.damage,
                    role_damage: Vec::new(),
                })
                .collect(),
            time_stop_intervals: Vec::new(),
            markers: Vec::new(),
        },
        half_markers: Vec::new(),
        segments: Vec::new(),
    }
}

fn process(
    runtime: &mut Runtime<Contents>,
    pauses: &RefCell<Pauses>,
    event: EngineEvent,
) -> Vec<Effect<Contents>> {
    let engine = |battle: BattleState, update: &BattleUpdate| step(pauses, battle, update);
    runtime.process_engine_event(event, 1_000, &engine, &enrich, &summarize)
}

fn stamped(event: EngineEvent) -> StampedEvent {
    StampedEvent { event, received_at_unix_ms: 1_000 }
}

fn notification(effect: &Effect<Contents>) -> &Event<Contents> {
    match effect {
        Effect::Send { message: Message::Notification(event), .. } => event,
        other => panic!("a notification was expected: {other:?}"),
    }
}

fn published(effects: &[Effect<Contents>]) -> Vec<SummaryEvent> {
    effects
        .iter()
        .filter_map(|effect| match effect {
            Effect::PublishSummary(summary) => Some(*summary),
            _ => None,
        })
        .collect()
}

fn reply(effects: &[Effect<Contents>]) -> (&String, &Reply<Contents>) {
    effects
        .iter()
        .find_map(|effect| match effect {
            Effect::Send { message: Message::Success { id, result }, checked: true } => {
                Some((id, result))
            }
            _ => None,
        })
        .expect("a reply")
}

fn failure(effects: &[Effect<Contents>]) -> (Option<&str>, RpcError) {
    effects
        .iter()
        .find_map(|effect| match effect {
            Effect::Send { message: Message::Failure { id, error }, checked: true } => {
                Some((id.as_deref(), *error))
            }
            _ => None,
        })
        .expect("a failure")
}

fn item(item_id: &str, id: HtItemNetId) -> EmptyCurtainItem {
    EmptyCurtainItem {
        id,
        item_id: item_id.to_owned(),
        level: 20,
        main_stats: Vec::new(),
        sub_stats: Vec::new(),
        locked: true,
        discarded: false,
        character_net_id: Some(HtItemNetId { solt: 6, serial: 7 }),
        equipped_character_id: Some(1020),
        equipped_placement: Some(EmptyCurtainPlacement { row: 2, column: 3 }),
    }
}

/// Reads one line that arrives in the given buffers.
fn read_line(buffers: &[&[u8]]) -> BoundedLine {
    let mut reader = LineReader::new();
    for buffer in buffers {
        let (_, line) = reader.feed(buffer);
        if let Some(line) = line {
            return line;
        }
    }
    reader.finish()
}

#[test]
fn bounded_reader_accepts_limit_and_rejects_larger_lines() {
    let exact = vec![b'a'; MAX_LINE_BYTES];
    assert!(matches!(
        read_line(&[&exact]),
        BoundedLine::Line(line) if line.len() == MAX_LINE_BYTES
    ));

    let larger = vec![b'a'; MAX_LINE_BYTES + 1];
    assert!(matches!(read_line(&[&larger]), BoundedLine::TooLong));
}

#[test]
fn lines_are_the_same_however_they_arrive() {
    assert_eq!(read_line(&[b"ab\r\ncd"]), BoundedLine::Line(b"ab".to_vec()));
    assert_eq!(read_line(&[b"a", b"b\r", b"\ncd"]), BoundedLine::Line(b"ab".to_vec()));
    assert_eq!(read_line(&[b"ab"]), BoundedLine::Line(b"ab".to_vec()));
    assert_eq!(read_line(&[b"\n"]), BoundedLine::Line(Vec::new()));
    assert_eq!(read_line(&[]), BoundedLine::Eof);
    let mut reader = LineReader::new();
    assert_eq!(reader.feed(b"x\ny").0, 2);
    assert_eq!(reader.feed(b"y").0, 1);
    assert_eq!(reader.finish(), BoundedLine::Line(b"y".to_vec()));
}

#[test]
fn lines_are_told_apart_by_what_they_hold() {
    assert!(matches!(line_event(BoundedLine::Eof), LineEvent::Eof));
    assert!(matches!(
        line_event(BoundedLine::TooLong),
        LineEvent::Error { error: RpcError::InvalidRequest, fatal: true }
    ));
    assert!(matches!(
        line_event(BoundedLine::Line(vec![0xff, 0xfe])),
        LineEvent::Error { error: RpcError::ParseError, fatal: false }
    ));
    assert!(matches!(
        line_event(BoundedLine::Line(b" \t\r".to_vec())),
        LineEvent::Skip
    ));
    assert!(matches!(
        line_event(BoundedLine::Line("名 {}".as_bytes().to_vec())),
        LineEvent::Parse(text) if text == "名 {}"
    ));
}

#[test]
fn invalid_json_does_not_stop_following_requests() {
    let input: &[u8] =
        b"not-json\n{\"jsonrpc\":\"2.0\",\"id\":1,\"method\":\"core.shutdown\"}\n";
    let pauses = RefCell::default();
    let engine = |battle: BattleState, update: &BattleUpdate| step(&pauses, battle, update);
    let mut runtime: Runtime<Contents> = Runtime::new();
    let mut rest = input;
    let mut answers = Vec::new();
    loop {
        let mut reader = LineReader::new();
        let (taken, line) = reader.feed(rest);
        rest = &rest[taken..];
        let line = line.unwrap_or_else(|| reader.finish());
        match line_event(line) {
            LineEvent::Parse(text) => match serde_json::from_str::<serde_json::Value>(&text) {
                Err(_) => {
                    let message = reader_failure(None, RpcError::ParseError);
                    answers.push(Effect::Send { message, checked: true });
                }
                Ok(value) => {
                    assert_eq!(value["method"], "core.shutdown");
                    match runtime.handle_request(value["id"].to_string(), Request::Shutdown, None) {
                        Step::Exit { id } => answers.extend(runtime.shut_down(
                            id,
                            Vec::new(),
                            1_000,
                            &engine,
                            &enrich,
                            &summarize,
                        )),
                        other => panic!("the session ends: {other:?}"),
                    }
                    break;
                }
            },
            other => panic!("a line of text was expected: {other:?}"),
        }
    }
    assert_eq!(answers.len(), 2);
    let (id, error) = failure(&answers[..1]);
    assert_eq!(id, None);
    assert_eq!(error.protocol_number(), Some(-32700));
    match &answers[1] {
        Effect::Send { message: Message::Success { id, result }, checked: false } => {
            assert_eq!(id, "1");
            assert!(matches!(result, Reply::Shutdown { shutting_down: true }));
        }
        other => panic!("a reply was expected: {other:?}"),
    }
}

#[test]
fn inventory_event_is_enriched_and_packet_debug_is_not_forwarded() {
    let pauses = RefCell::default();
    let engine = |battle: BattleState, update: &BattleUpdate| step(&pauses, battle, update);
    let mut runtime: Runtime<Contents> = Runtime::new();
    let characters = vec![
        EmptyCurtainCharacter {
            net_id: HtItemNetId { solt: 6, serial: 7 },
            character_id: 1020,
        },
        EmptyCurtainCharacter {
            net_id: HtItemNetId { solt: 8, serial: 9 },
            character_id: 1075,
        },
    ];
    let effects = runtime.drain_engine_events(
        vec![
            stamped(EngineEvent::EmptyCurtainCharacters(characters.clone())),
            stamped(EngineEvent::EmptyCurtain(vec![item(
                "cell2_style2_1_Orange",
                HtItemNetId { solt: 4, serial: 5 },
            )])),
        ],
        &engine,
        &enrich,
        &summarize,
    );
    assert_eq!(effects.len(), 1);
    let inventory = notification(&effects[0]);
    assert_eq!(inventory.method(), "event.inventory.snapshot");
    match inventory {
        Event::Inventory { sequence, snapshot } => {
            assert_eq!(*sequence, 1);
            assert_eq!(snapshot.generation, 1);
            assert_eq!(snapshot.captured_at_unix_ms, 1_000);
            assert_eq!(snapshot.contents.1, characters);
            assert_eq!(snapshot.contents.0, vec!["Type II Module".to_owned()]);
        }
        other => panic!("an inventory was expected: {other:?}"),
    }
    assert_eq!(
        runtime.state.inventory.items[0].equipped_placement,
        Some(EmptyCurtainPlacement { row: 2, column: 3 })
    );
    assert_eq!(runtime.latest_inventory.as_ref().map(|latest| latest.generation), Some(1));

    let packet = PacketDebug {
        timestamp: double(1.0),
        source: "source".to_owned(),
        destination: "destination".to_owned(),
        direction: "outgoing".to_owned(),
        payload_len: 1,
        declared_ids: Vec::new(),
        parsed_hits: 0,
        note: String::new(),
        payload_preview: "private".to_owned(),
        payload_hex: "00".to_owned(),
        decoded_text: "private".to_owned(),
    };
    assert!(process(&mut runtime, &pauses, EngineEvent::Packet(packet)).is_empty());

    let effects = process(
        &mut runtime,
        &pauses,
        EngineEvent::Warning("private detail".to_owned()),
    );
    let warning = notification(&effects[0]);
    assert_eq!(warning.method(), "event.core.warning");
    assert!(matches!(warning, Event::Warning { sequence: 2 }));
    assert_eq!(warning.core_message(), Some("Capture warning"));
    assert!(!format!("{effects:?}").contains("private detail"));

    let effects = process(
        &mut runtime,
        &pauses,
        EngineEvent::Error("private failure".to_owned()),
    );
    let error = notification(&effects[0]);
    assert_eq!(error.method(), "event.core.error");
    assert!(matches!(error, Event::Error { sequence: 3 }));
    assert_eq!(error.core_message(), Some("Capture failed"));
    assert!(!format!("{effects:?}").contains("private failure"));

    let mut effects = Vec::new();
    runtime.send_capture_status_for(
        &mut effects,
        OperationId { number: 9 },
        CaptureProfile::Inventory,
        CaptureStatus::Stopped,
    );
    let status = notification(&effects[0]);
    assert_eq!(status.method(), "event.capture.status");
    match status {
        Event::Capture(event) => {
            assert_eq!(event.sequence, 4);
            assert_eq!(event.operation.text(), "capture-9");
            assert_eq!(event.status.text(), "stopped");
        }
        other => panic!("a capture status was expected: {other:?}"),
    }
}

#[test]
fn battle_summary_tick_coalesces_latest_and_final_is_reliable() {
    assert_eq!(BATTLE_SUMMARY_INTERVAL_MS, 250);
    let pauses = RefCell::default();
    let mut runtime: Runtime<Contents> = Runtime::new();
    let mut latest = LatestMessage::new();
    assert!(runtime.flush_battle_summary(&summarize).is_empty());

    process(&mut runtime, &pauses, hit_event(1.0, 100.0));
    for summary in published(&runtime.flush_battle_summary(&summarize)) {
        latest.publish(summary);
    }
    process(
        &mut runtime,
        &pauses,
        EngineEvent::TimeStop(TimeStopEvent::GamePauseStarted {
            timestamp: double(2.0),
            pause_type_mask: 1 << 2,
        }),
    );
    process(
        &mut runtime,
        &pauses,
        EngineEvent::TimeStop(TimeStopEvent::GamePauseEnded {
            timestamp: double(4.0),
            pause_type_mask: 1 << 2,
        }),
    );
    let sent = process(&mut runtime, &pauses, hit_event(10.0, 200.0));
    assert!(sent.is_empty());
    for summary in published(&runtime.flush_battle_summary(&summarize)) {
        latest.publish(summary);
    }

    let shown = latest.take().expect("a summary");
    assert_eq!(shown.sequence, 2);
    assert_eq!(number(shown.summary.total_damage), 300.0);
    assert_eq!(shown.summary.dps_time_basis, DpsTimeBasis::SubtractTimeStop);
    assert_eq!(number(shown.summary.duration_seconds), 7.0);
    assert!(latest.take().is_none());
    let wall_clock = runtime.battle_summary(false, &summarize).expect("a summary");
    assert_eq!(wall_clock.dps_time_basis, DpsTimeBasis::WallClock);
    assert_eq!(number(wall_clock.duration_seconds), 9.0);

    let mut effects = Vec::new();
    runtime.send_final_battle_summary(&mut effects, &summarize);
    assert_eq!(effects.len(), 2);
    assert!(matches!(effects[0], Effect::ClearSummary));
    match notification(&effects[1]) {
        Event::Summary(event) => {
            assert_eq!(event.sequence, 3);
            assert_eq!(number(event.summary.total_damage), 300.0);
        }
        other => panic!("a summary was expected: {other:?}"),
    }
}

#[test]
fn battle_reset_keeps_latest_inventory_and_clears_pending_summary() {
    let pauses = RefCell::default();
    let mut runtime: Runtime<Contents> = Runtime::new();
    let mut latest = LatestMessage::new();
    process(
        &mut runtime,
        &pauses,
        EngineEvent::EmptyCurtain(vec![item(
            "Attack_blue",
            HtItemNetId { solt: 1, serial: 2 },
        )]),
    );
    process(&mut runtime, &pauses, hit_event(1.0, 100.0));
    for summary in published(&runtime.flush_battle_summary(&summarize)) {
        latest.publish(summary);
    }

    let effects = runtime.reset_battle();
    assert!(matches!(effects[..], [Effect::ClearSummary]));
    latest.clear();

    assert!(runtime.state.battle.team.hits.is_empty());
    assert!(runtime.latest_inventory.is_some());
    assert_eq!(runtime.state.inventory.items.len(), 1);
    assert!(latest.take().is_none());
    assert!(runtime.battle_summary(true, &summarize).is_none());
}

#[test]
fn battle_rpc_drains_queued_events_before_query_and_reset() {
    let pauses = RefCell::default();
    let engine = |battle: BattleState, update: &BattleUpdate| step(&pauses, battle, update);
    let mut runtime: Runtime<Contents> = Runtime::new();
    runtime.control.handshaken = true;

    let asked = runtime.handle_request(
        "1".to_owned(),
        Request::Battle(BattleQuery::Summary { subtract_time_stop: true }),
        None,
    );
    assert!(matches!(asked, Step::Query { query: BattleQuery::Summary { .. }, .. }));
    let effects = runtime.answer_summary(
        "1".to_owned(),
        true,
        vec![stamped(hit_event(1.0, 100.0))],
        &engine,
        &enrich,
        &summarize,
    );
    match reply(&effects) {
        (_, Reply::Summary(Some(summary))) => assert_eq!(number(summary.total_damage), 100.0),
        other => panic!("a summary was expected: {other:?}"),
    }

    let effects = runtime.answer_reset(
        "2".to_owned(),
        vec![stamped(hit_event(2.0, 200.0))],
        &engine,
        &enrich,
        &summarize,
    );
    assert!(matches!(reply(&effects).1, Reply::Reset { reset: true }));
    assert!(runtime.state.battle.team.hits.is_empty());
    assert!(runtime.battle_summary(true, &summarize).is_none());
}

#[test]
fn equipment_requests_map_external_uids_and_boolean_state() {
    let request = mods_plugin_request(
        17,
        EquipmentOperationParam::MoveModuleToCharacter {
            character: ItemUidParam { slot: 1, serial: 2 },
            equipment: ItemUidParam { slot: 3, serial: 4 },
            row: 2,
            column: 5,
        },
    );
    assert_eq!(request.request_id, 17);
    assert_eq!(request.character, HtItemNetId { solt: 1, serial: 2 });
    assert!(matches!(
        request.operation,
        ModsPluginOperation::MoveModuleToCharacter {
            equipment: HtItemNetId { solt: 3, serial: 4 },
            row: 2,
            column: 5,
        }
    ));

    let request = mods_plugin_request(
        18,
        EquipmentOperationParam::SetItemLocked {
            equipment: ItemUidParam { slot: 5, serial: 6 },
            locked: true,
        },
    );
    assert_eq!(request.character, HtItemNetId::zero());
    assert!(matches!(
        request.operation,
        ModsPluginOperation::SetItemLocked {
            equipment: HtItemNetId { solt: 5, serial: 6 },
            locked: true,
        }
    ));
}

#[test]
fn sets_of_equipment_keep_their_order() {
    let request = mods_plugin_request(
        3,
        EquipmentOperationParam::EquipOneKey {
            character: ItemUidParam { slot: 1, serial: 1 },
            placements: vec![
                PlacementParam {
                    equipment: ItemUidParam { slot: 2, serial: 2 },
                    row: 1,
                    column: 2,
                },
                PlacementParam {
                    equipment: ItemUidParam { slot: 3, serial: 3 },
                    row: 3,
                    column: 4,
                },
            ],
            core: ItemUidParam { slot: 9, serial: 9 },
        },
    );
    match request.operation {
        ModsPluginOperation::EquipOneKey { placements, core } => {
            assert_eq!(placements.len(), 2);
            assert_eq!(placements[1].equipment, HtItemNetId { solt: 3, serial: 3 });
            assert_eq!((placements[1].row, placements[1].column), (3, 4));
            assert_eq!(core, item_net_id(ItemUidParam { slot: 9, serial: 9 }));
        }
        other => panic!("a set was expected: {other:?}"),
    }
}

fn timeline_params(battle_record_id: Option<String>) -> BattleTimelineParams {
    BattleTimelineParams {
        battle_record_id,
        scope: BattleTimelineScopeParam::All,
        bucket_seconds: Single { bits: 1.0_f32.to_bits() },
        subtract_time_stop: true,
    }
}

#[test]
fn battle_read_methods_are_registered_before_data_exists() {
    let pauses = RefCell::default();
    let engine = |battle: BattleState, update: &BattleUpdate| step(&pauses, battle, update);
    let mut runtime: Runtime<Contents> = Runtime::new();
    let hello = runtime.handle_request(
        "hello".to_owned(),
        Request::Hello(HelloParams { protocol_min: 1, protocol_max: 1 }),
        None,
    );
    assert!(matches!(hello, Step::Done(_)));
    let record = runtime.answer_record(
        "record".to_owned(),
        &BattleRecordParams { battle_record_id: None, subtract_time_stop: true },
        Vec::new(),
        &engine,
        &enrich,
        &summarize,
        &grade,
        &no_stops,
    );
    assert!(matches!(reply(&record).1, Reply::Record(None)));
    let axis = runtime.answer_axis(
        "axis".to_owned(),
        &BattleAxisParams { battle_record_id: None, cursor: None, limit: 250 },
        Vec::new(),
        &engine,
        &enrich,
        &summarize,
        &ops,
    );
    assert!(matches!(reply(&axis).1, Reply::Axis(None)));
    let timeline = runtime.answer_timeline(
        "timeline".to_owned(),
        &timeline_params(None),
        Vec::new(),
        &HashMap::new(),
        &engine,
        &enrich,
        &summarize,
        &read_timeline,
        &width,
        &ops,
        &whole,
    );
    assert!(matches!(reply(&timeline).1, Reply::Timeline(None)));
}

#[test]
fn battle_read_models_share_a_stable_record_lifecycle_and_revision() {
    let pauses = RefCell::default();
    let mut runtime: Runtime<Contents> = Runtime::new();
    runtime.control.active_operation = Some(OperationId { number: 9 });

    process(&mut runtime, &pauses, hit_event(1.0, 100.0));
    process(&mut runtime, &pauses, hit_event(2.0, 200.0));

    let record_params = |battle_record_id: Option<String>| BattleRecordParams {
        battle_record_id,
        subtract_time_stop: true,
    };
    let record = runtime
        .battle_record(&record_params(None), &summarize, &grade, &no_stops)
        .expect("record query")
        .expect("record exists");
    assert_eq!(record.battle_record_id, "battle-1");
    assert_eq!(record.capture_operation_id.as_deref(), Some("capture-9"));
    assert_eq!(record.state, "live");
    let live_generation = record.generation.parse::<u64>().expect("generation");

    let axis = runtime
        .battle_axis(
            &BattleAxisParams {
                battle_record_id: Some(record.battle_record_id.clone()),
                cursor: None,
                limit: 1,
            },
            &ops,
        )
        .expect("axis query")
        .expect("axis exists");
    assert_eq!(axis.generation, record.generation);
    assert_eq!(axis.rows.len(), 1);
    assert_eq!(axis.next_cursor.as_deref(), Some("2"));

    let timeline = runtime
        .battle_timeline(
            &timeline_params(Some(record.battle_record_id.clone())),
            &HashMap::new(),
            &read_timeline,
            &width,
            &ops,
            &whole,
        )
        .expect("timeline query")
        .expect("timeline exists");
    assert_eq!(timeline.generation, record.generation);
    assert_eq!(number(timeline.total_damage), 300.0);
    assert!(!timeline.buckets.is_empty());

    let generation = |runtime: &Runtime<Contents>| {
        runtime.control.record.map(|record| record.generation)
    };
    process(
        &mut runtime,
        &pauses,
        EngineEvent::EmptyCurtainCharacters(Vec::new()),
    );
    assert_eq!(generation(&runtime), Some(live_generation));
    process(
        &mut runtime,
        &pauses,
        EngineEvent::HitFollowUp(HitFollowUp {
            source_timestamp: double(99.0),
            source_char_id: 999,
            source_damage: double(1.0),
            source_target_hp_before: double(0.0),
            source_target_hp_after: double(0.0),
            source_target_max_hp: double(0.0),
            source_gameplay_effect_index: None,
            timestamp: double(100.0),
            damage: double(1.0),
            target_hp_after: double(0.0),
            target_hp_percent: double(0.0),
            damage_name: None,
            attack_type: None,
            damage_attribute: None,
        }),
    );
    assert_eq!(generation(&runtime), Some(live_generation));
    process(
        &mut runtime,
        &pauses,
        EngineEvent::TimeStop(TimeStopEvent::GamePauseEnded {
            timestamp: double(101.0),
            pause_type_mask: 1,
        }),
    );
    assert_eq!(generation(&runtime), Some(live_generation));

    runtime
        .control
        .finalize_current_battle_record(Some(OperationId { number: 9 }), 2_000);
    let finalized = runtime
        .battle_record(
            &record_params(Some(record.battle_record_id.clone())),
            &summarize,
            &grade,
            &no_stops,
        )
        .expect("final record query")
        .expect("record exists");
    assert_eq!(finalized.state, "finalized");
    assert_eq!(
        finalized.generation.parse::<u64>().expect("generation"),
        live_generation + 1
    );
    assert_eq!(finalized.finalized_at_unix_ms, Some(2_000));

    runtime.reset_battle();
    assert!(runtime
        .battle_record(&record_params(None), &summarize, &grade, &no_stops)
        .expect("empty record query")
        .is_none());
    assert!(matches!(
        runtime.battle_record(
            &record_params(Some(record.battle_record_id)),
            &summarize,
            &grade,
            &no_stops,
        ),
        Err(BattleReadError::RecordNotFound)
    ));

    process(&mut runtime, &pauses, hit_event(3.0, 50.0));
    assert_eq!(runtime.control.record.expect("new record").id(), "battle-2");
}

#[test]
fn records_of_another_capture_are_not_finalized() {
    let pauses = RefCell::default();
    let mut runtime: Runtime<Contents> = Runtime::new();
    runtime.control.active_operation = Some(OperationId { number: 1 });
    process(&mut runtime, &pauses, hit_event(1.0, 100.0));
    runtime
        .control
        .finalize_current_battle_record(Some(OperationId { number: 2 }), 5);
    assert!(!runtime.control.record.expect("record").finalized);
    runtime.control.finalize_current_battle_record(None, 5);
    assert!(runtime.control.record.expect("record").finalized);
    runtime.control.mark_battle_changed(true, 3);
    let record = runtime.control.record.expect("record");
    assert!(!record.finalized);
    assert_eq!(record.axis_base_sequence, 3);
}

fn pending(runtime: &mut Runtime<Contents>, ids: &[(u64, &str)]) {
    for (request_id, id) in ids {
        runtime
            .pending_equipment_requests
            .insert(*request_id, (*id).to_owned());
    }
}

#[test]
fn unknown_and_duplicate_mod_responses_do_not_consume_pending_requests_or_stop_runtime() {
    let mut runtime: Runtime<Contents> = Runtime::new();
    pending(&mut runtime, &[(1, "rpc-1")]);
    let answer = |request_id: u64| ModsPluginResponse { request_id, status: Some(0) };

    assert!(runtime.process_equipment_response(answer(99)).is_empty());
    assert_eq!(
        runtime.pending_equipment_requests.get(&1).map(String::as_str),
        Some("rpc-1")
    );

    let effects = runtime.process_equipment_response(answer(1));
    assert_eq!(reply(&effects).0, "rpc-1");
    assert!(runtime.process_equipment_response(answer(1)).is_empty());
}

#[test]
fn mod_responses_are_told_by_their_status() {
    let mut runtime: Runtime<Contents> = Runtime::new();
    pending(&mut runtime, &[(1, "a"), (2, "b"), (3, "c"), (4, "d")]);
    let mut answer = |request_id: u64, status: Option<u32>| {
        runtime.process_equipment_response(ModsPluginResponse { request_id, status })
    };
    let effects = answer(1, Some(0));
    match reply(&effects).1 {
        Reply::Equipment(outcome) => assert_eq!(outcome.text(), "rpc_dispatched"),
        other => panic!("an outcome was expected: {other:?}"),
    }
    let effects = answer(2, Some(1));
    assert!(matches!(reply(&effects).1, Reply::Equipment(EquipmentOutcome::DryRunOk)));
    assert_eq!(
        failure(&answer(3, Some(7))),
        (
            Some("c"),
            RpcError::Domain(DomainError::EquipmentRequestRejected { status: 7 })
        )
    );
    assert_eq!(
        failure(&answer(4, None)),
        (Some("d"), RpcError::Domain(DomainError::ModsPluginUnavailable))
    );
}

#[test]
fn disconnected_mod_loader_fails_pending_equipment_requests() {
    let mut runtime: Runtime<Contents> = Runtime::new();
    pending(&mut runtime, &[(1, "rpc-1"), (2, "rpc-2")]);

    let effects = runtime.fail_pending_equipment_requests();
    assert!(runtime.pending_equipment_requests.is_empty());
    assert_eq!(effects.len(), 2);
    let mut ids = Vec::new();
    for effect in &effects {
        let (id, error) = failure(std::slice::from_ref(effect));
        match error {
            RpcError::Domain(error) => assert_eq!(error.code(), "MODS_PLUGIN_UNAVAILABLE"),
            other => panic!("a domain error was expected: {other:?}"),
        }
        ids.push(id.expect("a response id").to_owned());
    }
    ids.sort();
    assert_eq!(ids, ["rpc-1", "rpc-2"]);
}

#[test]
fn equipment_requests_are_numbered_and_wait_for_their_answer() {
    let mut runtime: Runtime<Contents> = Runtime::new();
    runtime.control.handshaken = true;
    let lock = |slot: i32| {
        Request::Equipment(EquipmentOperationParam::SetItemLocked {
            equipment: ItemUidParam { slot, serial: 4 },
            locked: true,
        })
    };
    let mut numbers = Vec::new();
    for (slot, id) in [(3, "1"), (5, "2")] {
        match runtime.handle_request(id.to_owned(), lock(slot), None) {
            Step::Submit { id, request } => {
                numbers.push(request.request_id);
                assert!(runtime
                    .finish_equipment_submit(id, request.request_id, Ok(()))
                    .is_empty());
            }
            other => panic!("a submission was expected: {other:?}"),
        }
    }
    assert_eq!(numbers, vec![1, 2]);
    match runtime.handle_request("3".to_owned(), lock(7), None) {
        Step::Submit { id, request } => {
            let effects = runtime.finish_equipment_submit(
                id,
                request.request_id,
                Err(ModsPluginSubmitError::Busy),
            );
            assert_eq!(
                failure(&effects),
                (Some("3"), RpcError::Domain(DomainError::ModsPluginBusy))
            );
        }
        other => panic!("a submission was expected: {other:?}"),
    }
    assert_eq!(runtime.pending_equipment_requests.len(), 2);
}

#[test]
fn stdout_writer_keeps_only_the_latest_coalesced_summary() {
    let mut latest = LatestMessage::new();
    latest.publish(1);
    latest.publish(2);
    assert_eq!(latest.take(), Some(2));
    assert_eq!(latest.take(), None);
}

#[test]
fn requests_before_the_handshake_are_refused() {
    let mut runtime: Runtime<Contents> = Runtime::new();
    match runtime.handle_request("a".to_owned(), Request::Status, None) {
        Step::Done(effects) => {
            let (id, error) = failure(&effects);
            assert_eq!(id, Some("a"));
            assert_eq!(error, RpcError::Domain(DomainError::HandshakeRequired));
        }
        other => panic!("a refusal was expected: {other:?}"),
    }
    match runtime.handle_request(
        "b".to_owned(),
        Request::Hello(HelloParams { protocol_min: 2, protocol_max: 3 }),
        None,
    ) {
        Step::Done(effects) => {
            let (_, error) = failure(&effects);
            assert_eq!(error, RpcError::Domain(DomainError::ProtocolVersionMismatch));
        }
        other => panic!("a refusal was expected: {other:?}"),
    }
    assert!(!runtime.control.handshaken);
    assert_eq!(
        DomainError::ProtocolVersionMismatch.message(),
        "Supported protocol version is 1"
    );
    runtime.control.handshaken = true;
    match runtime.handle_request("c".to_owned(), Request::InventoryGetLatest, None) {
        Step::Done(effects) => assert_eq!(
            failure(&effects).1,
            RpcError::Domain(DomainError::InventoryNotReady)
        ),
        other => panic!("a refusal was expected: {other:?}"),
    }
    match runtime.handle_request("d".to_owned(), Request::Status, Some("raw".to_owned())) {
        Step::Done(effects) => match reply(&effects).1 {
            Reply::Status(status) => {
                assert!(status.handshaken && !status.capture_running);
                assert_eq!(status.raw_capture_path.as_deref(), Some("raw"));
            }
            other => panic!("a status was expected: {other:?}"),
        },
        other => panic!("an answer was expected: {other:?}"),
    }
    match runtime.handle_request("e".to_owned(), Request::Unknown, None) {
        Step::Done(effects) => {
            assert_eq!(failure(&effects).1.protocol_number(), Some(-32601));
        }
        other => panic!("a refusal was expected: {other:?}"),
    }
}

#[test]
fn captures_are_announced_and_end_with_a_final_summary() {
    let pauses = RefCell::default();
    let engine = |battle: BattleState, update: &BattleUpdate| step(&pauses, battle, update);
    let mut runtime: Runtime<Contents> = Runtime::new();
    let refused = runtime.finish_capture_start(
        "a".to_owned(),
        CaptureProfile::Combat,
        Err(CoreErrorCode::NpcapNotFound),
    );
    assert_eq!(
        failure(&refused),
        (Some("a"), RpcError::Domain(DomainError::NpcapNotFound))
    );
    let started = runtime.finish_capture_start("b".to_owned(), CaptureProfile::Combat, Ok(()));
    assert!(matches!(
        reply(&started).1,
        Reply::CaptureStarted { operation: OperationId { number: 1 } }
    ));
    assert!(started
        .iter()
        .any(|effect| matches!(effect, Effect::Send { message: Message::Notification(
            Event::Capture(event)), .. } if event.status == CaptureStatus::Starting)));
    let running = process(&mut runtime, &pauses, EngineEvent::Status("up".to_owned()));
    assert!(matches!(
        notification(&running[0]),
        Event::Capture(event) if event.status == CaptureStatus::Running
    ));
    let stopped = runtime.finish_capture_stop(
        "c".to_owned(),
        Ok(()),
        vec![stamped(hit_event(1.0, 40.0)), stamped(EngineEvent::CaptureStopped)],
        7_000,
        &engine,
        &enrich,
        &summarize,
    );
    assert!(matches!(
        reply(&stopped).1,
        Reply::CaptureStopped { operation: OperationId { number: 1 }, stopped: true }
    ));
    let statuses = stopped
        .iter()
        .filter(|effect| matches!(effect, Effect::Send { message: Message::Notification(
            Event::Capture(_)), .. }))
        .count();
    assert_eq!(statuses, 1);
    assert!(stopped
        .iter()
        .any(|effect| matches!(effect, Effect::Send { message: Message::Notification(
            Event::Summary(event)), .. } if number(event.summary.total_damage) == 40.0)));
    let record = runtime.control.record.expect("record");
    assert!(record.finalized);
    assert_eq!(record.finalized_at_unix_ms, Some(7_000));
    let again = runtime.finish_capture_stop(
        "d".to_owned(),
        Ok(()),
        Vec::new(),
        8_000,
        &engine,
        &enrich,
        &summarize,
    );
    assert_eq!(
        failure(&again),
        (Some("d"), RpcError::Domain(DomainError::CaptureNotRunning))
    );
    assert!(runtime
        .stop_for_exit(Vec::new(), 9_000, &engine, &enrich, &summarize)
        .is_empty());
}

#[test]
fn capture_parameters_become_capture_options() {
    let options = capture_options(CaptureStartParams {
        profile: CaptureProfileParam::Inventory,
        device: CaptureDeviceParam::Name { name: "eth".to_owned() },
        include_incoming: true,
        server_damage_calibration: false,
        raw_capture: None,
    });
    assert_eq!(options.profile, CaptureProfile::Inventory);
    assert!(matches!(options.device, CaptureDeviceSelector::Name(name) if name == "eth"));
    assert_eq!(options.filter, "udp");
    assert_eq!(options.raw_capture, RawCaptureMode::Enabled);
    assert!(!options.expose_raw_capture_path);
    let options = capture_options(CaptureStartParams {
        profile: CaptureProfileParam::Combat,
        device: CaptureDeviceParam::Auto,
        include_incoming: false,
        server_damage_calibration: true,
        raw_capture: Some(RawCaptureParam::Enabled),
    });
    assert!(options.expose_raw_capture_path);
    assert!(matches!(timeline_scope(BattleTimelineScopeParam::Lower), TimelineScope::Second));
}

#[test]
fn failures_are_told_by_code_and_message() {
    let domain = |error: RpcError| match error {
        RpcError::Domain(error) => (error.code(), error.message()),
        other => panic!("a domain error was expected: {other:?}"),
    };
    assert_eq!(
        domain(core_error(CoreErrorCode::GameProcessNotFound)),
        (
            "GAME_PROCESS_NOT_FOUND",
            "The game process was not detected".to_owned()
        )
    );
    assert_eq!(
        domain(core_error(CoreErrorCode::CaptureDeviceNotFound)).0,
        "CAPTURE_DEVICE_NOT_FOUND"
    );
    assert_eq!(
        domain(battle_read_error(BattleReadError::AxisCursorExpired { first_available: 6 })),
        (
            "BATTLE_AXIS_CURSOR_EXPIRED",
            "The requested cursor was trimmed; first available cursor is 6".to_owned()
        )
    );
    assert_eq!(
        domain(battle_read_error(BattleReadError::AxisCursorInvalid { last_available: 7 })).1,
        "The requested cursor exceeds the last available hit 7"
    );
    assert_eq!(
        domain(battle_read_error(BattleReadError::TimelineTooLarge)).0,
        "BATTLE_TIMELINE_TOO_LARGE"
    );
    assert_eq!(
        detect_reply::<u8>(Err(CoreErrorCode::SystemProbeFailed)),
        Err(RpcError::Domain(DomainError::SystemProbeFailed))
    );
    assert_eq!(detect_reply(Ok(3)), Ok(3));
}

#[test]
fn the_reader_decides_when_a_session_ends() {
    let mut runtime: Runtime<Contents> = Runtime::new();
    assert!(matches!(
        runtime.handle_reader_event(ReaderEvent::Eof, None),
        ReaderStep::End
    ));
    for fatal in [false, true] {
        let event = ReaderEvent::Error {
            id: Some("4".to_owned()),
            error: RpcError::InvalidRequest,
            fatal,
        };
        match runtime.handle_reader_event(event, None) {
            ReaderStep::Report { effects, fatal: ends } => {
                assert_eq!(ends, fatal);
                let (id, error) = failure(&effects);
                assert_eq!(id, Some("4"));
                assert_eq!(error.protocol_number(), Some(-32600));
            }
            other => panic!("a report was expected: {other:?}"),
        }
    }
    let event = ReaderEvent::Request { id: "5".to_owned(), request: Request::Status };
    match runtime.handle_reader_event(event, None) {
        ReaderStep::Request(Step::Done(effects)) => {
            let (id, _) = failure(&effects);
            assert_eq!(id, Some("5"));
        }
        other => panic!("a failure was expected: {other:?}"),
    }
}
