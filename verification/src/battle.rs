//! Versioned, bounded read models of a battle: its record, its hit axis and
//! its timeline.
use std::collections::{HashMap, HashSet};

use vstd::prelude::*;

use crate::double::{answer, evaluate, lawful, Arith, Double};
use crate::model::{
    AbyssHalf, AbyssState, CaptureQualitySource, CharacterInfo, CombatState, DpsTimeBasis, Hit,
    HitCharacterSource, HitDirection, Language,
};
use crate::session::basis_of;
use crate::single::Single;
use crate::text::{decimal, decimal_text, held, shown, to_text};
use crate::timeline::{
    draws_timeline, project_timeline, reads_timelines, sizes_buckets, BucketWidth,
    TimelineBucketProjection, TimelineCharacterProjection, TimelineInterval,
    TimelineIntervalProjection, TimelineMarkerProjection, TimelineMarkerProjectionKind,
    TimelineProjection, TimelineProjectionOptions, TimelineReadings, TimelineRoleProjection,
    TimelineScope, TimelineSegmentProjection,
};

verus! {

broadcast use vstd::std_specs::hash::group_hash_axioms;

pub const BATTLE_READ_CONTRACT_VERSION: u32 = 1;

pub const BATTLE_TIMELINE_BUCKET_LIMIT: usize = 10_000;

pub const BATTLE_TIMELINE_ROLE_LIMIT: usize = 100_000;

#[derive(Clone, Copy, Debug, PartialEq, Eq, Structural)]
pub enum BattleReadError {
    RecordNotFound,
    AxisCursorExpired { first_available: u64 },
    AxisCursorInvalid { last_available: u64 },
    TimelineTooLarge,
}

/// Which battle a read model is of.
#[derive(Clone, Copy, Debug)]
pub struct BattleRecordContext<'a> {
    pub id: &'a str,
    pub capture_operation_id: Option<&'a str>,
    pub generation: u64,
    pub finalized: bool,
    pub finalized_at_unix_ms: Option<u64>,
    /// How many hits were dropped before the first retained one.
    pub axis_base_sequence: u64,
    pub source: CaptureQualitySource,
}

/// A number that fits, or the largest one that does.
pub open spec fn saturated(n: int) -> u64 {
    if n > u64::MAX {
        u64::MAX
    } else {
        n as u64
    }
}

/// Addition that stops at the largest number.
pub fn saturating_sum(left: u64, right: u64) -> (result: u64)
    ensures
        result == saturated(left + right),
{
    if left > u64::MAX - right {
        u64::MAX
    } else {
        left + right
    }
}

pub open spec fn scope_code(scope: TimelineScope) -> Seq<char> {
    match scope {
        TimelineScope::Whole => "all"@,
        TimelineScope::First => "upper"@,
        TimelineScope::Second => "lower"@,
    }
}

pub fn timeline_scope_code(scope: TimelineScope) -> (result: &'static str)
    ensures
        result@ == scope_code(scope),
{
    match scope {
        TimelineScope::Whole => "all",
        TimelineScope::First => "upper",
        TimelineScope::Second => "lower",
    }
}

pub open spec fn half_code(half: AbyssHalf) -> Seq<char> {
    match half {
        AbyssHalf::First => "upper"@,
        AbyssHalf::Second => "lower"@,
    }
}

pub fn abyss_half_code(half: AbyssHalf) -> (result: &'static str)
    ensures
        result@ == half_code(half),
{
    match half {
        AbyssHalf::First => "upper",
        AbyssHalf::Second => "lower",
    }
}

/// The code of a half, if there is one.
pub open spec fn optional_half_code(half: Option<AbyssHalf>) -> Option<Seq<char>> {
    match half {
        Some(half) => Some(half_code(half)),
        None => None,
    }
}

fn optional_abyss_half_code(half: Option<AbyssHalf>) -> (result: Option<&'static str>)
    ensures
        shown(result) == optional_half_code(half),
{
    match half {
        Some(half) => Some(abyss_half_code(half)),
        None => None,
    }
}

pub open spec fn source_code(source: CaptureQualitySource) -> Seq<char> {
    match source {
        CaptureQualitySource::Live => "live"@,
        CaptureQualitySource::PcapngReplay => "pcapng_replay"@,
        CaptureQualitySource::JsonReplay => "json_replay"@,
        CaptureQualitySource::Unknown => "unknown"@,
    }
}

pub fn capture_source_code(source: CaptureQualitySource) -> (result: &'static str)
    ensures
        result@ == source_code(source),
{
    match source {
        CaptureQualitySource::Live => "live",
        CaptureQualitySource::PcapngReplay => "pcapng_replay",
        CaptureQualitySource::JsonReplay => "json_replay",
        CaptureQualitySource::Unknown => "unknown",
    }
}

pub open spec fn attribution_code(source: HitCharacterSource) -> Seq<char> {
    match source {
        HitCharacterSource::Packet => "packet"@,
        HitCharacterSource::Session => "session"@,
        HitCharacterSource::GameplayEffect => "gameplay_effect"@,
        HitCharacterSource::ExportJson => "export_json"@,
        HitCharacterSource::Unknown => "unknown"@,
    }
}

pub fn character_source_code(source: HitCharacterSource) -> (result: &'static str)
    ensures
        result@ == attribution_code(source),
{
    match source {
        HitCharacterSource::Packet => "packet",
        HitCharacterSource::Session => "session",
        HitCharacterSource::GameplayEffect => "gameplay_effect",
        HitCharacterSource::ExportJson => "export_json",
        HitCharacterSource::Unknown => "unknown",
    }
}

pub open spec fn direction_code(direction: HitDirection) -> Seq<char> {
    match direction {
        HitDirection::Outgoing => "outgoing"@,
        HitDirection::Incoming => "incoming"@,
        HitDirection::Unknown => "unknown"@,
    }
}

pub fn hit_direction_code(direction: HitDirection) -> (result: &'static str)
    ensures
        result@ == direction_code(direction),
{
    match direction {
        HitDirection::Outgoing => "outgoing",
        HitDirection::Incoming => "incoming",
        HitDirection::Unknown => "unknown",
    }
}

#[derive(Clone, Copy, Debug, PartialEq, Eq, Structural)]
pub struct BattleTimeStopIntervalDto {
    pub start_offset_seconds: Double,
    pub end_offset_seconds: Double,
}

#[derive(Clone, Debug)]
pub struct BattleRecordAbyssDto {
    pub detected: bool,
    pub floor: Option<u32>,
    pub active_half: Option<&'static str>,
    pub first_half_at_unix: Option<Double>,
    pub second_half_at_unix: Option<Double>,
    pub success_at_unix: Option<Double>,
    pub exited_at_unix: Option<Double>,
}

/// The record of a battle. The summary `S` and the quality `Q` are the
/// engine's and pass through as they are.
#[derive(Clone, Debug)]
pub struct BattleRecordDto<S, Q> {
    pub contract_version: u32,
    pub battle_record_id: String,
    pub capture_operation_id: Option<String>,
    pub team_snapshot_id: Option<String>,
    pub generation: String,
    pub state: &'static str,
    pub source: &'static str,
    pub started_at_unix: Option<Double>,
    pub ended_at_unix: Option<Double>,
    pub finalized_at_unix_ms: Option<u64>,
    pub axis_complete: bool,
    pub axis_first_sequence: String,
    pub axis_total_hits: String,
    pub time_stop_intervals: Vec<BattleTimeStopIntervalDto>,
    pub abyss: BattleRecordAbyssDto,
    pub summary: Option<S>,
    pub quality: Q,
}

/// What the record says of the challenge.
pub open spec fn records_abyss(abyss: AbyssState, dto: BattleRecordAbyssDto) -> bool {
    &&& dto.detected == abyss.active
    &&& dto.floor == abyss.floor
    &&& shown(dto.active_half) == optional_half_code(abyss.active_half)
    &&& dto.first_half_at_unix == abyss.first_half_at
    &&& dto.second_half_at_unix == abyss.second_half_at
    &&& dto.success_at_unix == abyss.success_at
    &&& dto.exited_at_unix == abyss.exited_at
}

/// An interval as the record shows it.
pub open spec fn recorded_interval(interval: TimelineInterval) -> BattleTimeStopIntervalDto {
    BattleTimeStopIntervalDto {
        start_offset_seconds: interval.start_offset.displayed(),
        end_offset_seconds: interval.end_offset.displayed(),
    }
}

/// The first sequence number that is still retained.
pub open spec fn first_sequence(base: u64) -> u64 {
    saturated(base + 1)
}

/// The sequence number of the last hit, dropped ones counted.
pub open spec fn last_sequence(base: u64, retained: nat) -> u64 {
    saturated(base + retained)
}

/// What the record of a battle says, given what the engine makes of it.
pub open spec fn fills_record<S, Q>(
    state: CombatState,
    context: BattleRecordContext,
    intervals: Seq<TimelineInterval>,
    summary: Option<S>,
    quality: Q,
    record: BattleRecordDto<S, Q>,
) -> bool {
    &&& record.contract_version == BATTLE_READ_CONTRACT_VERSION
    &&& record.battle_record_id@ == context.id@
    &&& held(record.capture_operation_id) == shown(context.capture_operation_id)
    &&& record.team_snapshot_id is None
    &&& record.generation@ == decimal(context.generation as nat)
    &&& record.state@ == (if context.finalized {
        "finalized"@
    } else {
        "live"@
    })
    &&& record.source@ == source_code(context.source)
    &&& record.started_at_unix == state.battle.started_at
    &&& record.ended_at_unix == state.battle.ended_at
    &&& record.finalized_at_unix_ms == context.finalized_at_unix_ms
    &&& record.axis_complete == (context.axis_base_sequence == 0)
    &&& record.axis_first_sequence@ == decimal(first_sequence(context.axis_base_sequence) as nat)
    &&& record.axis_total_hits@ == decimal(
        last_sequence(context.axis_base_sequence, state.battle.team.hits@.len()) as nat,
    )
    &&& record.time_stop_intervals@ == intervals.map_values(
        |interval: TimelineInterval| recorded_interval(interval),
    )
    &&& records_abyss(state.battle.abyss, record.abyss)
    &&& record.summary == summary
    &&& record.quality == quality
}

/// Fills a record with what the engine makes of the battle.
pub fn fill_record<S, Q>(
    state: &CombatState,
    context: BattleRecordContext<'_>,
    time_stop_intervals: &Vec<TimelineInterval>,
    summary: Option<S>,
    quality: Q,
) -> (record: BattleRecordDto<S, Q>)
    ensures
        fills_record(*state, context, time_stop_intervals@, summary, quality, record),
{
    let mut intervals: Vec<BattleTimeStopIntervalDto> = Vec::new();
    let mut i: usize = 0;
    while i < time_stop_intervals.len()
        invariant
            i <= time_stop_intervals.len(),
            intervals@.len() == i,
            forall|k: int|
                0 <= k < i ==> #[trigger] intervals@[k] == recorded_interval(
                    time_stop_intervals@[k],
                ),
        decreases time_stop_intervals.len() - i,
    {
        intervals.push(
            BattleTimeStopIntervalDto {
                start_offset_seconds: time_stop_intervals[i].start_offset.finite_non_negative(),
                end_offset_seconds: time_stop_intervals[i].end_offset.finite_non_negative(),
            },
        );
        i = i + 1;
    }
    assert(intervals@ =~= time_stop_intervals@.map_values(
        |interval: TimelineInterval| recorded_interval(interval),
    ));
    let abyss = &state.battle.abyss;
    BattleRecordDto {
        contract_version: BATTLE_READ_CONTRACT_VERSION,
        battle_record_id: context.id.to_owned(),
        capture_operation_id: to_text(context.capture_operation_id),
        team_snapshot_id: None,
        generation: decimal_text(context.generation),
        state: if context.finalized {
            "finalized"
        } else {
            "live"
        },
        source: capture_source_code(context.source),
        started_at_unix: state.battle.started_at,
        ended_at_unix: state.battle.ended_at,
        finalized_at_unix_ms: context.finalized_at_unix_ms,
        axis_complete: context.axis_base_sequence == 0,
        axis_first_sequence: decimal_text(saturating_sum(context.axis_base_sequence, 1)),
        axis_total_hits: decimal_text(
            saturating_sum(context.axis_base_sequence, state.battle.team.hits.len() as u64),
        ),
        time_stop_intervals: intervals,
        abyss: BattleRecordAbyssDto {
            detected: abyss.is_active(),
            floor: abyss.floor,
            active_half: optional_abyss_half_code(abyss.active_half),
            first_half_at_unix: abyss.first_half_at,
            second_half_at_unix: abyss.second_half_at,
            success_at_unix: abyss.success_at,
            exited_at_unix: abyss.exited_at,
        },
        summary,
        quality,
    }
}

/// The engine grades the quality of every session, and finds the intervals of
/// stopped time between every two points in time.
pub open spec fn reads_records<
    Q,
    G: Fn(&CombatState, CaptureQualitySource) -> Q,
    I: Fn(&CombatState, Double, Double) -> Vec<TimelineInterval>,
>(grade: G, stops: I) -> bool {
    &&& forall|state: CombatState, source: CaptureQualitySource|
        #[trigger] call_requires(grade, (&state, source))
    &&& forall|state: CombatState, start: Double, end: Double|
        #[trigger] call_requires(stops, (&state, start, end))
}

/// Whether these are the intervals of stopped time of a battle: the engine's
/// between the first and the last hit; a battle without both has none.
pub open spec fn stopped_within<I: Fn(&CombatState, Double, Double) -> Vec<TimelineInterval>>(
    stops: I,
    state: CombatState,
    intervals: Vec<TimelineInterval>,
) -> bool {
    match (state.battle.started_at, state.battle.ended_at) {
        (Some(start), Some(end)) => call_ensures(stops, (&state, start, end), intervals),
        _ => intervals@ == Seq::<TimelineInterval>::empty(),
    }
}

/// Whether `record` is the record of a battle. Its summary never separates the
/// reaction damage.
pub open spec fn records_battle<
    S,
    Q,
    F: Fn(&CombatState, CaptureQualitySource, DpsTimeBasis, bool) -> Option<S>,
    G: Fn(&CombatState, CaptureQualitySource) -> Q,
    I: Fn(&CombatState, Double, Double) -> Vec<TimelineInterval>,
>(
    summarize: F,
    grade: G,
    stops: I,
    state: CombatState,
    context: BattleRecordContext,
    subtract_time_stop: bool,
    record: BattleRecordDto<S, Q>,
) -> bool {
    &&& call_ensures(
        summarize,
        (&state, context.source, basis_of(subtract_time_stop), false),
        record.summary,
    )
    &&& call_ensures(grade, (&state, context.source), record.quality)
    &&& exists|intervals: Vec<TimelineInterval>| #[trigger]
        stopped_within(stops, state, intervals) && fills_record(
            state,
            context,
            intervals@,
            record.summary,
            record.quality,
            record,
        )
}

/// The record of a battle. `summarize` asks the engine for the summary of a
/// session, `grade` for its quality, and `stops` for the intervals of stopped
/// time between two points in time.
pub fn battle_record<
    S,
    Q,
    F: Fn(&CombatState, CaptureQualitySource, DpsTimeBasis, bool) -> Option<S>,
    G: Fn(&CombatState, CaptureQualitySource) -> Q,
    I: Fn(&CombatState, Double, Double) -> Vec<TimelineInterval>,
>(
    state: &CombatState,
    context: BattleRecordContext<'_>,
    subtract_time_stop: bool,
    summarize: &F,
    grade: &G,
    stops: &I,
) -> (record: BattleRecordDto<S, Q>)
    requires
        call_requires(
            *summarize,
            (state, context.source, basis_of(subtract_time_stop), false),
        ),
        reads_records(*grade, *stops),
    ensures
        records_battle(*summarize, *grade, *stops, *state, context, subtract_time_stop, record),
{
    let basis = DpsTimeBasis::from_subtract_time_stop(subtract_time_stop);
    let summary = summarize(state, context.source, basis, false);
    let quality = grade(state, context.source);
    let intervals: Vec<TimelineInterval> = match (state.battle.started_at, state.battle.ended_at) {
        (Some(start), Some(end)) => stops(state, start, end),
        _ => Vec::new(),
    };
    assert(stopped_within(*stops, *state, intervals));
    fill_record(state, context, &intervals, summary, quality)
}

/// What identifies a hit across the session and its halves.
#[derive(Clone, Copy, Debug, PartialEq, Eq, Structural)]
pub struct AxisHitKey {
    pub timestamp: u64,
    pub character_id: u32,
    pub byte_offset: usize,
    pub bit_shift: u8,
    pub damage: u64,
    pub target_hp_after: u64,
}

pub open spec fn key_of(hit: Hit) -> AxisHitKey {
    AxisHitKey {
        timestamp: hit.timestamp.bits,
        character_id: hit.char_id,
        byte_offset: hit.byte_offset,
        bit_shift: hit.bit_shift,
        damage: hit.damage.bits,
        target_hp_after: hit.target_hp_after.bits,
    }
}

impl AxisHitKey {
    pub fn from_hit(hit: &Hit) -> (result: Self)
        ensures
            result == key_of(*hit),
    {
        AxisHitKey {
            timestamp: hit.timestamp.bits,
            character_id: hit.char_id,
            byte_offset: hit.byte_offset,
            bit_shift: hit.bit_shift,
            damage: hit.damage.bits,
            target_hp_after: hit.target_hp_after.bits,
        }
    }
}

/// How many hits of a list have a key.
pub open spec fn occurrences(hits: Seq<Hit>, key: AxisHitKey) -> nat
    decreases hits.len(),
{
    if hits.len() == 0 {
        0
    } else {
        occurrences(hits.drop_last(), key) + if key_of(hits.last()) == key {
            1nat
        } else {
            0
        }
    }
}

proof fn occurrences_are_bounded(hits: Seq<Hit>, key: AxisHitKey)
    ensures
        occurrences(hits, key) <= hits.len(),
    decreases hits.len(),
{
    if hits.len() > 0 {
        occurrences_are_bounded(hits.drop_last(), key);
    }
}

#[derive(Clone, Copy, Debug, PartialEq, Eq, Structural)]
pub struct AxisHitCount {
    pub key: AxisHitKey,
    pub count: usize,
}

/// The count of a key in a list of counts.
pub open spec fn counted_in(entries: Seq<AxisHitCount>, key: AxisHitKey) -> nat
    decreases entries.len(),
{
    if entries.len() == 0 {
        0
    } else {
        counted_in(entries.drop_last(), key) + if entries.last().key == key {
            entries.last().count as nat
        } else {
            0
        }
    }
}

/// What one entry adds to the count of a key.
pub open spec fn share_of(entry: AxisHitCount, key: AxisHitKey) -> nat {
    if entry.key == key {
        entry.count as nat
    } else {
        0
    }
}

proof fn updating_a_count(
    entries: Seq<AxisHitCount>,
    at: int,
    entry: AxisHitCount,
    key: AxisHitKey,
)
    requires
        0 <= at < entries.len(),
    ensures
        counted_in(entries.update(at, entry), key) == counted_in(entries, key) - share_of(
            entries[at],
            key,
        ) + share_of(entry, key),
        share_of(entries[at], key) <= counted_in(entries, key),
    decreases entries.len(),
{
    let updated = entries.update(at, entry);
    if at == entries.len() - 1 {
        assert(updated.drop_last() =~= entries.drop_last());
    } else {
        assert(updated.drop_last() =~= entries.drop_last().update(at, entry));
        updating_a_count(entries.drop_last(), at, entry, key);
    }
}

proof fn absent_keys_count_nothing(entries: Seq<AxisHitCount>, key: AxisHitKey)
    requires
        forall|k: int| 0 <= k < entries.len() ==> share_of(#[trigger] entries[k], key) == 0,
    ensures
        counted_in(entries, key) == 0,
    decreases entries.len(),
{
    if entries.len() > 0 {
        assert(share_of(entries[entries.len() - 1], key) == 0);
        absent_keys_count_nothing(entries.drop_last(), key);
    }
}

/// Counts of hits, grouped by timestamp.
pub struct HitCounts {
    pub by_time: HashMap<u64, Vec<AxisHitCount>>,
}

impl HitCounts {
    /// How many hits with a key are left.
    pub open spec fn count(self, key: AxisHitKey) -> nat {
        if self.by_time@.dom().contains(key.timestamp) {
            counted_in(self.by_time@[key.timestamp]@, key)
        } else {
            0
        }
    }

    fn empty() -> (result: Self)
        ensures
            forall|key: AxisHitKey| #[trigger] result.count(key) == 0,
    {
        HitCounts { by_time: HashMap::new() }
    }

    fn put(&mut self, key: AxisHitKey)
        requires
            old(self).count(key) < usize::MAX,
        ensures
            forall|any: AxisHitKey| #[trigger]
                final(self).count(any) == old(self).count(any) + if any == key {
                    1nat
                } else {
                    0
                },
    {
        let mut entries: Vec<AxisHitCount> = match self.by_time.remove(&key.timestamp) {
            Some(entries) => entries,
            None => Vec::new(),
        };
        let ghost before = entries@;
        assert(counted_in(before, key) == old(self).count(key));
        let mut at: usize = 0;
        while at < entries.len() && entries[at].key != key
            invariant
                at <= entries.len(),
                entries@ == before,
                forall|k: int| 0 <= k < at ==> (#[trigger] before[k]).key != key,
            decreases entries.len() - at,
        {
            at = at + 1;
        }
        if at < entries.len() {
            proof {
                updating_a_count(before, at as int, before[at as int], key);
            }
            let count: usize = entries[at].count + 1;
            entries.set(at, AxisHitCount { key, count });
            proof {
                assert forall|any: AxisHitKey| counted_in(entries@, any) == #[trigger] counted_in(
                    before,
                    any,
                ) + if any == key {
                    1nat
                } else {
                    0
                } by {
                    updating_a_count(before, at as int, AxisHitCount { key, count }, any);
                }
            }
        } else {
            entries.push(AxisHitCount { key, count: 1 });
            assert(entries@.drop_last() =~= before);
        }
        let ghost after = entries@;
        self.by_time.insert(key.timestamp, entries);
        proof {
            assert forall|any: AxisHitKey| #[trigger] self.count(any) == old(self).count(any)
                + if any == key {
                1nat
            } else {
                0
            } by {
                if any.timestamp == key.timestamp {
                    assert(self.by_time@[key.timestamp]@ == after);
                    assert(counted_in(before, any) == old(self).count(any));
                    if at >= before.len() {
                        assert(after.last() == (AxisHitCount { key, count: 1 }));
                    }
                }
            }
        }
    }

    /// Takes one hit with a key away, if one is left.
    fn take_count(&mut self, key: AxisHitKey) -> (taken: bool)
        ensures
            taken == (old(self).count(key) > 0),
            forall|any: AxisHitKey| #[trigger]
                final(self).count(any) == old(self).count(any) - if taken && any == key {
                    1nat
                } else {
                    0
                },
    {
        match self.by_time.remove(&key.timestamp) {
            None => {
                assert(old(self).count(key) == 0);
                assert(forall|any: AxisHitKey| #[trigger]
                    self.count(any) == old(self).count(any));
                false
            },
            Some(taken_out) => {
                let mut entries: Vec<AxisHitCount> = taken_out;
                let ghost before = entries@;
                let mut at: usize = 0;
                while at < entries.len() && (entries[at].key != key || entries[at].count == 0)
                    invariant
                        at <= entries.len(),
                        entries@ == before,
                        forall|k: int| 0 <= k < at ==> share_of(#[trigger] before[k], key) == 0,
                    decreases entries.len() - at,
                {
                    at = at + 1;
                }
                let taken = at < entries.len();
                if taken {
                    let count: usize = entries[at].count - 1;
                    entries.set(at, AxisHitCount { key, count });
                    proof {
                        updating_a_count(before, at as int, AxisHitCount { key, count }, key);
                        assert forall|any: AxisHitKey| counted_in(entries@, any) == (
                        #[trigger] counted_in(before, any)) - if any == key {
                            1nat
                        } else {
                            0
                        } by {
                            updating_a_count(before, at as int, AxisHitCount { key, count }, any);
                        }
                    }
                } else {
                    proof {
                        absent_keys_count_nothing(before, key);
                    }
                }
                let ghost after = entries@;
                self.by_time.insert(key.timestamp, entries);
                proof {
                    assert forall|any: AxisHitKey| #[trigger] self.count(any) == old(self).count(
                        any,
                    ) - if taken && any == key {
                        1nat
                    } else {
                        0
                    } by {
                        if any.timestamp == key.timestamp {
                            assert(self.by_time@[key.timestamp]@ == after);
                            assert(counted_in(before, any) == old(self).count(any));
                        }
                    }
                }
                taken
            },
        }
    }
}

/// Counts the hits of a half.
pub fn half_hit_counts(hits: &Vec<Hit>) -> (counts: HitCounts)
    ensures
        forall|key: AxisHitKey| #[trigger] counts.count(key) == occurrences(hits@, key),
{
    let mut counts = HitCounts::empty();
    let mut i: usize = 0;
    while i < hits.len()
        invariant
            i <= hits.len(),
            forall|key: AxisHitKey| #[trigger]
                counts.count(key) == occurrences(hits@.take(i as int), key),
        decreases hits.len() - i,
    {
        let key = AxisHitKey::from_hit(&hits[i]);
        proof {
            occurrences_are_bounded(hits@.take(i as int), key);
            assert(hits@.take(i + 1).drop_last() =~= hits@.take(i as int));
        }
        counts.put(key);
        i = i + 1;
    }
    assert(hits@.take(i as int) =~= hits@);
    counts
}

/// Which half a hit is taken from, when `first` and `second` hits with its
/// key are left in the halves.
pub open spec fn half_taken(first: nat, second: nat) -> Option<AbyssHalf> {
    if first > 0 {
        Some(AbyssHalf::First)
    } else if second > 0 {
        Some(AbyssHalf::Second)
    } else {
        None
    }
}

/// Takes a hit out of the half that still holds it, the first one before the
/// second.
pub fn take_hit_half(hit: &Hit, first: &mut HitCounts, second: &mut HitCounts) -> (half: Option<
    AbyssHalf,
>)
    ensures
        half == half_taken(old(first).count(key_of(*hit)), old(second).count(key_of(*hit))),
        forall|any: AxisHitKey| #[trigger]
            final(first).count(any) == old(first).count(any) - if half == Some(AbyssHalf::First)
                && any == key_of(*hit) {
                1nat
            } else {
                0
            },
        forall|any: AxisHitKey| #[trigger]
            final(second).count(any) == old(second).count(any) - if half == Some(
                AbyssHalf::Second,
            ) && any == key_of(*hit) {
                1nat
            } else {
                0
            },
{
    let key = AxisHitKey::from_hit(hit);
    if first.take_count(key) {
        Some(AbyssHalf::First)
    } else if second.take_count(key) {
        Some(AbyssHalf::Second)
    } else {
        None
    }
}

/// The half that the retained hit at `index` belongs to: hits with equal keys
/// go to the first half as long as it holds some, then to the second.
pub open spec fn half_of_hit(
    hits: Seq<Hit>,
    first: Seq<Hit>,
    second: Seq<Hit>,
    index: int,
) -> Option<AbyssHalf> {
    let key = key_of(hits[index]);
    let earlier = occurrences(hits.take(index), key);
    if earlier < occurrences(first, key) {
        Some(AbyssHalf::First)
    } else if earlier < occurrences(first, key) + occurrences(second, key) {
        Some(AbyssHalf::Second)
    } else {
        None
    }
}

/// How many of `held` hits are left after `taken` were taken.
pub open spec fn left_of(held: nat, taken: nat) -> nat {
    if taken < held {
        (held - taken) as nat
    } else {
        0
    }
}

#[derive(Clone, Debug)]
pub struct BattleAxisHitDto {
    pub battle_record_id: String,
    pub sequence: String,
    pub timestamp_unix: Double,
    pub relative_time_seconds: Double,
    pub abyss_half: Option<&'static str>,
    pub character_id: u32,
    pub character_name: String,
    pub character_known: bool,
    pub character_source: &'static str,
    pub attribution_status: &'static str,
    pub attribution_source: &'static str,
    pub attribution_unknown_reason: Option<&'static str>,
    pub team_snapshot_id: Option<String>,
    pub direction: &'static str,
    pub damage: Double,
    pub follow_up_damage: Double,
    pub total_damage: Double,
    pub follow_up_timestamp_unix: Option<Double>,
    pub target_id: Option<String>,
    pub target_name: Option<String>,
    pub target_name_en: Option<String>,
    pub target_name_ja: Option<String>,
    pub target_monster_id: Option<String>,
    pub target_context: Vec<String>,
    pub target_hp_before: Double,
    pub target_hp_after: Double,
    pub target_max_hp: Double,
    pub target_hp_percent: Double,
    pub gameplay_effect_index: Option<u32>,
    pub gameplay_effect_name: Option<String>,
    pub ability_name: Option<String>,
    pub damage_name: Option<String>,
    pub damage_component: Option<String>,
    pub attack_type: Option<String>,
    pub damage_attribute: Option<String>,
    pub follow_up_damage_name: Option<String>,
    pub follow_up_attack_type: Option<String>,
    pub follow_up_damage_attribute: Option<String>,
}

/// What an axis row says of a hit.
pub open spec fn axis_row<F: Fn(Arith) -> Double>(
    ops: F,
    hit: Hit,
    battle_record_id: Seq<char>,
    sequence: u64,
    started_at: Double,
    half: Option<AbyssHalf>,
    row: BattleAxisHitDto,
) -> bool {
    &&& row.battle_record_id@ == battle_record_id
    &&& row.sequence@ == decimal(sequence as nat)
    &&& row.timestamp_unix == hit.timestamp
    &&& row.relative_time_seconds == answer(
        ops,
        Arith::Difference(hit.timestamp, started_at),
    ).displayed()
    &&& shown(row.abyss_half) == optional_half_code(half)
    &&& row.character_id == hit.char_id
    &&& row.character_name == hit.char_name
    &&& row.character_known == hit.char_known
    &&& row.character_source@ == attribution_code(hit.char_source)
    &&& row.attribution_status@ == (if hit.char_known {
        "attributed"@
    } else {
        "unknown"@
    })
    &&& row.attribution_source@ == attribution_code(hit.char_source)
    &&& shown(row.attribution_unknown_reason) == (if hit.char_known {
        None
    } else {
        Some("character_unknown"@)
    })
    &&& row.team_snapshot_id is None
    &&& row.direction@ == direction_code(hit.direction)
    &&& row.damage == hit.damage
    &&& row.follow_up_damage == hit.follow_up_damage
    &&& row.total_damage == hit.class.total_damage
    &&& row.follow_up_timestamp_unix == hit.follow_up_timestamp
    &&& row.target_id == hit.target_id
    &&& row.target_name == hit.target_name
    &&& row.target_name_en == hit.target_name_en
    &&& row.target_name_ja == hit.target_name_ja
    &&& row.target_monster_id == hit.target_monster_id
    &&& row.target_context@ == hit.target_context@
    &&& row.target_hp_before == hit.target_hp_before
    &&& row.target_hp_after == hit.target_hp_after
    &&& row.target_max_hp == hit.target_max_hp
    &&& row.target_hp_percent == hit.target_hp_percent
    &&& row.gameplay_effect_index == hit.gameplay_effect_index
    &&& row.gameplay_effect_name == hit.gameplay_effect_name
    &&& row.ability_name == hit.ability_name
    &&& row.damage_name == hit.damage_name
    &&& row.damage_component == hit.damage_component
    &&& row.attack_type == hit.attack_type
    &&& row.damage_attribute == hit.damage_attribute
    &&& row.follow_up_damage_name == hit.follow_up_damage_name
    &&& row.follow_up_attack_type == hit.follow_up_attack_type
    &&& row.follow_up_damage_attribute == hit.follow_up_damage_attribute
}

fn axis_hit<F: Fn(Arith) -> Double>(
    hit: &Hit,
    battle_record_id: &str,
    sequence: u64,
    started_at: Double,
    half: Option<AbyssHalf>,
    ops: &F,
) -> (row: BattleAxisHitDto)
    requires
        lawful(*ops),
    ensures
        axis_row(*ops, *hit, battle_record_id@, sequence, started_at, half, row),
{
    let attribution_source = character_source_code(hit.char_source);
    let target_context = hit.target_context.clone();
    assert(target_context@ =~= hit.target_context@);
    BattleAxisHitDto {
        battle_record_id: battle_record_id.to_owned(),
        sequence: decimal_text(sequence),
        timestamp_unix: hit.timestamp,
        relative_time_seconds: evaluate(
            ops,
            Arith::Difference(hit.timestamp, started_at),
        ).finite_non_negative(),
        abyss_half: optional_abyss_half_code(half),
        character_id: hit.char_id,
        character_name: hit.char_name.clone(),
        character_known: hit.char_known,
        character_source: attribution_source,
        attribution_status: if hit.char_known {
            "attributed"
        } else {
            "unknown"
        },
        attribution_source,
        attribution_unknown_reason: if hit.char_known {
            None
        } else {
            Some("character_unknown")
        },
        team_snapshot_id: None,
        direction: hit_direction_code(hit.direction),
        damage: hit.damage,
        follow_up_damage: hit.follow_up_damage,
        total_damage: hit.class.total_damage,
        follow_up_timestamp_unix: hit.follow_up_timestamp,
        target_id: hit.target_id.clone(),
        target_name: hit.target_name.clone(),
        target_name_en: hit.target_name_en.clone(),
        target_name_ja: hit.target_name_ja.clone(),
        target_monster_id: hit.target_monster_id.clone(),
        target_context,
        target_hp_before: hit.target_hp_before,
        target_hp_after: hit.target_hp_after,
        target_max_hp: hit.target_max_hp,
        target_hp_percent: hit.target_hp_percent,
        gameplay_effect_index: hit.gameplay_effect_index,
        gameplay_effect_name: hit.gameplay_effect_name.clone(),
        ability_name: hit.ability_name.clone(),
        damage_name: hit.damage_name.clone(),
        damage_component: hit.damage_component.clone(),
        attack_type: hit.attack_type.clone(),
        damage_attribute: hit.damage_attribute.clone(),
        follow_up_damage_name: hit.follow_up_damage_name.clone(),
        follow_up_attack_type: hit.follow_up_attack_type.clone(),
        follow_up_damage_attribute: hit.follow_up_damage_attribute.clone(),
    }
}

#[derive(Clone, Debug)]
pub struct BattleAxisDto {
    pub contract_version: u32,
    pub battle_record_id: String,
    pub generation: String,
    pub finalized: bool,
    pub complete: bool,
    pub first_available_cursor: String,
    pub cursor: String,
    pub next_cursor: Option<String>,
    pub total_hits: String,
    pub retained_hits: usize,
    pub rows: Vec<BattleAxisHitDto>,
}

/// The sequence number of the retained hit at `index`.
pub open spec fn sequence_of(base: u64, index: int) -> u64 {
    saturated(base + index + 1)
}

/// The sequence number that a page reaches at most.
pub open spec fn last_requested(base: u64, retained: nat, cursor: u64, limit: usize) -> u64 {
    let reach = saturated(cursor + if limit == 0 {
        0
    } else {
        limit - 1
    });
    if reach < last_sequence(base, retained) {
        reach
    } else {
        last_sequence(base, retained)
    }
}

/// The retained hits on a page, as a range of indices: those whose sequence
/// number lies between the cursor and the last one requested.
pub open spec fn axis_page(base: u64, retained: nat, cursor: u64, limit: usize) -> (int, int) {
    let last = last_requested(base, retained, cursor, limit);
    let start = if cursor - 1 - base < 0 {
        0
    } else if cursor - 1 - base > retained {
        retained as int
    } else {
        cursor - 1 - base
    };
    let end = if last == u64::MAX || last - base > retained {
        retained as int
    } else {
        last - base
    };
    (
        start,
        if end < start {
            start
        } else {
            end
        },
    )
}

/// Where the page after a page begins, if there is one.
pub open spec fn next_page(base: u64, retained: nat, cursor: u64, limit: usize) -> Option<u64> {
    let page = axis_page(base, retained, cursor, limit);
    if page.0 == page.1 {
        None
    } else {
        let last = sequence_of(base, page.1 - 1);
        if last < last_sequence(base, retained) {
            Some(saturated(last + 1))
        } else {
            None
        }
    }
}

/// What a page of the axis says.
pub open spec fn axis_of<F: Fn(Arith) -> Double>(
    ops: F,
    state: CombatState,
    context: BattleRecordContext,
    cursor: u64,
    limit: usize,
    axis: BattleAxisDto,
) -> bool {
    let hits = state.battle.team.hits@;
    let base = context.axis_base_sequence;
    let page = axis_page(base, hits.len(), cursor, limit);
    let started_at = match state.battle.started_at {
        Some(at) => at,
        None => Double { bits: 0 },
    };
    &&& axis.contract_version == BATTLE_READ_CONTRACT_VERSION
    &&& axis.battle_record_id@ == context.id@
    &&& axis.generation@ == decimal(context.generation as nat)
    &&& axis.finalized == context.finalized
    &&& axis.complete == (base == 0)
    &&& axis.first_available_cursor@ == decimal(first_sequence(base) as nat)
    &&& axis.cursor@ == decimal(cursor as nat)
    &&& held(axis.next_cursor) == (match next_page(base, hits.len(), cursor, limit) {
        Some(next) => Some(decimal(next as nat)),
        None => None,
    })
    &&& axis.total_hits@ == decimal(last_sequence(base, hits.len()) as nat)
    &&& axis.retained_hits == hits.len()
    &&& axis.rows@.len() == page.1 - page.0
    &&& forall|k: int|
        0 <= k < axis.rows@.len() ==> axis_row(
            ops,
            hits[page.0 + k],
            context.id@,
            sequence_of(base, page.0 + k),
            started_at,
            half_of_hit(
                hits,
                state.battle.abyss.first_half.hits@,
                state.battle.abyss.second_half.hits@,
                page.0 + k,
            ),
            #[trigger] axis.rows@[k],
        )
}

fn minimum(left: u64, right: u64) -> (result: u64)
    ensures
        result == if left < right {
            left
        } else {
            right
        },
{
    if left < right {
        left
    } else {
        right
    }
}

fn axis_rows<F: Fn(Arith) -> Double>(
    state: &CombatState,
    context: &BattleRecordContext<'_>,
    cursor: u64,
    last: u64,
    limit: usize,
    ops: &F,
) -> (rows: Vec<BattleAxisHitDto>)
    requires
        lawful(*ops),
        last == last_requested(
            context.axis_base_sequence,
            state.battle.team.hits@.len(),
            cursor,
            limit,
        ),
        cursor >= first_sequence(context.axis_base_sequence),
    ensures
        ({
            let hits = state.battle.team.hits@;
            let base = context.axis_base_sequence;
            let page = axis_page(base, hits.len(), cursor, limit);
            let started_at = match state.battle.started_at {
                Some(at) => at,
                None => Double { bits: 0 },
            };
            &&& rows@.len() == page.1 - page.0
            &&& forall|k: int|
                0 <= k < rows@.len() ==> axis_row(
                    *ops,
                    hits[page.0 + k],
                    context.id@,
                    sequence_of(base, page.0 + k),
                    started_at,
                    half_of_hit(
                        hits,
                        state.battle.abyss.first_half.hits@,
                        state.battle.abyss.second_half.hits@,
                        page.0 + k,
                    ),
                    #[trigger] rows@[k],
                )
        }),
{
    let hits = &state.battle.team.hits;
    let base: u64 = context.axis_base_sequence;
    let ghost all = hits@;
    let ghost upper = state.battle.abyss.first_half.hits@;
    let ghost lower = state.battle.abyss.second_half.hits@;
    let ghost page = axis_page(base, all.len(), cursor, limit);
    let mut first = half_hit_counts(&state.battle.abyss.first_half.hits);
    let mut second = half_hit_counts(&state.battle.abyss.second_half.hits);
    let started_at = match state.battle.started_at {
        Some(at) => at,
        None => Double::zero(),
    };
    let mut rows: Vec<BattleAxisHitDto> = Vec::new();
    let mut index: usize = 0;
    let mut done = false;
    while index < hits.len() && !done
        invariant
            lawful(*ops),
            hits@ == all,
            base == context.axis_base_sequence,
            page == axis_page(base, all.len(), cursor, limit),
            last == last_requested(base, all.len(), cursor, limit),
            cursor >= first_sequence(base),
            index <= all.len(),
            done ==> index >= page.1,
            rows@.len() == (if index <= page.0 {
                0
            } else if index >= page.1 {
                page.1 - page.0
            } else {
                index - page.0
            }),
            !done ==> forall|key: AxisHitKey| #[trigger]
                first.count(key) == left_of(
                    occurrences(upper, key),
                    occurrences(all.take(index as int), key),
                ),
            !done ==> forall|key: AxisHitKey| #[trigger]
                second.count(key) == left_of(
                    occurrences(lower, key),
                    left_of(occurrences(all.take(index as int), key), occurrences(upper, key)),
                ),
            forall|k: int|
                0 <= k < rows@.len() ==> axis_row(
                    *ops,
                    all[page.0 + k],
                    context.id@,
                    sequence_of(base, page.0 + k),
                    started_at,
                    half_of_hit(all, upper, lower, page.0 + k),
                    #[trigger] rows@[k],
                ),
        decreases all.len() - index, if done { 0int } else { 1int },
    {
        let sequence: u64 = saturating_sum(saturating_sum(base, index as u64), 1);
        assert(sequence == sequence_of(base, index as int));
        let half = take_hit_half(&hits[index], &mut first, &mut second);
        assert(half == half_of_hit(all, upper, lower, index as int));
        if sequence > last {
            assert(index >= page.1);
            done = true;
        } else {
            if sequence >= cursor {
                assert(page.0 <= index < page.1);
                rows.push(axis_hit(&hits[index], context.id, sequence, started_at, half, ops));
            } else {
                assert(index < page.0);
            }
            assert(all.take(index + 1).drop_last() =~= all.take(index as int));
            index = index + 1;
        }
    }
    rows
}

/// What a request for a page of the axis is answered: without a cursor the
/// page begins at the first retained hit.
pub open spec fn answers_axis<F: Fn(Arith) -> Double>(
    ops: F,
    state: CombatState,
    context: BattleRecordContext,
    cursor: Option<u64>,
    limit: usize,
    result: Result<BattleAxisDto, BattleReadError>,
) -> bool {
    let base = context.axis_base_sequence;
    let retained = state.battle.team.hits@.len();
    let wanted = match cursor {
        Some(cursor) => cursor,
        None => first_sequence(base),
    };
    if wanted < first_sequence(base) {
        result == Err::<BattleAxisDto, _>(
            BattleReadError::AxisCursorExpired { first_available: first_sequence(base) },
        )
    } else if wanted > saturated(last_sequence(base, retained) + 1) {
        result == Err::<BattleAxisDto, _>(
            BattleReadError::AxisCursorInvalid { last_available: last_sequence(base, retained) },
        )
    } else {
        result matches Ok(axis) && axis_of(ops, state, context, wanted, limit, axis)
    }
}

/// Where the page after a page of `rows` rows begins.
fn following_cursor(base: u64, retained: usize, cursor: u64, limit: usize, rows: usize) -> (next:
    Option<String>)
    requires
        cursor >= first_sequence(base),
        ({
            let page = axis_page(base, retained as nat, cursor, limit);
            rows == page.1 - page.0
        }),
    ensures
        held(next) == (match next_page(base, retained as nat, cursor, limit) {
            Some(next) => Some(decimal(next as nat)),
            None => None,
        }),
{
    if rows == 0 {
        return None;
    }
    // The last row carries the sequence number that the page reached.
    let total_hits: u64 = saturating_sum(base, retained as u64);
    let reached: u64 = minimum(saturating_sum(cursor - 1, rows as u64), total_hits);
    assert(reached == sequence_of(base, axis_page(base, retained as nat, cursor, limit).1 - 1));
    if reached < total_hits {
        Some(decimal_text(saturating_sum(reached, 1)))
    } else {
        None
    }
}

/// One page of the hit axis. A cursor before the first retained hit has
/// expired, and one past the end is invalid.
pub fn battle_axis<F: Fn(Arith) -> Double>(
    state: &CombatState,
    context: BattleRecordContext<'_>,
    cursor: Option<u64>,
    limit: usize,
    ops: &F,
) -> (result: Result<BattleAxisDto, BattleReadError>)
    requires
        lawful(*ops),
    ensures
        answers_axis(*ops, *state, context, cursor, limit, result),
{
    let base: u64 = context.axis_base_sequence;
    let first_available: u64 = saturating_sum(base, 1);
    let total_hits: u64 = saturating_sum(base, state.battle.team.hits.len() as u64);
    let cursor: u64 = match cursor {
        Some(cursor) => cursor,
        None => first_available,
    };
    if cursor < first_available {
        return Err(BattleReadError::AxisCursorExpired { first_available });
    }
    if cursor > saturating_sum(total_hits, 1) {
        return Err(BattleReadError::AxisCursorInvalid { last_available: total_hits });
    }
    let reach: u64 = if limit == 0 {
        0
    } else {
        (limit - 1) as u64
    };
    let last: u64 = minimum(saturating_sum(cursor, reach), total_hits);
    let rows = axis_rows(state, &context, cursor, last, limit, ops);
    let next_cursor = following_cursor(
        base,
        state.battle.team.hits.len(),
        cursor,
        limit,
        rows.len(),
    );
    let axis = BattleAxisDto {
        contract_version: BATTLE_READ_CONTRACT_VERSION,
        battle_record_id: context.id.to_owned(),
        generation: decimal_text(context.generation),
        finalized: context.finalized,
        complete: base == 0,
        first_available_cursor: decimal_text(first_available),
        cursor: decimal_text(cursor),
        next_cursor,
        total_hits: decimal_text(total_hits),
        retained_hits: state.battle.team.hits.len(),
        rows,
    };
    assert(axis_of(*ops, *state, context, cursor, limit, axis));
    Ok(axis)
}

/// Pages follow on: the first page begins at the first retained hit, the page
/// after a page begins where that one ended, and where there is no next page
/// the axis was read to its end. Every page that can have a row has one.
pub proof fn pages_cover_the_axis(base: u64, retained: nat, cursor: u64, limit: usize)
    requires
        base < u64::MAX,
        base + retained <= u64::MAX,
        first_sequence(base) <= cursor <= last_sequence(base, retained) + 1,
    ensures
        axis_page(base, retained, first_sequence(base), limit).0 == 0,
        ({
            let page = axis_page(base, retained, cursor, limit);
            &&& page.0 == cursor - 1 - base
            &&& page.1 <= retained
            &&& page.1 - page.0 <= (if limit == 0 {
                1
            } else {
                limit as int
            })
            &&& cursor <= last_sequence(base, retained) ==> page.0 < page.1
            &&& next_page(base, retained, cursor, limit) matches Some(next) ==> axis_page(
                base,
                retained,
                next,
                limit,
            ).0 == page.1 && first_sequence(base) <= next <= last_sequence(base, retained)
            &&& next_page(base, retained, cursor, limit) is None ==> page.1 == retained
        }),
{
}

/// Whether a hit counts toward a timeline.
pub open spec fn on_timeline(hit: Hit) -> bool {
    hit.direction != HitDirection::Incoming && hit.timestamp.finite()
}

fn is_on_timeline(hit: &Hit) -> (result: bool)
    ensures
        result == on_timeline(*hit),
{
    !hit.direction.is_incoming() && hit.timestamp.is_finite()
}

/// The hits of a scope.
pub open spec fn hits_in(state: CombatState, scope: TimelineScope) -> Seq<Hit> {
    match scope {
        TimelineScope::Whole => state.battle.team.hits@,
        TimelineScope::First => state.battle.abyss.first_half.hits@,
        TimelineScope::Second => state.battle.abyss.second_half.hits@,
    }
}

fn scope_hits(state: &CombatState, scope: TimelineScope) -> (hits: &Vec<Hit>)
    ensures
        hits@ == hits_in(*state, scope),
{
    match scope {
        TimelineScope::Whole => &state.battle.team.hits,
        TimelineScope::First => &state.battle.abyss.first_half.hits,
        TimelineScope::Second => &state.battle.abyss.second_half.hits,
    }
}

/// The earliest and the latest timestamp that count, if any does.
pub open spec fn span_of(hits: Seq<Hit>) -> Option<(Double, Double)>
    decreases hits.len(),
{
    if hits.len() == 0 {
        None
    } else {
        let earlier = span_of(hits.drop_last());
        let timestamp = hits.last().timestamp;
        if !on_timeline(hits.last()) {
            earlier
        } else {
            match earlier {
                Some((start, end)) => Some((start.smaller(timestamp), end.larger(timestamp))),
                None => Some((timestamp, timestamp)),
            }
        }
    }
}

/// A span encloses every timestamp that counts, and both its ends are such
/// timestamps.
pub proof fn spans_enclose_their_hits(hits: Seq<Hit>)
    ensures
        match span_of(hits) {
            Some((start, end)) => {
                &&& start.finite() && end.finite()
                &&& forall|i: int|
                    0 <= i < hits.len() && on_timeline(#[trigger] hits[i]) ==> start.rank()
                        <= hits[i].timestamp.rank() <= end.rank()
                &&& exists|i: int|
                    0 <= i < hits.len() && on_timeline(#[trigger] hits[i]) && hits[i].timestamp
                        == start
                &&& exists|i: int|
                    0 <= i < hits.len() && on_timeline(#[trigger] hits[i]) && hits[i].timestamp
                        == end
            },
            None => forall|i: int| 0 <= i < hits.len() ==> !on_timeline(#[trigger] hits[i]),
        },
    decreases hits.len(),
{
    if hits.len() > 0 {
        let shorter = hits.drop_last();
        let last = hits.len() - 1;
        spans_enclose_their_hits(shorter);
        assert forall|i: int| 0 <= i < last implies #[trigger] hits[i] == shorter[i] by {}
        assert(hits[last] == hits.last());
        if let Some((start, end)) = span_of(shorter) {
            let a = choose|i: int|
                0 <= i < shorter.len() && on_timeline(#[trigger] shorter[i])
                    && shorter[i].timestamp == start;
            let b = choose|i: int|
                0 <= i < shorter.len() && on_timeline(#[trigger] shorter[i])
                    && shorter[i].timestamp == end;
            assert(on_timeline(hits[a]) && hits[a].timestamp == start);
            assert(on_timeline(hits[b]) && hits[b].timestamp == end);
        }
    }
}

fn hit_span(hits: &Vec<Hit>) -> (span: Option<(Double, Double)>)
    ensures
        span == span_of(hits@),
{
    let mut span: Option<(Double, Double)> = None;
    let mut i: usize = 0;
    while i < hits.len()
        invariant
            i <= hits.len(),
            span == span_of(hits@.take(i as int)),
        decreases hits.len() - i,
    {
        assert(hits@.take(i + 1).drop_last() =~= hits@.take(i as int));
        if is_on_timeline(&hits[i]) {
            let timestamp = hits[i].timestamp;
            span =
            match span {
                Some((start, end)) => Some((start.min(timestamp), end.max(timestamp))),
                None => Some((timestamp, timestamp)),
            };
        }
        i = i + 1;
    }
    assert(hits@.take(i as int) =~= hits@);
    span
}

/// The characters whose hits count.
pub open spec fn characters_on_timeline(hits: Seq<Hit>) -> Set<u32>
    decreases hits.len(),
{
    if hits.len() == 0 {
        Set::empty()
    } else if on_timeline(hits.last()) {
        characters_on_timeline(hits.drop_last()).insert(hits.last().char_id)
    } else {
        characters_on_timeline(hits.drop_last())
    }
}

/// How many characters' hits count in a scope.
pub fn timeline_character_count(state: &CombatState, scope: TimelineScope) -> (count: usize)
    ensures
        count == characters_on_timeline(hits_in(*state, scope)).len(),
{
    let hits = scope_hits(state, scope);
    let mut seen: HashSet<u32> = HashSet::new();
    let mut i: usize = 0;
    while i < hits.len()
        invariant
            i <= hits.len(),
            seen@ == characters_on_timeline(hits@.take(i as int)),
        decreases hits.len() - i,
    {
        assert(hits@.take(i + 1).drop_last() =~= hits@.take(i as int));
        if is_on_timeline(&hits[i]) {
            seen.insert(hits[i].char_id);
        }
        i = i + 1;
    }
    assert(hits@.take(i as int) =~= hits@);
    seen.len()
}

/// How many buckets a span takes: the whole number of bucket widths in it,
/// and one more.
pub open spec fn bucket_count<F: Fn(Arith) -> Double, W: Fn(Double) -> usize>(
    ops: F,
    whole: W,
    span: (Double, Double),
    bucket_seconds: Double,
) -> int {
    let length = answer(ops, Arith::Difference(span.1, span.0)).larger(Double { bits: 0 });
    whole_part(whole, answer(ops, Arith::Quotient(length, bucket_seconds))) + 1
}

/// The whole part of a reading, as `whole` gives it.
pub open spec fn whole_part<W: Fn(Double) -> usize>(whole: W, value: Double) -> usize {
    choose|part: usize| call_ensures(whole, (value,), part)
}

/// `whole` answers for every reading, and for equal readings equally.
pub open spec fn takes_whole_parts<W: Fn(Double) -> usize>(whole: W) -> bool {
    &&& forall|value: Double| #[trigger] call_requires(whole, (value,))
    &&& forall|value: Double, left: usize, right: usize|
        #[trigger] call_ensures(whole, (value,), left) && #[trigger] call_ensures(
            whole,
            (value,),
            right,
        ) ==> left == right
}

/// Whether a timeline stays within the response budget, as far as the hits
/// tell: not too many buckets, and not too many bars at one per bucket and
/// character.
pub open spec fn timeline_fits<F: Fn(Arith) -> Double, W: Fn(Double) -> usize>(
    ops: F,
    whole: W,
    hits: Seq<Hit>,
    bucket_seconds: Double,
) -> bool {
    match span_of(hits) {
        None => true,
        Some(span) => {
            let buckets = bucket_count(ops, whole, span, bucket_seconds);
            &&& buckets <= BATTLE_TIMELINE_BUCKET_LIMIT
            &&& buckets * characters_on_timeline(hits).len() <= BATTLE_TIMELINE_ROLE_LIMIT
        },
    }
}

fn is_within_budget<F: Fn(Arith) -> Double, W: Fn(Double) -> usize>(
    state: &CombatState,
    scope: TimelineScope,
    span: Option<(Double, Double)>,
    bucket_seconds: Double,
    ops: &F,
    whole: &W,
) -> (result: bool)
    requires
        lawful(*ops),
        takes_whole_parts(*whole),
        span == span_of(hits_in(*state, scope)),
    ensures
        result == timeline_fits(*ops, *whole, hits_in(*state, scope), bucket_seconds),
{
    match span {
        None => true,
        Some((start, end)) => {
            let length = evaluate(ops, Arith::Difference(end, start)).max(Double::zero());
            let widths: usize = whole(evaluate(ops, Arith::Quotient(length, bucket_seconds)));
            if widths >= BATTLE_TIMELINE_BUCKET_LIMIT {
                return false;
            }
            let buckets: usize = widths + 1;
            let characters: usize = timeline_character_count(state, scope);
            if characters > BATTLE_TIMELINE_ROLE_LIMIT {
                assert(buckets * characters > BATTLE_TIMELINE_ROLE_LIMIT) by (nonlinear_arith)
                    requires
                        buckets >= 1,
                        characters > BATTLE_TIMELINE_ROLE_LIMIT,
                ;
                return false;
            }
            assert(buckets * characters <= 10_000 * 100_000) by (nonlinear_arith)
                requires
                    buckets <= 10_000,
                    characters <= 100_000,
            ;
            buckets * characters <= BATTLE_TIMELINE_ROLE_LIMIT
        },
    }
}

#[derive(Clone, Debug)]
pub struct BattleTimelineDto {
    pub contract_version: u32,
    pub battle_record_id: String,
    pub generation: String,
    pub finalized: bool,
    pub complete: bool,
    pub scope: &'static str,
    pub bucket_seconds: Double,
    pub bucket_seconds_min: Double,
    pub bucket_seconds_max: Double,
    pub bucket_seconds_step: Double,
    pub started_at_unix: Option<Double>,
    pub duration_seconds: Double,
    pub total_damage: Double,
    pub peak_dps: Double,
    pub time_stop_duration_seconds: Double,
    pub time_stop_intervals: Vec<BattleTimelineIntervalDto>,
    pub markers: Vec<BattleTimelineMarkerDto>,
    pub characters: Vec<BattleTimelineCharacterDto>,
    pub buckets: Vec<BattleTimelineBucketDto>,
    pub segments: Vec<BattleTimelineSegmentDto>,
}

#[derive(Clone, Copy, Debug, PartialEq, Eq, Structural)]
pub struct BattleTimelineIntervalDto {
    pub start_offset_seconds: Double,
    pub end_offset_seconds: Double,
}

#[derive(Clone, Debug)]
pub struct BattleTimelineMarkerDto {
    pub offset_seconds: Double,
    pub label_key: String,
    pub kind: &'static str,
}

#[derive(Clone, Debug)]
pub struct BattleTimelineCharacterDto {
    pub character_id: u32,
    pub name: String,
    pub total_damage: Double,
}

#[derive(Clone, Debug)]
pub struct BattleTimelineBucketDto {
    pub start_offset_seconds: Double,
    pub end_offset_seconds: Double,
    pub team_dps: Double,
    pub damage: Double,
    pub hits: String,
    pub cumulative_damage: Double,
    pub roles: Vec<BattleTimelineRoleDto>,
}

#[derive(Clone, Copy, Debug, PartialEq, Eq, Structural)]
pub struct BattleTimelineRoleDto {
    pub character_id: u32,
    pub dps: Double,
}

#[derive(Clone, Copy, Debug, PartialEq, Eq, Structural)]
pub struct BattleTimelineSegmentDto {
    pub start_offset_seconds: Double,
    pub end_offset_seconds: Double,
    pub dps: Double,
}

/// How a timeline marker is named.
pub open spec fn marker_code(kind: TimelineMarkerProjectionKind) -> Seq<char> {
    match kind {
        TimelineMarkerProjectionKind::Half => "half"@,
        TimelineMarkerProjectionKind::Clear => "clear"@,
        TimelineMarkerProjectionKind::Exit => "exit"@,
    }
}

pub open spec fn reads_marker(
    marker: TimelineMarkerProjection,
    dto: BattleTimelineMarkerDto,
) -> bool {
    dto.offset_seconds == marker.offset && dto.label_key@ == marker.label_key@ && dto.kind@
        == marker_code(marker.kind)
}

pub open spec fn reads_character(
    character: TimelineCharacterProjection,
    dto: BattleTimelineCharacterDto,
) -> bool {
    dto.character_id == character.id && dto.name@ == character.name@ && dto.total_damage
        == character.total_damage
}

pub open spec fn read_role(role: TimelineRoleProjection) -> BattleTimelineRoleDto {
    BattleTimelineRoleDto { character_id: role.character_id, dps: role.dps }
}

pub open spec fn reads_bucket(
    bucket: TimelineBucketProjection,
    dto: BattleTimelineBucketDto,
) -> bool {
    &&& dto.start_offset_seconds == bucket.start
    &&& dto.end_offset_seconds == bucket.end
    &&& dto.team_dps == bucket.team_dps
    &&& dto.damage == bucket.damage
    &&& dto.hits@ == decimal(bucket.hits as nat)
    &&& dto.cumulative_damage == bucket.cumulative_damage
    &&& dto.roles@ == bucket.roles@.map_values(|role: TimelineRoleProjection| read_role(role))
}

pub open spec fn read_interval(interval: TimelineIntervalProjection) -> BattleTimelineIntervalDto {
    BattleTimelineIntervalDto {
        start_offset_seconds: interval.start,
        end_offset_seconds: interval.end,
    }
}

pub open spec fn read_segment(segment: TimelineSegmentProjection) -> BattleTimelineSegmentDto {
    BattleTimelineSegmentDto {
        start_offset_seconds: segment.start,
        end_offset_seconds: segment.end,
        dps: segment.dps,
    }
}

/// How many bars the buckets hold together.
pub open spec fn bar_count(buckets: Seq<TimelineBucketProjection>) -> nat
    decreases buckets.len(),
{
    if buckets.len() == 0 {
        0
    } else {
        bar_count(buckets.drop_last()) + buckets.last().roles@.len()
    }
}

/// Whether a chart stays within the response budget.
pub open spec fn chart_fits(chart: TimelineProjection) -> bool {
    chart.buckets@.len() <= BATTLE_TIMELINE_BUCKET_LIMIT && bar_count(chart.buckets@)
        <= BATTLE_TIMELINE_ROLE_LIMIT
}

proof fn bars_only_add(buckets: Seq<TimelineBucketProjection>, upto: int)
    requires
        0 <= upto <= buckets.len(),
    ensures
        bar_count(buckets.take(upto)) <= bar_count(buckets),
    decreases buckets.len(),
{
    if upto == buckets.len() {
        assert(buckets.take(upto) =~= buckets);
    } else {
        bars_only_add(buckets.drop_last(), upto);
        assert(buckets.drop_last().take(upto) =~= buckets.take(upto));
    }
}

fn is_chart_within_budget(chart: &TimelineProjection) -> (result: bool)
    ensures
        result == chart_fits(*chart),
{
    if chart.buckets.len() > BATTLE_TIMELINE_BUCKET_LIMIT {
        return false;
    }
    let mut bars: usize = 0;
    let mut i: usize = 0;
    while i < chart.buckets.len()
        invariant
            i <= chart.buckets.len(),
            bars == bar_count(chart.buckets@.take(i as int)),
            bars <= BATTLE_TIMELINE_ROLE_LIMIT,
        decreases chart.buckets.len() - i,
    {
        proof {
            assert(chart.buckets@.take(i + 1).drop_last() =~= chart.buckets@.take(i as int));
            bars_only_add(chart.buckets@, i + 1);
        }
        if chart.buckets[i].roles.len() > BATTLE_TIMELINE_ROLE_LIMIT - bars {
            return false;
        }
        bars = bars + chart.buckets[i].roles.len();
        i = i + 1;
    }
    assert(chart.buckets@.take(i as int) =~= chart.buckets@);
    true
}

/// What the read model says of a chart.
pub open spec fn reads_chart(
    chart: TimelineProjection,
    context: BattleRecordContext,
    scope: TimelineScope,
    span: Option<(Double, Double)>,
    dto: BattleTimelineDto,
) -> bool {
    &&& dto.contract_version == BATTLE_READ_CONTRACT_VERSION
    &&& dto.battle_record_id@ == context.id@
    &&& dto.generation@ == decimal(context.generation as nat)
    &&& dto.finalized == context.finalized
    &&& dto.complete == (context.axis_base_sequence == 0)
    &&& dto.scope@ == scope_code(scope)
    &&& dto.bucket_seconds == chart.bucket_seconds
    &&& dto.bucket_seconds_min == chart.bucket_seconds_min
    &&& dto.bucket_seconds_max == chart.bucket_seconds_max
    &&& dto.bucket_seconds_step == chart.bucket_seconds_step
    &&& dto.started_at_unix == (match span {
        Some(span) => Some(span.0),
        None => None,
    })
    &&& dto.duration_seconds == chart.duration
    &&& dto.total_damage == chart.total_damage
    &&& dto.peak_dps == chart.peak_dps
    &&& dto.time_stop_duration_seconds == chart.time_stop_duration
    &&& dto.time_stop_intervals@ == chart.time_stop_intervals@.map_values(
        |interval: TimelineIntervalProjection| read_interval(interval),
    )
    &&& dto.markers@.len() == chart.markers@.len()
    &&& forall|k: int|
        0 <= k < dto.markers@.len() ==> reads_marker(chart.markers@[k], #[trigger] dto.markers@[k])
    &&& dto.characters@.len() == chart.characters@.len()
    &&& forall|k: int|
        0 <= k < dto.characters@.len() ==> reads_character(
            chart.characters@[k],
            #[trigger] dto.characters@[k],
        )
    &&& dto.buckets@.len() == chart.buckets@.len()
    &&& forall|k: int|
        0 <= k < dto.buckets@.len() ==> reads_bucket(chart.buckets@[k], #[trigger] dto.buckets@[k])
    &&& dto.segments@ == chart.segments@.map_values(
        |segment: TimelineSegmentProjection| read_segment(segment),
    )
}

fn read_markers(markers: &Vec<TimelineMarkerProjection>) -> (result: Vec<BattleTimelineMarkerDto>)
    ensures
        result@.len() == markers@.len(),
        forall|k: int| 0 <= k < result@.len() ==> reads_marker(markers@[k], #[trigger] result@[k]),
{
    let mut result: Vec<BattleTimelineMarkerDto> = Vec::new();
    let mut i: usize = 0;
    while i < markers.len()
        invariant
            i <= markers.len(),
            result@.len() == i,
            forall|k: int| 0 <= k < i ==> reads_marker(markers@[k], #[trigger] result@[k]),
        decreases markers.len() - i,
    {
        result.push(
            BattleTimelineMarkerDto {
                offset_seconds: markers[i].offset,
                label_key: markers[i].label_key.clone(),
                kind: match markers[i].kind {
                    TimelineMarkerProjectionKind::Half => "half",
                    TimelineMarkerProjectionKind::Clear => "clear",
                    TimelineMarkerProjectionKind::Exit => "exit",
                },
            },
        );
        i = i + 1;
    }
    result
}

fn read_characters(characters: &Vec<TimelineCharacterProjection>) -> (result: Vec<
    BattleTimelineCharacterDto,
>)
    ensures
        result@.len() == characters@.len(),
        forall|k: int|
            0 <= k < result@.len() ==> reads_character(characters@[k], #[trigger] result@[k]),
{
    let mut result: Vec<BattleTimelineCharacterDto> = Vec::new();
    let mut i: usize = 0;
    while i < characters.len()
        invariant
            i <= characters.len(),
            result@.len() == i,
            forall|k: int| 0 <= k < i ==> reads_character(characters@[k], #[trigger] result@[k]),
        decreases characters.len() - i,
    {
        result.push(
            BattleTimelineCharacterDto {
                character_id: characters[i].id,
                name: characters[i].name.clone(),
                total_damage: characters[i].total_damage,
            },
        );
        i = i + 1;
    }
    result
}

fn read_bucket(bucket: &TimelineBucketProjection) -> (result: BattleTimelineBucketDto)
    ensures
        reads_bucket(*bucket, result),
{
    let mut roles: Vec<BattleTimelineRoleDto> = Vec::new();
    let mut i: usize = 0;
    while i < bucket.roles.len()
        invariant
            i <= bucket.roles.len(),
            roles@.len() == i,
            forall|k: int| 0 <= k < i ==> #[trigger] roles@[k] == read_role(bucket.roles@[k]),
        decreases bucket.roles.len() - i,
    {
        roles.push(
            BattleTimelineRoleDto {
                character_id: bucket.roles[i].character_id,
                dps: bucket.roles[i].dps,
            },
        );
        i = i + 1;
    }
    assert(roles@ =~= bucket.roles@.map_values(|role: TimelineRoleProjection| read_role(role)));
    BattleTimelineBucketDto {
        start_offset_seconds: bucket.start,
        end_offset_seconds: bucket.end,
        team_dps: bucket.team_dps,
        damage: bucket.damage,
        hits: decimal_text(bucket.hits),
        cumulative_damage: bucket.cumulative_damage,
        roles,
    }
}

fn read_buckets(buckets: &Vec<TimelineBucketProjection>) -> (result: Vec<BattleTimelineBucketDto>)
    ensures
        result@.len() == buckets@.len(),
        forall|k: int| 0 <= k < result@.len() ==> reads_bucket(buckets@[k], #[trigger] result@[k]),
{
    let mut result: Vec<BattleTimelineBucketDto> = Vec::new();
    let mut i: usize = 0;
    while i < buckets.len()
        invariant
            i <= buckets.len(),
            result@.len() == i,
            forall|k: int| 0 <= k < i ==> reads_bucket(buckets@[k], #[trigger] result@[k]),
        decreases buckets.len() - i,
    {
        result.push(read_bucket(&buckets[i]));
        i = i + 1;
    }
    result
}

fn read_intervals(intervals: &Vec<TimelineIntervalProjection>) -> (result: Vec<
    BattleTimelineIntervalDto,
>)
    ensures
        result@ == intervals@.map_values(
            |interval: TimelineIntervalProjection| read_interval(interval),
        ),
{
    let mut result: Vec<BattleTimelineIntervalDto> = Vec::new();
    let mut i: usize = 0;
    while i < intervals.len()
        invariant
            i <= intervals.len(),
            result@.len() == i,
            forall|k: int| 0 <= k < i ==> #[trigger] result@[k] == read_interval(intervals@[k]),
        decreases intervals.len() - i,
    {
        result.push(
            BattleTimelineIntervalDto {
                start_offset_seconds: intervals[i].start,
                end_offset_seconds: intervals[i].end,
            },
        );
        i = i + 1;
    }
    result
}

fn read_segments(segments: &Vec<TimelineSegmentProjection>) -> (result: Vec<
    BattleTimelineSegmentDto,
>)
    ensures
        result@ == segments@.map_values(
            |segment: TimelineSegmentProjection| read_segment(segment),
        ),
{
    let mut result: Vec<BattleTimelineSegmentDto> = Vec::new();
    let mut i: usize = 0;
    while i < segments.len()
        invariant
            i <= segments.len(),
            result@.len() == i,
            forall|k: int| 0 <= k < i ==> #[trigger] result@[k] == read_segment(segments@[k]),
        decreases segments.len() - i,
    {
        result.push(
            BattleTimelineSegmentDto {
                start_offset_seconds: segments[i].start,
                end_offset_seconds: segments[i].end,
                dps: segments[i].dps,
            },
        );
        i = i + 1;
    }
    result
}

/// What a request for the timeline of a scope is answered. It is refused where
/// the hits alone show, at the width that was asked for, that the answer would
/// be too large, and where the chart itself is.
pub open spec fn answers_timeline<
    F: Fn(Arith) -> Double,
    W: Fn(Double) -> usize,
    R: Fn(&CombatState, TimelineScope, Double, bool) -> TimelineReadings,
    B: Fn(Single) -> BucketWidth,
>(
    ops: F,
    whole: W,
    read: R,
    width: B,
    state: CombatState,
    characters: Map<u32, CharacterInfo>,
    context: BattleRecordContext,
    options: TimelineProjectionOptions,
    result: Result<BattleTimelineDto, BattleReadError>,
) -> bool {
    let requested = answer(ops, Arith::FromSingle(options.bucket_seconds));
    let hits = hits_in(state, options.scope);
    if timeline_fits(ops, whole, hits, requested) {
        exists|chart: TimelineProjection|
            {
                &&& #[trigger] draws_timeline(ops, read, width, state, characters, options, chart)
                &&& if chart_fits(chart) {
                    result matches Ok(dto) && reads_chart(
                        chart,
                        context,
                        options.scope,
                        span_of(hits),
                        dto,
                    )
                } else {
                    result == Err::<BattleTimelineDto, _>(BattleReadError::TimelineTooLarge)
                }
            }
    } else {
        result == Err::<BattleTimelineDto, _>(BattleReadError::TimelineTooLarge)
    }
}

/// The options that a battle's timeline is drawn with.
pub open spec fn battle_options(
    scope: TimelineScope,
    bucket_seconds: Single,
    subtract_time_stop: bool,
) -> TimelineProjectionOptions {
    TimelineProjectionOptions {
        scope,
        bucket_seconds,
        subtract_time_stop,
        language: Language::English,
    }
}

/// The timeline of a scope. `width` makes a bucket width valid, and `read` asks
/// the engine; it is not asked where the hits alone show that the answer would
/// be too large.
pub fn battle_timeline<
    F: Fn(Arith) -> Double,
    W: Fn(Double) -> usize,
    R: Fn(&CombatState, TimelineScope, Double, bool) -> TimelineReadings,
    B: Fn(Single) -> BucketWidth,
>(
    state: &CombatState,
    characters: &HashMap<u32, CharacterInfo>,
    context: BattleRecordContext<'_>,
    scope: TimelineScope,
    bucket_seconds: Single,
    subtract_time_stop: bool,
    read: &R,
    width: &B,
    ops: &F,
    whole: &W,
) -> (result: Result<BattleTimelineDto, BattleReadError>)
    requires
        lawful(*ops),
        takes_whole_parts(*whole),
        reads_timelines(*read),
        sizes_buckets(*width),
    ensures
        answers_timeline(
            *ops,
            *whole,
            *read,
            *width,
            *state,
            characters@,
            context,
            battle_options(scope, bucket_seconds, subtract_time_stop),
            result,
        ),
{
    let span = hit_span(scope_hits(state, scope));
    let requested = evaluate(ops, Arith::FromSingle(bucket_seconds));
    if !is_within_budget(state, scope, span, requested, ops, whole) {
        return Err(BattleReadError::TimelineTooLarge);
    }
    let options = TimelineProjectionOptions {
        scope,
        bucket_seconds,
        subtract_time_stop,
        language: Language::English,
    };
    let chart = project_timeline(state, characters, options, read, width, ops);
    assert(draws_timeline(*ops, *read, *width, *state, characters@, options, chart));
    if !is_chart_within_budget(&chart) {
        return Err(BattleReadError::TimelineTooLarge);
    }
    let dto = BattleTimelineDto {
        contract_version: BATTLE_READ_CONTRACT_VERSION,
        battle_record_id: context.id.to_owned(),
        generation: decimal_text(context.generation),
        finalized: context.finalized,
        complete: context.axis_base_sequence == 0,
        scope: timeline_scope_code(scope),
        bucket_seconds: chart.bucket_seconds,
        bucket_seconds_min: chart.bucket_seconds_min,
        bucket_seconds_max: chart.bucket_seconds_max,
        bucket_seconds_step: chart.bucket_seconds_step,
        started_at_unix: match span {
            Some((start, _)) => Some(start),
            None => None,
        },
        duration_seconds: chart.duration,
        total_damage: chart.total_damage,
        peak_dps: chart.peak_dps,
        time_stop_duration_seconds: chart.time_stop_duration,
        time_stop_intervals: read_intervals(&chart.time_stop_intervals),
        markers: read_markers(&chart.markers),
        characters: read_characters(&chart.characters),
        buckets: read_buckets(&chart.buckets),
        segments: read_segments(&chart.segments),
    };
    assert(reads_chart(chart, context, scope, span, dto));
    Ok(dto)
}

} // verus!
