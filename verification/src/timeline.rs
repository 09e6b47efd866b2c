//! The damage-over-time chart of one session or one challenge half.
use std::collections::HashMap;

use vstd::prelude::*;

use crate::double::{answer, evaluate, lawful, sum_of, Arith, Double};
use crate::model::{CharacterInfo, CombatState, Language};
use crate::single::Single;
use crate::text::{
    characters_of, decimal, decimal_text, is_ordered_before, order_is_total, order_is_transitive,
    ordered_before, same_text,
};

verus! {

broadcast use vstd::std_specs::hash::group_hash_axioms;

/// The step of the bucket-width control, as a bit pattern: the value nearest
/// to one tenth in single precision.
pub const TIMELINE_BUCKET_SECONDS_STEP: u64 = 0x3fb9_9999_a000_0000;

#[derive(Clone, Copy, Debug, PartialEq, Eq, Structural)]
pub enum TimelineScope {
    Whole,
    First,
    Second,
}

impl Default for TimelineScope {
    fn default() -> (result: Self)
        ensures
            result == TimelineScope::Whole,
    {
        TimelineScope::Whole
    }
}

/// What one character did in one bucket.
#[derive(Clone, Debug)]
pub struct RoleDamage {
    pub char_id: u32,
    pub char_name: String,
    pub damage: Double,
    pub dps: Double,
}

#[derive(Clone, Debug)]
pub struct TimelineBucket {
    pub start_offset: Double,
    pub end_offset: Double,
    pub dps: Double,
    pub damage: Double,
    pub hits: u64,
    pub cumulative_damage: Double,
    pub role_damage: Vec<RoleDamage>,
}

#[derive(Clone, Copy, Debug, PartialEq, Eq, Structural)]
pub struct TimelineInterval {
    pub start_offset: Double,
    pub end_offset: Double,
}

#[derive(Clone, Copy, Debug, PartialEq, Eq, Structural)]
pub enum TimelineMarkerKind {
    HalfStart,
    Clear,
    Exit,
}

#[derive(Clone, Debug)]
pub struct TimelineMarker {
    pub offset: Double,
    pub label: String,
    pub kind: TimelineMarkerKind,
}

/// A stretch of fighting without a long pause.
#[derive(Clone, Copy, Debug, PartialEq, Eq, Structural)]
pub struct CombatSegment {
    pub start_offset: Double,
    pub end_offset: Double,
    pub dps: Double,
}

/// The engine's damage-over-time readings.
#[derive(Clone, Debug)]
pub struct TimelineSeries {
    pub bucket_seconds: Double,
    pub start_timestamp: Option<Double>,
    pub end_timestamp: Option<Double>,
    pub total_damage: Double,
    pub buckets: Vec<TimelineBucket>,
    pub time_stop_intervals: Vec<TimelineInterval>,
    pub markers: Vec<TimelineMarker>,
}

/// The engine's answers for one scope.
#[derive(Clone, Debug)]
pub struct TimelineReadings {
    pub series: TimelineSeries,
    /// The markers of the half alone.
    pub half_markers: Vec<TimelineMarker>,
    pub segments: Vec<CombatSegment>,
}

/// The widths that a bucket can have.
#[derive(Clone, Copy, Debug, PartialEq, Eq, Structural)]
pub struct BucketWidth {
    pub seconds: Double,
    pub min: Double,
    pub max: Double,
}

#[derive(Clone, Copy, Debug, PartialEq, Eq, Structural)]
pub struct TimelineProjectionOptions {
    pub scope: TimelineScope,
    pub bucket_seconds: Single,
    pub subtract_time_stop: bool,
    pub language: Language,
}

#[derive(Clone, Debug)]
pub struct TimelineProjection {
    pub bucket_seconds: Double,
    pub bucket_seconds_min: Double,
    pub bucket_seconds_max: Double,
    pub bucket_seconds_step: Double,
    pub duration: Double,
    pub total_damage: Double,
    pub peak_dps: Double,
    pub time_stop_duration: Double,
    pub time_stop_intervals: Vec<TimelineIntervalProjection>,
    pub markers: Vec<TimelineMarkerProjection>,
    pub characters: Vec<TimelineCharacterProjection>,
    pub buckets: Vec<TimelineBucketProjection>,
    pub segments: Vec<TimelineSegmentProjection>,
}

#[derive(Clone, Copy, Debug, PartialEq, Eq, Structural)]
pub struct TimelineIntervalProjection {
    pub start: Double,
    pub end: Double,
}

#[derive(Clone, Copy, Debug, PartialEq, Eq, Structural)]
pub enum TimelineMarkerProjectionKind {
    Half,
    Clear,
    Exit,
}

#[derive(Clone, Debug)]
pub struct TimelineMarkerProjection {
    pub offset: Double,
    pub label_key: String,
    pub kind: TimelineMarkerProjectionKind,
}

#[derive(Clone, Debug)]
pub struct TimelineCharacterProjection {
    pub id: u32,
    pub name: String,
    pub color: String,
    pub total_damage: Double,
}

#[derive(Clone, Debug)]
pub struct TimelineBucketProjection {
    pub start: Double,
    pub end: Double,
    pub team_dps: Double,
    pub damage: Double,
    pub hits: u64,
    pub cumulative_damage: Double,
    pub roles: Vec<TimelineRoleProjection>,
}

#[derive(Clone, Copy, Debug, PartialEq, Eq, Structural)]
pub struct TimelineRoleProjection {
    pub character_id: u32,
    pub dps: Double,
}

#[derive(Clone, Copy, Debug, PartialEq, Eq, Structural)]
pub struct TimelineSegmentProjection {
    pub start: Double,
    pub end: Double,
    pub dps: Double,
}

/// The name of a character: its localized name, or else the name that the
/// hits carried, or else its number.
pub open spec fn name_of(
    id: u32,
    fallback: Seq<char>,
    characters: Map<u32, CharacterInfo>,
    language: Language,
) -> Seq<char> {
    let localized = if characters.dom().contains(id) {
        match language {
            Language::SimplifiedChinese => characters[id].name_zh@,
            Language::English | Language::Japanese => characters[id].name_en@,
        }
    } else {
        Seq::empty()
    };
    if localized.len() > 0 {
        localized
    } else if fallback.len() > 0 {
        fallback
    } else {
        "#"@ + decimal(id as nat)
    }
}

pub fn character_name(
    id: u32,
    fallback: &str,
    characters: &HashMap<u32, CharacterInfo>,
    language: Language,
) -> (result: String)
    ensures
        result@ == name_of(id, fallback@, characters@, language),
{
    let localized: &str = match characters.get(&id) {
        Some(character) => match language {
            Language::SimplifiedChinese => character.name_zh.as_str(),
            Language::English | Language::Japanese => character.name_en.as_str(),
        },
        None => "",
    };
    proof {
        reveal_strlit("");
        if !characters@.dom().contains(id) {
            assert(localized@ =~= Seq::<char>::empty());
        }
    }
    if !localized.is_empty() {
        localized.to_owned()
    } else if !fallback.is_empty() {
        fallback.to_owned()
    } else {
        let mut result: String = "#".to_owned();
        result.append(decimal_text(id as u64).as_str());
        result
    }
}

/// An ASCII hexadecimal digit.
pub open spec fn hex_digit(c: char) -> bool {
    '0' <= c <= '9' || 'a' <= c <= 'f' || 'A' <= c <= 'F'
}

/// A short or long CSS hex colour.
pub open spec fn css_hex_color(text: Seq<char>) -> bool {
    &&& text.len() == 4 || text.len() == 7
    &&& text[0] == '#'
    &&& forall|i: int| 1 <= i < text.len() ==> hex_digit(#[trigger] text[i])
}

pub fn valid_css_hex_color(value: &str) -> (result: bool)
    ensures
        result == css_hex_color(value@),
{
    let chars: Vec<char> = characters_of(value);
    if chars.len() != 4 && chars.len() != 7 {
        return false;
    }
    if chars[0] != '#' {
        return false;
    }
    let mut i: usize = 1;
    while i < chars.len()
        invariant
            1 <= i <= chars.len(),
            chars@ == value@,
            forall|k: int| 1 <= k < i ==> hex_digit(#[trigger] chars@[k]),
        decreases chars.len() - i,
    {
        let c: char = chars[i];
        if !(('0' <= c && c <= '9') || ('a' <= c && c <= 'f') || ('A' <= c && c <= 'F')) {
            return false;
        }
        i = i + 1;
    }
    true
}

/// The colour that stands in for a character without a valid one.
pub open spec fn fallback_color(id: u32) -> Seq<char> {
    let slot = id as int % 8;
    if slot == 0 {
        "#ef4444"@
    } else if slot == 1 {
        "#f59e0b"@
    } else if slot == 2 {
        "#8b5cf6"@
    } else if slot == 3 {
        "#06b6d4"@
    } else if slot == 4 {
        "#22c55e"@
    } else if slot == 5 {
        "#ec4899"@
    } else if slot == 6 {
        "#3b82f6"@
    } else {
        "#84cc16"@
    }
}

/// The colour of a character.
pub open spec fn color_of(id: u32, characters: Map<u32, CharacterInfo>) -> Seq<char> {
    if characters.dom().contains(id) && characters[id].color is Some && css_hex_color(
        characters[id].color->0@,
    ) {
        characters[id].color->0@
    } else {
        fallback_color(id)
    }
}

pub fn character_color(id: u32, characters: &HashMap<u32, CharacterInfo>) -> (result: String)
    ensures
        result@ == color_of(id, characters@),
{
    if let Some(character) = characters.get(&id) {
        if let Some(color) = &character.color {
            if valid_css_hex_color(color.as_str()) {
                return color.as_str().to_owned();
            }
        }
    }
    let fallback: &str = match id % 8 {
        0 => "#ef4444",
        1 => "#f59e0b",
        2 => "#8b5cf6",
        3 => "#06b6d4",
        4 => "#22c55e",
        5 => "#ec4899",
        6 => "#3b82f6",
        _ => "#84cc16",
    };
    fallback.to_owned()
}

/// The colour of a character is always a valid CSS colour.
pub proof fn colors_are_valid(id: u32, characters: Map<u32, CharacterInfo>)
    ensures
        css_hex_color(color_of(id, characters)),
{
    reveal_strlit("#ef4444");
    reveal_strlit("#f59e0b");
    reveal_strlit("#8b5cf6");
    reveal_strlit("#06b6d4");
    reveal_strlit("#22c55e");
    reveal_strlit("#ec4899");
    reveal_strlit("#3b82f6");
    reveal_strlit("#84cc16");
}

/// The largest displayed reading of a sequence, at least zero.
pub open spec fn peak_of(values: Seq<Double>) -> Double
    decreases values.len(),
{
    if values.len() == 0 {
        Double { bits: 0 }
    } else {
        peak_of(values.drop_last()).larger(values.last().displayed())
    }
}

/// The team readings of all buckets.
pub open spec fn team_readings(buckets: Seq<TimelineBucket>) -> Seq<Double> {
    buckets.map_values(|bucket: TimelineBucket| bucket.dps)
}

fn peak_dps(buckets: &Vec<TimelineBucket>) -> (result: Double)
    ensures
        result == peak_of(team_readings(buckets@)),
{
    let mut peak: Double = Double::zero();
    let mut i: usize = 0;
    while i < buckets.len()
        invariant
            i <= buckets.len(),
            peak == peak_of(team_readings(buckets@).take(i as int)),
        decreases buckets.len() - i,
    {
        assert(team_readings(buckets@).take(i + 1).drop_last() =~= team_readings(buckets@).take(
            i as int,
        ));
        peak = peak.max(buckets[i].dps.finite_non_negative());
        i = i + 1;
    }
    assert(team_readings(buckets@).take(i as int) =~= team_readings(buckets@));
    peak
}

/// An interval as it is drawn.
pub open spec fn drawn_interval(interval: TimelineInterval) -> TimelineIntervalProjection {
    TimelineIntervalProjection {
        start: interval.start_offset.displayed(),
        end: interval.end_offset.displayed(),
    }
}

fn project_intervals(intervals: &Vec<TimelineInterval>) -> (result: Vec<TimelineIntervalProjection>)
    ensures
        result@ == intervals@.map_values(|interval: TimelineInterval| drawn_interval(interval)),
{
    let mut result: Vec<TimelineIntervalProjection> = Vec::new();
    let mut i: usize = 0;
    while i < intervals.len()
        invariant
            i <= intervals.len(),
            result@.len() == i,
            forall|k: int| 0 <= k < i ==> #[trigger] result@[k] == drawn_interval(intervals@[k]),
        decreases intervals.len() - i,
    {
        result.push(
            TimelineIntervalProjection {
                start: intervals[i].start_offset.finite_non_negative(),
                end: intervals[i].end_offset.finite_non_negative(),
            },
        );
        i = i + 1;
    }
    result
}

/// The lengths of intervals, none below zero.
pub open spec fn lengths_of<F: Fn(Arith) -> Double>(
    ops: F,
    intervals: Seq<TimelineIntervalProjection>,
) -> Seq<Double> {
    intervals.map_values(
        |interval: TimelineIntervalProjection|
            answer(ops, Arith::Difference(interval.end, interval.start)).larger(Double { bits: 0 }),
    )
}

/// How long the drawn intervals last together.
pub fn timeline_time_stop_duration<F: Fn(Arith) -> Double>(
    intervals: &Vec<TimelineIntervalProjection>,
    ops: &F,
) -> (result: Double)
    requires
        lawful(*ops),
    ensures
        result == sum_of(*ops, lengths_of(*ops, intervals@)),
{
    let mut total: Double = Double::zero();
    let mut i: usize = 0;
    while i < intervals.len()
        invariant
            i <= intervals.len(),
            lawful(*ops),
            total == sum_of(*ops, lengths_of(*ops, intervals@).take(i as int)),
        decreases intervals.len() - i,
    {
        let ghost lengths = lengths_of(*ops, intervals@);
        assert(lengths.take(i + 1).drop_last() =~= lengths.take(i as int));
        let length = evaluate(
            ops,
            Arith::Difference(intervals[i].end, intervals[i].start),
        ).max(Double::zero());
        total = evaluate(ops, Arith::Sum(total, length));
        i = i + 1;
    }
    assert(lengths_of(*ops, intervals@).take(i as int) =~= lengths_of(*ops, intervals@));
    total
}

/// A segment as it is drawn.
pub open spec fn drawn_segment(segment: CombatSegment) -> TimelineSegmentProjection {
    TimelineSegmentProjection {
        start: segment.start_offset.displayed(),
        end: segment.end_offset.displayed(),
        dps: segment.dps.displayed(),
    }
}

fn project_segments(segments: &Vec<CombatSegment>) -> (result: Vec<TimelineSegmentProjection>)
    ensures
        result@ == segments@.map_values(|segment: CombatSegment| drawn_segment(segment)),
{
    let mut result: Vec<TimelineSegmentProjection> = Vec::new();
    let mut i: usize = 0;
    while i < segments.len()
        invariant
            i <= segments.len(),
            result@.len() == i,
            forall|k: int| 0 <= k < i ==> #[trigger] result@[k] == drawn_segment(segments@[k]),
        decreases segments.len() - i,
    {
        result.push(
            TimelineSegmentProjection {
                start: segments[i].start_offset.finite_non_negative(),
                end: segments[i].end_offset.finite_non_negative(),
                dps: segments[i].dps.finite_non_negative(),
            },
        );
        i = i + 1;
    }
    result
}

/// How a marker kind is drawn.
pub open spec fn drawn_kind(kind: TimelineMarkerKind) -> TimelineMarkerProjectionKind {
    match kind {
        TimelineMarkerKind::HalfStart => TimelineMarkerProjectionKind::Half,
        TimelineMarkerKind::Clear => TimelineMarkerProjectionKind::Clear,
        TimelineMarkerKind::Exit => TimelineMarkerProjectionKind::Exit,
    }
}

/// Whether `drawn` is how `marker` is drawn.
pub open spec fn draws_marker(marker: TimelineMarker, drawn: TimelineMarkerProjection) -> bool {
    drawn.offset == marker.offset.displayed() && drawn.label_key@ == marker.label@ && drawn.kind
        == drawn_kind(marker.kind)
}

fn project_markers(markers: &Vec<TimelineMarker>) -> (result: Vec<TimelineMarkerProjection>)
    ensures
        result@.len() == markers@.len(),
        forall|k: int| 0 <= k < result@.len() ==> draws_marker(markers@[k], #[trigger] result@[k]),
{
    let mut result: Vec<TimelineMarkerProjection> = Vec::new();
    let mut i: usize = 0;
    while i < markers.len()
        invariant
            i <= markers.len(),
            result@.len() == i,
            forall|k: int| 0 <= k < i ==> draws_marker(markers@[k], #[trigger] result@[k]),
        decreases markers.len() - i,
    {
        result.push(
            TimelineMarkerProjection {
                offset: markers[i].offset.finite_non_negative(),
                label_key: markers[i].label.clone(),
                kind: match markers[i].kind {
                    TimelineMarkerKind::HalfStart => TimelineMarkerProjectionKind::Half,
                    TimelineMarkerKind::Clear => TimelineMarkerProjectionKind::Clear,
                    TimelineMarkerKind::Exit => TimelineMarkerProjectionKind::Exit,
                },
            },
        );
        i = i + 1;
    }
    result
}

/// A character's share of a bucket as it is drawn.
pub open spec fn drawn_role(role: RoleDamage) -> TimelineRoleProjection {
    TimelineRoleProjection { character_id: role.char_id, dps: role.dps.displayed() }
}

/// Whether `drawn` is how `bucket` is drawn.
pub open spec fn draws_bucket(bucket: TimelineBucket, drawn: TimelineBucketProjection) -> bool {
    &&& drawn.start == bucket.start_offset.displayed()
    &&& drawn.end == bucket.end_offset.displayed()
    &&& drawn.team_dps == bucket.dps.displayed()
    &&& drawn.damage == bucket.damage.displayed()
    &&& drawn.hits == bucket.hits
    &&& drawn.cumulative_damage == bucket.cumulative_damage.displayed()
    &&& drawn.roles@ == bucket.role_damage@.map_values(|role: RoleDamage| drawn_role(role))
}

fn project_bucket(bucket: &TimelineBucket) -> (result: TimelineBucketProjection)
    ensures
        draws_bucket(*bucket, result),
{
    let mut roles: Vec<TimelineRoleProjection> = Vec::new();
    let mut i: usize = 0;
    while i < bucket.role_damage.len()
        invariant
            i <= bucket.role_damage.len(),
            roles@.len() == i,
            forall|k: int|
                0 <= k < i ==> #[trigger] roles@[k] == drawn_role(bucket.role_damage@[k]),
        decreases bucket.role_damage.len() - i,
    {
        roles.push(
            TimelineRoleProjection {
                character_id: bucket.role_damage[i].char_id,
                dps: bucket.role_damage[i].dps.finite_non_negative(),
            },
        );
        i = i + 1;
    }
    assert(roles@ =~= bucket.role_damage@.map_values(|role: RoleDamage| drawn_role(role)));
    TimelineBucketProjection {
        start: bucket.start_offset.finite_non_negative(),
        end: bucket.end_offset.finite_non_negative(),
        team_dps: bucket.dps.finite_non_negative(),
        damage: bucket.damage.finite_non_negative(),
        hits: bucket.hits,
        cumulative_damage: bucket.cumulative_damage.finite_non_negative(),
        roles,
    }
}

fn project_buckets(buckets: &Vec<TimelineBucket>) -> (result: Vec<TimelineBucketProjection>)
    ensures
        result@.len() == buckets@.len(),
        forall|k: int| 0 <= k < result@.len() ==> draws_bucket(buckets@[k], #[trigger] result@[k]),
{
    let mut result: Vec<TimelineBucketProjection> = Vec::new();
    let mut i: usize = 0;
    while i < buckets.len()
        invariant
            i <= buckets.len(),
            result@.len() == i,
            forall|k: int| 0 <= k < i ==> draws_bucket(buckets@[k], #[trigger] result@[k]),
        decreases buckets.len() - i,
    {
        result.push(project_bucket(&buckets[i]));
        i = i + 1;
    }
    result
}

/// The shares of all buckets, in order.
pub open spec fn all_roles(buckets: Seq<TimelineBucket>) -> Seq<RoleDamage>
    decreases buckets.len(),
{
    if buckets.len() == 0 {
        Seq::empty()
    } else {
        all_roles(buckets.drop_last()) + buckets.last().role_damage@
    }
}

/// The displayed damage of one character's shares, in order.
pub open spec fn damages_of(roles: Seq<RoleDamage>, id: u32) -> Seq<Double>
    decreases roles.len(),
{
    if roles.len() == 0 {
        Seq::empty()
    } else if roles.last().char_id == id {
        damages_of(roles.drop_last(), id).push(roles.last().damage.displayed())
    } else {
        damages_of(roles.drop_last(), id)
    }
}

/// The last name that one character's shares carried, empty if none did.
pub open spec fn name_seen(roles: Seq<RoleDamage>, id: u32) -> Seq<char>
    decreases roles.len(),
{
    if roles.len() == 0 {
        Seq::empty()
    } else if roles.last().char_id == id && roles.last().char_name@.len() > 0 {
        roles.last().char_name@
    } else {
        name_seen(roles.drop_last(), id)
    }
}

/// Whether a character has a share at all.
pub open spec fn takes_part(roles: Seq<RoleDamage>, id: u32) -> bool {
    exists|i: int| 0 <= i < roles.len() && (#[trigger] roles[i]).char_id == id
}

proof fn no_share_no_damage(roles: Seq<RoleDamage>, id: u32)
    requires
        !takes_part(roles, id),
    ensures
        damages_of(roles, id) == Seq::<Double>::empty(),
        name_seen(roles, id) == Seq::<char>::empty(),
    decreases roles.len(),
{
    if roles.len() > 0 {
        assert(roles.last() == roles[roles.len() - 1]);
        assert(roles[roles.len() - 1].char_id != id);
        assert(!takes_part(roles.drop_last(), id)) by {
            if takes_part(roles.drop_last(), id) {
                let i = choose|i: int|
                    0 <= i < roles.drop_last().len() && (#[trigger] roles.drop_last()[i]).char_id
                        == id;
                assert(roles[i].char_id == id);
            }
        }
        no_share_no_damage(roles.drop_last(), id);
    }
}

/// What one character's shares add up to.
struct CharacterTotal {
    id: u32,
    name: String,
    total: Double,
}

/// `entry` is what one character's shares add up to.
spec fn tallied<F: Fn(Arith) -> Double>(
    ops: F,
    roles: Seq<RoleDamage>,
    entry: CharacterTotal,
) -> bool {
    &&& entry.name@ == name_seen(roles, entry.id)
    &&& entry.total == sum_of(ops, damages_of(roles, entry.id))
    &&& takes_part(roles, entry.id)
}

/// Whether a character has an entry among the totals.
spec fn totalled(totals: Seq<CharacterTotal>, id: u32) -> bool {
    exists|k: int| 0 <= k < totals.len() && (#[trigger] totals[k]).id == id
}

/// `totals` has one entry for every character that takes part.
spec fn tallies<F: Fn(Arith) -> Double>(
    ops: F,
    roles: Seq<RoleDamage>,
    totals: Seq<CharacterTotal>,
) -> bool {
    &&& forall|k: int| 0 <= k < totals.len() ==> tallied(ops, roles, #[trigger] totals[k])
    &&& forall|j: int, k: int|
        0 <= j < k < totals.len() ==> (#[trigger] totals[j]).id != (#[trigger] totals[k]).id
    &&& forall|id: u32| #[trigger] takes_part(roles, id) ==> totalled(totals, id)
}

proof fn one_more_role(roles: Seq<RoleDamage>, role: RoleDamage, id: u32)
    ensures
        takes_part(roles.push(role), id) == (takes_part(roles, id) || role.char_id == id),
        damages_of(roles.push(role), id) == (if id == role.char_id {
            damages_of(roles, id).push(role.damage.displayed())
        } else {
            damages_of(roles, id)
        }),
        name_seen(roles.push(role), id) == (if id == role.char_id && role.char_name@.len() > 0 {
            role.char_name@
        } else {
            name_seen(roles, id)
        }),
{
    let now = roles.push(role);
    assert(now.drop_last() =~= roles);
    assert(now.last() == role);
    assert(now[roles.len() as int] == role);
    if takes_part(roles, id) {
        let i = choose|i: int| 0 <= i < roles.len() && (#[trigger] roles[i]).char_id == id;
        assert(now[i].char_id == id);
    }
    if takes_part(now, id) {
        let i = choose|i: int| 0 <= i < now.len() && (#[trigger] now[i]).char_id == id;
        if i < roles.len() {
            assert(roles[i].char_id == id);
        }
    }
}

proof fn tally_grows<F: Fn(Arith) -> Double>(
    ops: F,
    roles: Seq<RoleDamage>,
    role: RoleDamage,
    before: Seq<CharacterTotal>,
    after: Seq<CharacterTotal>,
    at: int,
)
    requires
        tallies(ops, roles, before),
        0 <= at < after.len(),
        after.len() == before.len() || (after.len() == before.len() + 1 && at == before.len()
            && !totalled(before, role.char_id)),
        at < before.len() ==> before[at].id == role.char_id,
        forall|k: int| 0 <= k < before.len() && k != at ==> after[k] == #[trigger] before[k],
        after[at].id == role.char_id,
        tallied(ops, roles.push(role), after[at]),
    ensures
        tallies(ops, roles.push(role), after),
{
    let now = roles.push(role);
    assert forall|k: int| 0 <= k < after.len() implies tallied(ops, now, #[trigger] after[k]) by {
        if k != at {
            assert(before[k].id != role.char_id) by {
                if at < before.len() {
                    if k < at {
                        assert(before[k].id != before[at].id);
                    } else {
                        assert(before[at].id != before[k].id);
                    }
                } else if before[k].id == role.char_id {
                    assert(totalled(before, role.char_id));
                }
            }
            assert(tallied(ops, roles, before[k]));
            one_more_role(roles, role, before[k].id);
        }
    }
    assert forall|j: int, k: int| 0 <= j < k < after.len() implies (#[trigger] after[j]).id != (
    #[trigger] after[k]).id by {
        if k < before.len() {
            assert(before[j].id != before[k].id);
        } else if before[j].id == role.char_id {
            assert(totalled(before, role.char_id));
        }
    }
    assert forall|id: u32| #[trigger] takes_part(now, id) implies totalled(after, id) by {
        one_more_role(roles, role, id);
        if id == role.char_id {
            assert(after[at].id == id);
        } else {
            assert(takes_part(roles, id));
            let k = choose|k: int| 0 <= k < before.len() && (#[trigger] before[k]).id == id;
            assert(after[k].id == id);
        }
    }
}

fn add_role<F: Fn(Arith) -> Double>(
    totals: &mut Vec<CharacterTotal>,
    role: &RoleDamage,
    ops: &F,
    Ghost(roles): Ghost<Seq<RoleDamage>>,
)
    requires
        lawful(*ops),
        tallies(*ops, roles, old(totals)@),
    ensures
        tallies(*ops, roles.push(*role), final(totals)@),
{
    let ghost before = totals@;
    proof {
        one_more_role(roles, *role, role.char_id);
    }
    let damage = role.damage.finite_non_negative();
    let mut at: usize = 0;
    while at < totals.len() && totals[at].id != role.char_id
        invariant
            at <= totals.len(),
            totals@ == before,
            forall|k: int| 0 <= k < at ==> (#[trigger] before[k]).id != role.char_id,
        decreases totals.len() - at,
    {
        at = at + 1;
    }
    let ghost series = damages_of(roles, role.char_id);
    assert(series.push(damage).drop_last() =~= series);
    if at < totals.len() {
        assert(tallied(*ops, roles, before[at as int]));
        let total = evaluate(ops, Arith::Sum(totals[at].total, damage));
        let name = if !role.char_name.as_str().is_empty() {
            role.char_name.clone()
        } else {
            totals[at].name.clone()
        };
        totals.set(at, CharacterTotal { id: role.char_id, name, total });
        assert(tallied(*ops, roles.push(*role), totals@[at as int]));
    } else {
        proof {
            if takes_part(roles, role.char_id) {
                assert(totalled(before, role.char_id));
            }
            no_share_no_damage(roles, role.char_id);
            assert(sum_of(*ops, series) == (Double { bits: 0 }));
        }
        let total = evaluate(ops, Arith::Sum(Double::zero(), damage));
        let name = role.char_name.clone();
        assert(name@.len() == 0 ==> name@ =~= Seq::<char>::empty());
        totals.push(CharacterTotal { id: role.char_id, name, total });
        assert(tallied(*ops, roles.push(*role), totals@[at as int]));
    }
    proof {
        tally_grows(*ops, roles, *role, before, totals@, at as int);
    }
}

fn total_by_character<F: Fn(Arith) -> Double>(
    buckets: &Vec<TimelineBucket>,
    ops: &F,
) -> (totals: Vec<CharacterTotal>)
    requires
        lawful(*ops),
    ensures
        tallies(*ops, all_roles(buckets@), totals@),
{
    let mut totals: Vec<CharacterTotal> = Vec::new();
    let mut i: usize = 0;
    while i < buckets.len()
        invariant
            i <= buckets.len(),
            lawful(*ops),
            tallies(*ops, all_roles(buckets@.take(i as int)), totals@),
        decreases buckets.len() - i,
    {
        let ghost earlier = all_roles(buckets@.take(i as int));
        let ghost roles = buckets@[i as int].role_damage@;
        assert(earlier + roles.take(0) =~= earlier);
        let mut j: usize = 0;
        while j < buckets[i as usize].role_damage.len()
            invariant
                i < buckets.len(),
                roles == buckets@[i as int].role_damage@,
                j <= roles.len(),
                lawful(*ops),
                tallies(*ops, earlier + roles.take(j as int), totals@),
            decreases roles.len() - j,
        {
            let ghost sofar = earlier + roles.take(j as int);
            assert(sofar.push(roles[j as int]) =~= earlier + roles.take(j + 1));
            add_role(&mut totals, &buckets[i].role_damage[j], ops, Ghost(sofar));
            j = j + 1;
        }
        proof {
            assert(roles.take(j as int) =~= roles);
            assert(buckets@.take(i + 1).drop_last() =~= buckets@.take(i as int));
            assert(buckets@.take(i + 1).last() == buckets@[i as int]);
        }
        i = i + 1;
    }
    assert(buckets@.take(i as int) =~= buckets@);
    totals
}

/// The order of the chart's legend: most damage first, then by name, then by
/// number.
pub open spec fn listed_before(
    left: TimelineCharacterProjection,
    right: TimelineCharacterProjection,
) -> bool {
    let a = left.total_damage.total_rank();
    let b = right.total_damage.total_rank();
    a > b || (a == b && (ordered_before(left.name@, right.name@) || (left.name@ == right.name@
        && left.id < right.id)))
}

/// Every entry stands before the ones after it.
pub open spec fn legend_sorted(entries: Seq<TimelineCharacterProjection>) -> bool {
    forall|i: int, j: int|
        0 <= i < j < entries.len() ==> listed_before(#[trigger] entries[i], #[trigger] entries[j])
}

fn is_listed_before(
    left: &TimelineCharacterProjection,
    right: &TimelineCharacterProjection,
) -> (result: bool)
    ensures
        result == listed_before(*left, *right),
{
    if right.total_damage.precedes(left.total_damage) {
        true
    } else if left.total_damage.precedes(right.total_damage) {
        false
    } else {
        is_ordered_before(left.name.as_str(), right.name.as_str()) || (same_text(
            left.name.as_str(),
            right.name.as_str(),
        ) && left.id < right.id)
    }
}

proof fn listing_is_total(left: TimelineCharacterProjection, right: TimelineCharacterProjection)
    requires
        left.id != right.id,
    ensures
        listed_before(left, right) || listed_before(right, left),
{
    order_is_total(left.name@, right.name@);
}

proof fn listing_is_transitive(
    first: TimelineCharacterProjection,
    second: TimelineCharacterProjection,
    third: TimelineCharacterProjection,
)
    requires
        listed_before(first, second),
        listed_before(second, third),
    ensures
        listed_before(first, third),
{
    if ordered_before(first.name@, second.name@) && ordered_before(second.name@, third.name@) {
        order_is_transitive(first.name@, second.name@, third.name@);
    }
}

/// What the legend says of one character that takes part.
pub open spec fn legend_entry<F: Fn(Arith) -> Double>(
    ops: F,
    roles: Seq<RoleDamage>,
    characters: Map<u32, CharacterInfo>,
    language: Language,
    entry: TimelineCharacterProjection,
) -> bool {
    &&& entry.name@ == name_of(entry.id, name_seen(roles, entry.id), characters, language)
    &&& entry.color@ == color_of(entry.id, characters)
    &&& entry.total_damage == sum_of(ops, damages_of(roles, entry.id))
    &&& takes_part(roles, entry.id)
}

/// The legend lists every character that takes part, once and in order.
pub open spec fn legend<F: Fn(Arith) -> Double>(
    ops: F,
    roles: Seq<RoleDamage>,
    characters: Map<u32, CharacterInfo>,
    language: Language,
    entries: Seq<TimelineCharacterProjection>,
) -> bool {
    &&& legend_sorted(entries)
    &&& forall|k: int|
        0 <= k < entries.len() ==> legend_entry(
            ops,
            roles,
            characters,
            language,
            #[trigger] entries[k],
        )
    &&& forall|j: int, k: int|
        0 <= j < k < entries.len() ==> (#[trigger] entries[j]).id != (#[trigger] entries[k]).id
    &&& forall|id: u32| #[trigger] takes_part(roles, id) ==> listed(entries, id)
}

/// Whether a character has an entry in the legend.
pub open spec fn listed(entries: Seq<TimelineCharacterProjection>, id: u32) -> bool {
    exists|k: int| 0 <= k < entries.len() && (#[trigger] entries[k]).id == id
}

fn place_in_legend(
    entries: &mut Vec<TimelineCharacterProjection>,
    entry: TimelineCharacterProjection,
) -> (at: usize)
    requires
        legend_sorted(old(entries)@),
        !listed(old(entries)@, entry.id),
    ensures
        at <= old(entries)@.len(),
        final(entries)@ == old(entries)@.insert(at as int, entry),
        legend_sorted(final(entries)@),
{
    let ghost before = entries@;
    let mut at: usize = 0;
    while at < entries.len() && is_listed_before(&entries[at], &entry)
        invariant
            at <= entries.len(),
            entries@ == before,
            forall|k: int| 0 <= k < at ==> listed_before(#[trigger] before[k], entry),
        decreases entries.len() - at,
    {
        at = at + 1;
    }
    proof {
        assert forall|k: int| at <= k < before.len() implies listed_before(
            entry,
            #[trigger] before[k],
        ) by {
            assert(before[at as int].id != entry.id);
            listing_is_total(before[at as int], entry);
            if k > at {
                listing_is_transitive(entry, before[at as int], before[k]);
            }
        }
        let after = before.insert(at as int, entry);
        assert forall|i: int, j: int| 0 <= i < j < after.len() implies listed_before(
            #[trigger] after[i],
            #[trigger] after[j],
        ) by {
            let a = if i < at { i } else { i - 1 };
            let b = if j < at { j } else { j - 1 };
            if i != at {
                assert(after[i] == before[a]);
            }
            if j != at {
                assert(after[j] == before[b]);
            }
        }
    }
    entries.insert(at, entry);
    at
}

proof fn inserting_lists(
    before: Seq<TimelineCharacterProjection>,
    at: int,
    entry: TimelineCharacterProjection,
    id: u32,
)
    requires
        0 <= at <= before.len(),
    ensures
        listed(before.insert(at, entry), id) == (listed(before, id) || entry.id == id),
{
    let after = before.insert(at, entry);
    assert(after[at] == entry);
    if listed(before, id) {
        let k = choose|k: int| 0 <= k < before.len() && (#[trigger] before[k]).id == id;
        let a = if k < at { k } else { k + 1 };
        assert(after[a] == before[k]);
    }
    if listed(after, id) {
        let k = choose|k: int| 0 <= k < after.len() && (#[trigger] after[k]).id == id;
        if k != at {
            let b = if k < at { k } else { k - 1 };
            assert(before[b] == after[k]);
        }
    }
}

/// A legend with one more entry.
proof fn legend_grows<F: Fn(Arith) -> Double>(
    ops: F,
    roles: Seq<RoleDamage>,
    characters: Map<u32, CharacterInfo>,
    language: Language,
    before: Seq<TimelineCharacterProjection>,
    at: int,
    entry: TimelineCharacterProjection,
)
    requires
        0 <= at <= before.len(),
        legend_so_far(ops, roles, characters, language, before),
        legend_sorted(before.insert(at, entry)),
        legend_entry(ops, roles, characters, language, entry),
        !listed(before, entry.id),
    ensures
        legend_so_far(ops, roles, characters, language, before.insert(at, entry)),
{
    let after = before.insert(at, entry);
    assert forall|k: int| 0 <= k < after.len() implies legend_entry(
        ops,
        roles,
        characters,
        language,
        #[trigger] after[k],
    ) by {
        if k != at {
            assert(after[k] == before[if k < at { k } else { k - 1 }]);
        }
    }
    assert forall|j: int, k: int| 0 <= j < k < after.len() implies (#[trigger] after[j]).id != (
    #[trigger] after[k]).id by {
        let a = if j < at { j } else { j - 1 };
        let b = if k < at { k } else { k - 1 };
        if j != at {
            assert(after[j] == before[a]);
        }
        if k != at {
            assert(after[k] == before[b]);
        }
        if j != at && k != at {
            assert(before[a].id != before[b].id);
        }
    }
}

/// Entries that can stand in the legend together.
spec fn legend_so_far<F: Fn(Arith) -> Double>(
    ops: F,
    roles: Seq<RoleDamage>,
    characters: Map<u32, CharacterInfo>,
    language: Language,
    entries: Seq<TimelineCharacterProjection>,
) -> bool {
    &&& legend_sorted(entries)
    &&& forall|k: int|
        0 <= k < entries.len() ==> legend_entry(
            ops,
            roles,
            characters,
            language,
            #[trigger] entries[k],
        )
    &&& forall|j: int, k: int|
        0 <= j < k < entries.len() ==> (#[trigger] entries[j]).id != (#[trigger] entries[k]).id
}

fn project_characters<F: Fn(Arith) -> Double>(
    buckets: &Vec<TimelineBucket>,
    characters: &HashMap<u32, CharacterInfo>,
    language: Language,
    ops: &F,
) -> (entries: Vec<TimelineCharacterProjection>)
    requires
        lawful(*ops),
    ensures
        legend(*ops, all_roles(buckets@), characters@, language, entries@),
{
    let totals = total_by_character(buckets, ops);
    let ghost roles = all_roles(buckets@);
    let mut entries: Vec<TimelineCharacterProjection> = Vec::new();
    let mut i: usize = 0;
    while i < totals.len()
        invariant
            i <= totals.len(),
            tallies(*ops, roles, totals@),
            legend_so_far(*ops, roles, characters@, language, entries@),
            forall|id: u32| #[trigger]
                listed(entries@, id) <==> totalled(totals@.take(i as int), id),
        decreases totals.len() - i,
    {
        let ghost before = entries@;
        let id = totals[i].id;
        assert(tallied(*ops, roles, totals@[i as int]));
        let entry = TimelineCharacterProjection {
            id,
            name: character_name(id, totals[i].name.as_str(), characters, language),
            color: character_color(id, characters),
            total_damage: totals[i].total,
        };
        assert(!listed(before, id)) by {
            if totalled(totals@.take(i as int), id) {
                let m = choose|m: int|
                    0 <= m < i && (#[trigger] totals@.take(i as int)[m]).id == id;
                assert(totals@[m].id != totals@[i as int].id);
            }
        }
        let ghost added = entry;
        let at = place_in_legend(&mut entries, entry);
        proof {
            legend_grows(*ops, roles, characters@, language, before, at as int, added);
            assert forall|any: u32| #[trigger] listed(entries@, any) <==> totalled(
                totals@.take(i + 1),
                any,
            ) by {
                inserting_lists(before, at as int, added, any);
                let now = totals@.take(i + 1);
                assert(listed(before, any) <==> totalled(totals@.take(i as int), any));
                if totalled(totals@.take(i as int), any) {
                    let m = choose|m: int|
                        0 <= m < i && (#[trigger] totals@.take(i as int)[m]).id == any;
                    assert(now[m].id == any);
                }
                if any == id {
                    assert(now[i as int].id == any);
                }
                if totalled(now, any) {
                    let m = choose|m: int| 0 <= m < now.len() && (#[trigger] now[m]).id == any;
                    if m < i {
                        assert(totals@.take(i as int)[m].id == any);
                    }
                }
            }
        }
        i = i + 1;
    }
    assert(totals@.take(i as int) =~= totals@);
    entries
}

/// The markers of a chart: a half with hits shows its own, everything else
/// the ones of the series.
pub open spec fn markers_in(
    readings: TimelineReadings,
    scope: TimelineScope,
) -> Seq<TimelineMarker> {
    if scope != TimelineScope::Whole && readings.series.start_timestamp is Some
        && readings.series.end_timestamp is Some {
        readings.half_markers@
    } else {
        readings.series.markers@
    }
}

/// Whether `chart` is the chart of the readings.
pub open spec fn charts<F: Fn(Arith) -> Double>(
    ops: F,
    readings: TimelineReadings,
    characters: Map<u32, CharacterInfo>,
    options: TimelineProjectionOptions,
    bucket: BucketWidth,
    chart: TimelineProjection,
) -> bool {
    let series = readings.series;
    let markers = markers_in(readings, options.scope);
    &&& chart.bucket_seconds == bucket.seconds
    &&& chart.bucket_seconds_min == bucket.min
    &&& chart.bucket_seconds_max == bucket.max
    &&& chart.bucket_seconds_step.bits == TIMELINE_BUCKET_SECONDS_STEP
    &&& chart.duration == (if series.buckets@.len() == 0 {
        Double { bits: 0 }
    } else {
        series.buckets@.last().end_offset.displayed()
    })
    &&& chart.total_damage == series.total_damage.displayed()
    &&& chart.peak_dps == peak_of(team_readings(series.buckets@))
    &&& chart.time_stop_intervals@ == series.time_stop_intervals@.map_values(
        |interval: TimelineInterval| drawn_interval(interval),
    )
    &&& chart.time_stop_duration == sum_of(ops, lengths_of(ops, chart.time_stop_intervals@))
    &&& chart.markers@.len() == markers.len()
    &&& forall|k: int|
        0 <= k < markers.len() ==> draws_marker(markers[k], #[trigger] chart.markers@[k])
    &&& legend(ops, all_roles(series.buckets@), characters, options.language, chart.characters@)
    &&& chart.buckets@.len() == series.buckets@.len()
    &&& forall|k: int|
        0 <= k < series.buckets@.len() ==> draws_bucket(
            series.buckets@[k],
            #[trigger] chart.buckets@[k],
        )
    &&& chart.segments@ == readings.segments@.map_values(
        |segment: CombatSegment| drawn_segment(segment),
    )
}

/// Draws the chart of what the engine read at a bucket width.
pub fn chart_readings<F: Fn(Arith) -> Double>(
    readings: &TimelineReadings,
    characters: &HashMap<u32, CharacterInfo>,
    options: TimelineProjectionOptions,
    bucket: BucketWidth,
    ops: &F,
) -> (chart: TimelineProjection)
    requires
        lawful(*ops),
    ensures
        charts(*ops, *readings, characters@, options, bucket, chart),
{
    let series = &readings.series;
    let own_markers = match options.scope {
        TimelineScope::Whole => false,
        TimelineScope::First | TimelineScope::Second => series.start_timestamp.is_some()
            && series.end_timestamp.is_some(),
    };
    let markers = if own_markers {
        project_markers(&readings.half_markers)
    } else {
        project_markers(&series.markers)
    };
    // The chart owns complete buckets, so one hit still spans one bucket.
    let duration = if series.buckets.len() == 0 {
        Double::zero()
    } else {
        series.buckets[series.buckets.len() - 1].end_offset.finite_non_negative()
    };
    let time_stop_intervals = project_intervals(&series.time_stop_intervals);
    let time_stop_duration = timeline_time_stop_duration(&time_stop_intervals, ops);
    TimelineProjection {
        bucket_seconds: bucket.seconds,
        bucket_seconds_min: bucket.min,
        bucket_seconds_max: bucket.max,
        bucket_seconds_step: Double { bits: TIMELINE_BUCKET_SECONDS_STEP },
        duration,
        total_damage: series.total_damage.finite_non_negative(),
        peak_dps: peak_dps(&series.buckets),
        time_stop_duration,
        time_stop_intervals,
        markers,
        characters: project_characters(&series.buckets, characters, options.language, ops),
        buckets: project_buckets(&series.buckets),
        segments: project_segments(&readings.segments),
    }
}

/// The engine reads the timeline of every session, at every width.
pub open spec fn reads_timelines<
    R: Fn(&CombatState, TimelineScope, Double, bool) -> TimelineReadings,
>(read: R) -> bool {
    forall|state: CombatState, scope: TimelineScope, seconds: Double, subtract_time_stop: bool|
        #[trigger] call_requires(read, (&state, scope, seconds, subtract_time_stop))
}

/// Every width that is asked for is made valid.
pub open spec fn sizes_buckets<B: Fn(Single) -> BucketWidth>(width: B) -> bool {
    forall|seconds: Single| #[trigger] call_requires(width, (seconds,))
}

/// Whether `chart` is the chart of a session: the width that was asked for is
/// made valid, and the engine reads the session in the scope, at that width
/// and with that way of measuring time.
pub open spec fn draws_timeline<
    F: Fn(Arith) -> Double,
    R: Fn(&CombatState, TimelineScope, Double, bool) -> TimelineReadings,
    B: Fn(Single) -> BucketWidth,
>(
    ops: F,
    read: R,
    width: B,
    state: CombatState,
    characters: Map<u32, CharacterInfo>,
    options: TimelineProjectionOptions,
    chart: TimelineProjection,
) -> bool {
    exists|bucket: BucketWidth, readings: TimelineReadings|
        {
            &&& #[trigger] call_ensures(width, (options.bucket_seconds,), bucket)
            &&& call_ensures(
                read,
                (&state, options.scope, bucket.seconds, options.subtract_time_stop),
                readings,
            )
            &&& #[trigger] charts(ops, readings, characters, options, bucket, chart)
        }
}

/// Draws the chart of one scope of a session. `width` makes a bucket width
/// valid, and `read` asks the engine.
pub fn project_timeline<
    F: Fn(Arith) -> Double,
    R: Fn(&CombatState, TimelineScope, Double, bool) -> TimelineReadings,
    B: Fn(Single) -> BucketWidth,
>(
    state: &CombatState,
    characters: &HashMap<u32, CharacterInfo>,
    options: TimelineProjectionOptions,
    read: &R,
    width: &B,
    ops: &F,
) -> (chart: TimelineProjection)
    requires
        lawful(*ops),
        reads_timelines(*read),
        sizes_buckets(*width),
    ensures
        draws_timeline(*ops, *read, *width, *state, characters@, options, chart),
{
    let bucket = width(options.bucket_seconds);
    let readings = read(state, options.scope, bucket.seconds, options.subtract_time_stop);
    chart_readings(&readings, characters, options, bucket, ops)
}

} // verus!
