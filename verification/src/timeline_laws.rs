//! What a damage-over-time chart can be relied on to show.
use std::collections::HashMap;

use vstd::prelude::*;

use crate::battle::{
    battle_options, battle_timeline, chart_fits, on_timeline, reads_bucket, reads_chart, span_of,
    spans_enclose_their_hits, BattleReadError, BattleRecordContext, BattleTimelineDto,
};
use crate::double::{answer, sum_of, Arith, Double};
use crate::hud_laws::fit;
use crate::model::{CharacterInfo, CombatState, Hit};
use crate::single::Single;
use crate::text::{decimal, shown};
use crate::timeline::{
    all_roles, chart_readings, charts, damages_of, draws_bucket, draws_timeline, legend_entry,
    listed_before, peak_of, project_timeline, takes_part, team_readings, BucketWidth, RoleDamage,
    TimelineBucket, TimelineCharacterProjection, TimelineInterval, TimelineProjection,
    TimelineProjectionOptions, TimelineReadings, TimelineScope,
};

verus! {

/// Every reading of the buckets can be shown as it is.
pub open spec fn fit_buckets(buckets: Seq<TimelineBucket>) -> bool {
    forall|k: int|
        0 <= k < buckets.len() ==> {
            let bucket = #[trigger] buckets[k];
            &&& fit(bucket.start_offset)
            &&& fit(bucket.end_offset)
            &&& fit(bucket.dps)
            &&& fit(bucket.damage)
            &&& fit(bucket.cumulative_damage)
        }
}

/// The cumulative readings are the running sums of the damage, and the total is
/// the last of them.
pub open spec fn runs_up<F: Fn(Arith) -> Double>(
    ops: F,
    buckets: Seq<TimelineBucket>,
    total: Double,
) -> bool {
    &&& buckets.len() > 0 ==> buckets[0].cumulative_damage == buckets[0].damage
    &&& forall|k: int|
        0 < k < buckets.len() ==> (#[trigger] buckets[k]).cumulative_damage == answer(
            ops,
            Arith::Sum(buckets[k - 1].cumulative_damage, buckets[k].damage),
        )
    &&& buckets.len() > 0 ==> total == buckets.last().cumulative_damage
}

/// Adding something from zero up makes nothing smaller.
pub open spec fn adds_upward<F: Fn(Arith) -> Double>(ops: F) -> bool {
    forall|left: Double, right: Double|
        fit(left) && fit(right) ==> (#[trigger] answer(ops, Arith::Sum(left, right))).rank()
            >= left.rank()
}

/// The curve of a chart runs up with its bars: each cumulative damage is the
/// one before and the bucket's own damage together, none is smaller than the
/// one before, and the last is the total.
pub proof fn curves_run_up_with_their_bars<F: Fn(Arith) -> Double>(
    readings: &TimelineReadings,
    characters: &HashMap<u32, CharacterInfo>,
    options: TimelineProjectionOptions,
    width: BucketWidth,
    ops: &F,
    chart: TimelineProjection,
)
    requires
        call_ensures(
            chart_readings::<F>,
            (readings, characters, options, width, ops),
            chart,
        ),
        fit_buckets(readings.series.buckets@),
        runs_up(*ops, readings.series.buckets@, readings.series.total_damage),
        adds_upward(*ops),
    ensures
        chart.buckets@.len() == readings.series.buckets@.len(),
        chart.buckets@.len() > 0 ==> chart.buckets@[0].cumulative_damage
            == chart.buckets@[0].damage,
        forall|k: int|
            0 < k < chart.buckets@.len() ==> {
                let bucket = #[trigger] chart.buckets@[k];
                let before = chart.buckets@[k - 1];
                &&& bucket.cumulative_damage == answer(
                    *ops,
                    Arith::Sum(before.cumulative_damage, bucket.damage),
                )
                &&& before.cumulative_damage.rank() <= bucket.cumulative_damage.rank()
            },
        chart.buckets@.len() > 0 ==> chart.buckets@.last().cumulative_damage
            == chart.total_damage,
{
    let buckets = readings.series.buckets@;
    assert forall|k: int| 0 < k < chart.buckets@.len() implies ({
        let bucket = #[trigger] chart.buckets@[k];
        let before = chart.buckets@[k - 1];
        &&& bucket.cumulative_damage == answer(
            *ops,
            Arith::Sum(before.cumulative_damage, bucket.damage),
        )
        &&& before.cumulative_damage.rank() <= bucket.cumulative_damage.rank()
    }) by {
        assert(draws_bucket(buckets[k], chart.buckets@[k]));
        assert(draws_bucket(buckets[k - 1], chart.buckets@[k - 1]));
        assert(fit(buckets[k].damage) && fit(buckets[k - 1].cumulative_damage));
    }
    if buckets.len() > 0 {
        assert(draws_bucket(buckets[0], chart.buckets@[0]));
        let last = buckets.len() - 1;
        assert(draws_bucket(buckets[last], chart.buckets@[last]));
        assert(fit(buckets[last].cumulative_damage));
    }
}

/// Each bucket of a chart shows what the engine read of it: its times, the
/// team's DPS, its damage and its hits, and each character's own DPS.
pub proof fn bars_show_their_buckets<F: Fn(Arith) -> Double>(
    readings: &TimelineReadings,
    characters: &HashMap<u32, CharacterInfo>,
    options: TimelineProjectionOptions,
    width: BucketWidth,
    ops: &F,
    chart: TimelineProjection,
    k: int,
)
    requires
        call_ensures(
            chart_readings::<F>,
            (readings, characters, options, width, ops),
            chart,
        ),
        fit_buckets(readings.series.buckets@),
        0 <= k < readings.series.buckets@.len(),
    ensures
        chart.buckets@.len() == readings.series.buckets@.len(),
        ({
            let bucket = readings.series.buckets@[k];
            let bar = chart.buckets@[k];
            &&& bar.start == bucket.start_offset
            &&& bar.end == bucket.end_offset
            &&& bar.team_dps == bucket.dps
            &&& bar.damage == bucket.damage
            &&& bar.hits == bucket.hits
            &&& bar.cumulative_damage == bucket.cumulative_damage
            &&& bar.roles@.len() == bucket.role_damage@.len()
            &&& forall|i: int|
                0 <= i < bar.roles@.len() ==> (#[trigger] bar.roles@[i]).character_id
                    == bucket.role_damage@[i].char_id && (fit(bucket.role_damage@[i].dps)
                    ==> bar.roles@[i].dps == bucket.role_damage@[i].dps)
        }),
{
    assert(draws_bucket(readings.series.buckets@[k], chart.buckets@[k]));
    assert(fit(readings.series.buckets@[k].damage));
}

proof fn peaks_are_largest(values: Seq<Double>)
    requires
        forall|k: int| 0 <= k < values.len() ==> fit(#[trigger] values[k]),
    ensures
        fit(peak_of(values)),
        forall|k: int|
            0 <= k < values.len() ==> (#[trigger] values[k]).rank() <= peak_of(values).rank(),
        peak_of(values).bits == 0 || exists|k: int|
            0 <= k < values.len() && #[trigger] values[k] == peak_of(values),
    decreases values.len(),
{
    if values.len() > 0 {
        let shorter = values.drop_last();
        assert forall|k: int| 0 <= k < shorter.len() implies fit(#[trigger] shorter[k]) by {
            assert(shorter[k] == values[k]);
        }
        peaks_are_largest(shorter);
        assert(fit(values[values.len() - 1]));
        assert forall|k: int| 0 <= k < values.len() implies (#[trigger] values[k]).rank()
            <= peak_of(values).rank() by {
            if k < shorter.len() {
                assert(shorter[k] == values[k]);
            }
        }
        if peak_of(values).bits != 0 {
            if peak_of(values) == values.last() {
                assert(values[values.len() - 1] == peak_of(values));
            } else {
                let k = choose|k: int|
                    0 <= k < shorter.len() && #[trigger] shorter[k] == peak_of(shorter);
                assert(values[k] == peak_of(values));
            }
        }
    }
}

/// The peak of a chart is the largest team DPS of its buckets, its duration
/// ends with the last one, and its total is the engine's.
pub proof fn charts_peak_at_their_largest_bucket<F: Fn(Arith) -> Double>(
    readings: &TimelineReadings,
    characters: &HashMap<u32, CharacterInfo>,
    options: TimelineProjectionOptions,
    width: BucketWidth,
    ops: &F,
    chart: TimelineProjection,
)
    requires
        call_ensures(
            chart_readings::<F>,
            (readings, characters, options, width, ops),
            chart,
        ),
        fit_buckets(readings.series.buckets@),
    ensures
        forall|k: int|
            0 <= k < chart.buckets@.len() ==> (#[trigger] chart.buckets@[k]).team_dps.rank()
                <= chart.peak_dps.rank(),
        chart.peak_dps.bits == 0 || exists|k: int|
            0 <= k < chart.buckets@.len() && (#[trigger] chart.buckets@[k]).team_dps
                == chart.peak_dps,
        chart.buckets@.len() == 0 ==> chart.duration.bits == 0,
        chart.buckets@.len() > 0 ==> chart.duration == chart.buckets@.last().end,
        fit(readings.series.total_damage) ==> chart.total_damage == readings.series.total_damage,
        chart.bucket_seconds == width.seconds,
        chart.bucket_seconds_min == width.min,
        chart.bucket_seconds_max == width.max,
{
    let buckets = readings.series.buckets@;
    let values = team_readings(buckets);
    assert forall|k: int| 0 <= k < values.len() implies fit(#[trigger] values[k]) by {
        assert(fit(buckets[k].dps));
    }
    peaks_are_largest(values);
    assert forall|k: int| 0 <= k < chart.buckets@.len() implies (
    #[trigger] chart.buckets@[k]).team_dps.rank() <= chart.peak_dps.rank() by {
        assert(draws_bucket(buckets[k], chart.buckets@[k]));
        assert(values[k] == buckets[k].dps);
        assert(fit(buckets[k].dps));
    }
    if chart.peak_dps.bits != 0 {
        let k = choose|k: int| 0 <= k < values.len() && #[trigger] values[k] == peak_of(values);
        assert(draws_bucket(buckets[k], chart.buckets@[k]));
        assert(fit(buckets[k].dps));
        assert(chart.buckets@[k].team_dps == chart.peak_dps);
    }
    if buckets.len() > 0 {
        let last = buckets.len() - 1;
        assert(draws_bucket(buckets[last], chart.buckets@[last]));
    }
}

/// What one character dealt in one bucket's shares, in order.
pub open spec fn dealt_in(roles: Seq<RoleDamage>, id: u32) -> Seq<Double>
    decreases roles.len(),
{
    if roles.len() == 0 {
        Seq::empty()
    } else if roles.last().char_id == id {
        dealt_in(roles.drop_last(), id).push(roles.last().damage)
    } else {
        dealt_in(roles.drop_last(), id)
    }
}

/// What one character dealt, bucket by bucket.
pub open spec fn dealt_by(buckets: Seq<TimelineBucket>, id: u32) -> Seq<Double>
    decreases buckets.len(),
{
    if buckets.len() == 0 {
        Seq::empty()
    } else {
        dealt_by(buckets.drop_last(), id) + dealt_in(buckets.last().role_damage@, id)
    }
}

/// All damage of the shares can be shown as it is.
pub open spec fn fit_shares(buckets: Seq<TimelineBucket>) -> bool {
    forall|k: int, i: int|
        0 <= k < buckets.len() && 0 <= i < buckets[k].role_damage@.len() ==> fit(
            (#[trigger] buckets[k].role_damage@[i]).damage,
        )
}

proof fn shares_of_one_bucket(roles: Seq<RoleDamage>, id: u32)
    requires
        forall|i: int| 0 <= i < roles.len() ==> fit((#[trigger] roles[i]).damage),
    ensures
        damages_of(roles, id) == dealt_in(roles, id),
    decreases roles.len(),
{
    if roles.len() > 0 {
        let shorter = roles.drop_last();
        assert forall|i: int| 0 <= i < shorter.len() implies fit((#[trigger] shorter[i]).damage) by {
            assert(shorter[i] == roles[i]);
        }
        shares_of_one_bucket(shorter, id);
        assert(fit(roles[roles.len() - 1].damage));
    }
}

proof fn shares_add_up(left: Seq<RoleDamage>, right: Seq<RoleDamage>, id: u32)
    ensures
        damages_of(left + right, id) == damages_of(left, id) + damages_of(right, id),
    decreases right.len(),
{
    if right.len() == 0 {
        assert(left + right =~= left);
        assert(damages_of(left, id) + damages_of(right, id) =~= damages_of(left, id));
    } else {
        shares_add_up(left, right.drop_last(), id);
        assert((left + right).drop_last() =~= left + right.drop_last());
        assert((left + right).last() == right.last());
        assert(damages_of(left + right, id) =~= damages_of(left, id) + damages_of(right, id));
    }
}

proof fn shares_of_all_buckets(buckets: Seq<TimelineBucket>, id: u32)
    requires
        fit_shares(buckets),
    ensures
        damages_of(all_roles(buckets), id) == dealt_by(buckets, id),
    decreases buckets.len(),
{
    if buckets.len() > 0 {
        let shorter = buckets.drop_last();
        let roles = buckets.last().role_damage@;
        assert forall|k: int, i: int|
            0 <= k < shorter.len() && 0 <= i < shorter[k].role_damage@.len() implies fit(
            (#[trigger] shorter[k].role_damage@[i]).damage,
        ) by {
            assert(shorter[k] == buckets[k]);
            assert(fit(buckets[k].role_damage@[i].damage));
        }
        shares_of_all_buckets(shorter, id);
        assert forall|i: int| 0 <= i < roles.len() implies fit((#[trigger] roles[i]).damage) by {
            assert(fit(buckets[buckets.len() - 1].role_damage@[i].damage));
        }
        shares_of_one_bucket(roles, id);
        shares_add_up(all_roles(shorter), roles, id);
    }
}

/// The legend adds up each character's damage over all buckets, names every
/// character with a share once and no one else, and lists the most damage
/// first.
pub proof fn the_legend_adds_up_the_shares<F: Fn(Arith) -> Double>(
    readings: &TimelineReadings,
    characters: &HashMap<u32, CharacterInfo>,
    options: TimelineProjectionOptions,
    width: BucketWidth,
    ops: &F,
    chart: TimelineProjection,
)
    requires
        call_ensures(
            chart_readings::<F>,
            (readings, characters, options, width, ops),
            chart,
        ),
        fit_shares(readings.series.buckets@),
    ensures
        forall|k: int|
            0 <= k < chart.characters@.len() ==> (#[trigger] chart.characters@[k]).total_damage
                == sum_of(*ops, dealt_by(readings.series.buckets@, chart.characters@[k].id)),
        forall|j: int, k: int|
            0 <= j < k < chart.characters@.len() ==> (#[trigger] chart.characters@[j]).id != (
            #[trigger] chart.characters@[k]).id && chart.characters@[j].total_damage.total_rank()
                >= chart.characters@[k].total_damage.total_rank(),
        forall|b: int, i: int|
            0 <= b < readings.series.buckets@.len() && 0 <= i
                < readings.series.buckets@[b].role_damage@.len() ==> is_named(
                chart.characters@,
                (#[trigger] readings.series.buckets@[b].role_damage@[i]).char_id,
            ),
{
    let buckets = readings.series.buckets@;
    let roles = all_roles(buckets);
    assert forall|k: int| 0 <= k < chart.characters@.len() implies (
    #[trigger] chart.characters@[k]).total_damage == sum_of(
        *ops,
        dealt_by(buckets, chart.characters@[k].id),
    ) by {
        assert(legend_entry(
            *ops,
            roles,
            characters@,
            options.language,
            chart.characters@[k],
        ));
        shares_of_all_buckets(buckets, chart.characters@[k].id);
    }
    assert forall|j: int, k: int| 0 <= j < k < chart.characters@.len() implies (
    #[trigger] chart.characters@[j]).id != (#[trigger] chart.characters@[k]).id
        && chart.characters@[j].total_damage.total_rank()
        >= chart.characters@[k].total_damage.total_rank() by {
        assert(listed_before(chart.characters@[j], chart.characters@[k]));
    }
    assert forall|b: int, i: int|
        0 <= b < buckets.len() && 0 <= i < buckets[b].role_damage@.len() implies is_named(
        chart.characters@,
        (#[trigger] buckets[b].role_damage@[i]).char_id,
    ) by {
        let id = buckets[b].role_damage@[i].char_id;
        shares_take_part(buckets, b, i);
        assert(takes_part(roles, id));
        assert(crate::timeline::listed(chart.characters@, id));
        let k = choose|k: int|
            0 <= k < chart.characters@.len() && (#[trigger] chart.characters@[k]).id == id;
        assert(chart.characters@[k].id == id);
    }
}

/// Whether a legend names a character.
pub open spec fn is_named(entries: Seq<TimelineCharacterProjection>, id: u32) -> bool {
    exists|k: int| 0 <= k < entries.len() && (#[trigger] entries[k]).id == id
}

proof fn shares_take_part(buckets: Seq<TimelineBucket>, b: int, i: int)
    requires
        0 <= b < buckets.len(),
        0 <= i < buckets[b].role_damage@.len(),
    ensures
        takes_part(all_roles(buckets), buckets[b].role_damage@[i].char_id),
    decreases buckets.len(),
{
    let shorter = buckets.drop_last();
    let earlier = all_roles(shorter);
    let roles = buckets.last().role_damage@;
    let all = all_roles(buckets);
    let id = buckets[b].role_damage@[i].char_id;
    if b == buckets.len() - 1 {
        assert(all[earlier.len() + i] == roles[i]);
        assert(all[earlier.len() + i].char_id == id);
    } else {
        assert(shorter[b] == buckets[b]);
        shares_take_part(shorter, b, i);
        let at = choose|at: int| 0 <= at < earlier.len() && (#[trigger] earlier[at]).char_id == id;
        assert(all[at].char_id == id);
    }
}

/// The chart of a half that was fought shows the half's own markers, any other
/// chart those of the session; each stands where the engine put it and is of
/// the kind that it is.
pub proof fn markers_stand_where_they_were_set<F: Fn(Arith) -> Double>(
    readings: &TimelineReadings,
    characters: &HashMap<u32, CharacterInfo>,
    options: TimelineProjectionOptions,
    width: BucketWidth,
    ops: &F,
    chart: TimelineProjection,
    k: int,
)
    requires
        call_ensures(
            chart_readings::<F>,
            (readings, characters, options, width, ops),
            chart,
        ),
        0 <= k < chart.markers@.len(),
    ensures
        ({
            let own = options.scope !is Whole && readings.series.start_timestamp is Some
                && readings.series.end_timestamp is Some;
            let markers = if own {
                readings.half_markers@
            } else {
                readings.series.markers@
            };
            let marker = markers[k];
            let drawn = chart.markers@[k];
            &&& chart.markers@.len() == markers.len()
            &&& fit(marker.offset) ==> drawn.offset == marker.offset
            &&& drawn.label_key@ == marker.label@
            &&& drawn.kind is Half <==> marker.kind is HalfStart
            &&& drawn.kind is Clear <==> marker.kind is Clear
            &&& drawn.kind is Exit <==> marker.kind is Exit
        }),
{
}

/// The lengths of drawn intervals.
pub open spec fn interval_lengths<F: Fn(Arith) -> Double>(
    ops: F,
    intervals: Seq<TimelineInterval>,
) -> Seq<Double>
    decreases intervals.len(),
{
    if intervals.len() == 0 {
        Seq::empty()
    } else {
        interval_lengths(ops, intervals.drop_last()).push(
            answer(
                ops,
                Arith::Difference(intervals.last().end_offset, intervals.last().start_offset),
            ),
        )
    }
}

proof fn lengths_are_interval_lengths<F: Fn(Arith) -> Double>(
    ops: F,
    intervals: Seq<TimelineInterval>,
    drawn: Seq<crate::timeline::TimelineIntervalProjection>,
)
    requires
        drawn == intervals.map_values(
            |interval: TimelineInterval| crate::timeline::drawn_interval(interval),
        ),
        forall|k: int|
            0 <= k < intervals.len() ==> {
                let interval = #[trigger] intervals[k];
                &&& fit(interval.start_offset)
                &&& fit(interval.end_offset)
                &&& fit(
                    answer(ops, Arith::Difference(interval.end_offset, interval.start_offset)),
                )
            },
    ensures
        crate::timeline::lengths_of(ops, drawn) == interval_lengths(ops, intervals),
    decreases intervals.len(),
{
    let lengths = crate::timeline::lengths_of(ops, drawn);
    if intervals.len() > 0 {
        let shorter = intervals.drop_last();
        assert(drawn.drop_last() =~= shorter.map_values(
            |interval: TimelineInterval| crate::timeline::drawn_interval(interval),
        ));
        assert forall|k: int| 0 <= k < shorter.len() implies ({
            let interval = #[trigger] shorter[k];
            &&& fit(interval.start_offset)
            &&& fit(interval.end_offset)
            &&& fit(answer(ops, Arith::Difference(interval.end_offset, interval.start_offset)))
        }) by {
            assert(shorter[k] == intervals[k]);
        }
        lengths_are_interval_lengths(ops, shorter, drawn.drop_last());
        let last = intervals[intervals.len() - 1];
        assert(fit(last.start_offset));
        assert(lengths.drop_last() =~= crate::timeline::lengths_of(ops, drawn.drop_last()));
        assert(lengths =~= lengths.drop_last().push(lengths.last()));
    } else {
        assert(lengths =~= Seq::<Double>::empty());
    }
}

/// The intervals of stopped time stand where the engine found them, and their
/// time together is the sum of their lengths; the stretches of fighting show
/// their times and their DPS.
pub proof fn stopped_time_is_the_sum_of_its_intervals<F: Fn(Arith) -> Double>(
    readings: &TimelineReadings,
    characters: &HashMap<u32, CharacterInfo>,
    options: TimelineProjectionOptions,
    width: BucketWidth,
    ops: &F,
    chart: TimelineProjection,
)
    requires
        call_ensures(
            chart_readings::<F>,
            (readings, characters, options, width, ops),
            chart,
        ),
        forall|k: int|
            0 <= k < readings.series.time_stop_intervals@.len() ==> {
                let interval = #[trigger] readings.series.time_stop_intervals@[k];
                &&& fit(interval.start_offset)
                &&& fit(interval.end_offset)
                &&& fit(
                    answer(*ops, Arith::Difference(interval.end_offset, interval.start_offset)),
                )
            },
    ensures
        chart.time_stop_intervals@.len() == readings.series.time_stop_intervals@.len(),
        forall|k: int|
            0 <= k < chart.time_stop_intervals@.len() ==> (
            #[trigger] chart.time_stop_intervals@[k]).start
                == readings.series.time_stop_intervals@[k].start_offset
                && chart.time_stop_intervals@[k].end
                == readings.series.time_stop_intervals@[k].end_offset,
        chart.time_stop_duration == sum_of(
            *ops,
            interval_lengths(*ops, readings.series.time_stop_intervals@),
        ),
        chart.segments@.len() == readings.segments@.len(),
        forall|k: int|
            0 <= k < chart.segments@.len() ==> {
                let segment = readings.segments@[k];
                let drawn = #[trigger] chart.segments@[k];
                &&& fit(segment.start_offset) ==> drawn.start == segment.start_offset
                &&& fit(segment.end_offset) ==> drawn.end == segment.end_offset
                &&& fit(segment.dps) ==> drawn.dps == segment.dps
            },
{
    let intervals = readings.series.time_stop_intervals@;
    lengths_are_interval_lengths(*ops, intervals, chart.time_stop_intervals@);
    assert forall|k: int| 0 <= k < chart.time_stop_intervals@.len() implies (
    #[trigger] chart.time_stop_intervals@[k]).start == intervals[k].start_offset
        && chart.time_stop_intervals@[k].end == intervals[k].end_offset by {
        assert(fit(intervals[k].start_offset));
    }
}

/// A chart is drawn of what the engine reads of the session, in the scope, at
/// the width made valid, and with the time basis that were asked for.
pub proof fn charts_are_drawn_of_what_was_asked<
    F: Fn(Arith) -> Double,
    R: Fn(&CombatState, TimelineScope, Double, bool) -> TimelineReadings,
    B: Fn(Single) -> BucketWidth,
>(
    state: &CombatState,
    characters: &HashMap<u32, CharacterInfo>,
    options: TimelineProjectionOptions,
    read: &R,
    width: &B,
    ops: &F,
    chart: TimelineProjection,
    valid: BucketWidth,
    readings: TimelineReadings,
)
    requires
        call_ensures(
            project_timeline::<F, R, B>,
            (state, characters, options, read, width, ops),
            chart,
        ),
        forall|other: BucketWidth| #[trigger]
            call_ensures(*width, (options.bucket_seconds,), other) ==> other == valid,
        forall|other: TimelineReadings| #[trigger]
            call_ensures(
                *read,
                (state, options.scope, valid.seconds, options.subtract_time_stop),
                other,
            ) ==> other == readings,
        fit_buckets(readings.series.buckets@),
    ensures
        chart.bucket_seconds == valid.seconds,
        chart.buckets@.len() == readings.series.buckets@.len(),
        forall|k: int|
            0 <= k < chart.buckets@.len() ==> (#[trigger] chart.buckets@[k]).damage
                == readings.series.buckets@[k].damage && chart.buckets@[k].cumulative_damage
                == readings.series.buckets@[k].cumulative_damage && chart.buckets@[k].hits
                == readings.series.buckets@[k].hits,
        fit(readings.series.total_damage) ==> chart.total_damage == readings.series.total_damage,
{
    assert forall|k: int| 0 <= k < chart.buckets@.len() implies (
    #[trigger] chart.buckets@[k]).damage == readings.series.buckets@[k].damage
        && chart.buckets@[k].cumulative_damage == readings.series.buckets@[k].cumulative_damage
        && chart.buckets@[k].hits == readings.series.buckets@[k].hits by {
        assert(draws_bucket(readings.series.buckets@[k], chart.buckets@[k]));
        assert(fit(readings.series.buckets@[k].damage));
    }
}

/// The timeline of a battle says what the chart of the scope that was asked for
/// says: bucket by bucket its times, the team's DPS, its damage, its hits and
/// the damage so far, and the totals, the peak and the times of the whole.
pub proof fn battle_timelines_say_what_the_chart_says<
    F: Fn(Arith) -> Double,
    W: Fn(Double) -> usize,
    R: Fn(&CombatState, TimelineScope, Double, bool) -> TimelineReadings,
    B: Fn(Single) -> BucketWidth,
>(
    state: &CombatState,
    characters: &HashMap<u32, CharacterInfo>,
    context: BattleRecordContext,
    scope: TimelineScope,
    bucket_seconds: Single,
    subtract_time_stop: bool,
    read: &R,
    width: &B,
    ops: &F,
    whole: &W,
    timeline: BattleTimelineDto,
    valid: BucketWidth,
    readings: TimelineReadings,
)
    requires
        call_ensures(
            battle_timeline::<F, W, R, B>,
            (
                state,
                characters,
                context,
                scope,
                bucket_seconds,
                subtract_time_stop,
                read,
                width,
                ops,
                whole,
            ),
            Ok::<BattleTimelineDto, BattleReadError>(timeline),
        ),
        forall|other: BucketWidth| #[trigger]
            call_ensures(*width, (bucket_seconds,), other) ==> other == valid,
        forall|other: TimelineReadings| #[trigger]
            call_ensures(*read, (state, scope, valid.seconds, subtract_time_stop), other)
                ==> other == readings,
        fit_buckets(readings.series.buckets@),
    ensures
        timeline.battle_record_id@ == context.id@,
        timeline.generation@ == decimal(context.generation as nat),
        timeline.finalized <==> context.finalized,
        timeline.complete <==> context.axis_base_sequence == 0,
        timeline.scope@ == (match scope {
            TimelineScope::Whole => "all"@,
            TimelineScope::First => "upper"@,
            TimelineScope::Second => "lower"@,
        }),
        timeline.bucket_seconds == valid.seconds,
        timeline.bucket_seconds_min == valid.min,
        timeline.bucket_seconds_max == valid.max,
        fit(readings.series.total_damage) ==> timeline.total_damage
            == readings.series.total_damage,
        timeline.buckets@.len() == readings.series.buckets@.len(),
        timeline.buckets@.len() <= 10_000,
        forall|k: int|
            0 <= k < timeline.buckets@.len() ==> {
                let bucket = readings.series.buckets@[k];
                let told = #[trigger] timeline.buckets@[k];
                &&& told.start_offset_seconds == bucket.start_offset
                &&& told.end_offset_seconds == bucket.end_offset
                &&& told.team_dps == bucket.dps
                &&& told.damage == bucket.damage
                &&& told.hits@ == decimal(bucket.hits as nat)
                &&& told.cumulative_damage == bucket.cumulative_damage
                &&& told.roles@.len() == bucket.role_damage@.len()
                &&& forall|i: int|
                    0 <= i < told.roles@.len() ==> (#[trigger] told.roles@[i]).character_id
                        == bucket.role_damage@[i].char_id && (fit(bucket.role_damage@[i].dps)
                        ==> told.roles@[i].dps == bucket.role_damage@[i].dps)
            },
        forall|k: int|
            0 <= k < timeline.buckets@.len() ==> (#[trigger] timeline.buckets@[k]).team_dps.rank()
                <= timeline.peak_dps.rank(),
        timeline.buckets@.len() > 0 ==> timeline.duration_seconds
            == timeline.buckets@.last().end_offset_seconds,
        timeline.segments@.len() == readings.segments@.len(),
        forall|k: int|
            0 <= k < timeline.segments@.len() ==> {
                let segment = readings.segments@[k];
                let told = #[trigger] timeline.segments@[k];
                &&& fit(segment.start_offset) ==> told.start_offset_seconds
                    == segment.start_offset
                &&& fit(segment.end_offset) ==> told.end_offset_seconds == segment.end_offset
                &&& fit(segment.dps) ==> told.dps == segment.dps
            },
        timeline.time_stop_intervals@.len() == readings.series.time_stop_intervals@.len(),
        forall|k: int|
            0 <= k < timeline.time_stop_intervals@.len() ==> {
                let interval = readings.series.time_stop_intervals@[k];
                let told = #[trigger] timeline.time_stop_intervals@[k];
                &&& fit(interval.start_offset) ==> told.start_offset_seconds
                    == interval.start_offset
                &&& fit(interval.end_offset) ==> told.end_offset_seconds == interval.end_offset
            },
{
    let options = battle_options(scope, bucket_seconds, subtract_time_stop);
    let hits = crate::battle::hits_in(*state, scope);
    let chart = choose|chart: TimelineProjection|
        {
            &&& #[trigger] draws_timeline(
                *ops,
                *read,
                *width,
                *state,
                characters@,
                options,
                chart,
            )
            &&& chart_fits(chart)
            &&& reads_chart(chart, context, scope, span_of(hits), timeline)
        };
    assert(charts(*ops, readings, characters@, options, valid, chart));
    let buckets = readings.series.buckets@;
    let values = team_readings(buckets);
    assert forall|k: int| 0 <= k < values.len() implies fit(#[trigger] values[k]) by {
        assert(fit(buckets[k].dps));
    }
    peaks_are_largest(values);
    assert forall|k: int| 0 <= k < timeline.buckets@.len() implies ({
        let bucket = buckets[k];
        let told = #[trigger] timeline.buckets@[k];
        &&& told.start_offset_seconds == bucket.start_offset
        &&& told.end_offset_seconds == bucket.end_offset
        &&& told.team_dps == bucket.dps
        &&& told.damage == bucket.damage
        &&& told.hits@ == decimal(bucket.hits as nat)
        &&& told.cumulative_damage == bucket.cumulative_damage
        &&& told.roles@.len() == bucket.role_damage@.len()
        &&& told.team_dps.rank() <= timeline.peak_dps.rank()
        &&& forall|i: int|
            0 <= i < told.roles@.len() ==> (#[trigger] told.roles@[i]).character_id
                == bucket.role_damage@[i].char_id && (fit(bucket.role_damage@[i].dps)
                ==> told.roles@[i].dps == bucket.role_damage@[i].dps)
    }) by {
        assert(reads_bucket(chart.buckets@[k], timeline.buckets@[k]));
        assert(draws_bucket(buckets[k], chart.buckets@[k]));
        assert(fit(buckets[k].damage));
        assert(values[k] == buckets[k].dps);
    }
    if buckets.len() > 0 {
        let last = buckets.len() - 1;
        assert(reads_bucket(chart.buckets@[last], timeline.buckets@[last]));
        assert(draws_bucket(buckets[last], chart.buckets@[last]));
    }
}

/// Whether a time is that of the earliest of some hits that is not incoming;
/// without such a hit there is none.
pub open spec fn begins_with(hits: Seq<Hit>, start: Option<Double>) -> bool {
    &&& forall|i: int|
        0 <= i < hits.len() && (#[trigger] hits[i]).direction !is Incoming
            && hits[i].timestamp.finite() ==> start is Some && start->0.rank()
            <= hits[i].timestamp.rank()
    &&& start is Some ==> exists|j: int|
        0 <= j < hits.len() && (#[trigger] hits[j]).direction !is Incoming && hits[j].timestamp
            == start->0
}

/// The timeline of a battle begins with the earliest hit in its scope that is
/// not incoming; a scope without one has no beginning.
pub proof fn battle_timelines_begin_with_the_first_hit<
    F: Fn(Arith) -> Double,
    W: Fn(Double) -> usize,
    R: Fn(&CombatState, TimelineScope, Double, bool) -> TimelineReadings,
    B: Fn(Single) -> BucketWidth,
>(
    state: &CombatState,
    characters: &HashMap<u32, CharacterInfo>,
    context: BattleRecordContext,
    scope: TimelineScope,
    bucket_seconds: Single,
    subtract_time_stop: bool,
    read: &R,
    width: &B,
    ops: &F,
    whole: &W,
    timeline: BattleTimelineDto,
)
    requires
        call_ensures(
            battle_timeline::<F, W, R, B>,
            (
                state,
                characters,
                context,
                scope,
                bucket_seconds,
                subtract_time_stop,
                read,
                width,
                ops,
                whole,
            ),
            Ok::<BattleTimelineDto, BattleReadError>(timeline),
        ),
    ensures
        begins_with(
            match scope {
                TimelineScope::Whole => state.battle.team.hits@,
                TimelineScope::First => state.battle.abyss.first_half.hits@,
                TimelineScope::Second => state.battle.abyss.second_half.hits@,
            },
            timeline.started_at_unix,
        ),
{
    let hits = crate::battle::hits_in(*state, scope);
    let options = battle_options(scope, bucket_seconds, subtract_time_stop);
    let chart = choose|chart: TimelineProjection|
        {
            &&& #[trigger] draws_timeline(
                *ops,
                *read,
                *width,
                *state,
                characters@,
                options,
                chart,
            )
            &&& chart_fits(chart)
            &&& reads_chart(chart, context, scope, span_of(hits), timeline)
        };
    assert(reads_chart(chart, context, scope, span_of(hits), timeline));
    spans_enclose_their_hits(hits);
    assert forall|i: int|
        0 <= i < hits.len() && (#[trigger] hits[i]).direction !is Incoming
            && hits[i].timestamp.finite() implies timeline.started_at_unix is Some
        && timeline.started_at_unix->0.rank() <= hits[i].timestamp.rank() by {
        assert(on_timeline(hits[i]));
    }
    if timeline.started_at_unix is Some {
        let span = span_of(hits)->0;
        let start = span.0;
        let j = choose|j: int|
            0 <= j < hits.len() && on_timeline(#[trigger] hits[j]) && hits[j].timestamp == start;
        assert(hits[j].direction !is Incoming && hits[j].timestamp == start);
    }
}

} // verus!
