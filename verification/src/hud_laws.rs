//! What the HUD can be relied on to show.
use std::collections::HashSet;

use vstd::prelude::*;

use crate::double::{answer, sum_of, Arith, Double, HUNDRED_BITS, INFINITY_BITS};
use crate::hud::{
    draws_group, draws_rows, drawn_peak, gets_row, group_count, group_damages, group_hits, group_of,
    group_size, preview_row, project_hud, project_timeline, ranked, ranks_rows, stands_above,
    HudConfig, HudConfigSnapshot, HudCharacterSnapshot, HudProjectionOptions, HudSnapshot,
    HudTimelineBucketSnapshot, HudTimelineSnapshot,
};
use crate::model::{AbyssHalf, CombatState, PartyCombatState};
use crate::text::decimal;
use crate::timeline::TimelineSeries;

verus! {

/// A reading that can be shown as it is: a finite number from zero up.
pub open spec fn fit(value: Double) -> bool {
    value.bits < INFINITY_BITS
}

/// A reading that can be shown as it is, is. Anything else shows as zero, of
/// either sign.
pub proof fn fit_readings_show_as_they_are(value: Double, shown: Double)
    requires
        call_ensures(Double::finite_non_negative, (value,), shown),
    ensures
        fit(value) ==> shown == value,
        !fit(value) ==> shown.rank() == 0,
        shown.finite(),
{
}

/// The party that the HUD presents: the whole session outside of a challenge;
/// in one the selected half, or else the one in progress, or else the first.
pub open spec fn presented(state: CombatState, selected: Option<AbyssHalf>) -> PartyCombatState {
    let abyss = state.battle.abyss;
    if !abyss.active {
        state.battle.team
    } else if selected == Some(AbyssHalf::First) {
        abyss.first_half
    } else if selected == Some(AbyssHalf::Second) {
        abyss.second_half
    } else if abyss.active_half == Some(AbyssHalf::Second) {
        abyss.second_half
    } else {
        abyss.first_half
    }
}

/// The totals line of a live session shows the engine's readings of the
/// presented party: its DPS and its duration on the selected time basis, its
/// damage, and the damage that it took.
pub proof fn the_totals_line_shows_the_engines_readings<
    F: Fn(Arith) -> Double,
    T: Fn(&CombatState, Option<AbyssHalf>, Double, bool) -> TimelineSeries,
    Z: Fn(&HudConfig) -> HudConfig,
>(
    state: &CombatState,
    config: &HudConfig,
    hidden: &HashSet<u32>,
    options: HudProjectionOptions,
    series_of: &T,
    sanitize: &Z,
    ops: &F,
    hud: HudSnapshot,
)
    requires
        call_ensures(
            project_hud::<F, T, Z>,
            (state, config, hidden, options, series_of, sanitize, ops),
            hud,
        ),
        hud.data_state is Live,
    ensures
        ({
            let party = presented(*state, options.selected_abyss_half);
            let shown = hud.summary->0;
            &&& hud.summary is Some
            &&& options.dps_time_basis is SubtractTimeStop && fit(party.dps.subtract_time_stop)
                ==> shown.team_dps == party.dps.subtract_time_stop
            &&& options.dps_time_basis is WallClock && fit(party.dps.wall_clock)
                ==> shown.team_dps == party.dps.wall_clock
            &&& options.dps_time_basis is SubtractTimeStop && fit(
                party.duration.subtract_time_stop,
            ) ==> shown.duration_seconds == party.duration.subtract_time_stop
            &&& options.dps_time_basis is WallClock && fit(party.duration.wall_clock)
                ==> shown.duration_seconds == party.duration.wall_clock
            &&& fit(party.total_damage) ==> shown.total_damage == party.total_damage
            &&& fit(party.total_damage_taken) ==> shown.total_damage_taken
                == party.total_damage_taken
        }),
{
}

/// The team DPS of two live readouts on the same time basis is the same where
/// the engine reads the same DPS, whatever the damage is, and differs where it
/// reads different ones.
pub proof fn team_dps_follows_the_dps_reading_alone<
    F: Fn(Arith) -> Double,
    T: Fn(&CombatState, Option<AbyssHalf>, Double, bool) -> TimelineSeries,
    Z: Fn(&HudConfig) -> HudConfig,
>(
    left: &CombatState,
    right: &CombatState,
    config: &HudConfig,
    hidden: &HashSet<u32>,
    options: HudProjectionOptions,
    series_of: &T,
    sanitize: &Z,
    ops: &F,
    left_hud: HudSnapshot,
    right_hud: HudSnapshot,
)
    requires
        call_ensures(
            project_hud::<F, T, Z>,
            (left, config, hidden, options, series_of, sanitize, ops),
            left_hud,
        ),
        call_ensures(
            project_hud::<F, T, Z>,
            (right, config, hidden, options, series_of, sanitize, ops),
            right_hud,
        ),
        left_hud.data_state is Live,
        right_hud.data_state is Live,
    ensures
        ({
            let ours = presented(*left, options.selected_abyss_half).dps;
            let theirs = presented(*right, options.selected_abyss_half).dps;
            let same = left_hud.summary->0.team_dps == right_hud.summary->0.team_dps;
            &&& options.dps_time_basis is SubtractTimeStop && ours.subtract_time_stop
                == theirs.subtract_time_stop ==> same
            &&& options.dps_time_basis is WallClock && ours.wall_clock == theirs.wall_clock
                ==> same
            &&& options.dps_time_basis is SubtractTimeStop && fit(ours.subtract_time_stop) && fit(
                theirs.subtract_time_stop,
            ) && ours.subtract_time_stop != theirs.subtract_time_stop ==> !same
            &&& options.dps_time_basis is WallClock && fit(ours.wall_clock) && fit(
                theirs.wall_clock,
            ) && ours.wall_clock != theirs.wall_clock ==> !same
        }),
{
}

/// There is a live readout exactly where there is something to read: damage, a
/// DPS, damage taken, or a row. Without one the HUD is empty, or shows the
/// preview where that is asked for.
pub proof fn readouts_are_live_where_there_is_something_to_read<
    F: Fn(Arith) -> Double,
    T: Fn(&CombatState, Option<AbyssHalf>, Double, bool) -> TimelineSeries,
    Z: Fn(&HudConfig) -> HudConfig,
>(
    state: &CombatState,
    config: &HudConfig,
    hidden: &HashSet<u32>,
    options: HudProjectionOptions,
    series_of: &T,
    sanitize: &Z,
    ops: &F,
    hud: HudSnapshot,
)
    requires
        call_ensures(
            project_hud::<F, T, Z>,
            (state, config, hidden, options, series_of, sanitize, ops),
            hud,
        ),
    ensures
        ({
            let party = presented(*state, options.selected_abyss_half);
            &&& 0 < party.total_damage.bits < INFINITY_BITS ==> hud.data_state is Live
            &&& 0 < party.total_damage_taken.bits < INFINITY_BITS ==> hud.data_state is Live
            &&& party.total_damage.bits == 0 && party.total_damage_taken.bits == 0
                && party.dps.wall_clock.bits == 0 && party.dps.subtract_time_stop.bits == 0
                && party.stats@.len() == 0 ==> hud.data_state !is Live
            &&& hud.data_state !is Live ==> (hud.data_state is Preview
                <==> options.preview_when_empty)
            &&& hud.data_state is Empty ==> hud.summary is None && hud.characters@.len() == 0
                && hud.timeline is None
            &&& hud.data_state is Live ==> hud.summary is Some
        }),
{
    let party = presented(*state, options.selected_abyss_half);
    if hud.data_state is Live && party.stats@.len() == 0 {
        let ranking = choose|ranking: Seq<usize>|
            #![trigger ranks_rows(
                party,
                hidden@,
                options.separate_reaction_damage,
                party.stats@.len() as int,
                ranking,
            )]
            {
                &&& ranks_rows(
                    party,
                    hidden@,
                    options.separate_reaction_damage,
                    party.stats@.len() as int,
                    ranking,
                )
                &&& hud.characters@.len() <= ranking.len()
            };
        assert(draws_rows(*ops, party, hidden@, options, hud.characters@));
        if ranking.len() > 0 {
            assert(ranking[0] < 0);
        }
    }
}

/// What the status line says of the challenge.
pub proof fn the_status_line_tells_the_challenge<
    F: Fn(Arith) -> Double,
    T: Fn(&CombatState, Option<AbyssHalf>, Double, bool) -> TimelineSeries,
    Z: Fn(&HudConfig) -> HudConfig,
>(
    state: &CombatState,
    config: &HudConfig,
    hidden: &HashSet<u32>,
    options: HudProjectionOptions,
    series_of: &T,
    sanitize: &Z,
    ops: &F,
    hud: HudSnapshot,
)
    requires
        call_ensures(
            project_hud::<F, T, Z>,
            (state, config, hidden, options, series_of, sanitize, ops),
            hud,
        ),
    ensures
        ({
            let abyss = state.battle.abyss;
            let status = hud.status;
            &&& status.abyss_detected <==> abyss.active
            &&& status.abyss_floor == abyss.floor
            &&& status.abyss_success <==> abyss.success_at is Some
            &&& status.abyss_half is Some <==> abyss.active
            &&& abyss.active && options.selected_abyss_half is Some ==> (
            status.abyss_half->0 is First <==> options.selected_abyss_half->0 is First)
            &&& abyss.active && options.selected_abyss_half is None && abyss.active_half is Some
                ==> (status.abyss_half->0 is First <==> abyss.active_half->0 is First)
            &&& abyss.active && options.selected_abyss_half is None && abyss.active_half is None
                ==> status.abyss_half->0 is First
        }),
{
}

/// Whether a row of the HUD is that of a character's row in a party.
pub open spec fn is_row_of(
    party: PartyCombatState,
    index: int,
    options: HudProjectionOptions,
    row: HudCharacterSnapshot,
) -> bool {
    let stats = party.stats@[index];
    let totals = if options.separate_reaction_damage {
        stats.separated
    } else {
        stats.combined
    };
    &&& row.character_id == stats.char_id
    &&& row.name@ == stats.name@
    &&& row.hits@ == decimal(totals.hits as nat)
    &&& fit(totals.damage) ==> row.damage == totals.damage
    &&& fit(totals.damage_taken) ==> row.damage_taken == totals.damage_taken
    &&& options.dps_time_basis is SubtractTimeStop && fit(totals.dps.subtract_time_stop)
        ==> row.dps == totals.dps.subtract_time_stop
    &&& options.dps_time_basis is WallClock && fit(totals.dps.wall_clock) ==> row.dps
        == totals.dps.wall_clock
}

/// The HUD's row of a character shows the totals of that character under the
/// selected policy and time basis. Hidden characters have no row, no character
/// has two, and there are never more rows than a team has members.
pub proof fn rows_show_their_character<
    F: Fn(Arith) -> Double,
    T: Fn(&CombatState, Option<AbyssHalf>, Double, bool) -> TimelineSeries,
    Z: Fn(&HudConfig) -> HudConfig,
>(
    state: &CombatState,
    config: &HudConfig,
    hidden: &HashSet<u32>,
    options: HudProjectionOptions,
    series_of: &T,
    sanitize: &Z,
    ops: &F,
    hud: HudSnapshot,
)
    requires
        call_ensures(
            project_hud::<F, T, Z>,
            (state, config, hidden, options, series_of, sanitize, ops),
            hud,
        ),
        hud.data_state is Live,
        presented(*state, options.selected_abyss_half).rows_are_distinct(),
    ensures
        ({
            let party = presented(*state, options.selected_abyss_half);
            let rows = hud.characters@;
            &&& rows.len() <= 4
            &&& forall|k: int|
                0 <= k < rows.len() ==> !hidden@.contains((#[trigger] rows[k]).character_id)
                    && exists|index: int|
                    0 <= index < party.stats@.len() && #[trigger] is_row_of(
                        party,
                        index,
                        options,
                        rows[k],
                    )
            &&& forall|j: int, k: int|
                0 <= j < k < rows.len() ==> (#[trigger] rows[j]).character_id != (
                #[trigger] rows[k]).character_id && rows[j].damage.total_rank()
                    >= rows[k].damage.total_rank()
        }),
{
    let party = presented(*state, options.selected_abyss_half);
    let rows = hud.characters@;
    let separate = options.separate_reaction_damage;
    let ranking = ranking_of(*ops, party, hidden@, options, rows);
    assert forall|k: int| 0 <= k < rows.len() implies !hidden@.contains(
        (#[trigger] rows[k]).character_id,
    ) && exists|index: int|
        0 <= index < party.stats@.len() && #[trigger] is_row_of(
            party,
            index,
            options,
            rows[k],
        ) by {
        assert(gets_row(party, hidden@, separate, ranking[k] as int));
        assert(is_row_of(party, ranking[k] as int, options, rows[k]));
    }
    assert forall|j: int, k: int| 0 <= j < k < rows.len() implies (
    #[trigger] rows[j]).character_id != (#[trigger] rows[k]).character_id
        && rows[j].damage.total_rank() >= rows[k].damage.total_rank() by {
        assert(gets_row(party, hidden@, separate, ranking[j] as int));
        assert(gets_row(party, hidden@, separate, ranking[k] as int));
        assert(stands_above(party, separate, ranking[j] as int, ranking[k] as int));
        assert(ranking[j] != ranking[k]);
        if ranking[j] < ranking[k] {
            assert(party.stats@[ranking[j] as int].char_id
                != party.stats@[ranking[k] as int].char_id);
        } else {
            assert(party.stats@[ranking[k] as int].char_id
                != party.stats@[ranking[j] as int].char_id);
        }
    }
}

/// The ranking that the rows were drawn from.
pub proof fn ranking_of<F: Fn(Arith) -> Double>(
    ops: F,
    party: PartyCombatState,
    hidden: Set<u32>,
    options: HudProjectionOptions,
    rows: Seq<HudCharacterSnapshot>,
) -> (ranking: Seq<usize>)
    requires
        draws_rows(ops, party, hidden, options, rows),
    ensures
        ranks_rows(
            party,
            hidden,
            options.separate_reaction_damage,
            party.stats@.len() as int,
            ranking,
        ),
        rows.len() == (if ranking.len() < 4 {
            ranking.len()
        } else {
            4
        }),
        forall|k: int|
            0 <= k < rows.len() ==> crate::hud::draws_row(
                ops,
                party.stats@[ranking[k] as int],
                options,
                party.total_damage,
                #[trigger] rows[k],
            ),
{
    choose|ranking: Seq<usize>|
        {
            &&& #[trigger] ranks_rows(
                party,
                hidden,
                options.separate_reaction_damage,
                party.stats@.len() as int,
                ranking,
            )
            &&& rows.len() == (if ranking.len() < crate::hud::TEAM_DPS_MAX_MEMBERS {
                ranking.len()
            } else {
                crate::hud::TEAM_DPS_MAX_MEMBERS as nat
            })
            &&& forall|k: int|
                0 <= k < rows.len() ==> crate::hud::draws_row(
                    ops,
                    party.stats@[ranking[k] as int],
                    options,
                    party.total_damage,
                    #[trigger] rows[k],
                )
        }
}

/// A character that is not hidden, that dealt a hit of its own and has damage
/// to show, has a row, unless four other rows show no less damage.
pub proof fn no_character_is_left_out<
    F: Fn(Arith) -> Double,
    T: Fn(&CombatState, Option<AbyssHalf>, Double, bool) -> TimelineSeries,
    Z: Fn(&HudConfig) -> HudConfig,
>(
    state: &CombatState,
    config: &HudConfig,
    hidden: &HashSet<u32>,
    options: HudProjectionOptions,
    series_of: &T,
    sanitize: &Z,
    ops: &F,
    hud: HudSnapshot,
    index: int,
    dealt: int,
)
    requires
        call_ensures(
            project_hud::<F, T, Z>,
            (state, config, hidden, options, series_of, sanitize, ops),
            hud,
        ),
        hud.data_state is Live,
        0 <= index < presented(*state, options.selected_abyss_half).stats@.len(),
        0 <= dealt < presented(*state, options.selected_abyss_half).hits@.len(),
        ({
            let party = presented(*state, options.selected_abyss_half);
            let stats = party.stats@[index];
            let totals = if options.separate_reaction_damage {
                stats.separated
            } else {
                stats.combined
            };
            &&& !hidden@.contains(stats.char_id)
            &&& party.hits@[dealt].char_id == stats.char_id
            &&& party.hits@[dealt].char_known
            &&& 0 < totals.damage.bits < INFINITY_BITS
        }),
    ensures
        ({
            let stats = presented(*state, options.selected_abyss_half).stats@[index];
            let totals = if options.separate_reaction_damage {
                stats.separated
            } else {
                stats.combined
            };
            let rows = hud.characters@;
            ||| exists|k: int|
                0 <= k < rows.len() && (#[trigger] rows[k]).character_id == stats.char_id
            ||| rows.len() == 4 && forall|k: int|
                0 <= k < 4 ==> (#[trigger] rows[k]).damage.total_rank()
                    >= totals.damage.total_rank()
        }),
{
    let party = presented(*state, options.selected_abyss_half);
    let rows = hud.characters@;
    let separate = options.separate_reaction_damage;
    let ranking = ranking_of(*ops, party, hidden@, options, rows);
    assert(crate::hud::shows_a_hit(party.hits@, party.stats@[index].char_id)) by {
        assert(party.hits@[dealt].char_known);
    }
    assert(gets_row(party, hidden@, separate, index));
    assert(ranked(ranking, index));
    let at = choose|k: int| 0 <= k < ranking.len() && (#[trigger] ranking[k]) == index;
    if at < rows.len() {
        assert(rows[at].character_id == party.stats@[index].char_id);
    } else {
        assert forall|k: int| 0 <= k < 4 implies (#[trigger] rows[k]).damage.total_rank()
            >= party.stats@[index].under_policy(separate).damage.total_rank() by {
            assert(stands_above(party, separate, ranking[k] as int, ranking[at] as int));
        }
    }
}

/// A row's share is what part of the presented party's damage the character
/// dealt, in hundredths, never below zero or above one hundred.
pub proof fn shares_are_of_the_partys_damage<
    F: Fn(Arith) -> Double,
    T: Fn(&CombatState, Option<AbyssHalf>, Double, bool) -> TimelineSeries,
    Z: Fn(&HudConfig) -> HudConfig,
>(
    state: &CombatState,
    config: &HudConfig,
    hidden: &HashSet<u32>,
    options: HudProjectionOptions,
    series_of: &T,
    sanitize: &Z,
    ops: &F,
    hud: HudSnapshot,
    k: int,
)
    requires
        call_ensures(
            project_hud::<F, T, Z>,
            (state, config, hidden, options, series_of, sanitize, ops),
            hud,
        ),
        hud.data_state is Live,
        0 <= k < hud.characters@.len(),
        fit(hud.characters@[k].damage),
    ensures
        ({
            let party = presented(*state, options.selected_abyss_half);
            let row = hud.characters@[k];
            let hundred = Double { bits: HUNDRED_BITS };
            let share = answer(
                *ops,
                Arith::Product(
                    answer(*ops, Arith::Quotient(row.damage, party.total_damage)),
                    hundred,
                ),
            );
            &&& 0 < party.total_damage.bits < INFINITY_BITS && 0 < row.damage.bits && share.bits
                <= HUNDRED_BITS ==> row.damage_share_percent == share
            &&& party.total_damage.bits == 0 ==> row.damage_share_percent.bits == 0
            &&& !row.damage_share_percent.nan() ==> 0 <= row.damage_share_percent.rank()
                <= hundred.rank()
        }),
{
    let party = presented(*state, options.selected_abyss_half);
    let ranking = ranking_of(*ops, party, hidden@, options, hud.characters@);
}

/// The mini timeline is shown only where the settings have it, at most sixty
/// buckets wide; a series without buckets has none.
pub proof fn mini_timelines_are_shown_as_set<
    F: Fn(Arith) -> Double,
    T: Fn(&CombatState, Option<AbyssHalf>, Double, bool) -> TimelineSeries,
    Z: Fn(&HudConfig) -> HudConfig,
>(
    state: &CombatState,
    config: &HudConfig,
    hidden: &HashSet<u32>,
    options: HudProjectionOptions,
    series_of: &T,
    sanitize: &Z,
    ops: &F,
    hud: HudSnapshot,
)
    requires
        call_ensures(
            project_hud::<F, T, Z>,
            (state, config, hidden, options, series_of, sanitize, ops),
            hud,
        ),
    ensures
        !hud.config.show_mini_timeline ==> hud.timeline is None,
        hud.data_state is Preview && hud.config.show_mini_timeline ==> hud.timeline is Some,
{
}

/// The HUD shows the configuration as it was made valid, module by module and
/// in its order.
pub proof fn configurations_show_as_set<Z: Fn(&HudConfig) -> HudConfig>(
    config: &HudConfig,
    sanitize: &Z,
    shown: HudConfigSnapshot,
    valid: HudConfig,
)
    requires
        call_ensures(HudConfigSnapshot::from::<Z>, (config, sanitize), shown),
        forall|other: HudConfig| #[trigger]
            call_ensures(*sanitize, (config,), other) ==> other == valid,
    ensures
        shown.width == valid.width,
        shown.show_title == valid.show_title,
        shown.show_team_dps == valid.show_team_dps,
        shown.show_duration == valid.show_duration,
        shown.show_total_damage == valid.show_total_damage,
        shown.show_character_rows == valid.show_character_rows,
        shown.show_damage_taken == valid.show_damage_taken,
        shown.show_abyss_half == valid.show_abyss_half,
        shown.show_passthrough_state == valid.show_passthrough_state,
        shown.show_mini_timeline == valid.show_mini_timeline,
        shown.module_order@.len() == valid.module_order@.len(),
        forall|k: int|
            0 <= k < shown.module_order@.len() ==> {
                let drawn = #[trigger] shown.module_order@[k];
                let module = valid.module_order@[k];
                &&& drawn is Title <==> module is Title
                &&& drawn is Summary <==> module is Summary
                &&& drawn is Status <==> module is Status
                &&& drawn is Characters <==> module is Characters
                &&& drawn is Timeline <==> module is Timeline
            },
{
}

proof fn small_groups(count: nat)
    requires
        0 < count <= 60,
    ensures
        group_size(count) == 1,
        group_count(count) == count,
{
}

/// A series of up to sixty buckets is drawn bucket by bucket: each drawn bucket
/// has the times, the damage and the hits of its own.
pub proof fn short_series_are_drawn_bucket_by_bucket<F: Fn(Arith) -> Double>(
    series: &TimelineSeries,
    ops: &F,
    drawn: HudTimelineSnapshot,
    k: int,
)
    requires
        call_ensures(project_timeline::<F>, (series, ops), Some(drawn)),
        series.buckets@.len() <= 60,
        0 <= k < drawn.buckets@.len(),
    ensures
        drawn.buckets@.len() == series.buckets@.len(),
        ({
            let bucket = series.buckets@[k];
            let shown = drawn.buckets@[k];
            let damage = answer(*ops, Arith::Sum(Double { bits: 0 }, bucket.damage));
            &&& fit(bucket.start_offset) ==> shown.start_seconds == bucket.start_offset
            &&& fit(bucket.end_offset) && fit(bucket.start_offset) && bucket.start_offset.bits
                <= bucket.end_offset.bits ==> shown.end_seconds == bucket.end_offset
            &&& fit(damage) ==> shown.damage == damage
            &&& shown.hits@ == decimal(bucket.hits as nat)
        }),
{
    let buckets = series.buckets@;
    small_groups(buckets.len());
    let group = group_of(buckets, k);
    assert(draws_group(*ops, group, drawn.buckets@[k]));
    assert(group =~= seq![buckets[k]]);
    assert(group_damages(group) =~= seq![buckets[k].damage]);
    assert(seq![buckets[k].damage].drop_last() =~= Seq::<Double>::empty());
    assert(sum_of(*ops, Seq::<Double>::empty()) == (Double { bits: 0 }));
    assert(group_hits(group.drop_last()) == 0) by {
        assert(group.drop_last().len() == 0);
    }
}

/// A drawn bucket never ends before it begins, and its DPS is its damage over
/// its length, or over a millisecond where it is shorter than that.
pub proof fn drawn_buckets_divide_damage_by_time<F: Fn(Arith) -> Double>(
    series: &TimelineSeries,
    ops: &F,
    drawn: HudTimelineSnapshot,
    k: int,
)
    requires
        call_ensures(project_timeline::<F>, (series, ops), Some(drawn)),
        0 <= k < drawn.buckets@.len(),
    ensures
        ({
            let shown = drawn.buckets@[k];
            let length = answer(
                *ops,
                Arith::Difference(shown.end_seconds, shown.start_seconds),
            );
            let millisecond = Double { bits: 0x3f50_624d_d2f1_a9fc };
            let divisor = if length.nan() || length.below(millisecond) {
                millisecond
            } else {
                length
            };
            let dps = answer(*ops, Arith::Quotient(shown.damage, divisor));
            &&& !shown.end_seconds.below(shown.start_seconds)
            &&& fit(dps) ==> shown.dps == dps
            &&& shown.dps.finite() && shown.damage.finite()
        }),
{
    assert(draws_group(*ops, group_of(series.buckets@, k), drawn.buckets@[k]));
}

proof fn peaks_are_largest(buckets: Seq<HudTimelineBucketSnapshot>)
    requires
        forall|k: int| 0 <= k < buckets.len() ==> fit((#[trigger] buckets[k]).dps) || buckets[k].dps.rank() == 0,
    ensures
        forall|k: int|
            0 <= k < buckets.len() ==> (#[trigger] buckets[k]).dps.rank() <= drawn_peak(
                buckets,
            ).rank(),
        drawn_peak(buckets).rank() >= 0,
        !drawn_peak(buckets).nan(),
        drawn_peak(buckets).rank() == 0 || exists|k: int|
            0 <= k < buckets.len() && (#[trigger] buckets[k]).dps == drawn_peak(buckets),
    decreases buckets.len(),
{
    if buckets.len() > 0 {
        let shorter = buckets.drop_last();
        assert forall|k: int| 0 <= k < shorter.len() implies fit((#[trigger] shorter[k]).dps) || shorter[k].dps.rank() == 0 by {
            assert(shorter[k] == buckets[k]);
        }
        peaks_are_largest(shorter);
        assert forall|k: int| 0 <= k < buckets.len() implies (
        #[trigger] buckets[k]).dps.rank() <= drawn_peak(buckets).rank() by {
            if k < shorter.len() {
                assert(shorter[k] == buckets[k]);
            }
        }
        if drawn_peak(buckets).rank() != 0 {
            if drawn_peak(buckets) == buckets.last().dps {
                assert(buckets[buckets.len() - 1].dps == drawn_peak(buckets));
            } else {
                let k = choose|k: int|
                    0 <= k < shorter.len() && (#[trigger] shorter[k]).dps == drawn_peak(shorter);
                assert(buckets[k].dps == drawn_peak(buckets));
            }
        }
    }
}

/// The peak of the mini timeline is the largest DPS among its buckets, and its
/// end is the end of the last one.
pub proof fn the_mini_timeline_peaks_at_its_largest_bucket<F: Fn(Arith) -> Double>(
    series: &TimelineSeries,
    ops: &F,
    drawn: HudTimelineSnapshot,
)
    requires
        call_ensures(project_timeline::<F>, (series, ops), Some(drawn)),
    ensures
        forall|k: int|
            0 <= k < drawn.buckets@.len() ==> (#[trigger] drawn.buckets@[k]).dps.rank()
                <= drawn.peak_dps.rank(),
        drawn.peak_dps.rank() == 0 || exists|k: int|
            0 <= k < drawn.buckets@.len() && (#[trigger] drawn.buckets@[k]).dps == drawn.peak_dps,
        drawn.buckets@.len() > 0,
        drawn.duration_seconds.rank() == drawn.buckets@.last().end_seconds.rank(),
{
    let buckets = drawn.buckets@;
    let count = series.buckets@.len();
    assert(group_count(count) > 0) by {
        crate::hud::groups_tile(count);
    }
    assert forall|k: int| 0 <= k < buckets.len() implies fit((#[trigger] buckets[k]).dps) || buckets[k].dps.rank() == 0 by {
        assert(draws_group(*ops, group_of(series.buckets@, k), buckets[k]));
    }
    peaks_are_largest(buckets);
    let last = buckets.len() - 1;
    assert(draws_group(*ops, group_of(series.buckets@, last), buckets[last]));
}

/// The preview adds up: its total is the sum of its rows, each row's DPS is its
/// damage over the preview's time, and its rows are four.
pub proof fn the_preview_adds_up<
    F: Fn(Arith) -> Double,
    T: Fn(&CombatState, Option<AbyssHalf>, Double, bool) -> TimelineSeries,
    Z: Fn(&HudConfig) -> HudConfig,
>(
    state: &CombatState,
    config: &HudConfig,
    hidden: &HashSet<u32>,
    options: HudProjectionOptions,
    series_of: &T,
    sanitize: &Z,
    ops: &F,
    hud: HudSnapshot,
)
    requires
        call_ensures(
            project_hud::<F, T, Z>,
            (state, config, hidden, options, series_of, sanitize, ops),
            hud,
        ),
        hud.data_state is Preview,
    ensures
        hud.summary is Some,
        hud.characters@.len() == 4,
        hud.summary->0.total_damage == sum_of(
            *ops,
            hud.characters@.map_values(|row: HudCharacterSnapshot| row.damage),
        ),
        forall|k: int|
            0 <= k < 4 ==> (#[trigger] hud.characters@[k]).dps == answer(
                *ops,
                Arith::Quotient(hud.characters@[k].damage, hud.summary->0.duration_seconds),
            ),
        forall|j: int, k: int|
            0 <= j < k < 4 ==> (#[trigger] hud.characters@[j]).character_id != (
            #[trigger] hud.characters@[k]).character_id,
        forall|k: int| 0 <= k < 4 ==> (#[trigger] hud.characters@[k]).preview_label_suffix is Some,
{
    let rows = hud.characters@;
    assert(preview_row(*ops, 0, rows[0]));
    assert(preview_row(*ops, 1, rows[1]));
    assert(preview_row(*ops, 2, rows[2]));
    assert(preview_row(*ops, 3, rows[3]));
    assert(rows.map_values(|row: HudCharacterSnapshot| row.damage) =~= seq![
        rows[0].damage,
        rows[1].damage,
        rows[2].damage,
        rows[3].damage,
    ]);
}

} // verus!
