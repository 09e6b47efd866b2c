//! What holds of every detail page.
use std::collections::HashMap;

use vstd::prelude::*;

use crate::combat_details::CombatDetailFilter;
use crate::detail::{
    capped, damages_at, damages_toward, direction_summary_of, effect_count, effect_counts,
    effect_damages, effect_items, effect_items_of, effect_kind, effect_stack, effect_totals,
    hit_type_summaries, largest_damage, listed, listed_positions_are_valid, page_limit, percent, qte_items,
    rows_on_page, shows_coverage, shows_qte, shows_skill, skill_items, skill_summaries,
    sums_effect, sums_effects, totals_of, DetailView, EffectItem, EffectTally,
    HitDirectionSummary, MainDpsDetailActions, MainDpsDetailMetrics, MainDpsDetailRequest,
    MainDpsDetailSnapshot, MainDpsFilterSummary, MainDpsHitSnapshot, MainDpsSkillSummary,
    MAIN_DPS_DETAIL_EFFECT_LIMIT, MAIN_DPS_DETAIL_PAGE_LIMIT, MAIN_DPS_DETAIL_QTE_LIMIT,
    MAIN_DPS_DETAIL_SKILL_LIMIT,
};
use crate::detail_text::skill_of;
use crate::double::{answer, sum_of, Arith, Double, INFINITY_BITS, ONE_BITS};
use crate::live_capture::LiveCapturePhase;
use crate::model::{
    AbyssHalf, CharacterInfo, CharacterStats, CharacterTotals, CombatState, Hit, HitDirection,
    Language, PartyCombatState, TimedReading,
};
use crate::names::DisplayNames;
use crate::tally::{
    amounts_for, count_for, first_source, ranks_totals, sums_by_key, sums_key, Contribution, Tally,
};
use crate::text::{decimal, held, hexadecimal};

verus! {

/// The summaries of a page are about a character or the team as a whole: what
/// the page is filtered by changes its rows, not its summaries.
pub proof fn summaries_do_not_depend_on_the_filter<F: Fn(Arith) -> Double>(
    ops: F,
    hits: Seq<Hit>,
    left: MainDpsDetailRequest,
    right: MainDpsDetailRequest,
)
    requires
        left.character_id == right.character_id,
    ensures
        direction_summary_of(ops, hits, left) == direction_summary_of(ops, hits, right),
        qte_items(hits, left) == qte_items(hits, right),
        skill_items(hits, left) == skill_items(hits, right),
{
    damages_do_not_depend_on_the_filter(hits, left, right, HitDirection::Outgoing);
    damages_do_not_depend_on_the_filter(hits, left, right, HitDirection::Unknown);
    damages_do_not_depend_on_the_filter(hits, left, right, HitDirection::Incoming);
    items_do_not_depend_on_the_filter(hits, left, right);
}

proof fn damages_do_not_depend_on_the_filter(
    hits: Seq<Hit>,
    left: MainDpsDetailRequest,
    right: MainDpsDetailRequest,
    direction: HitDirection,
)
    requires
        left.character_id == right.character_id,
    ensures
        damages_toward(hits, left, direction) == damages_toward(hits, right, direction),
    decreases hits.len(),
{
    if hits.len() > 0 {
        damages_do_not_depend_on_the_filter(hits.drop_last(), left, right, direction);
    }
}

proof fn items_do_not_depend_on_the_filter(
    hits: Seq<Hit>,
    left: MainDpsDetailRequest,
    right: MainDpsDetailRequest,
)
    requires
        left.character_id == right.character_id,
    ensures
        qte_items(hits, left) == qte_items(hits, right),
        skill_items(hits, left) == skill_items(hits, right),
    decreases hits.len(),
{
    if hits.len() > 0 {
        items_do_not_depend_on_the_filter(hits.drop_last(), left, right);
    }
}

/// Turning pages by the limit shows every listed hit: a page shows hits from
/// its offset on, one that is not full reaches the end, and only behind the end
/// is a page empty.
pub proof fn pages_follow_each_other(total: nat, offset: usize, limit: usize)
    requires
        1 <= limit <= MAIN_DPS_DETAIL_PAGE_LIMIT,
    ensures
        rows_on_page(total, offset, limit) <= limit,
        offset + rows_on_page(total, offset, limit) <= total || rows_on_page(total, offset, limit)
            == 0,
        rows_on_page(total, offset, limit) < limit ==> offset + rows_on_page(total, offset, limit)
            >= total,
        rows_on_page(total, offset, limit) == 0 <==> offset >= total,
{
}

/// A page has at least room for one row and never more than the limit.
pub proof fn pages_are_bounded(total: nat, offset: usize, limit: usize)
    ensures
        1 <= page_limit(limit) <= MAIN_DPS_DETAIL_PAGE_LIMIT,
        rows_on_page(total, offset, limit) <= MAIN_DPS_DETAIL_PAGE_LIMIT,
        offset < total ==> rows_on_page(total, offset, limit) > 0,
{
}

/// The larger of a duration and one second, which damage is divided by.
pub open spec fn at_least_a_second(duration: Double) -> Double {
    let second = Double { bits: ONE_BITS };
    if duration.nan() || duration.below(second) {
        second
    } else {
        duration
    }
}

/// The party that a page is about: the session, or one of its halves.
pub open spec fn told_party(combat: CombatState, half: Option<AbyssHalf>) -> PartyCombatState {
    if half == Some(AbyssHalf::First) {
        combat.battle.abyss.first_half
    } else if half == Some(AbyssHalf::Second) {
        combat.battle.abyss.second_half
    } else {
        combat.battle.team
    }
}

/// A character's totals under a reaction-damage policy.
pub open spec fn told_totals(stats: CharacterStats, separate_reaction_damage: bool) -> CharacterTotals {
    if separate_reaction_damage {
        stats.separated
    } else {
        stats.combined
    }
}

/// A reading on a time basis.
pub open spec fn told_reading(reading: TimedReading, subtract_time_stop: bool) -> Double {
    if subtract_time_stop {
        reading.subtract_time_stop
    } else {
        reading.wall_clock
    }
}

proof fn distinct_rows_are_found(party: PartyCombatState, at: int, upto: int)
    requires
        party.rows_are_distinct(),
        0 <= at < upto <= party.stats@.len(),
    ensures
        crate::detail::row_at(party, party.stats@[at].char_id, upto) == Some(at),
    decreases upto,
{
    let id = party.stats@[at].char_id;
    if upto - 1 > at {
        distinct_rows_are_found(party, at, upto - 1);
    } else {
        earlier_rows_are_others(party, at, at);
    }
}

proof fn earlier_rows_are_others(party: PartyCombatState, at: int, upto: int)
    requires
        party.rows_are_distinct(),
        0 <= upto <= at < party.stats@.len(),
    ensures
        crate::detail::row_at(party, party.stats@[at].char_id, upto) is None,
    decreases upto,
{
    if upto > 0 {
        earlier_rows_are_others(party, at, upto - 1);
        assert(party.stats@[upto - 1].char_id != party.stats@[at].char_id);
    }
}

/// On every page, of the team or of a character, the DPS is the total output
/// over the duration, or over one second where that is longer.
pub proof fn dps_is_output_over_time<
    F: Fn(Arith) -> Double,
    A: Fn(&PartyCombatState, bool) -> Double,
    U: Fn(HitDirectionSummary) -> Double,
>(
    combat: &CombatState,
    half: Option<AbyssHalf>,
    request: &MainDpsDetailRequest,
    view: &DetailView,
    offset: usize,
    limit: usize,
    absent_duration: &A,
    unknown_share: &U,
    ops: &F,
    page: MainDpsDetailSnapshot,
)
    requires
        call_ensures(
            MainDpsDetailSnapshot::from_state::<F, A, U>,
            (combat, half, request, view, offset, limit, absent_duration, unknown_share, ops),
            page,
        ),
    ensures
        page.metrics.dps == answer(
            *ops,
            Arith::Quotient(
                page.metrics.total_output,
                at_least_a_second(page.metrics.duration_seconds),
            ),
        ),
{
}

/// The metrics of a character are those of its row, under the selected policy
/// and on the selected time basis, whatever the rest of the party did.
pub proof fn character_metrics_come_from_its_row<
    F: Fn(Arith) -> Double,
    A: Fn(&PartyCombatState, bool) -> Double,
    U: Fn(HitDirectionSummary) -> Double,
>(
    combat: &CombatState,
    half: Option<AbyssHalf>,
    request: &MainDpsDetailRequest,
    view: &DetailView,
    offset: usize,
    limit: usize,
    absent_duration: &A,
    unknown_share: &U,
    ops: &F,
    page: MainDpsDetailSnapshot,
    at: int,
)
    requires
        call_ensures(
            MainDpsDetailSnapshot::from_state::<F, A, U>,
            (combat, half, request, view, offset, limit, absent_duration, unknown_share, ops),
            page,
        ),
        told_party(*combat, half).rows_are_distinct(),
        0 <= at < told_party(*combat, half).stats@.len(),
        request.character_id == Some(told_party(*combat, half).stats@[at].char_id),
    ensures
        ({
            let totals = told_totals(
                told_party(*combat, half).stats@[at],
                view.separate_reaction_damage,
            );
            let duration = told_reading(totals.duration, view.subtract_time_stop);
            &&& page.metrics.total_output == totals.damage
            &&& page.metrics.duration_seconds == duration
            &&& page.metrics.dps == answer(
                *ops,
                Arith::Quotient(totals.damage, at_least_a_second(duration)),
            )
            &&& page.metrics.output_count == totals.hits
            &&& page.metrics.incoming_count == totals.hits_taken
            &&& page.metrics.total_damage_taken == totals.damage_taken
            &&& page.kind@ == "character"@
            &&& page.character_id == request.character_id
        }),
{
    let party = told_party(*combat, half);
    distinct_rows_are_found(party, at, party.stats@.len() as int);
}

/// A character that has no row has put out nothing.
pub proof fn characters_without_a_row_have_no_output<
    F: Fn(Arith) -> Double,
    A: Fn(&PartyCombatState, bool) -> Double,
    U: Fn(HitDirectionSummary) -> Double,
>(
    combat: &CombatState,
    half: Option<AbyssHalf>,
    request: &MainDpsDetailRequest,
    view: &DetailView,
    offset: usize,
    limit: usize,
    absent_duration: &A,
    unknown_share: &U,
    ops: &F,
    page: MainDpsDetailSnapshot,
)
    requires
        call_ensures(
            MainDpsDetailSnapshot::from_state::<F, A, U>,
            (combat, half, request, view, offset, limit, absent_duration, unknown_share, ops),
            page,
        ),
        request.character_id is Some,
        forall|i: int|
            0 <= i < told_party(*combat, half).stats@.len() ==> (#[trigger] told_party(
                *combat,
                half,
            ).stats@[i]).char_id != request.character_id->0,
    ensures
        page.metrics.total_output.bits == 0,
        page.metrics.output_count == 0,
        page.metrics.incoming_count == 0,
        page.metrics.total_damage_taken.bits == 0,
        call_ensures(
            *absent_duration,
            (&told_party(*combat, half), view.subtract_time_stop),
            page.metrics.duration_seconds,
        ),
{
    let party = told_party(*combat, half);
    absent_rows_are_not_found(party, request.character_id->0, party.stats@.len() as int);
}

proof fn absent_rows_are_not_found(party: PartyCombatState, id: u32, upto: int)
    requires
        upto <= party.stats@.len(),
        forall|i: int| 0 <= i < party.stats@.len() ==> (#[trigger] party.stats@[i]).char_id != id,
    ensures
        crate::detail::row_at(party, id, upto) is None,
    decreases upto,
{
    if upto > 0 {
        absent_rows_are_not_found(party, id, upto - 1);
        assert(party.stats@[upto - 1].char_id != id);
    }
}

/// The metrics of the team are the party's own readings; its hits are those of
/// all rows together.
pub proof fn team_metrics_are_the_partys_readings<
    F: Fn(Arith) -> Double,
    A: Fn(&PartyCombatState, bool) -> Double,
    U: Fn(HitDirectionSummary) -> Double,
>(
    combat: &CombatState,
    half: Option<AbyssHalf>,
    request: &MainDpsDetailRequest,
    view: &DetailView,
    offset: usize,
    limit: usize,
    absent_duration: &A,
    unknown_share: &U,
    ops: &F,
    page: MainDpsDetailSnapshot,
)
    requires
        call_ensures(
            MainDpsDetailSnapshot::from_state::<F, A, U>,
            (combat, half, request, view, offset, limit, absent_duration, unknown_share, ops),
            page,
        ),
        request.character_id is None,
    ensures
        ({
            let party = told_party(*combat, half);
            let rows = party.stats@;
            &&& page.kind@ == "team"@
            &&& page.character_id is None
            &&& page.character_name is None
            &&& page.character_color is None
            &&& page.metrics.total_output == party.total_damage
            &&& page.metrics.total_damage_taken == party.total_damage_taken
            &&& page.metrics.duration_seconds == told_reading(
                party.duration,
                view.subtract_time_stop,
            )
            &&& dealt_hits(rows) <= u64::MAX ==> page.metrics.output_count == dealt_hits(rows)
            &&& taken_hits(rows) <= u64::MAX ==> page.metrics.incoming_count == taken_hits(rows)
            &&& page.skills@.len() == 0
        }),
{
    let party = told_party(*combat, half);
    row_hits_add_up(party, party.stats@.len() as int);
    assert(party.stats@.take(party.stats@.len() as int) =~= party.stats@);
}

/// How many hits the rows dealt.
pub open spec fn dealt_hits(rows: Seq<CharacterStats>) -> nat
    decreases rows.len(),
{
    if rows.len() == 0 {
        0
    } else {
        dealt_hits(rows.drop_last()) + rows.last().combined.hits as nat
    }
}

/// How many hits the rows took.
pub open spec fn taken_hits(rows: Seq<CharacterStats>) -> nat
    decreases rows.len(),
{
    if rows.len() == 0 {
        0
    } else {
        taken_hits(rows.drop_last()) + rows.last().combined.hits_taken as nat
    }
}

proof fn row_hits_add_up(party: PartyCombatState, upto: int)
    requires
        0 <= upto <= party.stats@.len(),
    ensures
        crate::detail::output_hits(party, upto) == dealt_hits(party.stats@.take(upto)),
        crate::detail::taken_hits(party, upto) == taken_hits(party.stats@.take(upto)),
    decreases upto,
{
    if upto > 0 {
        row_hits_add_up(party, upto - 1);
        assert(party.stats@.take(upto).drop_last() =~= party.stats@.take(upto - 1));
    }
}

/// What a page is about stands at its head: the half, the character, the
/// filters and the settings that it was drawn with.
pub proof fn pages_say_what_they_are_about<
    F: Fn(Arith) -> Double,
    A: Fn(&PartyCombatState, bool) -> Double,
    U: Fn(HitDirectionSummary) -> Double,
>(
    combat: &CombatState,
    half: Option<AbyssHalf>,
    request: &MainDpsDetailRequest,
    view: &DetailView,
    offset: usize,
    limit: usize,
    absent_duration: &A,
    unknown_share: &U,
    ops: &F,
    page: MainDpsDetailSnapshot,
)
    requires
        call_ensures(
            MainDpsDetailSnapshot::from_state::<F, A, U>,
            (combat, half, request, view, offset, limit, absent_duration, unknown_share, ops),
            page,
        ),
    ensures
        page.generation@ == decimal(view.generation as nat),
        page.abyss_half is Some <==> half is Some,
        half == Some(AbyssHalf::First) ==> page.abyss_half->0@ == "first"@,
        half == Some(AbyssHalf::Second) ==> page.abyss_half->0@ == "second"@,
        page.character_id == request.character_id,
        page.character_name is Some <==> request.character_id is Some,
        held(page.skill_filter) == held(request.skill_filter),
        page.qte_type is Some <==> request.filter is QteType,
        request.filter is QteType ==> page.qte_type->0@ == request.filter->QteType_0@,
        page.actions == view.actions,
        page.columns.show_time == view.columns.show_time,
        page.columns.show_character == view.columns.show_character,
        page.columns.show_type == view.columns.show_type,
        page.columns.show_damage == view.columns.show_damage,
        page.columns.show_target == view.columns.show_target_hp,
        page.columns.time_width == view.columns.time_width,
        page.columns.character_width == view.columns.character_width,
        page.columns.type_width == view.columns.type_width,
        page.columns.damage_width == view.columns.damage_width,
        page.columns.target_width == view.columns.target_hp_width,
        page.offset == offset,
        page.attribution.total_damage == told_party(*combat, half).attribution.total_damage,
        page.attribution.reaction_damage == told_party(
            *combat,
            half,
        ).attribution.character_reaction_damage,
        page.attribution.shared_damage == told_party(*combat, half).attribution.shared_damage,
        page.attribution.unattributed_damage == told_party(
            *combat,
            half,
        ).attribution.unattributed_damage,
        page.attribution.separate_reaction_damage == view.separate_reaction_damage,
        view.separate_reaction_damage ==> page.attribution.character_damage == told_party(
            *combat,
            half,
        ).attribution.character_damage.separated && page.attribution.character_filter@
            == "characterDirect"@,
        !view.separate_reaction_damage ==> page.attribution.character_damage == told_party(
            *combat,
            half,
        ).attribution.character_damage.combined && page.attribution.character_filter@
            == "characterAttributed"@,
{
}

/// A character's page covers that character's hits, the team's page all hits.
pub open spec fn told_of(request: MainDpsDetailRequest, hit: Hit) -> bool {
    request.character_id is Some ==> hit.char_id == request.character_id->0
}

/// What the covered hits that went one way dealt, in order.
pub open spec fn dealt_toward(
    hits: Seq<Hit>,
    request: MainDpsDetailRequest,
    direction: HitDirection,
) -> Seq<Double>
    decreases hits.len(),
{
    if hits.len() == 0 {
        Seq::empty()
    } else if told_of(request, hits.last()) && hits.last().direction == direction {
        dealt_toward(hits.drop_last(), request, direction).push(hits.last().class.total_damage)
    } else {
        dealt_toward(hits.drop_last(), request, direction)
    }
}

proof fn directions_are_dealt(
    hits: Seq<Hit>,
    request: MainDpsDetailRequest,
    direction: HitDirection,
)
    ensures
        damages_toward(hits, request, direction) == dealt_toward(hits, request, direction),
        dealt_toward(hits, request, direction).len() <= hits.len(),
    decreases hits.len(),
{
    if hits.len() > 0 {
        directions_are_dealt(hits.drop_last(), request, direction);
    }
}

/// The direction summary of a page adds up the covered hits by the way they
/// went, each to its own sum; the count of confirmed hits is that of the
/// metrics.
pub proof fn directions_are_summed_apart<
    F: Fn(Arith) -> Double,
    A: Fn(&PartyCombatState, bool) -> Double,
    U: Fn(HitDirectionSummary) -> Double,
>(
    combat: &CombatState,
    half: Option<AbyssHalf>,
    request: &MainDpsDetailRequest,
    view: &DetailView,
    offset: usize,
    limit: usize,
    absent_duration: &A,
    unknown_share: &U,
    ops: &F,
    page: MainDpsDetailSnapshot,
)
    requires
        call_ensures(
            MainDpsDetailSnapshot::from_state::<F, A, U>,
            (combat, half, request, view, offset, limit, absent_duration, unknown_share, ops),
            page,
        ),
    ensures
        ({
            let hits = told_party(*combat, half).hits@;
            let outgoing = dealt_toward(hits, *request, HitDirection::Outgoing);
            let unknown = dealt_toward(hits, *request, HitDirection::Unknown);
            let incoming = dealt_toward(hits, *request, HitDirection::Incoming);
            &&& page.direction.confirmed_output == sum_of(*ops, outgoing)
            &&& page.direction.confirmed_hits == page.metrics.output_count
            &&& page.direction.candidate_output == sum_of(*ops, unknown)
            &&& page.direction.candidate_hits == unknown.len()
            &&& page.direction.incoming_output == sum_of(*ops, incoming)
            &&& page.direction.incoming_hits == incoming.len()
        }),
{
    let hits = told_party(*combat, half).hits@;
    assert(told_party(*combat, half).hits.len() == hits.len());
    directions_are_dealt(hits, *request, HitDirection::Outgoing);
    directions_are_dealt(hits, *request, HitDirection::Unknown);
    directions_are_dealt(hits, *request, HitDirection::Incoming);
}

/// The three entries of the direction filter add up: all is outgoing and
/// incoming together.
pub proof fn hit_types_add_up<F: Fn(Arith) -> Double>(
    metrics: &MainDpsDetailMetrics,
    ops: &F,
    entries: Vec<MainDpsFilterSummary>,
)
    requires
        call_ensures(hit_type_summaries::<F>, (metrics, ops), entries),
        metrics.output_count + metrics.incoming_count <= usize::MAX,
    ensures
        entries@.len() == 3,
        entries@[0].id@ == "all"@ && entries@[1].id@ == "outgoing"@ && entries@[2].id@
            == "incoming"@,
        entries@[1].hits == metrics.output_count,
        entries@[1].damage == metrics.total_output,
        entries@[2].hits == metrics.incoming_count,
        entries@[2].damage == metrics.total_damage_taken,
        entries@[0].hits == entries@[1].hits + entries@[2].hits,
        entries@[0].damage == answer(*ops, Arith::Sum(entries@[1].damage, entries@[2].damage)),
{
}

/// A percentage is one hundred times the part over the whole; of nothing, none.
pub proof fn percentages_are_parts_of_the_whole<F: Fn(Arith) -> Double>(
    part: Double,
    whole: Double,
    ops: &F,
    result: Double,
)
    requires
        call_ensures(percent::<F>, (part, whole, ops), result),
    ensures
        0 < whole.bits <= INFINITY_BITS ==> result == answer(
            *ops,
            Arith::Product(
                answer(*ops, Arith::Quotient(part, whole)),
                Double { bits: 0x4059_0000_0000_0000 },
            ),
        ),
        whole.bits == 0 ==> result.bits == 0,
{
}

/// A filter lists the hits that it is named after: output is what is not
/// incoming; a character's own is outgoing and known to be its own; a shared
/// mechanic is output that belongs to no one; a QTE filter asks for the attack
/// type of the hit or of its follow-up.
pub proof fn filters_list_what_they_name(filter: &CombatDetailFilter, hit: &Hit, listed: bool)
    requires
        call_ensures(CombatDetailFilter::matches, (filter, hit), listed),
    ensures
        filter is All ==> listed,
        filter is Outgoing ==> (listed <==> hit.direction !is Incoming),
        filter is Incoming ==> (listed <==> hit.direction is Incoming),
        filter is CharacterAttributed ==> (listed <==> hit.direction is Outgoing && hit.char_known
            && !hit.class.unbalance),
        filter is CharacterDirect ==> (listed <==> hit.direction is Outgoing && hit.char_known
            && !hit.class.unbalance && hit.class.reaction_damage.below(hit.class.total_damage)),
        filter is ReactionDamage ==> (listed <==> hit.direction is Outgoing && hit.char_known
            && 0 < hit.class.reaction_damage.bits <= INFINITY_BITS),
        filter is SharedMechanics ==> (listed <==> hit.direction !is Incoming
            && hit.class.unbalance),
        filter is Unattributed ==> (listed <==> hit.direction !is Incoming && !hit.class.unbalance
            && !(hit.direction is Outgoing && hit.char_known)),
        filter is QteType ==> (listed <==> hit.direction !is Incoming && ((hit.attack_type is Some
            && hit.attack_type->0@ == filter->QteType_0@) || (hit.follow_up_attack_type is Some
            && hit.follow_up_attack_type->0@ == filter->QteType_0@))),
{
}

/// A row says of its hit when it was, whose it was, which way it went, and what
/// it did: its total, its own damage and its follow-up damage.
pub proof fn rows_tell_their_hits(
    hit: &Hit,
    index: usize,
    characters: &HashMap<u32, CharacterInfo>,
    names: &DisplayNames,
    language: Language,
    catalog: &HashMap<u64, String>,
    row: MainDpsHitSnapshot,
)
    requires
        call_ensures(
            MainDpsHitSnapshot::from_hit,
            (hit, index, characters, names, language, catalog),
            row,
        ),
    ensures
        row.timestamp == hit.timestamp,
        row.character_id == hit.char_id,
        row.damage == hit.class.total_damage,
        row.primary_damage == hit.damage,
        row.follow_up_damage == hit.follow_up_damage,
        row.target_hp_after == hit.target_hp_after,
        row.target_max_hp == hit.target_max_hp,
        row.target_hp_percent == hit.target_hp_percent,
        held(row.target_monster_id) == held(hit.target_monster_id),
        row.skill@ == row.skill_id@,
        row.direction@ == "outgoing"@ <==> hit.direction is Outgoing,
        row.direction@ == "incoming"@ <==> hit.direction is Incoming,
        row.direction@ == "unknown"@ <==> hit.direction is Unknown,
        hit.attack_type is Some ==> row.damage_type@ == hit.attack_type->0@,
        hit.attack_type is None && hit.damage_attribute is Some ==> row.damage_type@
            == hit.damage_attribute->0@,
        row.active_effects@.len() == hit.active_effects@.len(),
        forall|k: int|
            0 <= k < row.active_effects@.len() ==> {
                let effect = hit.active_effects@[k];
                let told = #[trigger] row.active_effects@[k];
                &&& told.stack_count == effect.stack_count
                &&& told.duration_ms == effect.duration_ms
                &&& told.inhibited == effect.inhibited
                &&& told.infinite == effect.infinite
                &&& told.name is Some <==> catalog@.dom().contains(effect.name_hash)
                &&& told.name is Some ==> told.name->0@ == catalog@[effect.name_hash]@
            },
{
    reveal_strlit("outgoing");
    reveal_strlit("incoming");
    reveal_strlit("unknown");
    assert("outgoing"@[0] == 'o' && "incoming"@[0] == 'i' && "unknown"@[0] == 'u');
}

proof fn listed_positions_ascend(hits: Seq<Hit>, request: MainDpsDetailRequest)
    ensures
        forall|i: int, j: int|
            0 <= i < j < listed(hits, request).len() ==> (#[trigger] listed(hits, request)[i]) < (
            #[trigger] listed(hits, request)[j]),
        forall|at: int|
            0 <= at < hits.len() && request.lists(#[trigger] hits[at]) ==> listed(
                hits,
                request,
            ).contains(at),
    decreases hits.len(),
{
    if hits.len() > 0 {
        let shorter = hits.drop_last();
        let earlier = listed(shorter, request);
        let now = listed(hits, request);
        listed_positions_ascend(shorter, request);
        listed_positions_are_valid(shorter, request);
        assert forall|i: int, j: int| 0 <= i < j < now.len() implies (#[trigger] now[i]) < (
        #[trigger] now[j]) by {
            assert(now[i] == earlier[i]);
            if j < earlier.len() {
                assert(now[j] == earlier[j]);
            }
        }
        assert forall|at: int| 0 <= at < hits.len() && request.lists(#[trigger] hits[at]) implies now.contains(
            at,
        ) by {
            if at < shorter.len() {
                assert(shorter[at] == hits[at]);
                assert(earlier.contains(at));
                let k = choose|k: int| 0 <= k < earlier.len() && earlier[k] == at;
                assert(now[k] == at);
            } else {
                assert(now[now.len() - 1] == at);
            }
        }
    }
}

/// The rows of a page are of hits that the request covers and its filters keep,
/// in the order in which they fell, and no such hit is passed over: the page
/// that begins at zero and is long enough has them all.
pub proof fn rows_are_the_hits_asked_for<
    F: Fn(Arith) -> Double,
    A: Fn(&PartyCombatState, bool) -> Double,
    U: Fn(HitDirectionSummary) -> Double,
>(
    combat: &CombatState,
    half: Option<AbyssHalf>,
    request: &MainDpsDetailRequest,
    view: &DetailView,
    offset: usize,
    limit: usize,
    absent_duration: &A,
    unknown_share: &U,
    ops: &F,
    page: MainDpsDetailSnapshot,
) -> (places: Seq<int>)
    requires
        call_ensures(
            MainDpsDetailSnapshot::from_state::<F, A, U>,
            (combat, half, request, view, offset, limit, absent_duration, unknown_share, ops),
            page,
        ),
    ensures
        ({
            let hits = told_party(*combat, half).hits@;
            &&& places.len() == page.total_hits
            &&& page.total_damage == sum_of(
                *ops,
                places.map_values(|at: int| hits[at].class.total_damage),
            )
            &&& forall|k: int|
                0 <= k < places.len() ==> 0 <= (#[trigger] places[k]) < hits.len() && told_of(
                    *request,
                    hits[places[k]],
                ) && request.filter.selects(hits[places[k]])
            &&& forall|i: int, j: int|
                0 <= i < j < places.len() ==> (#[trigger] places[i]) < (#[trigger] places[j])
            &&& forall|at: int|
                0 <= at < hits.len() && told_of(*request, #[trigger] hits[at])
                    && request.filter.selects(hits[at]) && request.skill_filter is None
                    ==> places.contains(at)
            &&& forall|k: int|
                0 <= k < page.rows@.len() ==> {
                    let row = #[trigger] page.rows@[k];
                    let hit = hits[places[offset + k]];
                    &&& offset + k < places.len()
                    &&& row.timestamp == hit.timestamp
                    &&& row.character_id == hit.char_id
                    &&& row.damage == hit.class.total_damage
                    &&& row.primary_damage == hit.damage
                    &&& row.follow_up_damage == hit.follow_up_damage
                }
            &&& offset >= places.len() ==> page.rows@.len() == 0
            &&& offset < places.len() && 1 <= limit <= 250 && limit <= places.len() - offset
                ==> page.rows@.len() == limit
            &&& offset < places.len() && 1 <= limit <= 250 && limit > places.len() - offset
                ==> page.rows@.len() == places.len() - offset
            &&& page.rows@.len() <= 250
        }),
{
    let hits = told_party(*combat, half).hits@;
    let places = listed(hits, *request);
    listed_positions_are_valid(hits, *request);
    listed_positions_ascend(hits, *request);
    assert(damages_at(hits, places) =~= places.map_values(
        |at: int| hits[at].class.total_damage,
    ));
    places
}

/// The largest row of a page is as large as any row of it, and at least one.
pub proof fn the_largest_row_is_the_largest<
    F: Fn(Arith) -> Double,
    A: Fn(&PartyCombatState, bool) -> Double,
    U: Fn(HitDirectionSummary) -> Double,
>(
    combat: &CombatState,
    half: Option<AbyssHalf>,
    request: &MainDpsDetailRequest,
    view: &DetailView,
    offset: usize,
    limit: usize,
    absent_duration: &A,
    unknown_share: &U,
    ops: &F,
    page: MainDpsDetailSnapshot,
    k: int,
)
    requires
        call_ensures(
            MainDpsDetailSnapshot::from_state::<F, A, U>,
            (combat, half, request, view, offset, limit, absent_duration, unknown_share, ops),
            page,
        ),
        0 <= k < page.rows@.len(),
    ensures
        !page.rows@[k].damage.nan() ==> page.rows@[k].damage.rank() <= page.max_row_damage.rank(),
        page.max_row_damage.rank() >= (Double { bits: ONE_BITS }).rank(),
{
    let hits = told_party(*combat, half).hits@;
    let places = listed(hits, *request);
    let values = damages_at(hits, places);
    listed_positions_are_valid(hits, *request);
    largest_is_largest(values);
    assert(values[offset + k] == hits[places[offset + k]].class.total_damage);
}

proof fn largest_is_largest(values: Seq<Double>)
    ensures
        !largest_damage(values).nan(),
        largest_damage(values).rank() >= (Double { bits: ONE_BITS }).rank(),
        forall|k: int|
            0 <= k < values.len() && !(#[trigger] values[k]).nan() ==> values[k].rank()
                <= largest_damage(values).rank(),
    decreases values.len(),
{
    if values.len() > 0 {
        let shorter = values.drop_last();
        largest_is_largest(shorter);
        assert forall|k: int| 0 <= k < values.len() && !(#[trigger] values[k]).nan() implies values[k].rank()
            <= largest_damage(values).rank() by {
            if k < shorter.len() {
                assert(shorter[k] == values[k]);
            }
        }
    }
}

/// What the covered output of one skill dealt, in order.
pub open spec fn skill_damage(
    hits: Seq<Hit>,
    request: MainDpsDetailRequest,
    skill: Seq<char>,
) -> Seq<Double>
    decreases hits.len(),
{
    if hits.len() == 0 {
        Seq::empty()
    } else if told_of(request, hits.last()) && hits.last().direction !is Incoming && skill_of(
        hits.last(),
    ) == skill {
        skill_damage(hits.drop_last(), request, skill).push(hits.last().class.total_damage)
    } else {
        skill_damage(hits.drop_last(), request, skill)
    }
}

proof fn skill_amounts(hits: Seq<Hit>, request: MainDpsDetailRequest, skill: Seq<char>)
    ensures
        amounts_for(skill_items(hits, request), skill) == skill_damage(hits, request, skill),
        count_for(skill_items(hits, request), skill) == skill_damage(hits, request, skill).len(),
        skill_damage(hits, request, skill).len() <= hits.len(),
    decreases hits.len(),
{
    if hits.len() > 0 {
        let shorter = hits.drop_last();
        skill_amounts(shorter, request, skill);
        if told_of(request, hits.last()) && hits.last().direction !is Incoming {
            assert(skill_items(hits, request).drop_last() =~= skill_items(shorter, request));
        }
    }
}

/// A skill's row adds up the output of that skill and counts its hits, shows
/// what share of the output that is, and the skills with the most damage come
/// first.
pub proof fn skills_add_up_their_hits<F: Fn(Arith) -> Double>(
    hits: &Vec<Hit>,
    request: &MainDpsDetailRequest,
    names: &DisplayNames,
    total_damage: Double,
    ops: &F,
    result: (Vec<MainDpsSkillSummary>, usize),
    k: int,
)
    requires
        call_ensures(
            skill_summaries::<F>,
            (hits, request, names, total_damage, ops),
            result,
        ),
        0 <= k < result.0@.len(),
    ensures
        ({
            let row = result.0@[k];
            let amounts = skill_damage(hits@, *request, row.id@);
            &&& row.damage == sum_of(*ops, amounts)
            &&& row.hits == amounts.len()
            &&& amounts.len() > 0
            &&& 0 < total_damage.bits <= INFINITY_BITS ==> row.share_percent == answer(
                *ops,
                Arith::Product(
                    answer(*ops, Arith::Quotient(row.damage, total_damage)),
                    Double { bits: 0x4059_0000_0000_0000 },
                ),
            )
        }),
        forall|j: int|
            0 <= j < k ==> (#[trigger] result.0@[j]).id@ != result.0@[k].id@
                && result.0@[j].damage.total_rank() >= result.0@[k].damage.total_rank(),
        result.0@.len() <= 250,
        result.0@.len() <= result.1,
        result.1 <= 250 ==> result.0@.len() == result.1,
{
    let items = skill_items(hits@, *request);
    let rows = result.0@;
    let (entries, ranking) = choose|entries: Seq<Tally>, ranking: Seq<usize>|
        {
            &&& #[trigger] sums_by_key(*ops, items, entries)
            &&& #[trigger] ranks_totals(totals_of(entries), ranking)
            &&& result.1 == entries.len()
            &&& rows.len() == capped(entries.len(), MAIN_DPS_DETAIL_SKILL_LIMIT)
            &&& forall|k: int|
                0 <= k < rows.len() ==> shows_skill(
                    *ops,
                    *names,
                    hits@,
                    entries[ranking[k] as int],
                    total_damage,
                    #[trigger] rows[k],
                )
        };
    let entry = entries[ranking[k] as int];
    assert(shows_skill(*ops, *names, hits@, entry, total_damage, rows[k]));
    assert(sums_key(*ops, items, entry));
    assert(hits.len() == hits@.len());
    skill_amounts(hits@, *request, entry.key@);
    sourced_keys_count(items, entry.key@);
    assert forall|j: int| 0 <= j < k implies (#[trigger] rows[j]).id@ != rows[k].id@
        && rows[j].damage.total_rank() >= rows[k].damage.total_rank() by {
        let other = entries[ranking[j] as int];
        assert(shows_skill(*ops, *names, hits@, other, total_damage, rows[j]));
        assert(totals_of(entries)[ranking[j] as int].total_rank() >= totals_of(
            entries,
        )[ranking[k] as int].total_rank());
        assert(ranking[j] != ranking[k]);
        assert(totals_of(entries)[ranking[j] as int] == other.total);
        assert(totals_of(entries)[ranking[k] as int] == entry.total);
        if ranking[j] < ranking[k] {
            assert(entries[ranking[j] as int].key@ != entries[ranking[k] as int].key@);
        } else {
            assert(entries[ranking[k] as int].key@ != entries[ranking[j] as int].key@);
        }
    }
}

proof fn sourced_keys_count(items: Seq<Contribution>, key: Seq<char>)
    ensures
        first_source(items, key) is Some ==> count_for(items, key) > 0,
    decreases items.len(),
{
    if items.len() > 0 {
        sourced_keys_count(items.drop_last(), key);
    }
}

/// What the covered output dealt as QTE damage of one attack type, in order:
/// a hit's own damage where its attack type is one or it is break damage, and
/// its follow-up damage where that is one.
pub open spec fn qte_damage(
    hits: Seq<Hit>,
    request: MainDpsDetailRequest,
    attack_type: Seq<char>,
) -> Seq<Double>
    decreases hits.len(),
{
    if hits.len() == 0 {
        Seq::empty()
    } else {
        let hit = hits.last();
        let earlier = qte_damage(hits.drop_last(), request, attack_type);
        if !told_of(request, hit) || hit.direction is Incoming {
            earlier
        } else {
            let own = if hit.attack_type is Some && hit.attack_type->0@ == attack_type && (
            hit.class.attack_type_is_qte || hit.class.unbalance) {
                earlier.push(hit.damage)
            } else {
                earlier
            };
            if 0 < hit.follow_up_damage.bits <= INFINITY_BITS && hit.follow_up_attack_type is Some
                && hit.follow_up_attack_type->0@ == attack_type
                && hit.class.follow_up_type_is_qte {
                own.push(hit.follow_up_damage)
            } else {
                own
            }
        }
    }
}

proof fn pushed_amounts(items: Seq<Contribution>, item: Contribution, key: Seq<char>)
    ensures
        amounts_for(items.push(item), key) == (if item.key == key {
            amounts_for(items, key).push(item.amount)
        } else {
            amounts_for(items, key)
        }),
        count_for(items.push(item), key) == count_for(items, key) + if item.key == key {
            1nat
        } else {
            0
        },
{
    assert(items.push(item).drop_last() =~= items);
}

proof fn qte_amounts(hits: Seq<Hit>, request: MainDpsDetailRequest, attack_type: Seq<char>)
    ensures
        amounts_for(qte_items(hits, request), attack_type) == qte_damage(
            hits,
            request,
            attack_type,
        ),
        count_for(qte_items(hits, request), attack_type) == qte_damage(
            hits,
            request,
            attack_type,
        ).len(),
        qte_damage(hits, request, attack_type).len() <= 2 * hits.len(),
    decreases hits.len(),
{
    if hits.len() > 0 {
        let shorter = hits.drop_last();
        let hit = hits.last();
        let at = hits.len() - 1;
        let earlier = qte_items(shorter, request);
        qte_amounts(shorter, request, attack_type);
        if told_of(request, hit) && hit.direction !is Incoming {
            let added = crate::detail::qte_items_of(hit, at);
            let own = Contribution { key: hit.attack_type->0@, amount: hit.damage, source: at };
            let follow_up = Contribution {
                key: hit.follow_up_attack_type->0@,
                amount: hit.follow_up_damage,
                source: at,
            };
            let first = if crate::detail::counts_as_qte(hit) {
                earlier.push(own)
            } else {
                earlier
            };
            let second = if crate::detail::follow_up_counts_as_qte(hit) {
                first.push(follow_up)
            } else {
                first
            };
            assert(second =~= earlier + added);
            pushed_amounts(earlier, own, attack_type);
            pushed_amounts(first, follow_up, attack_type);
        }
    }
}

/// A QTE row of a page adds up the QTE damage of its attack type and counts it,
/// shows its share of the total output, and the most damage comes first.
pub proof fn qte_rows_add_up_their_damage<
    F: Fn(Arith) -> Double,
    A: Fn(&PartyCombatState, bool) -> Double,
    U: Fn(HitDirectionSummary) -> Double,
>(
    combat: &CombatState,
    half: Option<AbyssHalf>,
    request: &MainDpsDetailRequest,
    view: &DetailView,
    offset: usize,
    limit: usize,
    absent_duration: &A,
    unknown_share: &U,
    ops: &F,
    page: MainDpsDetailSnapshot,
    k: int,
)
    requires
        call_ensures(
            MainDpsDetailSnapshot::from_state::<F, A, U>,
            (combat, half, request, view, offset, limit, absent_duration, unknown_share, ops),
            page,
        ),
        0 <= k < page.qte_summaries@.len(),
        2 * told_party(*combat, half).hits@.len() <= u64::MAX,
    ensures
        ({
            let row = page.qte_summaries@[k];
            let amounts = qte_damage(
                told_party(*combat, half).hits@,
                *request,
                row.attack_type@,
            );
            &&& row.damage == sum_of(*ops, amounts)
            &&& row.hits == amounts.len()
            &&& amounts.len() > 0
            &&& 0 < page.metrics.total_output.bits <= INFINITY_BITS ==> row.share_percent
                == answer(
                *ops,
                Arith::Product(
                    answer(*ops, Arith::Quotient(row.damage, page.metrics.total_output)),
                    Double { bits: 0x4059_0000_0000_0000 },
                ),
            )
        }),
        forall|j: int|
            0 <= j < k ==> (#[trigger] page.qte_summaries@[j]).attack_type@
                != page.qte_summaries@[k].attack_type@
                && page.qte_summaries@[j].damage.total_rank()
                >= page.qte_summaries@[k].damage.total_rank(),
        page.qte_summaries@.len() <= 32,
        page.qte_summaries_truncated <==> page.qte_summary_total_count > 32,
{
    let hits = told_party(*combat, half).hits@;
    let items = qte_items(hits, *request);
    let rows = page.qte_summaries@;
    let total = page.metrics.total_output;
    let (entries, ranking) = choose|entries: Seq<Tally>, ranking: Seq<usize>|
        {
            &&& #[trigger] sums_by_key(*ops, items, entries)
            &&& #[trigger] ranks_totals(totals_of(entries), ranking)
            &&& page.qte_summary_total_count == entries.len()
            &&& rows.len() == capped(entries.len(), MAIN_DPS_DETAIL_QTE_LIMIT)
            &&& forall|k: int|
                0 <= k < rows.len() ==> shows_qte(
                    *ops,
                    entries[ranking[k] as int],
                    total,
                    #[trigger] rows[k],
                )
        };
    let entry = entries[ranking[k] as int];
    assert(shows_qte(*ops, entry, total, rows[k]));
    assert(sums_key(*ops, items, entry));
    qte_amounts(hits, *request, entry.key@);
    sourced_keys_count(items, entry.key@);
    assert forall|j: int| 0 <= j < k implies (#[trigger] rows[j]).attack_type@
        != rows[k].attack_type@ && rows[j].damage.total_rank() >= rows[k].damage.total_rank() by {
        let other = entries[ranking[j] as int];
        assert(shows_qte(*ops, other, total, rows[j]));
        assert(totals_of(entries)[ranking[j] as int].total_rank() >= totals_of(
            entries,
        )[ranking[k] as int].total_rank());
        assert(totals_of(entries)[ranking[j] as int] == other.total);
        assert(totals_of(entries)[ranking[k] as int] == entry.total);
        assert(ranking[j] != ranking[k]);
        if ranking[j] < ranking[k] {
            assert(entries[ranking[j] as int].key@ != entries[ranking[k] as int].key@);
        } else {
            assert(entries[ranking[k] as int].key@ != entries[ranking[j] as int].key@);
        }
    }
}

/// Whether an effect was up during a hit.
pub open spec fn was_up(hit: Hit, hash: u64) -> bool {
    exists|i: int|
        0 <= i < hit.active_effects@.len() && (#[trigger] hit.active_effects@[i]).name_hash == hash
            && !hit.active_effects@[i].inhibited
}

/// What the listed hits dealt while an effect was up, in order.
pub open spec fn damage_while_up(
    hits: Seq<Hit>,
    request: MainDpsDetailRequest,
    hash: u64,
) -> Seq<Double>
    decreases hits.len(),
{
    if hits.len() == 0 {
        Seq::empty()
    } else if request.lists(hits.last()) && was_up(hits.last(), hash) {
        damage_while_up(hits.drop_last(), request, hash).push(hits.last().class.total_damage)
    } else {
        damage_while_up(hits.drop_last(), request, hash)
    }
}

/// Whether an effect was up during a hit, among its first effects.
spec fn was_up_before(hit: Hit, hash: u64, upto: int) -> bool {
    exists|i: int|
        0 <= i < upto && (#[trigger] hit.active_effects@[i]).name_hash == hash
            && !hit.active_effects@[i].inhibited
}

proof fn effects_of_one_hit(hit: Hit, hash: u64, upto: int)
    requires
        0 <= upto <= hit.active_effects@.len(),
    ensures
        effect_count(effect_items_of(hit, upto), hash) == (if was_up_before(hit, hash, upto) {
            1nat
        } else {
            0
        }),
        effect_damages(effect_items_of(hit, upto), hash) == (if was_up_before(hit, hash, upto) {
            seq![hit.class.total_damage]
        } else {
            Seq::<Double>::empty()
        }),
    decreases upto,
{
    if upto > 0 {
        effects_of_one_hit(hit, hash, upto - 1);
        let effects = hit.active_effects@;
        let effect = effects[upto - 1];
        let earlier = effect_items_of(hit, upto - 1);
        let items = effect_items_of(hit, upto);
        if was_up_before(hit, hash, upto - 1) {
            let i = choose|i: int|
                0 <= i < upto - 1 && (#[trigger] effects[i]).name_hash == hash
                    && !effects[i].inhibited;
            assert(effects[i].name_hash == hash && !effects[i].inhibited);
            assert(was_up_before(hit, hash, upto));
        }
        if was_up_before(hit, hash, upto) && !was_up_before(hit, hash, upto - 1) {
            let i = choose|i: int|
                0 <= i < upto && (#[trigger] effects[i]).name_hash == hash
                    && !effects[i].inhibited;
            assert(i == upto - 1);
        }
        if effect_counts(effects, upto - 1) {
            assert(items.drop_last() =~= earlier);
            if effect.name_hash == hash {
                assert(effects[upto - 1].name_hash == hash);
                assert(!was_up_before(hit, hash, upto - 1));
                assert(was_up_before(hit, hash, upto));
            }
        } else if effect.name_hash == hash && !effect.inhibited {
            let k = choose|k: int|
                0 <= k < upto - 1 && !(#[trigger] effects[k]).inhibited && effects[k].name_hash
                    == effect.name_hash;
            assert(effects[k].name_hash == hash && !effects[k].inhibited);
            assert(was_up_before(hit, hash, upto - 1));
        }
    }
}

proof fn joined_effects(left: Seq<EffectItem>, right: Seq<EffectItem>, hash: u64)
    ensures
        effect_count(left + right, hash) == effect_count(left, hash) + effect_count(right, hash),
        effect_damages(left + right, hash) == effect_damages(left, hash) + effect_damages(
            right,
            hash,
        ),
    decreases right.len(),
{
    if right.len() == 0 {
        assert(left + right =~= left);
        assert(effect_damages(left, hash) + effect_damages(right, hash) =~= effect_damages(
            left,
            hash,
        ));
    } else {
        joined_effects(left, right.drop_last(), hash);
        assert((left + right).drop_last() =~= left + right.drop_last());
        assert((left + right).last() == right.last());
        assert(effect_damages(left + right, hash) =~= effect_damages(left, hash)
            + effect_damages(right, hash));
    }
}

proof fn effects_of_all_hits(hits: Seq<Hit>, request: MainDpsDetailRequest, hash: u64)
    ensures
        effect_count(effect_items(hits, request), hash) == damage_while_up(
            hits,
            request,
            hash,
        ).len(),
        effect_damages(effect_items(hits, request), hash) == damage_while_up(hits, request, hash),
        damage_while_up(hits, request, hash).len() <= hits.len(),
    decreases hits.len(),
{
    if hits.len() > 0 {
        let shorter = hits.drop_last();
        let hit = hits.last();
        effects_of_all_hits(shorter, request, hash);
        if request.lists(hit) {
            let count = hit.active_effects@.len() as int;
            effects_of_one_hit(hit, hash, count);
            assert(was_up(hit, hash) == was_up_before(hit, hash, count));
            joined_effects(effect_items(shorter, request), effect_items_of(hit, count), hash);
            assert(effect_damages(effect_items(hits, request), hash) =~= damage_while_up(
                hits,
                request,
                hash,
            ));
        }
    }
}

/// An effect's row counts the listed hits during which the effect was up, each
/// once, adds up what they dealt, and says what part of all listed hits and of
/// their damage that is.
pub proof fn coverage_counts_the_hits_under_an_effect<
    F: Fn(Arith) -> Double,
    A: Fn(&PartyCombatState, bool) -> Double,
    U: Fn(HitDirectionSummary) -> Double,
>(
    combat: &CombatState,
    half: Option<AbyssHalf>,
    request: &MainDpsDetailRequest,
    view: &DetailView,
    offset: usize,
    limit: usize,
    absent_duration: &A,
    unknown_share: &U,
    ops: &F,
    page: MainDpsDetailSnapshot,
    k: int,
) -> (hash: u64)
    requires
        call_ensures(
            MainDpsDetailSnapshot::from_state::<F, A, U>,
            (combat, half, request, view, offset, limit, absent_duration, unknown_share, ops),
            page,
        ),
        0 <= k < page.effect_coverage@.len(),
    ensures
        ({
            let row = page.effect_coverage@[k];
            let damages = damage_while_up(told_party(*combat, half).hits@, *request, hash);
            &&& row.name_hash@ == hexadecimal(hash as nat, 16)
            &&& row.name is Some <==> view.effect_catalog@.dom().contains(hash)
            &&& row.name is Some ==> row.name->0@ == view.effect_catalog@[hash]@
            &&& row.affected_hits == damages.len()
            &&& row.affected_damage == sum_of(*ops, damages)
            &&& page.total_hits > 0 ==> row.hit_coverage == answer(
                *ops,
                Arith::Quotient(
                    answer(*ops, Arith::FromCount(row.affected_hits)),
                    answer(*ops, Arith::FromCount(page.total_hits as u64)),
                ),
            )
            &&& 0 < page.total_damage.bits <= INFINITY_BITS ==> row.damage_coverage == answer(
                *ops,
                Arith::Quotient(row.affected_damage, page.total_damage),
            )
            &&& page.total_damage.bits == 0 ==> row.damage_coverage.bits == 0
        }),
        page.effect_coverage@.len() <= 256,
{
    let hits = told_party(*combat, half).hits@;
    let items = effect_items(hits, *request);
    let rows = page.effect_coverage@;
    let (entries, ranking) = choose|entries: Seq<EffectTally>, ranking: Seq<usize>|
        {
            &&& #[trigger] sums_effects(*ops, items, entries)
            &&& #[trigger] ranks_totals(effect_totals(entries), ranking)
            &&& rows.len() == capped(entries.len(), MAIN_DPS_DETAIL_EFFECT_LIMIT)
            &&& forall|k: int|
                0 <= k < rows.len() ==> shows_coverage(
                    *ops,
                    view.effect_catalog@,
                    entries[ranking[k] as int],
                    page.total_hits,
                    page.total_damage,
                    #[trigger] rows[k],
                )
        };
    let entry = entries[ranking[k] as int];
    assert(shows_coverage(
        *ops,
        view.effect_catalog@,
        entry,
        page.total_hits,
        page.total_damage,
        rows[k],
    ));
    assert(sums_effect(*ops, items, entry));
    assert(told_party(*combat, half).hits.len() == hits.len());
    effects_of_all_hits(hits, *request, entry.hash);
    entry.hash
}

/// The first effect of a hit with a hash that is in force.
pub open spec fn first_up(hit: Hit, hash: u64, at: int) -> bool {
    &&& 0 <= at < hit.active_effects@.len()
    &&& hit.active_effects@[at].name_hash == hash
    &&& !hit.active_effects@[at].inhibited
    &&& forall|k: int|
        0 <= k < at && (#[trigger] hit.active_effects@[k]).name_hash == hash
            ==> hit.active_effects@[k].inhibited
}

/// The first listed hit during which an effect was up.
pub open spec fn came_up(
    hits: Seq<Hit>,
    request: MainDpsDetailRequest,
    hash: u64,
    h: int,
    at: int,
) -> bool {
    &&& 0 <= h < hits.len()
    &&& request.lists(hits[h])
    &&& first_up(hits[h], hash, at)
    &&& forall|earlier: int|
        0 <= earlier < h && request.lists(#[trigger] hits[earlier]) ==> !was_up(
            hits[earlier],
            hash,
        )
}

/// A listed hit during which an effect stood at a stack.
pub open spec fn stood_at(
    hits: Seq<Hit>,
    request: MainDpsDetailRequest,
    hash: u64,
    h: int,
    at: int,
    stack: u16,
) -> bool {
    &&& 0 <= h < hits.len()
    &&& request.lists(hits[h])
    &&& first_up(hits[h], hash, at)
    &&& hits[h].active_effects@[at].stack_count == stack
}

proof fn joined_stacks(a: Seq<EffectItem>, b: Seq<EffectItem>, hash: u64)
    ensures
        effect_stack(a + b, hash) >= effect_stack(a, hash),
        effect_stack(a + b, hash) >= effect_stack(b, hash),
        effect_stack(a + b, hash) == effect_stack(a, hash) || effect_stack(a + b, hash)
            == effect_stack(b, hash),
        effect_kind(a, hash) is Some ==> effect_kind(a + b, hash) == effect_kind(a, hash),
        effect_kind(a, hash) is None ==> effect_kind(a + b, hash) == effect_kind(b, hash),
    decreases b.len(),
{
    if b.len() == 0 {
        assert(a + b =~= a);
    } else {
        joined_stacks(a, b.drop_last(), hash);
        assert((a + b).drop_last() =~= a + b.drop_last());
        assert((a + b).last() == b.last());
    }
}

proof fn stack_of_one_hit(hit: Hit, hash: u64, upto: int)
    requires
        0 <= upto <= hit.active_effects@.len(),
    ensures
        forall|at: int|
            at < upto && #[trigger] first_up(hit, hash, at) ==> {
                &&& effect_stack(effect_items_of(hit, upto), hash)
                    == hit.active_effects@[at].stack_count
                &&& effect_kind(effect_items_of(hit, upto), hash) == Some(
                    hit.active_effects@[at].kind,
                )
            },
        !was_up_before(hit, hash, upto) ==> effect_stack(effect_items_of(hit, upto), hash) == 0
            && effect_kind(effect_items_of(hit, upto), hash) is None,
        was_up_before(hit, hash, upto) ==> exists|at: int|
            at < upto && #[trigger] first_up(hit, hash, at),
    decreases upto,
{
    if upto > 0 {
        let last = upto - 1;
        let effect = hit.active_effects@[last];
        stack_of_one_hit(hit, hash, last);
        let before = effect_items_of(hit, last);
        let after = effect_items_of(hit, upto);
        if effect_counts(hit.active_effects@, last) {
            assert(after.drop_last() =~= before);
            if effect.name_hash == hash {
                assert(first_up(hit, hash, last));
                assert(!was_up_before(hit, hash, last));
            }
        } else if effect.name_hash == hash && !effect.inhibited {
            assert(was_up_before(hit, hash, last));
        }
        if was_up_before(hit, hash, upto) && !was_up_before(hit, hash, last) {
            assert(effect.name_hash == hash && !effect.inhibited);
            assert(first_up(hit, hash, last));
        }
    }
}

proof fn stacks_of_all_hits(hits: Seq<Hit>, request: MainDpsDetailRequest, hash: u64)
    ensures
        forall|h: int, at: int|
            0 <= h < hits.len() && request.lists(hits[h]) && #[trigger] first_up(
                hits[h],
                hash,
                at,
            ) ==> hits[h].active_effects@[at].stack_count <= effect_stack(
                effect_items(hits, request),
                hash,
            ),
        effect_stack(effect_items(hits, request), hash) == 0 || exists|h: int, at: int| #[trigger]
            stood_at(
                hits,
                request,
                hash,
                h,
                at,
                effect_stack(effect_items(hits, request), hash),
            ),
        effect_kind(effect_items(hits, request), hash) matches Some(kind) ==> exists|
            h: int,
            at: int,
        | #[trigger]
            came_up(hits, request, hash, h, at) && hits[h].active_effects@[at].kind == kind,
        effect_kind(effect_items(hits, request), hash) is None ==> forall|h: int|
            0 <= h < hits.len() && request.lists(#[trigger] hits[h]) ==> !was_up(hits[h], hash),
    decreases hits.len(),
{
    if hits.len() > 0 {
        let shorter = hits.drop_last();
        let hit = hits.last();
        let end = hits.len() - 1;
        let earlier = effect_items(shorter, request);
        stacks_of_all_hits(shorter, request, hash);
        assert(hits[end] == hit);
        assert forall|h: int| 0 <= h < end implies #[trigger] hits[h] == shorter[h] by {}
        let count = hit.active_effects@.len() as int;
        let mine = effect_items_of(hit, count);
        stack_of_one_hit(hit, hash, count);
        assert(was_up(hit, hash) == was_up_before(hit, hash, count));
        if request.lists(hit) {
            joined_stacks(earlier, mine, hash);
            if was_up(hit, hash) {
                let at = choose|at: int| at < count && #[trigger] first_up(hit, hash, at);
                assert(stood_at(hits, request, hash, end, at, effect_stack(mine, hash)));
                if effect_kind(earlier, hash) is None {
                    assert(came_up(hits, request, hash, end, at));
                }
            }
        }
        let strongest = effect_stack(earlier, hash);
        if strongest != 0 {
            let (h, at) = choose|h: int, at: int| #[trigger]
                stood_at(shorter, request, hash, h, at, strongest);
            assert(stood_at(hits, request, hash, h, at, strongest));
        }
        if effect_kind(earlier, hash) is Some {
            let kind = effect_kind(earlier, hash)->0;
            let (h, at) = choose|h: int, at: int| #[trigger]
                came_up(shorter, request, hash, h, at) && shorter[h].active_effects@[at].kind
                    == kind;
            assert(came_up(hits, request, hash, h, at));
        }
        assert forall|h: int, at: int|
            0 <= h < hits.len() && request.lists(hits[h]) && #[trigger] first_up(
                hits[h],
                hash,
                at,
            ) implies hits[h].active_effects@[at].stack_count <= effect_stack(
            effect_items(hits, request),
            hash,
        ) by {
            if h < end {
                assert(first_up(shorter[h], hash, at));
            } else {
                assert(first_up(hit, hash, at));
            }
        }
    }
}

/// An effect's row shows the highest stack that the effect stood at during a
/// listed hit, and the kind it had when it first came up.
pub proof fn coverage_shows_the_highest_stack<
    F: Fn(Arith) -> Double,
    A: Fn(&PartyCombatState, bool) -> Double,
    U: Fn(HitDirectionSummary) -> Double,
>(
    combat: &CombatState,
    half: Option<AbyssHalf>,
    request: &MainDpsDetailRequest,
    view: &DetailView,
    offset: usize,
    limit: usize,
    absent_duration: &A,
    unknown_share: &U,
    ops: &F,
    page: MainDpsDetailSnapshot,
    k: int,
) -> (seen: (u64, int, int))
    requires
        call_ensures(
            MainDpsDetailSnapshot::from_state::<F, A, U>,
            (combat, half, request, view, offset, limit, absent_duration, unknown_share, ops),
            page,
        ),
        0 <= k < page.effect_coverage@.len(),
    ensures
        page.effect_coverage@[k].name_hash@ == hexadecimal(seen.0 as nat, 16),
        came_up(told_party(*combat, half).hits@, *request, seen.0, seen.1, seen.2),
        ({
            let kind = told_party(*combat, half).hits@[seen.1].active_effects@[seen.2].kind;
            let row = page.effect_coverage@[k];
            &&& kind is GameplayEffect ==> row.kind@ == "ge"@
            &&& kind is Buff ==> row.kind@ == "buff"@
            &&& kind is Debuff ==> row.kind@ == "debuff"@
        }),
        ({
            let hits = told_party(*combat, half).hits@;
            let row = page.effect_coverage@[k];
            forall|other: int, place: int|
                0 <= other < hits.len() && request.lists(hits[other]) && #[trigger] first_up(
                    hits[other],
                    seen.0,
                    place,
                ) ==> hits[other].active_effects@[place].stack_count <= row.max_stack
        }),
        page.effect_coverage@[k].max_stack == 0 || exists|other: int, place: int| #[trigger]
            stood_at(
                told_party(*combat, half).hits@,
                *request,
                seen.0,
                other,
                place,
                page.effect_coverage@[k].max_stack,
            ),
{
    let hits = told_party(*combat, half).hits@;
    let items = effect_items(hits, *request);
    let rows = page.effect_coverage@;
    let (entries, ranking) = choose|entries: Seq<EffectTally>, ranking: Seq<usize>|
        {
            &&& #[trigger] sums_effects(*ops, items, entries)
            &&& #[trigger] ranks_totals(effect_totals(entries), ranking)
            &&& rows.len() == capped(entries.len(), MAIN_DPS_DETAIL_EFFECT_LIMIT)
            &&& forall|k: int|
                0 <= k < rows.len() ==> shows_coverage(
                    *ops,
                    view.effect_catalog@,
                    entries[ranking[k] as int],
                    page.total_hits,
                    page.total_damage,
                    #[trigger] rows[k],
                )
        };
    let entry = entries[ranking[k] as int];
    assert(shows_coverage(
        *ops,
        view.effect_catalog@,
        entry,
        page.total_hits,
        page.total_damage,
        rows[k],
    ));
    assert(sums_effect(*ops, items, entry));
    stacks_of_all_hits(hits, *request, entry.hash);
    let (h, at) = choose|h: int, at: int| #[trigger]
        came_up(hits, *request, entry.hash, h, at) && hits[h].active_effects@[at].kind
            == entry.kind;
    let row = page.effect_coverage@[k];
    assert(row.max_stack == effect_stack(items, entry.hash));
    assert(came_up(hits, *request, entry.hash, h, at));
    assert(row.kind@ == crate::detail_text::kind_code(entry.kind));
    if row.max_stack != 0 {
        let (other, place) = choose|other: int, place: int| #[trigger]
            stood_at(
                hits,
                *request,
                entry.hash,
                other,
                place,
                effect_stack(items, entry.hash),
            );
        assert(stood_at(hits, *request, entry.hash, other, place, row.max_stack));
    }
    (entry.hash, h, at)
}

/// A page about a character is titled with the name in its row where nothing
/// else is known of it, and with a dash where it has no row; where its name in
/// the language is known, with that.
pub proof fn pages_are_titled_with_their_character<
    F: Fn(Arith) -> Double,
    A: Fn(&PartyCombatState, bool) -> Double,
    U: Fn(HitDirectionSummary) -> Double,
>(
    combat: &CombatState,
    half: Option<AbyssHalf>,
    request: &MainDpsDetailRequest,
    view: &DetailView,
    offset: usize,
    limit: usize,
    absent_duration: &A,
    unknown_share: &U,
    ops: &F,
    page: MainDpsDetailSnapshot,
    id: u32,
    party: &PartyCombatState,
    row: Option<usize>,
)
    requires
        call_ensures(
            MainDpsDetailSnapshot::from_state::<F, A, U>,
            (combat, half, request, view, offset, limit, absent_duration, unknown_share, ops),
            page,
        ),
        request.character_id == Some(id),
        *party == told_party(*combat, half),
        call_ensures(crate::detail::find_row, (party, id), row),
    ensures
        page.character_name is Some,
        !view.characters@.dom().contains(id) && row is Some ==> page.character_name->0@
            == party.stats@[row->0 as int].name@,
        !view.characters@.dom().contains(id) && row is None ==> page.character_name->0@ == "-"@,
        view.characters@.dom().contains(id) && view.language is SimplifiedChinese
            && crate::text::trimmed(view.characters@[id].name_zh@).len() > 0
            ==> page.character_name->0@ == crate::text::trimmed(view.characters@[id].name_zh@),
        view.characters@.dom().contains(id) && !(view.language is SimplifiedChinese)
            && crate::text::trimmed(view.characters@[id].name_en@).len() > 0
            ==> page.character_name->0@ == crate::text::trimmed(view.characters@[id].name_en@),
{
}

/// A page can start a capture or import a replay exactly while neither is under
/// way.
pub proof fn pages_offer_what_can_be_done(
    phase: LiveCapturePhase,
    replay_running: bool,
    actions: MainDpsDetailActions,
)
    requires
        call_ensures(MainDpsDetailActions::from_state, (phase, replay_running), actions),
    ensures
        actions.can_start_capture == actions.can_import_replay,
        actions.can_start_capture <==> !replay_running && phase !is Starting && phase !is Running
            && phase !is Stopping,
{
}

} // verus!
