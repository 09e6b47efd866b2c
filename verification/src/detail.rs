//! The detail page behind the damage meter: summaries of a character or of the
//! team, and one page of hits.
use std::collections::HashMap;

use vstd::prelude::*;

use crate::battle::{direction_code, hit_direction_code, saturated, saturating_sum};
use crate::combat_details::{
    damage_digit_key_for_hit, digit_key, follow_up_damage_digit_key_for_hit, follow_up_digit_key,
    reaction_key, reaction_text_key_for_hit, CombatDetailFilter,
};
use crate::detail_text::{
    attack_type_text, effect_kind_id, filter_code, filter_id, hit_skill_name_ref,
    hit_type_display_text, kind_code, localized_character_name, localized_name,
    localized_target_name, skill_of, skill_summary_display_name, skill_text, target_name,
    translate_attack_type, type_text,
};
use crate::double::{
    answer, evaluate, lawful, sum_of, Arith, Double, HUNDRED_BITS, ONE_BITS,
};
use crate::live_capture::LiveCapturePhase;
use crate::model::{
    AbyssHalf, ActiveEffectKind, CharacterInfo, CombatState, DamageAttributionSummary, Hit,
    HitActiveEffect, HitDirection, Language, PartyCombatState,
};
use crate::names::DisplayNames;
use crate::tally::{
    add_to_tally, rank_totals, ranks_totals, sums_by_key, Contribution, Tally,
};
use crate::text::{
    as_text, decimal, decimal_text, held, hexadecimal, hexadecimal_text, or_else, same_text, shown,
    to_text,
};

verus! {

broadcast use vstd::std_specs::hash::group_hash_axioms;

pub const MAIN_DPS_DETAIL_CONTRACT_VERSION: u32 = 5;

pub const MAIN_DPS_DETAIL_DEFAULT_LIMIT: usize = 200;

pub const MAIN_DPS_DETAIL_PAGE_LIMIT: usize = 250;

pub const MAIN_DPS_DETAIL_QTE_LIMIT: usize = 32;

pub const MAIN_DPS_DETAIL_SKILL_LIMIT: usize = 250;

pub const MAIN_DPS_DETAIL_EFFECT_LIMIT: usize = 256;

/// Which hits a detail page is about.
#[derive(Clone, Debug)]
pub struct MainDpsDetailRequest {
    pub character_id: Option<u32>,
    pub filter: CombatDetailFilter,
    pub skill_filter: Option<String>,
}

impl Default for MainDpsDetailRequest {
    fn default() -> (result: Self)
        ensures
            result == (MainDpsDetailRequest {
                character_id: None,
                filter: CombatDetailFilter::All,
                skill_filter: None,
            }),
    {
        MainDpsDetailRequest {
            character_id: None,
            filter: CombatDetailFilter::All,
            skill_filter: None,
        }
    }
}

impl MainDpsDetailRequest {
    /// The summaries are about this hit.
    pub open spec fn covers(self, hit: Hit) -> bool {
        self.character_id is None || self.character_id == Some(hit.char_id)
    }

    /// The page lists this hit.
    pub open spec fn lists(self, hit: Hit) -> bool {
        self.covers(hit) && self.filter.selects(hit) && (self.skill_filter is None || held(
            self.skill_filter,
        ) == Some(skill_of(hit)))
    }

    pub fn character_matches(&self, hit: &Hit) -> (result: bool)
        ensures
            result == self.covers(*hit),
    {
        match self.character_id {
            Some(character_id) => hit.char_id == character_id,
            None => true,
        }
    }

    /// Whether the filters keep a hit that the request covers.
    pub fn matches_filters(&self, hit: &Hit) -> (result: bool)
        ensures
            self.covers(*hit) ==> result == self.lists(*hit),
    {
        self.filter.matches(hit) && match &self.skill_filter {
            Some(filter) => same_text(hit_skill_name_ref(hit), filter.as_str()),
            None => true,
        }
    }
}

/// The positions of the listed hits, in order.
pub open spec fn listed(hits: Seq<Hit>, request: MainDpsDetailRequest) -> Seq<int>
    decreases hits.len(),
{
    if hits.len() == 0 {
        Seq::empty()
    } else {
        let earlier = listed(hits.drop_last(), request);
        if request.lists(hits.last()) {
            earlier.push(hits.len() - 1)
        } else {
            earlier
        }
    }
}

/// Listed positions lie within the list.
pub proof fn listed_positions_are_valid(hits: Seq<Hit>, request: MainDpsDetailRequest)
    ensures
        listed(hits, request).len() <= hits.len(),
        forall|k: int|
            0 <= k < listed(hits, request).len() ==> 0 <= (#[trigger] listed(hits, request)[k])
                < hits.len() && request.lists(hits[listed(hits, request)[k]]),
    decreases hits.len(),
{
    if hits.len() > 0 {
        listed_positions_are_valid(hits.drop_last(), request);
    }
}

/// The total damage of hits at given positions.
pub open spec fn damages_at(hits: Seq<Hit>, positions: Seq<int>) -> Seq<Double> {
    positions.map_values(|at: int| hits[at].class.total_damage)
}

/// The largest damage of a sequence, at least one.
pub open spec fn largest_damage(values: Seq<Double>) -> Double
    decreases values.len(),
{
    if values.len() == 0 {
        Double { bits: ONE_BITS }
    } else {
        largest_damage(values.drop_last()).larger(values.last())
    }
}

/// What covered hits of one direction add up to.
pub open spec fn damages_toward(
    hits: Seq<Hit>,
    request: MainDpsDetailRequest,
    direction: HitDirection,
) -> Seq<Double>
    decreases hits.len(),
{
    if hits.len() == 0 {
        Seq::empty()
    } else {
        let earlier = damages_toward(hits.drop_last(), request, direction);
        if request.covers(hits.last()) && hits.last().direction == direction {
            earlier.push(hits.last().class.total_damage)
        } else {
            earlier
        }
    }
}

#[derive(Clone, Copy, Debug, PartialEq, Eq, Structural)]
pub struct HitDirectionSummary {
    pub outgoing_damage: Double,
    pub outgoing_hits: u64,
    pub unknown_damage: Double,
    pub unknown_hits: u64,
    pub incoming_damage: Double,
    pub incoming_hits: u64,
}

/// The direction summary of the covered hits.
pub open spec fn direction_summary_of<F: Fn(Arith) -> Double>(
    ops: F,
    hits: Seq<Hit>,
    request: MainDpsDetailRequest,
) -> HitDirectionSummary {
    let outgoing = damages_toward(hits, request, HitDirection::Outgoing);
    let unknown = damages_toward(hits, request, HitDirection::Unknown);
    let incoming = damages_toward(hits, request, HitDirection::Incoming);
    HitDirectionSummary {
        outgoing_damage: sum_of(ops, outgoing),
        outgoing_hits: saturated(outgoing.len() as int),
        unknown_damage: sum_of(ops, unknown),
        unknown_hits: saturated(unknown.len() as int),
        incoming_damage: sum_of(ops, incoming),
        incoming_hits: saturated(incoming.len() as int),
    }
}

fn accumulate_hit_direction<F: Fn(Arith) -> Double>(
    summary: &mut HitDirectionSummary,
    hit: &Hit,
    ops: &F,
)
    requires
        lawful(*ops),
    ensures
        *final(summary) == (match hit.direction {
            HitDirection::Incoming => HitDirectionSummary {
                incoming_damage: answer(
                    *ops,
                    Arith::Sum(old(summary).incoming_damage, hit.class.total_damage),
                ),
                incoming_hits: saturated(old(summary).incoming_hits + 1),
                ..*old(summary)
            },
            HitDirection::Outgoing => HitDirectionSummary {
                outgoing_damage: answer(
                    *ops,
                    Arith::Sum(old(summary).outgoing_damage, hit.class.total_damage),
                ),
                outgoing_hits: saturated(old(summary).outgoing_hits + 1),
                ..*old(summary)
            },
            HitDirection::Unknown => HitDirectionSummary {
                unknown_damage: answer(
                    *ops,
                    Arith::Sum(old(summary).unknown_damage, hit.class.total_damage),
                ),
                unknown_hits: saturated(old(summary).unknown_hits + 1),
                ..*old(summary)
            },
        }),
{
    let damage = hit.class.total_damage;
    match hit.direction {
        HitDirection::Incoming => {
            summary.incoming_damage = evaluate(ops, Arith::Sum(summary.incoming_damage, damage));
            summary.incoming_hits = saturating_sum(summary.incoming_hits, 1);
        },
        HitDirection::Outgoing => {
            summary.outgoing_damage = evaluate(ops, Arith::Sum(summary.outgoing_damage, damage));
            summary.outgoing_hits = saturating_sum(summary.outgoing_hits, 1);
        },
        HitDirection::Unknown => {
            summary.unknown_damage = evaluate(ops, Arith::Sum(summary.unknown_damage, damage));
            summary.unknown_hits = saturating_sum(summary.unknown_hits, 1);
        },
    }
}

proof fn one_more_toward(
    hits: Seq<Hit>,
    request: MainDpsDetailRequest,
    direction: HitDirection,
    upto: int,
)
    requires
        0 <= upto < hits.len(),
    ensures
        damages_toward(hits.take(upto + 1), request, direction) == (if request.covers(hits[upto])
            && hits[upto].direction == direction {
            damages_toward(hits.take(upto), request, direction).push(hits[upto].class.total_damage)
        } else {
            damages_toward(hits.take(upto), request, direction)
        }),
        damages_toward(hits.take(upto), request, direction).push(
            hits[upto].class.total_damage,
        ).drop_last() == damages_toward(hits.take(upto), request, direction),
{
    assert(hits.take(upto + 1).drop_last() =~= hits.take(upto));
    assert(damages_toward(hits.take(upto), request, direction).push(
        hits[upto].class.total_damage,
    ).drop_last() =~= damages_toward(hits.take(upto), request, direction));
}

fn summarize_directions<F: Fn(Arith) -> Double>(
    hits: &Vec<Hit>,
    request: &MainDpsDetailRequest,
    ops: &F,
) -> (summary: HitDirectionSummary)
    requires
        lawful(*ops),
    ensures
        summary == direction_summary_of(*ops, hits@, *request),
{
    let mut summary = HitDirectionSummary {
        outgoing_damage: Double::zero(),
        outgoing_hits: 0,
        unknown_damage: Double::zero(),
        unknown_hits: 0,
        incoming_damage: Double::zero(),
        incoming_hits: 0,
    };
    let mut i: usize = 0;
    while i < hits.len()
        invariant
            lawful(*ops),
            i <= hits.len(),
            summary == direction_summary_of(*ops, hits@.take(i as int), *request),
        decreases hits.len() - i,
    {
        proof {
            one_more_toward(hits@, *request, HitDirection::Outgoing, i as int);
            one_more_toward(hits@, *request, HitDirection::Unknown, i as int);
            one_more_toward(hits@, *request, HitDirection::Incoming, i as int);
        }
        if request.character_matches(&hits[i]) {
            accumulate_hit_direction(&mut summary, &hits[i], ops);
        }
        i = i + 1;
    }
    assert(hits@.take(i as int) =~= hits@);
    summary
}

#[derive(Clone, Copy, Debug, PartialEq, Eq, Structural)]
pub struct MainDpsDirectionSummary {
    pub confirmed_output: Double,
    pub confirmed_hits: u64,
    pub candidate_output: Double,
    pub candidate_hits: u64,
    pub incoming_output: Double,
    pub incoming_hits: u64,
    pub candidate_share_percent: Double,
}

/// What percentage of `total` a value is; of nothing, none.
pub open spec fn share_of<F: Fn(Arith) -> Double>(
    ops: F,
    value: Double,
    total: Double,
) -> Double {
    if total.positive() {
        answer(
            ops,
            Arith::Product(
                answer(ops, Arith::Quotient(value, total)),
                Double { bits: HUNDRED_BITS },
            ),
        )
    } else {
        Double { bits: 0 }
    }
}

pub fn percent<F: Fn(Arith) -> Double>(value: Double, total: Double, ops: &F) -> (result: Double)
    requires
        lawful(*ops),
    ensures
        result == share_of(*ops, value, total),
{
    if total.is_positive() {
        let ratio = evaluate(ops, Arith::Quotient(value, total));
        evaluate(ops, Arith::Product(ratio, Double { bits: HUNDRED_BITS }))
    } else {
        Double::zero()
    }
}

/// Whether `shown` is how the page shows a direction summary. The candidate
/// share is the engine's own reading of it.
pub open spec fn shows_directions<U: Fn(HitDirectionSummary) -> Double>(
    unknown_share: U,
    value: HitDirectionSummary,
    shown: MainDpsDirectionSummary,
) -> bool {
    &&& shown.confirmed_output == value.outgoing_damage
    &&& shown.confirmed_hits == value.outgoing_hits
    &&& shown.candidate_output == value.unknown_damage
    &&& shown.candidate_hits == value.unknown_hits
    &&& shown.incoming_output == value.incoming_damage
    &&& shown.incoming_hits == value.incoming_hits
    &&& call_ensures(unknown_share, (value,), shown.candidate_share_percent)
}

impl MainDpsDirectionSummary {
    /// Shows a direction summary. `unknown_share` asks the engine for the share
    /// of output whose direction is unknown.
    pub fn from_summary<U: Fn(HitDirectionSummary) -> Double>(
        value: HitDirectionSummary,
        unknown_share: &U,
    ) -> (result: Self)
        requires
            call_requires(*unknown_share, (value,)),
        ensures
            shows_directions(*unknown_share, value, result),
    {
        MainDpsDirectionSummary {
            confirmed_output: value.outgoing_damage,
            confirmed_hits: value.outgoing_hits,
            candidate_output: value.unknown_damage,
            candidate_hits: value.unknown_hits,
            incoming_output: value.incoming_damage,
            incoming_hits: value.incoming_hits,
            candidate_share_percent: unknown_share(value),
        }
    }
}

#[derive(Clone, Copy, Debug, PartialEq, Eq, Structural)]
pub struct MainDpsDetailMetrics {
    pub total_output: Double,
    pub dps: Double,
    pub output_count: u64,
    pub incoming_count: u64,
    pub total_damage_taken: Double,
    pub duration_seconds: Double,
}

/// The position of a character's row.
pub open spec fn row_at(party: PartyCombatState, id: u32, upto: int) -> Option<int>
    decreases upto,
{
    if upto <= 0 {
        None
    } else {
        match row_at(party, id, upto - 1) {
            Some(at) => Some(at),
            None => if party.stats@[upto - 1].char_id == id {
                Some(upto - 1)
            } else {
                None
            },
        }
    }
}

/// The row of a character, if the party has one.
pub open spec fn row_of(party: PartyCombatState, id: u32) -> Option<int> {
    row_at(party, id, party.stats@.len() as int)
}

proof fn row_at_is_valid(party: PartyCombatState, id: u32, upto: int)
    requires
        upto <= party.stats@.len(),
    ensures
        row_at(party, id, upto) matches Some(at) ==> 0 <= at < upto && party.stats@[at].char_id
            == id,
    decreases upto,
{
    if upto > 0 {
        row_at_is_valid(party, id, upto - 1);
    }
}

pub fn find_row(party: &PartyCombatState, id: u32) -> (result: Option<usize>)
    ensures
        match result {
            Some(at) => row_of(*party, id) == Some(at as int) && at < party.stats@.len(),
            None => row_of(*party, id) is None,
        },
{
    let mut i: usize = 0;
    while i < party.stats.len()
        invariant
            i <= party.stats@.len(),
            row_at(*party, id, i as int) is None,
        decreases party.stats@.len() - i,
    {
        if party.stats[i].char_id == id {
            proof {
                row_stays(*party, id, i + 1, party.stats@.len() as int);
            }
            return Some(i);
        }
        i = i + 1;
    }
    None
}

proof fn row_stays(party: PartyCombatState, id: u32, from: int, upto: int)
    requires
        row_at(party, id, from) is Some,
        from <= upto,
    ensures
        row_at(party, id, upto) == row_at(party, id, from),
    decreases upto,
{
    if from < upto {
        row_stays(party, id, from, upto - 1);
    }
}

/// The hits dealt by all rows.
pub open spec fn output_hits(party: PartyCombatState, upto: int) -> nat
    decreases upto,
{
    if upto <= 0 {
        0
    } else {
        output_hits(party, upto - 1) + party.stats@[upto - 1].combined.hits as nat
    }
}

/// The hits taken by all rows.
pub open spec fn taken_hits(party: PartyCombatState, upto: int) -> nat
    decreases upto,
{
    if upto <= 0 {
        0
    } else {
        taken_hits(party, upto - 1) + party.stats@[upto - 1].combined.hits_taken as nat
    }
}

/// Whether the engine gives this duration to a character that has no row; one
/// that has needs none.
pub open spec fn measures_absent<A: Fn(&PartyCombatState, bool) -> Double>(
    absent_duration: A,
    party: PartyCombatState,
    character_id: Option<u32>,
    subtract_time_stop: bool,
    absent: Double,
) -> bool {
    match character_id {
        Some(id) if row_of(party, id) is None => call_ensures(
            absent_duration,
            (&party, subtract_time_stop),
            absent,
        ),
        _ => true,
    }
}

/// The metrics of a character, or of the team. A character without a row has
/// nothing but the duration `absent`.
pub open spec fn metrics_of<F: Fn(Arith) -> Double>(
    ops: F,
    party: PartyCombatState,
    character_id: Option<u32>,
    separate_reaction_damage: bool,
    subtract_time_stop: bool,
    absent: Double,
) -> MainDpsDetailMetrics {
    let floor = Double { bits: ONE_BITS };
    match character_id {
        Some(id) => match row_of(party, id) {
            Some(at) => {
                let row = party.stats@[at].under_policy(separate_reaction_damage);
                let duration = row.duration.picked(subtract_time_stop);
                MainDpsDetailMetrics {
                    total_output: row.damage,
                    dps: answer(ops, Arith::Quotient(row.damage, duration.larger(floor))),
                    output_count: row.hits,
                    incoming_count: row.hits_taken,
                    total_damage_taken: row.damage_taken,
                    duration_seconds: duration,
                }
            },
            None => MainDpsDetailMetrics {
                total_output: Double { bits: 0 },
                dps: answer(ops, Arith::Quotient(Double { bits: 0 }, absent.larger(floor))),
                output_count: 0,
                incoming_count: 0,
                total_damage_taken: Double { bits: 0 },
                duration_seconds: absent,
            },
        },
        None => {
            let duration = party.duration.picked(subtract_time_stop);
            MainDpsDetailMetrics {
                total_output: party.total_damage,
                dps: answer(ops, Arith::Quotient(party.total_damage, duration.larger(floor))),
                output_count: saturated(output_hits(party, party.stats@.len() as int) as int),
                incoming_count: saturated(taken_hits(party, party.stats@.len() as int) as int),
                total_damage_taken: party.total_damage_taken,
                duration_seconds: duration,
            }
        },
    }
}

fn detail_metrics<F: Fn(Arith) -> Double>(
    party: &PartyCombatState,
    character_id: Option<u32>,
    separate_reaction_damage: bool,
    subtract_time_stop: bool,
    absent: Double,
    ops: &F,
) -> (metrics: MainDpsDetailMetrics)
    requires
        lawful(*ops),
    ensures
        metrics == metrics_of(
            *ops,
            *party,
            character_id,
            separate_reaction_damage,
            subtract_time_stop,
            absent,
        ),
{
    let floor = Double { bits: ONE_BITS };
    if let Some(id) = character_id {
        return match find_row(party, id) {
            Some(at) => {
                let row = party.stats[at].for_reaction_damage_policy(separate_reaction_damage);
                let duration = row.duration.pick(subtract_time_stop);
                MainDpsDetailMetrics {
                    total_output: row.damage,
                    dps: evaluate(ops, Arith::Quotient(row.damage, duration.max(floor))),
                    output_count: row.hits,
                    incoming_count: row.hits_taken,
                    total_damage_taken: row.damage_taken,
                    duration_seconds: duration,
                }
            },
            None => MainDpsDetailMetrics {
                total_output: Double::zero(),
                dps: evaluate(ops, Arith::Quotient(Double::zero(), absent.max(floor))),
                output_count: 0,
                incoming_count: 0,
                total_damage_taken: Double::zero(),
                duration_seconds: absent,
            },
        };
    }
    let mut output_count: u64 = 0;
    let mut incoming_count: u64 = 0;
    let mut i: usize = 0;
    while i < party.stats.len()
        invariant
            i <= party.stats@.len(),
            output_count == saturated(output_hits(*party, i as int) as int),
            incoming_count == saturated(taken_hits(*party, i as int) as int),
        decreases party.stats@.len() - i,
    {
        output_count = saturating_sum(output_count, party.stats[i].combined.hits);
        incoming_count = saturating_sum(incoming_count, party.stats[i].combined.hits_taken);
        i = i + 1;
    }
    let duration = party.duration.pick(subtract_time_stop);
    MainDpsDetailMetrics {
        total_output: party.total_damage,
        dps: evaluate(ops, Arith::Quotient(party.total_damage, duration.max(floor))),
        output_count,
        incoming_count,
        total_damage_taken: party.total_damage_taken,
        duration_seconds: duration,
    }
}

#[derive(Clone, Copy, Debug)]
pub struct MainDpsFilterSummary {
    pub id: &'static str,
    pub hits: usize,
    pub damage: Double,
}

/// A count that fits, or the largest one that does.
pub open spec fn counted_as_usize(hits: u64) -> usize {
    if hits > usize::MAX {
        usize::MAX
    } else {
        hits as usize
    }
}

fn to_usize(hits: u64) -> (result: usize)
    ensures
        result == counted_as_usize(hits),
{
    if hits > usize::MAX as u64 {
        usize::MAX
    } else {
        hits as usize
    }
}

/// What the entries of the direction filter say.
pub open spec fn lists_hit_types<F: Fn(Arith) -> Double>(
    ops: F,
    metrics: MainDpsDetailMetrics,
    entries: Seq<MainDpsFilterSummary>,
) -> bool {
    &&& entries.len() == 3
    &&& entries[0].id@ == "all"@
    &&& entries[0].hits == counted_as_usize(
        saturated(metrics.output_count + metrics.incoming_count),
    )
    &&& entries[0].damage == answer(
        ops,
        Arith::Sum(metrics.total_output, metrics.total_damage_taken),
    )
    &&& entries[1].id@ == "outgoing"@
    &&& entries[1].hits == counted_as_usize(metrics.output_count)
    &&& entries[1].damage == metrics.total_output
    &&& entries[2].id@ == "incoming"@
    &&& entries[2].hits == counted_as_usize(metrics.incoming_count)
    &&& entries[2].damage == metrics.total_damage_taken
}

/// The entries of the direction filter, with the authoritative counts.
pub fn hit_type_summaries<F: Fn(Arith) -> Double>(
    metrics: &MainDpsDetailMetrics,
    ops: &F,
) -> (result: Vec<MainDpsFilterSummary>)
    requires
        lawful(*ops),
    ensures
        lists_hit_types(*ops, *metrics, result@),
{
    let mut result: Vec<MainDpsFilterSummary> = Vec::new();
    result.push(
        MainDpsFilterSummary {
            id: "all",
            hits: to_usize(saturating_sum(metrics.output_count, metrics.incoming_count)),
            damage: evaluate(ops, Arith::Sum(metrics.total_output, metrics.total_damage_taken)),
        },
    );
    result.push(
        MainDpsFilterSummary {
            id: "outgoing",
            hits: to_usize(metrics.output_count),
            damage: metrics.total_output,
        },
    );
    result.push(
        MainDpsFilterSummary {
            id: "incoming",
            hits: to_usize(metrics.incoming_count),
            damage: metrics.total_damage_taken,
        },
    );
    result
}

#[derive(Clone, Copy, Debug)]
pub struct MainDpsAttributionSummary {
    pub total_damage: Double,
    pub character_damage: Double,
    pub character_filter: &'static str,
    pub reaction_damage: Double,
    pub shared_damage: Double,
    pub unattributed_damage: Double,
    pub separate_reaction_damage: bool,
}

impl MainDpsAttributionSummary {
    /// Whether this shows an attribution under a reaction-damage policy.
    pub open spec fn shows(
        self,
        value: DamageAttributionSummary,
        separate_reaction_damage: bool,
    ) -> bool {
        &&& self.total_damage == value.total_damage
        &&& self.character_damage == value.character_damage.picked(separate_reaction_damage)
        &&& self.character_filter@ == (if separate_reaction_damage {
            "characterDirect"@
        } else {
            "characterAttributed"@
        })
        &&& self.reaction_damage == value.character_reaction_damage
        &&& self.shared_damage == value.shared_damage
        &&& self.unattributed_damage == value.unattributed_damage
        &&& self.separate_reaction_damage == separate_reaction_damage
    }

    pub fn new(value: DamageAttributionSummary, separate_reaction_damage: bool) -> (result: Self)
        ensures
            result.shows(value, separate_reaction_damage),
    {
        MainDpsAttributionSummary {
            total_damage: value.total_damage,
            character_damage: value.character_damage.pick(separate_reaction_damage),
            character_filter: if separate_reaction_damage {
                "characterDirect"
            } else {
                "characterAttributed"
            },
            reaction_damage: value.character_reaction_damage,
            shared_damage: value.shared_damage,
            unattributed_damage: value.unattributed_damage,
            separate_reaction_damage,
        }
    }
}

/// Whether a hit's own damage is QTE or break damage.
pub open spec fn counts_as_qte(hit: Hit) -> bool {
    hit.attack_type is Some && (hit.class.attack_type_is_qte || hit.class.unbalance)
}

/// Whether a hit's follow-up damage is QTE damage.
pub open spec fn follow_up_counts_as_qte(hit: Hit) -> bool {
    hit.follow_up_damage.positive() && hit.follow_up_attack_type is Some
        && hit.class.follow_up_type_is_qte
}

/// What one hit contributes to the QTE summary.
pub open spec fn qte_items_of(hit: Hit, at: int) -> Seq<Contribution> {
    let own = if counts_as_qte(hit) {
        seq![Contribution { key: hit.attack_type->0@, amount: hit.damage, source: at }]
    } else {
        Seq::empty()
    };
    let follow_up = if follow_up_counts_as_qte(hit) {
        seq![
            Contribution {
                key: hit.follow_up_attack_type->0@,
                amount: hit.follow_up_damage,
                source: at,
            },
        ]
    } else {
        Seq::empty()
    };
    own + follow_up
}

/// What the covered hits contribute to the QTE summary.
pub open spec fn qte_items(hits: Seq<Hit>, request: MainDpsDetailRequest) -> Seq<Contribution>
    decreases hits.len(),
{
    if hits.len() == 0 {
        Seq::empty()
    } else {
        let earlier = qte_items(hits.drop_last(), request);
        if request.covers(hits.last()) && hits.last().direction != HitDirection::Incoming {
            earlier + qte_items_of(hits.last(), hits.len() - 1)
        } else {
            earlier
        }
    }
}

fn tally_qte<F: Fn(Arith) -> Double>(
    hits: &Vec<Hit>,
    request: &MainDpsDetailRequest,
    ops: &F,
) -> (entries: Vec<Tally>)
    requires
        lawful(*ops),
    ensures
        sums_by_key(*ops, qte_items(hits@, *request), entries@),
{
    let mut entries: Vec<Tally> = Vec::new();
    let mut i: usize = 0;
    while i < hits.len()
        invariant
            lawful(*ops),
            i <= hits.len(),
            sums_by_key(*ops, qte_items(hits@.take(i as int), *request), entries@),
        decreases hits.len() - i,
    {
        let hit = &hits[i];
        let ghost items = qte_items(hits@.take(i as int), *request);
        let ghost now = hits@.take(i + 1);
        assert(now.drop_last() =~= hits@.take(i as int));
        assert(now.last() == *hit && now.len() - 1 == i);
        if request.character_matches(hit) && !hit.direction.is_incoming() {
            let ghost mut sofar = items;
            if let Some(attack_type) = &hit.attack_type {
                if hit.class.attack_type_is_qte || hit.class.unbalance {
                    add_to_tally(
                        &mut entries,
                        attack_type.as_str(),
                        hit.damage,
                        i,
                        ops,
                        Ghost(items),
                    );
                    proof {
                        sofar = items.push(
                            Contribution {
                                key: attack_type@,
                                amount: hit.damage,
                                source: i as int,
                            },
                        );
                    }
                }
            }
            if hit.follow_up_damage.is_positive() {
                if let Some(attack_type) = &hit.follow_up_attack_type {
                    if hit.class.follow_up_type_is_qte {
                        add_to_tally(
                            &mut entries,
                            attack_type.as_str(),
                            hit.follow_up_damage,
                            i,
                            ops,
                            Ghost(sofar),
                        );
                        proof {
                            sofar = sofar.push(
                                Contribution {
                                    key: attack_type@,
                                    amount: hit.follow_up_damage,
                                    source: i as int,
                                },
                            );
                        }
                    }
                }
            }
            assert(sofar =~= items + qte_items_of(*hit, i as int));
        }
        i = i + 1;
    }
    assert(hits@.take(i as int) =~= hits@);
    entries
}

/// What the covered output contributes to the skill summary.
pub open spec fn skill_items(hits: Seq<Hit>, request: MainDpsDetailRequest) -> Seq<Contribution>
    decreases hits.len(),
{
    if hits.len() == 0 {
        Seq::empty()
    } else {
        let earlier = skill_items(hits.drop_last(), request);
        if request.covers(hits.last()) && hits.last().direction != HitDirection::Incoming {
            earlier.push(
                Contribution {
                    key: skill_of(hits.last()),
                    amount: hits.last().class.total_damage,
                    source: hits.len() - 1,
                },
            )
        } else {
            earlier
        }
    }
}

proof fn skill_sources_are_valid(hits: Seq<Hit>, request: MainDpsDetailRequest)
    ensures
        forall|k: int|
            0 <= k < skill_items(hits, request).len() ==> 0 <= (#[trigger] skill_items(
                hits,
                request,
            )[k]).source < hits.len(),
    decreases hits.len(),
{
    if hits.len() > 0 {
        let earlier = skill_items(hits.drop_last(), request);
        let items = skill_items(hits, request);
        skill_sources_are_valid(hits.drop_last(), request);
        assert forall|k: int| 0 <= k < items.len() implies 0 <= (#[trigger] items[k]).source
            < hits.len() by {
            if k < earlier.len() {
                assert(items[k] == earlier[k]);
            }
        }
    }
}

proof fn first_sources_come_from_items(items: Seq<Contribution>, key: Seq<char>, bound: int)
    requires
        forall|k: int| 0 <= k < items.len() ==> 0 <= (#[trigger] items[k]).source < bound,
    ensures
        crate::tally::first_source(items, key) matches Some(source) ==> 0 <= source < bound,
    decreases items.len(),
{
    if items.len() > 0 {
        assert forall|k: int| 0 <= k < items.drop_last().len() implies 0 <= (
        #[trigger] items.drop_last()[k]).source < bound by {
            assert(items[k].source < bound);
        }
        first_sources_come_from_items(items.drop_last(), key, bound);
        assert(items[items.len() - 1] == items.last());
    }
}

fn tally_skills<F: Fn(Arith) -> Double>(
    hits: &Vec<Hit>,
    request: &MainDpsDetailRequest,
    ops: &F,
) -> (entries: Vec<Tally>)
    requires
        lawful(*ops),
    ensures
        sums_by_key(*ops, skill_items(hits@, *request), entries@),
        forall|k: int| 0 <= k < entries@.len() ==> (#[trigger] entries@[k]).source < hits@.len(),
{
    let mut entries: Vec<Tally> = Vec::new();
    let mut i: usize = 0;
    while i < hits.len()
        invariant
            lawful(*ops),
            i <= hits.len(),
            sums_by_key(*ops, skill_items(hits@.take(i as int), *request), entries@),
        decreases hits.len() - i,
    {
        let hit = &hits[i];
        let ghost items = skill_items(hits@.take(i as int), *request);
        let ghost now = hits@.take(i + 1);
        assert(now.drop_last() =~= hits@.take(i as int));
        assert(now.last() == *hit && now.len() - 1 == i);
        if request.character_matches(hit) && !hit.direction.is_incoming() {
            add_to_tally(
                &mut entries,
                hit_skill_name_ref(hit),
                hit.class.total_damage,
                i,
                ops,
                Ghost(items),
            );
        }
        i = i + 1;
    }
    assert(hits@.take(i as int) =~= hits@);
    proof {
        skill_sources_are_valid(hits@, *request);
        assert forall|k: int| 0 <= k < entries@.len() implies (#[trigger] entries@[k]).source
            < hits@.len() by {
            assert(crate::tally::sums_key(*ops, skill_items(hits@, *request), entries@[k]));
            first_sources_come_from_items(
                skill_items(hits@, *request),
                entries@[k].key@,
                hits@.len() as int,
            );
        }
    }
    entries
}

/// The totals of tallies.
pub open spec fn totals_of(entries: Seq<Tally>) -> Seq<Double> {
    entries.map_values(|entry: Tally| entry.total)
}

fn collect_totals(entries: &Vec<Tally>) -> (totals: Vec<Double>)
    ensures
        totals@ == totals_of(entries@),
{
    let mut totals: Vec<Double> = Vec::new();
    let mut i: usize = 0;
    while i < entries.len()
        invariant
            i <= entries.len(),
            totals@.len() == i,
            forall|k: int| 0 <= k < i ==> #[trigger] totals@[k] == entries@[k].total,
        decreases entries.len() - i,
    {
        totals.push(entries[i].total);
        i = i + 1;
    }
    totals
}

#[derive(Clone, Debug)]
pub struct MainDpsQteSummary {
    pub attack_type: String,
    pub hits: u64,
    pub damage: Double,
    pub share_percent: Double,
}

/// What a QTE row says of its sum.
pub open spec fn shows_qte<F: Fn(Arith) -> Double>(
    ops: F,
    entry: Tally,
    total_damage: Double,
    row: MainDpsQteSummary,
) -> bool {
    &&& row.attack_type@ == entry.key@
    &&& row.hits == entry.count
    &&& row.damage == entry.total
    &&& row.share_percent == share_of(ops, entry.total, total_damage)
}

/// The smaller of a count and a limit.
pub open spec fn capped(count: nat, limit: usize) -> nat {
    if count < limit {
        count
    } else {
        limit as nat
    }
}

/// `rows` are the largest QTE sums, as many as the limit allows.
pub open spec fn lists_qte<F: Fn(Arith) -> Double>(
    ops: F,
    items: Seq<Contribution>,
    total_damage: Double,
    rows: Seq<MainDpsQteSummary>,
    total_count: usize,
) -> bool {
    exists|entries: Seq<Tally>, ranking: Seq<usize>|
        {
            &&& #[trigger] sums_by_key(ops, items, entries)
            &&& #[trigger] ranks_totals(totals_of(entries), ranking)
            &&& total_count == entries.len()
            &&& rows.len() == capped(entries.len(), MAIN_DPS_DETAIL_QTE_LIMIT)
            &&& forall|k: int|
                0 <= k < rows.len() ==> shows_qte(
                    ops,
                    entries[ranking[k] as int],
                    total_damage,
                    #[trigger] rows[k],
                )
        }
}

fn qte_summaries<F: Fn(Arith) -> Double>(
    entries: Vec<Tally>,
    total_damage: Double,
    ops: &F,
    Ghost(items): Ghost<Seq<Contribution>>,
) -> (result: (Vec<MainDpsQteSummary>, usize))
    requires
        lawful(*ops),
        sums_by_key(*ops, items, entries@),
    ensures
        lists_qte(*ops, items, total_damage, result.0@, result.1),
{
    let ranking = rank_totals(&collect_totals(&entries));
    let mut rows: Vec<MainDpsQteSummary> = Vec::new();
    while rows.len() < ranking.len() && rows.len() < MAIN_DPS_DETAIL_QTE_LIMIT
        invariant
            lawful(*ops),
            ranks_totals(totals_of(entries@), ranking@),
            rows@.len() <= ranking@.len(),
            rows@.len() <= MAIN_DPS_DETAIL_QTE_LIMIT,
            forall|k: int|
                0 <= k < rows@.len() ==> shows_qte(
                    *ops,
                    entries@[ranking@[k] as int],
                    total_damage,
                    #[trigger] rows@[k],
                ),
        decreases ranking@.len() - rows@.len(),
    {
        let entry = &entries[ranking[rows.len()]];
        rows.push(
            MainDpsQteSummary {
                attack_type: entry.key.clone(),
                hits: entry.count,
                damage: entry.total,
                share_percent: percent(entry.total, total_damage, ops),
            },
        );
    }
    (rows, entries.len())
}

#[derive(Clone, Debug)]
pub struct MainDpsSkillSummary {
    pub id: String,
    pub name: String,
    pub category: String,
    pub hits: u64,
    pub damage: Double,
    pub share_percent: Double,
}

/// The category of a skill: its attack type, if it has one.
pub open spec fn category_text(names: DisplayNames, hit: Hit) -> Seq<char> {
    match held(hit.attack_type) {
        Some(attack_type) => attack_type_text(names, attack_type),
        None => names.text_of("Uncategorized"@),
    }
}

/// What a skill row says of its sum. Its texts come from the first hit.
pub open spec fn shows_skill<F: Fn(Arith) -> Double>(
    ops: F,
    names: DisplayNames,
    hits: Seq<Hit>,
    entry: Tally,
    total_damage: Double,
    row: MainDpsSkillSummary,
) -> bool {
    &&& row.id@ == entry.key@
    &&& row.name@ == skill_text(names, hits[entry.source as int])
    &&& row.category@ == category_text(names, hits[entry.source as int])
    &&& row.hits == entry.count
    &&& row.damage == entry.total
    &&& row.share_percent == share_of(ops, entry.total, total_damage)
}

/// `rows` are the largest skill sums, as many as the limit allows.
pub open spec fn lists_skills<F: Fn(Arith) -> Double>(
    ops: F,
    names: DisplayNames,
    hits: Seq<Hit>,
    items: Seq<Contribution>,
    total_damage: Double,
    rows: Seq<MainDpsSkillSummary>,
    total_count: usize,
) -> bool {
    exists|entries: Seq<Tally>, ranking: Seq<usize>|
        {
            &&& #[trigger] sums_by_key(ops, items, entries)
            &&& #[trigger] ranks_totals(totals_of(entries), ranking)
            &&& total_count == entries.len()
            &&& rows.len() == capped(entries.len(), MAIN_DPS_DETAIL_SKILL_LIMIT)
            &&& forall|k: int|
                0 <= k < rows.len() ==> shows_skill(
                    ops,
                    names,
                    hits,
                    entries[ranking[k] as int],
                    total_damage,
                    #[trigger] rows[k],
                )
        }
}

/// The skill summary of the covered output, at most
/// [`MAIN_DPS_DETAIL_SKILL_LIMIT`] rows, and how many skills there are.
pub fn skill_summaries<F: Fn(Arith) -> Double>(
    hits: &Vec<Hit>,
    request: &MainDpsDetailRequest,
    names: &DisplayNames,
    total_damage: Double,
    ops: &F,
) -> (result: (Vec<MainDpsSkillSummary>, usize))
    requires
        lawful(*ops),
    ensures
        lists_skills(
            *ops,
            *names,
            hits@,
            skill_items(hits@, *request),
            total_damage,
            result.0@,
            result.1,
        ),
{
    let entries = tally_skills(hits, request, ops);
    let ranking = rank_totals(&collect_totals(&entries));
    let mut rows: Vec<MainDpsSkillSummary> = Vec::new();
    while rows.len() < ranking.len() && rows.len() < MAIN_DPS_DETAIL_SKILL_LIMIT
        invariant
            lawful(*ops),
            ranks_totals(totals_of(entries@), ranking@),
            forall|k: int| 0 <= k < entries@.len() ==> (#[trigger] entries@[k]).source < hits@.len(),
            rows@.len() <= ranking@.len(),
            rows@.len() <= MAIN_DPS_DETAIL_SKILL_LIMIT,
            forall|k: int|
                0 <= k < rows@.len() ==> shows_skill(
                    *ops,
                    *names,
                    hits@,
                    entries@[ranking@[k] as int],
                    total_damage,
                    #[trigger] rows@[k],
                ),
        decreases ranking@.len() - rows@.len(),
    {
        let entry = &entries[ranking[rows.len()]];
        let hit = &hits[entry.source];
        let category = match &hit.attack_type {
            Some(attack_type) => translate_attack_type(names, attack_type.as_str()),
            None => names.translate("Uncategorized").to_owned(),
        };
        rows.push(
            MainDpsSkillSummary {
                id: entry.key.clone(),
                name: skill_summary_display_name(names, hit),
                category,
                hits: entry.count,
                damage: entry.total,
                share_percent: percent(entry.total, total_damage, ops),
            },
        );
    }
    (rows, entries.len())
}

/// One effect that was up during a listed hit.
pub ghost struct EffectItem {
    pub hash: u64,
    pub kind: ActiveEffectKind,
    pub damage: Double,
    pub stack: u16,
}

/// Whether the effect at `at` counts: it is not inhibited, and no earlier one
/// that counts has its name.
pub open spec fn effect_counts(effects: Seq<HitActiveEffect>, at: int) -> bool {
    !effects[at].inhibited && forall|k: int|
        0 <= k < at ==> !(!(#[trigger] effects[k]).inhibited && effects[k].name_hash
            == effects[at].name_hash)
}

/// The effects of a hit that count, up to position `upto`.
pub open spec fn effect_items_of(hit: Hit, upto: int) -> Seq<EffectItem>
    decreases upto,
{
    if upto <= 0 {
        Seq::empty()
    } else {
        let earlier = effect_items_of(hit, upto - 1);
        let effect = hit.active_effects@[upto - 1];
        if effect_counts(hit.active_effects@, upto - 1) {
            earlier.push(
                EffectItem {
                    hash: effect.name_hash,
                    kind: effect.kind,
                    damage: hit.class.total_damage,
                    stack: effect.stack_count,
                },
            )
        } else {
            earlier
        }
    }
}

/// The effects of the listed hits.
pub open spec fn effect_items(hits: Seq<Hit>, request: MainDpsDetailRequest) -> Seq<EffectItem>
    decreases hits.len(),
{
    if hits.len() == 0 {
        Seq::empty()
    } else {
        let earlier = effect_items(hits.drop_last(), request);
        if request.lists(hits.last()) {
            earlier + effect_items_of(hits.last(), hits.last().active_effects@.len() as int)
        } else {
            earlier
        }
    }
}

/// The sum of one effect.
#[derive(Clone, Copy, Debug, PartialEq, Eq, Structural)]
pub struct EffectTally {
    pub hash: u64,
    pub kind: ActiveEffectKind,
    pub hits: u64,
    pub damage: Double,
    pub max_stack: u16,
}

pub open spec fn effect_count(items: Seq<EffectItem>, hash: u64) -> nat
    decreases items.len(),
{
    if items.len() == 0 {
        0
    } else {
        effect_count(items.drop_last(), hash) + if items.last().hash == hash {
            1nat
        } else {
            0
        }
    }
}

pub open spec fn effect_damages(items: Seq<EffectItem>, hash: u64) -> Seq<Double>
    decreases items.len(),
{
    if items.len() == 0 {
        Seq::empty()
    } else if items.last().hash == hash {
        effect_damages(items.drop_last(), hash).push(items.last().damage)
    } else {
        effect_damages(items.drop_last(), hash)
    }
}

pub open spec fn effect_stack(items: Seq<EffectItem>, hash: u64) -> u16
    decreases items.len(),
{
    if items.len() == 0 {
        0
    } else {
        let earlier = effect_stack(items.drop_last(), hash);
        if items.last().hash == hash && items.last().stack > earlier {
            items.last().stack
        } else {
            earlier
        }
    }
}

/// The kind that an effect had when it was first seen.
pub open spec fn effect_kind(items: Seq<EffectItem>, hash: u64) -> Option<ActiveEffectKind>
    decreases items.len(),
{
    if items.len() == 0 {
        None
    } else {
        match effect_kind(items.drop_last(), hash) {
            Some(kind) => Some(kind),
            None => if items.last().hash == hash {
                Some(items.last().kind)
            } else {
                None
            },
        }
    }
}

/// Whether `entry` is the sum of its effect.
pub open spec fn sums_effect<F: Fn(Arith) -> Double>(
    ops: F,
    items: Seq<EffectItem>,
    entry: EffectTally,
) -> bool {
    &&& effect_kind(items, entry.hash) == Some(entry.kind)
    &&& entry.hits == saturated(effect_count(items, entry.hash) as int)
    &&& entry.damage == sum_of(ops, effect_damages(items, entry.hash))
    &&& entry.max_stack == effect_stack(items, entry.hash)
}

pub open spec fn has_effect(entries: Seq<EffectTally>, hash: u64) -> bool {
    exists|k: int| 0 <= k < entries.len() && (#[trigger] entries[k]).hash == hash
}

/// `entries` has one entry for every effect that was up.
pub open spec fn sums_effects<F: Fn(Arith) -> Double>(
    ops: F,
    items: Seq<EffectItem>,
    entries: Seq<EffectTally>,
) -> bool {
    &&& forall|k: int| 0 <= k < entries.len() ==> sums_effect(ops, items, #[trigger] entries[k])
    &&& forall|j: int, k: int|
        0 <= j < k < entries.len() ==> (#[trigger] entries[j]).hash != (#[trigger] entries[k]).hash
    &&& forall|hash: u64| #[trigger]
        effect_kind(items, hash) is Some ==> has_effect(entries, hash)
}

proof fn one_more_effect(items: Seq<EffectItem>, item: EffectItem, hash: u64)
    ensures
        effect_count(items.push(item), hash) == effect_count(items, hash) + if item.hash == hash {
            1nat
        } else {
            0
        },
        effect_damages(items.push(item), hash) == (if item.hash == hash {
            effect_damages(items, hash).push(item.damage)
        } else {
            effect_damages(items, hash)
        }),
        effect_stack(items.push(item), hash) == (if item.hash == hash && item.stack > effect_stack(
            items,
            hash,
        ) {
            item.stack
        } else {
            effect_stack(items, hash)
        }),
        effect_kind(items.push(item), hash) == (if effect_kind(items, hash) is Some {
            effect_kind(items, hash)
        } else if item.hash == hash {
            Some(item.kind)
        } else {
            None
        }),
{
    assert(items.push(item).drop_last() =~= items);
}

proof fn unseen_effects_sum_nothing(items: Seq<EffectItem>, hash: u64)
    requires
        effect_kind(items, hash) is None,
    ensures
        effect_count(items, hash) == 0,
        effect_damages(items, hash) == Seq::<Double>::empty(),
        effect_stack(items, hash) == 0,
    decreases items.len(),
{
    if items.len() > 0 {
        unseen_effects_sum_nothing(items.drop_last(), hash);
    }
}

proof fn effect_sums_grow<F: Fn(Arith) -> Double>(
    ops: F,
    items: Seq<EffectItem>,
    item: EffectItem,
    before: Seq<EffectTally>,
    after: Seq<EffectTally>,
    at: int,
)
    requires
        sums_effects(ops, items, before),
        0 <= at < after.len(),
        after.len() == before.len() || (after.len() == before.len() + 1 && at == before.len()
            && !has_effect(before, item.hash)),
        at < before.len() ==> before[at].hash == item.hash,
        forall|k: int| 0 <= k < before.len() && k != at ==> after[k] == #[trigger] before[k],
        after[at].hash == item.hash,
        sums_effect(ops, items.push(item), after[at]),
    ensures
        sums_effects(ops, items.push(item), after),
{
    let now = items.push(item);
    assert forall|k: int| 0 <= k < after.len() implies sums_effect(ops, now, #[trigger] after[k]) by {
        if k != at {
            assert(before[k].hash != item.hash) by {
                if at < before.len() {
                    if k < at {
                        assert(before[k].hash != before[at].hash);
                    } else {
                        assert(before[at].hash != before[k].hash);
                    }
                } else if before[k].hash == item.hash {
                    assert(has_effect(before, item.hash));
                }
            }
            assert(sums_effect(ops, items, before[k]));
            one_more_effect(items, item, before[k].hash);
        }
    }
    assert forall|j: int, k: int| 0 <= j < k < after.len() implies (#[trigger] after[j]).hash != (
    #[trigger] after[k]).hash by {
        if k < before.len() {
            assert(before[j].hash != before[k].hash);
        } else if before[j].hash == item.hash {
            assert(has_effect(before, item.hash));
        }
    }
    assert forall|hash: u64| #[trigger] effect_kind(now, hash) is Some implies has_effect(
        after,
        hash,
    ) by {
        one_more_effect(items, item, hash);
        if hash == item.hash {
            assert(after[at].hash == hash);
        } else {
            assert(effect_kind(items, hash) is Some);
            let k = choose|k: int| 0 <= k < before.len() && (#[trigger] before[k]).hash == hash;
            assert(after[k].hash == hash);
        }
    }
}

fn add_effect<F: Fn(Arith) -> Double>(
    entries: &mut Vec<EffectTally>,
    effect: &HitActiveEffect,
    damage: Double,
    ops: &F,
    Ghost(items): Ghost<Seq<EffectItem>>,
)
    requires
        lawful(*ops),
        sums_effects(*ops, items, old(entries)@),
    ensures
        sums_effects(
            *ops,
            items.push(
                EffectItem {
                    hash: effect.name_hash,
                    kind: effect.kind,
                    damage,
                    stack: effect.stack_count,
                },
            ),
            final(entries)@,
        ),
{
    let ghost before = entries@;
    let hash: u64 = effect.name_hash;
    let ghost item = EffectItem { hash, kind: effect.kind, damage, stack: effect.stack_count };
    proof {
        one_more_effect(items, item, hash);
    }
    let mut at: usize = 0;
    while at < entries.len() && entries[at].hash != hash
        invariant
            at <= entries.len(),
            entries@ == before,
            forall|k: int| 0 <= k < at ==> (#[trigger] before[k]).hash != hash,
        decreases entries.len() - at,
    {
        at = at + 1;
    }
    let ghost damages = effect_damages(items, hash);
    assert(damages.push(damage).drop_last() =~= damages);
    if at < entries.len() {
        assert(sums_effect(*ops, items, before[at as int]));
        let entry = entries[at];
        let max_stack: u16 = if effect.stack_count > entry.max_stack {
            effect.stack_count
        } else {
            entry.max_stack
        };
        entries.set(
            at,
            EffectTally {
                hash,
                kind: entry.kind,
                hits: saturating_sum(entry.hits, 1),
                damage: evaluate(ops, Arith::Sum(entry.damage, damage)),
                max_stack,
            },
        );
        assert(sums_effect(*ops, items.push(item), entries@[at as int]));
    } else {
        proof {
            if effect_kind(items, hash) is Some {
                assert(has_effect(before, hash));
            }
            unseen_effects_sum_nothing(items, hash);
            assert(sum_of(*ops, damages) == (Double { bits: 0 }));
        }
        entries.push(
            EffectTally {
                hash,
                kind: effect.kind,
                hits: 1,
                damage: evaluate(ops, Arith::Sum(Double::zero(), damage)),
                max_stack: effect.stack_count,
            },
        );
        assert(sums_effect(*ops, items.push(item), entries@[at as int]));
    }
    proof {
        effect_sums_grow(*ops, items, item, before, entries@, at as int);
    }
}

fn effect_is_counted(effects: &Vec<HitActiveEffect>, at: usize) -> (result: bool)
    requires
        at < effects@.len(),
    ensures
        result == effect_counts(effects@, at as int),
{
    if effects[at].inhibited {
        return false;
    }
    let mut k: usize = 0;
    while k < at
        invariant
            k <= at < effects@.len(),
            forall|j: int|
                0 <= j < k ==> !(!(#[trigger] effects@[j]).inhibited && effects@[j].name_hash
                    == effects@[at as int].name_hash),
        decreases at - k,
    {
        if !effects[k].inhibited && effects[k].name_hash == effects[at].name_hash {
            return false;
        }
        k = k + 1;
    }
    true
}

fn add_effects<F: Fn(Arith) -> Double>(
    entries: &mut Vec<EffectTally>,
    hit: &Hit,
    ops: &F,
    Ghost(items): Ghost<Seq<EffectItem>>,
)
    requires
        lawful(*ops),
        sums_effects(*ops, items, old(entries)@),
    ensures
        sums_effects(
            *ops,
            items + effect_items_of(*hit, hit.active_effects@.len() as int),
            final(entries)@,
        ),
{
    let mut i: usize = 0;
    assert(items + effect_items_of(*hit, 0) =~= items);
    while i < hit.active_effects.len()
        invariant
            lawful(*ops),
            i <= hit.active_effects@.len(),
            sums_effects(*ops, items + effect_items_of(*hit, i as int), entries@),
        decreases hit.active_effects@.len() - i,
    {
        let ghost sofar = items + effect_items_of(*hit, i as int);
        if effect_is_counted(&hit.active_effects, i) {
            let effect = hit.active_effects[i];
            add_effect(entries, &effect, hit.class.total_damage, ops, Ghost(sofar));
            assert(sofar.push(
                EffectItem {
                    hash: effect.name_hash,
                    kind: effect.kind,
                    damage: hit.class.total_damage,
                    stack: effect.stack_count,
                },
            ) =~= items + effect_items_of(*hit, i + 1));
        }
        i = i + 1;
    }
}

#[derive(Clone, Debug)]
pub struct MainDpsHitEffect {
    pub name_hash: String,
    pub name: Option<String>,
    pub kind: &'static str,
    pub stack_count: u16,
    pub duration_ms: u32,
    pub inhibited: bool,
    pub infinite: bool,
}

/// The catalog name of an effect.
pub open spec fn catalog_name(catalog: Map<u64, String>, hash: u64) -> Option<Seq<char>> {
    if catalog.dom().contains(hash) {
        Some(catalog[hash]@)
    } else {
        None
    }
}

fn effect_name(catalog: &HashMap<u64, String>, hash: u64) -> (result: Option<String>)
    ensures
        held(result) == catalog_name(catalog@, hash),
{
    match catalog.get(&hash) {
        Some(name) => Some(name.clone()),
        None => None,
    }
}

pub open spec fn shows_effect(
    catalog: Map<u64, String>,
    effect: HitActiveEffect,
    row: MainDpsHitEffect,
) -> bool {
    &&& row.name_hash@ == hexadecimal(effect.name_hash as nat, 16)
    &&& held(row.name) == catalog_name(catalog, effect.name_hash)
    &&& row.kind@ == kind_code(effect.kind)
    &&& row.stack_count == effect.stack_count
    &&& row.duration_ms == effect.duration_ms
    &&& row.inhibited == effect.inhibited
    &&& row.infinite == effect.infinite
}

#[derive(Clone, Debug)]
pub struct MainDpsEffectCoverage {
    pub name_hash: String,
    pub name: Option<String>,
    pub kind: &'static str,
    pub affected_hits: u64,
    pub hit_coverage: Double,
    pub affected_damage: Double,
    pub damage_coverage: Double,
    pub max_stack: u16,
}

/// What a coverage row says of an effect.
pub open spec fn shows_coverage<F: Fn(Arith) -> Double>(
    ops: F,
    catalog: Map<u64, String>,
    entry: EffectTally,
    total_hits: usize,
    total_damage: Double,
    row: MainDpsEffectCoverage,
) -> bool {
    &&& row.name_hash@ == hexadecimal(entry.hash as nat, 16)
    &&& held(row.name) == catalog_name(catalog, entry.hash)
    &&& row.kind@ == kind_code(entry.kind)
    &&& row.affected_hits == entry.hits
    &&& row.hit_coverage == (if total_hits == 0 {
        Double { bits: 0 }
    } else {
        answer(
            ops,
            Arith::Quotient(
                answer(ops, Arith::FromCount(entry.hits)),
                answer(ops, Arith::FromCount(total_hits as u64)),
            ),
        )
    })
    &&& row.affected_damage == entry.damage
    &&& row.damage_coverage == (if !total_damage.nan() && total_damage.rank() <= 0 {
        Double { bits: 0 }
    } else {
        answer(ops, Arith::Quotient(entry.damage, total_damage))
    })
    &&& row.max_stack == entry.max_stack
}

pub open spec fn effect_totals(entries: Seq<EffectTally>) -> Seq<Double> {
    entries.map_values(|entry: EffectTally| entry.damage)
}

/// `rows` are the effects with the most damage, as many as the limit allows.
pub open spec fn lists_coverage<F: Fn(Arith) -> Double>(
    ops: F,
    catalog: Map<u64, String>,
    items: Seq<EffectItem>,
    total_hits: usize,
    total_damage: Double,
    rows: Seq<MainDpsEffectCoverage>,
) -> bool {
    exists|entries: Seq<EffectTally>, ranking: Seq<usize>|
        {
            &&& #[trigger] sums_effects(ops, items, entries)
            &&& #[trigger] ranks_totals(effect_totals(entries), ranking)
            &&& rows.len() == capped(entries.len(), MAIN_DPS_DETAIL_EFFECT_LIMIT)
            &&& forall|k: int|
                0 <= k < rows.len() ==> shows_coverage(
                    ops,
                    catalog,
                    entries[ranking[k] as int],
                    total_hits,
                    total_damage,
                    #[trigger] rows[k],
                )
        }
}

fn cover_effect<F: Fn(Arith) -> Double>(
    entry: &EffectTally,
    catalog: &HashMap<u64, String>,
    total_hits: usize,
    total_damage: Double,
    ops: &F,
) -> (row: MainDpsEffectCoverage)
    requires
        lawful(*ops),
    ensures
        shows_coverage(*ops, catalog@, *entry, total_hits, total_damage, row),
{
    let hit_coverage = if total_hits == 0 {
        Double::zero()
    } else {
        let part = evaluate(ops, Arith::FromCount(entry.hits));
        let whole = evaluate(ops, Arith::FromCount(total_hits as u64));
        evaluate(ops, Arith::Quotient(part, whole))
    };
    let damage_coverage = if !total_damage.is_nan() && !total_damage.is_positive() {
        Double::zero()
    } else {
        evaluate(ops, Arith::Quotient(entry.damage, total_damage))
    };
    MainDpsEffectCoverage {
        name_hash: hexadecimal_text(entry.hash),
        name: effect_name(catalog, entry.hash),
        kind: effect_kind_id(entry.kind),
        affected_hits: entry.hits,
        hit_coverage,
        affected_damage: entry.damage,
        damage_coverage,
        max_stack: entry.max_stack,
    }
}

fn effect_coverage<F: Fn(Arith) -> Double>(
    entries: Vec<EffectTally>,
    catalog: &HashMap<u64, String>,
    total_hits: usize,
    total_damage: Double,
    ops: &F,
    Ghost(items): Ghost<Seq<EffectItem>>,
) -> (rows: Vec<MainDpsEffectCoverage>)
    requires
        lawful(*ops),
        sums_effects(*ops, items, entries@),
    ensures
        lists_coverage(*ops, catalog@, items, total_hits, total_damage, rows@),
{
    let mut totals: Vec<Double> = Vec::new();
    let mut i: usize = 0;
    while i < entries.len()
        invariant
            i <= entries@.len(),
            totals@.len() == i,
            forall|k: int| 0 <= k < i ==> #[trigger] totals@[k] == entries@[k].damage,
        decreases entries@.len() - i,
    {
        totals.push(entries[i].damage);
        i = i + 1;
    }
    assert(totals@ =~= effect_totals(entries@));
    let ranking = rank_totals(&totals);
    let mut rows: Vec<MainDpsEffectCoverage> = Vec::new();
    while rows.len() < ranking.len() && rows.len() < MAIN_DPS_DETAIL_EFFECT_LIMIT
        invariant
            lawful(*ops),
            ranks_totals(effect_totals(entries@), ranking@),
            rows@.len() <= ranking@.len(),
            rows@.len() <= MAIN_DPS_DETAIL_EFFECT_LIMIT,
            forall|k: int|
                0 <= k < rows@.len() ==> shows_coverage(
                    *ops,
                    catalog@,
                    entries@[ranking@[k] as int],
                    total_hits,
                    total_damage,
                    #[trigger] rows@[k],
                ),
        decreases ranking@.len() - rows@.len(),
    {
        rows.push(
            cover_effect(&entries[ranking[rows.len()]], catalog, total_hits, total_damage, ops),
        );
    }
    rows
}

/// One entry of the effect catalog file.
#[derive(Clone, Debug)]
pub struct EffectCatalogEntry {
    pub hash: String,
    pub name: String,
}

/// The names that a catalog file gives, later entries overriding earlier
/// ones. Entries whose hash is not hexadecimal are skipped.
pub open spec fn catalog_of(entries: Seq<EffectCatalogEntry>) -> Map<u64, String>
    decreases entries.len(),
{
    if entries.len() == 0 {
        Map::empty()
    } else {
        let earlier = catalog_of(entries.drop_last());
        match crate::text::parsed_hexadecimal(entries.last().hash@) {
            Some(hash) => earlier.insert(hash, entries.last().name),
            None => earlier,
        }
    }
}

/// Builds the effect catalog.
pub fn effect_catalog(entries: Vec<EffectCatalogEntry>) -> (catalog: HashMap<u64, String>)
    ensures
        catalog@ == catalog_of(entries@),
{
    let mut catalog: HashMap<u64, String> = HashMap::new();
    let mut i: usize = 0;
    while i < entries.len()
        invariant
            i <= entries@.len(),
            catalog@ == catalog_of(entries@.take(i as int)),
        decreases entries@.len() - i,
    {
        assert(entries@.take(i + 1).drop_last() =~= entries@.take(i as int));
        if let Some(hash) = crate::text::parse_hexadecimal(entries[i].hash.as_str()) {
            catalog.insert(hash, entries[i].name.clone());
        }
        i = i + 1;
    }
    assert(entries@.take(i as int) =~= entries@);
    catalog
}

#[derive(Clone, Debug)]
pub struct MainDpsHitSnapshot {
    pub id: String,
    pub timestamp: Double,
    pub character_id: u32,
    pub character_name: String,
    pub direction: &'static str,
    pub damage: Double,
    pub primary_damage: Double,
    pub follow_up_damage: Double,
    pub skill_id: String,
    pub skill: String,
    pub damage_type: String,
    pub type_label: String,
    pub reaction_text_key: Option<u8>,
    pub damage_digit_key: Option<String>,
    pub follow_up_damage_digit_key: Option<String>,
    pub target: String,
    pub target_monster_id: Option<String>,
    pub target_hp_after: Double,
    pub target_max_hp: Double,
    pub target_hp_percent: Double,
    pub active_effects: Vec<MainDpsHitEffect>,
}

/// A character's table entry, if there is one.
pub open spec fn info_of(characters: Map<u32, CharacterInfo>, id: u32) -> Option<CharacterInfo> {
    if characters.dom().contains(id) {
        Some(characters[id])
    } else {
        None
    }
}

/// What a row says of the hit that is listed at `index`.
pub open spec fn shows_hit(
    hit: Hit,
    index: int,
    characters: Map<u32, CharacterInfo>,
    names: DisplayNames,
    language: Language,
    catalog: Map<u64, String>,
    row: MainDpsHitSnapshot,
) -> bool {
    &&& row.id@ == decimal(hit.timestamp.bits as nat) + ":"@ + decimal(index as nat)
    &&& row.timestamp == hit.timestamp
    &&& row.character_id == hit.char_id
    &&& row.character_name@ == localized_name(
        info_of(characters, hit.char_id),
        language,
        hit.char_name@,
    )
    &&& row.direction@ == direction_code(hit.direction)
    &&& row.damage == hit.class.total_damage
    &&& row.primary_damage == hit.damage
    &&& row.follow_up_damage == hit.follow_up_damage
    &&& row.skill_id@ == skill_of(hit)
    &&& row.skill@ == skill_of(hit)
    &&& row.damage_type@ == (if hit.attack_type is Some {
        hit.attack_type->0@
    } else if hit.damage_attribute is Some {
        hit.damage_attribute->0@
    } else {
        "-"@
    })
    &&& row.type_label@ == type_text(names, hit)
    &&& row.reaction_text_key == (match held(hit.attack_type) {
        Some(attack_type) => reaction_key(attack_type),
        None => None,
    })
    &&& held(row.damage_digit_key) == digit_key(hit, characters)
    &&& held(row.follow_up_damage_digit_key) == follow_up_digit_key(hit)
    &&& row.target@ == (match target_name(hit, language) {
        Some(name) => name,
        None => "-"@,
    })
    &&& row.target_monster_id == hit.target_monster_id
    &&& row.target_hp_after == hit.target_hp_after
    &&& row.target_max_hp == hit.target_max_hp
    &&& row.target_hp_percent == hit.target_hp_percent
    &&& row.active_effects@.len() == hit.active_effects@.len()
    &&& forall|k: int|
        0 <= k < row.active_effects@.len() ==> shows_effect(
            catalog,
            hit.active_effects@[k],
            #[trigger] row.active_effects@[k],
        )
}

fn row_id(hit: &Hit, index: usize) -> (result: String)
    ensures
        result@ == decimal(hit.timestamp.bits as nat) + ":"@ + decimal(index as nat),
{
    let mut id: String = decimal_text(hit.timestamp.bits);
    id.append(":");
    id.append(decimal_text(index as u64).as_str());
    id
}

fn show_effects(
    effects: &Vec<HitActiveEffect>,
    catalog: &HashMap<u64, String>,
) -> (rows: Vec<MainDpsHitEffect>)
    ensures
        rows@.len() == effects@.len(),
        forall|k: int|
            0 <= k < rows@.len() ==> shows_effect(catalog@, effects@[k], #[trigger] rows@[k]),
{
    let mut rows: Vec<MainDpsHitEffect> = Vec::new();
    let mut i: usize = 0;
    while i < effects.len()
        invariant
            i <= effects@.len(),
            rows@.len() == i,
            forall|k: int|
                0 <= k < i ==> shows_effect(catalog@, effects@[k], #[trigger] rows@[k]),
        decreases effects@.len() - i,
    {
        rows.push(
            MainDpsHitEffect {
                name_hash: hexadecimal_text(effects[i].name_hash),
                name: effect_name(catalog, effects[i].name_hash),
                kind: effect_kind_id(effects[i].kind),
                stack_count: effects[i].stack_count,
                duration_ms: effects[i].duration_ms,
                inhibited: effects[i].inhibited,
                infinite: effects[i].infinite,
            },
        );
        i = i + 1;
    }
    rows
}

fn character_info<'a>(characters: &'a HashMap<u32, CharacterInfo>, id: u32) -> (result: Option<
    &'a CharacterInfo,
>)
    ensures
        match result {
            Some(info) => info_of(characters@, id) == Some(*info),
            None => info_of(characters@, id) is None,
        },
{
    characters.get(&id)
}

impl MainDpsHitSnapshot {
    /// The row of a listed hit.
    pub fn from_hit(
        hit: &Hit,
        index: usize,
        characters: &HashMap<u32, CharacterInfo>,
        names: &DisplayNames,
        language: Language,
        effect_catalog: &HashMap<u64, String>,
    ) -> (row: Self)
        ensures
            shows_hit(
                *hit,
                index as int,
                characters@,
                *names,
                language,
                effect_catalog@,
                row,
            ),
    {
        let skill: String = hit_skill_name_ref(hit).to_owned();
        let damage_type: &str = match or_else(
            as_text(&hit.attack_type),
            as_text(&hit.damage_attribute),
        ) {
            Some(text) => text,
            None => "-",
        };
        let target: &str = match localized_target_name(hit, language) {
            Some(text) => text,
            None => "-",
        };
        MainDpsHitSnapshot {
            id: row_id(hit, index),
            timestamp: hit.timestamp,
            character_id: hit.char_id,
            character_name: localized_character_name(
                character_info(characters, hit.char_id),
                language,
                hit.char_name.as_str(),
            ),
            direction: hit_direction_code(hit.direction),
            damage: hit.class.total_damage,
            primary_damage: hit.damage,
            follow_up_damage: hit.follow_up_damage,
            skill_id: skill.clone(),
            skill,
            damage_type: damage_type.to_owned(),
            type_label: hit_type_display_text(names, hit),
            reaction_text_key: reaction_text_key_for_hit(hit),
            damage_digit_key: to_text(damage_digit_key_for_hit(hit, characters)),
            follow_up_damage_digit_key: to_text(follow_up_damage_digit_key_for_hit(hit)),
            target: target.to_owned(),
            target_monster_id: hit.target_monster_id.clone(),
            target_hp_after: hit.target_hp_after,
            target_max_hp: hit.target_max_hp,
            target_hp_percent: hit.target_hp_percent,
            active_effects: show_effects(&hit.active_effects, effect_catalog),
        }
    }
}

/// The columns of the hit table, as they are stored.
#[derive(Clone, Copy, Debug, PartialEq, Eq, Structural)]
pub struct HitDetailColumnsConfig {
    pub show_time: bool,
    pub show_character: bool,
    pub show_type: bool,
    pub show_damage: bool,
    pub show_target_hp: bool,
    pub time_width: u16,
    pub character_width: u16,
    pub type_width: u16,
    pub damage_width: u16,
    pub target_hp_width: u16,
}

/// The columns of the hit table, as frontends see them.
#[derive(Clone, Copy, Debug, PartialEq, Eq, Structural)]
pub struct MainDpsDetailColumns {
    pub show_time: bool,
    pub show_character: bool,
    pub show_type: bool,
    pub show_damage: bool,
    pub show_target: bool,
    pub time_width: u16,
    pub character_width: u16,
    pub type_width: u16,
    pub damage_width: u16,
    pub target_width: u16,
}

/// The stored columns as frontends see them.
pub open spec fn columns_shown(value: HitDetailColumnsConfig) -> MainDpsDetailColumns {
    MainDpsDetailColumns {
        show_time: value.show_time,
        show_character: value.show_character,
        show_type: value.show_type,
        show_damage: value.show_damage,
        show_target: value.show_target_hp,
        time_width: value.time_width,
        character_width: value.character_width,
        type_width: value.type_width,
        damage_width: value.damage_width,
        target_width: value.target_hp_width,
    }
}

impl vstd::std_specs::convert::FromSpecImpl<HitDetailColumnsConfig> for MainDpsDetailColumns {
    open spec fn obeys_from_spec() -> bool {
        true
    }

    open spec fn from_spec(value: HitDetailColumnsConfig) -> Self {
        columns_shown(value)
    }
}

impl From<HitDetailColumnsConfig> for MainDpsDetailColumns {
    fn from(value: HitDetailColumnsConfig) -> (result: Self) {
        MainDpsDetailColumns {
            show_time: value.show_time,
            show_character: value.show_character,
            show_type: value.show_type,
            show_damage: value.show_damage,
            show_target: value.show_target_hp,
            time_width: value.time_width,
            character_width: value.character_width,
            type_width: value.type_width,
            damage_width: value.damage_width,
            target_width: value.target_hp_width,
        }
    }
}

/// The columns of a frontend under the names of the stored ones.
pub open spec fn columns_named(value: MainDpsDetailColumns) -> HitDetailColumnsConfig {
    HitDetailColumnsConfig {
        show_time: value.show_time,
        show_character: value.show_character,
        show_type: value.show_type,
        show_damage: value.show_damage,
        show_target_hp: value.show_target,
        time_width: value.time_width,
        character_width: value.character_width,
        type_width: value.type_width,
        damage_width: value.damage_width,
        target_hp_width: value.target_width,
    }
}

impl HitDetailColumnsConfig {
    /// The columns of a frontend as they are stored, which `sanitize` makes
    /// valid.
    pub fn from<Z: Fn(HitDetailColumnsConfig) -> HitDetailColumnsConfig>(
        value: MainDpsDetailColumns,
        sanitize: &Z,
    ) -> (result: Self)
        requires
            call_requires(*sanitize, (columns_named(value),)),
        ensures
            call_ensures(*sanitize, (columns_named(value),), result),
    {
        sanitize(
            HitDetailColumnsConfig {
                show_time: value.show_time,
                show_character: value.show_character,
                show_type: value.show_type,
                show_damage: value.show_damage,
                show_target_hp: value.show_target,
                time_width: value.time_width,
                character_width: value.character_width,
                type_width: value.type_width,
                damage_width: value.damage_width,
                target_hp_width: value.target_width,
            },
        )
    }
}

/// What the page offers to do.
#[derive(Clone, Copy, Debug, PartialEq, Eq, Structural)]
pub struct MainDpsDetailActions {
    pub can_start_capture: bool,
    pub can_import_replay: bool,
}

impl MainDpsDetailActions {
    /// A capture or a replay can begin while neither is under way.
    pub fn from_state(phase: LiveCapturePhase, replay_running: bool) -> (result: Self)
        ensures
            result.can_start_capture == (!phase.active() && !replay_running),
            result.can_import_replay == (!phase.active() && !replay_running),
    {
        let free = !phase.is_active() && !replay_running;
        MainDpsDetailActions { can_start_capture: free, can_import_replay: free }
    }
}

/// What a detail page is drawn with.
pub struct DetailView<'a> {
    pub generation: u64,
    pub characters: &'a HashMap<u32, CharacterInfo>,
    pub names: &'a DisplayNames,
    pub language: Language,
    pub subtract_time_stop: bool,
    pub separate_reaction_damage: bool,
    pub columns: HitDetailColumnsConfig,
    pub actions: MainDpsDetailActions,
    pub effect_catalog: &'a HashMap<u64, String>,
}

#[derive(Clone, Debug)]
pub struct MainDpsDetailSnapshot {
    pub contract_version: u32,
    pub generation: String,
    pub kind: &'static str,
    pub abyss_half: Option<&'static str>,
    pub character_id: Option<u32>,
    pub character_name: Option<String>,
    pub character_color: Option<String>,
    pub filter: &'static str,
    pub qte_type: Option<String>,
    pub skill_filter: Option<String>,
    pub columns: MainDpsDetailColumns,
    pub actions: MainDpsDetailActions,
    pub metrics: MainDpsDetailMetrics,
    pub direction: MainDpsDirectionSummary,
    pub hit_types: Vec<MainDpsFilterSummary>,
    pub attribution: MainDpsAttributionSummary,
    pub qte_summaries: Vec<MainDpsQteSummary>,
    pub qte_summary_total_count: usize,
    pub qte_summaries_truncated: bool,
    pub skills: Vec<MainDpsSkillSummary>,
    pub skill_total_count: usize,
    pub skills_truncated: bool,
    pub effect_coverage: Vec<MainDpsEffectCoverage>,
    pub total_hits: usize,
    pub total_damage: Double,
    pub max_row_damage: Double,
    pub offset: usize,
    pub rows: Vec<MainDpsHitSnapshot>,
}

/// How many rows a page can have.
pub open spec fn page_limit(limit: usize) -> usize {
    if limit < 1 {
        1
    } else if limit > MAIN_DPS_DETAIL_PAGE_LIMIT {
        MAIN_DPS_DETAIL_PAGE_LIMIT
    } else {
        limit
    }
}

/// How many of `total` listed hits are on the page that begins at `offset`.
pub open spec fn rows_on_page(total: nat, offset: usize, limit: usize) -> nat {
    if total <= offset {
        0
    } else {
        capped((total - offset) as nat, page_limit(limit))
    }
}

/// The listed hits of a page, with what is summed over all listed hits.
struct ListedHits {
    total_hits: usize,
    total_damage: Double,
    max_row_damage: Double,
    effects: Vec<EffectTally>,
    rows: Vec<MainDpsHitSnapshot>,
}

/// Whether a walk over the hits found what is listed.
spec fn walks<F: Fn(Arith) -> Double>(
    ops: F,
    hits: Seq<Hit>,
    request: MainDpsDetailRequest,
    view: DetailView,
    offset: usize,
    limit: usize,
    found: ListedHits,
) -> bool {
    let positions = listed(hits, request);
    &&& found.total_hits == positions.len()
    &&& found.total_damage == sum_of(ops, damages_at(hits, positions))
    &&& found.max_row_damage == largest_damage(damages_at(hits, positions))
    &&& sums_effects(ops, effect_items(hits, request), found.effects@)
    &&& found.rows@.len() == rows_on_page(positions.len(), offset, limit)
    &&& forall|k: int|
        0 <= k < found.rows@.len() ==> shows_hit(
            hits[positions[offset + k]],
            offset + k,
            view.characters@,
            *view.names,
            view.language,
            view.effect_catalog@,
            #[trigger] found.rows@[k],
        )
}

fn walk_listed<F: Fn(Arith) -> Double>(
    hits: &Vec<Hit>,
    request: &MainDpsDetailRequest,
    view: &DetailView<'_>,
    offset: usize,
    limit: usize,
    ops: &F,
) -> (found: ListedHits)
    requires
        lawful(*ops),
    ensures
        walks(*ops, hits@, *request, *view, offset, limit, found),
{
    let page: usize = if limit < 1 {
        1
    } else if limit > MAIN_DPS_DETAIL_PAGE_LIMIT {
        MAIN_DPS_DETAIL_PAGE_LIMIT
    } else {
        limit
    };
    let mut total_hits: usize = 0;
    let mut total_damage: Double = Double::zero();
    let mut max_row_damage: Double = Double { bits: ONE_BITS };
    let mut effects: Vec<EffectTally> = Vec::new();
    let mut rows: Vec<MainDpsHitSnapshot> = Vec::new();
    let mut i: usize = 0;
    while i < hits.len()
        invariant
            lawful(*ops),
            page == page_limit(limit),
            i <= hits@.len(),
            total_hits <= i,
            ({
                let seen = hits@.take(i as int);
                let positions = listed(seen, *request);
                &&& total_hits == positions.len()
                &&& total_damage == sum_of(*ops, damages_at(seen, positions))
                &&& max_row_damage == largest_damage(damages_at(seen, positions))
                &&& sums_effects(*ops, effect_items(seen, *request), effects@)
                &&& rows@.len() == rows_on_page(positions.len(), offset, limit)
                &&& forall|k: int|
                    0 <= k < rows@.len() ==> shows_hit(
                        seen[positions[offset + k]],
                        offset + k,
                        view.characters@,
                        *view.names,
                        view.language,
                        view.effect_catalog@,
                        #[trigger] rows@[k],
                    )
            }),
        decreases hits@.len() - i,
    {
        let hit = &hits[i];
        let ghost seen = hits@.take(i as int);
        let ghost now = hits@.take(i + 1);
        let ghost positions = listed(seen, *request);
        let ghost next = listed(now, *request);
        proof {
            assert(now.drop_last() =~= seen);
            assert(now.last() == *hit && now.len() - 1 == i);
            listed_positions_are_valid(seen, *request);
            assert forall|k: int| 0 <= k < positions.len() implies now[#[trigger] positions[k]]
                == seen[positions[k]] by {}
            assert(damages_at(now, positions) =~= damages_at(seen, positions));
        }
        if request.character_matches(hit) && request.matches_filters(hit) {
            let ghost items = effect_items(seen, *request);
            let damage = hit.class.total_damage;
            proof {
                assert(next == positions.push(i as int));
                assert(damages_at(now, next) =~= damages_at(seen, positions).push(damage));
                assert(damages_at(now, next).drop_last() =~= damages_at(seen, positions));
                assert(damages_at(now, next).last() == damage);
            }
            let row_index: usize = total_hits;
            total_hits = total_hits + 1;
            total_damage = evaluate(ops, Arith::Sum(total_damage, damage));
            max_row_damage = max_row_damage.max(damage);
            add_effects(&mut effects, hit, ops, Ghost(items));
            let ghost had = rows@;
            if row_index >= offset && rows.len() < page {
                rows.push(
                    MainDpsHitSnapshot::from_hit(
                        hit,
                        row_index,
                        view.characters,
                        view.names,
                        view.language,
                        view.effect_catalog,
                    ),
                );
            }
            proof {
                assert forall|k: int| 0 <= k < rows@.len() implies shows_hit(
                    now[next[offset + k]],
                    offset + k,
                    view.characters@,
                    *view.names,
                    view.language,
                    view.effect_catalog@,
                    #[trigger] rows@[k],
                ) by {
                    if k < had.len() {
                        assert(rows@[k] == had[k]);
                        assert(next[offset + k] == positions[offset + k]);
                    } else {
                        assert(offset + k == row_index);
                        assert(next[offset + k] == i);
                    }
                }
            }
        } else {
            assert(!request.lists(*hit));
            assert(next == positions);
        }
        i = i + 1;
    }
    assert(hits@.take(i as int) =~= hits@);
    ListedHits { total_hits, total_damage, max_row_damage, effects, rows }
}

/// The party that a detail page is about.
pub open spec fn party_of(combat: CombatState, half: Option<AbyssHalf>) -> PartyCombatState {
    match half {
        Some(half) => combat.battle.abyss.party(half),
        None => combat.battle.team,
    }
}

/// The name in the page's title.
pub open spec fn title_name(
    party: PartyCombatState,
    request: MainDpsDetailRequest,
    view: DetailView,
) -> Option<Seq<char>> {
    match request.character_id {
        Some(id) => Some(
            localized_name(
                info_of(view.characters@, id),
                view.language,
                match row_of(party, id) {
                    Some(at) => party.stats@[at].name@,
                    None => "-"@,
                },
            ),
        ),
        None => None,
    }
}

/// The colour in the page's title.
pub open spec fn title_color(request: MainDpsDetailRequest, view: DetailView) -> Option<Seq<char>> {
    match request.character_id {
        Some(id) => match info_of(view.characters@, id) {
            Some(info) => held(info.color),
            None => None,
        },
        None => None,
    }
}

/// What a detail page says.
pub open spec fn details<
    F: Fn(Arith) -> Double,
    A: Fn(&PartyCombatState, bool) -> Double,
    U: Fn(HitDirectionSummary) -> Double,
>(
    ops: F,
    absent_duration: A,
    unknown_share: U,
    combat: CombatState,
    half: Option<AbyssHalf>,
    request: MainDpsDetailRequest,
    view: DetailView,
    offset: usize,
    limit: usize,
    page: MainDpsDetailSnapshot,
) -> bool {
    exists|absent: Double|
        {
            &&& #[trigger] measures_absent(
                absent_duration,
                party_of(combat, half),
                request.character_id,
                view.subtract_time_stop,
                absent,
            )
            &&& tells_details(
                ops,
                unknown_share,
                combat,
                half,
                request,
                view,
                offset,
                limit,
                absent,
                page,
            )
        }
}

/// What a detail page says, given the duration of a character without a row.
pub open spec fn tells_details<
    F: Fn(Arith) -> Double,
    U: Fn(HitDirectionSummary) -> Double,
>(
    ops: F,
    unknown_share: U,
    combat: CombatState,
    half: Option<AbyssHalf>,
    request: MainDpsDetailRequest,
    view: DetailView,
    offset: usize,
    limit: usize,
    absent: Double,
    page: MainDpsDetailSnapshot,
) -> bool {
    let party = party_of(combat, half);
    let hits = party.hits@;
    let positions = listed(hits, request);
    let metrics = metrics_of(
        ops,
        party,
        request.character_id,
        view.separate_reaction_damage,
        view.subtract_time_stop,
        absent,
    );
    &&& page.contract_version == MAIN_DPS_DETAIL_CONTRACT_VERSION
    &&& page.generation@ == decimal(view.generation as nat)
    &&& page.kind@ == (if request.character_id is Some {
        "character"@
    } else {
        "team"@
    })
    &&& shown(page.abyss_half) == (match half {
        Some(AbyssHalf::First) => Some("first"@),
        Some(AbyssHalf::Second) => Some("second"@),
        None => None,
    })
    &&& page.character_id == request.character_id
    &&& held(page.character_name) == title_name(party, request, view)
    &&& held(page.character_color) == title_color(request, view)
    &&& page.filter@ == filter_code(request.filter)
    &&& held(page.qte_type) == (match request.filter {
        CombatDetailFilter::QteType(value) => Some(value@),
        _ => None,
    })
    &&& held(page.skill_filter) == held(request.skill_filter)
    &&& page.columns == columns_shown(view.columns)
    &&& page.actions == view.actions
    &&& page.metrics == metrics
    &&& page.direction.confirmed_hits == metrics.output_count
    &&& shows_directions(
        unknown_share,
        direction_summary_of(ops, hits, request),
        MainDpsDirectionSummary {
            confirmed_hits: direction_summary_of(ops, hits, request).outgoing_hits,
            ..page.direction
        },
    )
    &&& lists_hit_types(ops, metrics, page.hit_types@)
    &&& page.attribution.shows(party.attribution, view.separate_reaction_damage)
    &&& lists_qte(
        ops,
        qte_items(hits, request),
        metrics.total_output,
        page.qte_summaries@,
        page.qte_summary_total_count,
    )
    &&& page.qte_summaries_truncated == (page.qte_summary_total_count > MAIN_DPS_DETAIL_QTE_LIMIT)
    &&& if request.character_id is Some {
        lists_skills(
            ops,
            *view.names,
            hits,
            skill_items(hits, request),
            metrics.total_output,
            page.skills@,
            page.skill_total_count,
        )
    } else {
        page.skills@.len() == 0 && page.skill_total_count == 0
    }
    &&& page.skills_truncated == (page.skill_total_count > MAIN_DPS_DETAIL_SKILL_LIMIT)
    &&& lists_coverage(
        ops,
        view.effect_catalog@,
        effect_items(hits, request),
        page.total_hits,
        page.total_damage,
        page.effect_coverage@,
    )
    &&& page.total_hits == positions.len()
    &&& page.total_damage == sum_of(ops, damages_at(hits, positions))
    &&& page.max_row_damage == largest_damage(damages_at(hits, positions))
    &&& page.offset == offset
    &&& page.rows@.len() == rows_on_page(positions.len(), offset, limit)
    &&& forall|k: int|
        0 <= k < page.rows@.len() ==> shows_hit(
            hits[positions[offset + k]],
            offset + k,
            view.characters@,
            *view.names,
            view.language,
            view.effect_catalog@,
            #[trigger] page.rows@[k],
        )
}

fn page_title(
    party: &PartyCombatState,
    request: &MainDpsDetailRequest,
    view: &DetailView<'_>,
) -> (result: (Option<String>, Option<String>))
    ensures
        held(result.0) == title_name(*party, *request, *view),
        held(result.1) == title_color(*request, *view),
{
    match request.character_id {
        None => (None, None),
        Some(id) => {
            let info = character_info(view.characters, id);
            let fallback: &str = match find_row(party, id) {
                Some(at) => party.stats[at].name.as_str(),
                None => "-",
            };
            let name = localized_character_name(info, view.language, fallback);
            let color = match info {
                Some(info) => to_text(as_text(&info.color)),
                None => None,
            };
            (Some(name), color)
        },
    }
}

impl MainDpsDetailSnapshot {
    /// Draws a detail page of the session, or of one challenge half.
    /// `absent_duration` asks the engine how long a character fought that has
    /// no row, `unknown_share` for the share of output whose direction is
    /// unknown.
    pub fn from_state<
        F: Fn(Arith) -> Double,
        A: Fn(&PartyCombatState, bool) -> Double,
        U: Fn(HitDirectionSummary) -> Double,
    >(
        combat: &CombatState,
        selected_half: Option<AbyssHalf>,
        request: &MainDpsDetailRequest,
        view: &DetailView<'_>,
        offset: usize,
        limit: usize,
        absent_duration: &A,
        unknown_share: &U,
        ops: &F,
    ) -> (page: Self)
        requires
            lawful(*ops),
            forall|party: PartyCombatState, subtract_time_stop: bool| #[trigger]
                call_requires(*absent_duration, (&party, subtract_time_stop)),
            forall|value: HitDirectionSummary| #[trigger] call_requires(*unknown_share, (value,)),
        ensures
            details(
                *ops,
                *absent_duration,
                *unknown_share,
                *combat,
                selected_half,
                *request,
                *view,
                offset,
                limit,
                page,
            ),
    {
        let party: &PartyCombatState = match selected_half {
            Some(half) => combat.battle.abyss.half(half),
            None => &combat.battle.team,
        };
        let found = walk_listed(&party.hits, request, view, offset, limit, ops);
        let absent = match request.character_id {
            Some(id) => if find_row(party, id).is_none() {
                absent_duration(party, view.subtract_time_stop)
            } else {
                Double::zero()
            },
            None => Double::zero(),
        };
        assert(measures_absent(
            *absent_duration,
            *party,
            request.character_id,
            view.subtract_time_stop,
            absent,
        ));
        let metrics = detail_metrics(
            party,
            request.character_id,
            view.separate_reaction_damage,
            view.subtract_time_stop,
            absent,
            ops,
        );
        let mut direction = MainDpsDirectionSummary::from_summary(
            summarize_directions(&party.hits, request, ops),
            unknown_share,
        );
        direction.confirmed_hits = metrics.output_count;
        let hit_types = hit_type_summaries(&metrics, ops);
        let attribution = MainDpsAttributionSummary::new(
            party.attribution,
            view.separate_reaction_damage,
        );
        let (qte_rows, qte_summary_total_count) = qte_summaries(
            tally_qte(&party.hits, request, ops),
            metrics.total_output,
            ops,
            Ghost(qte_items(party.hits@, *request)),
        );
        let (skills, skill_total_count) = if request.character_id.is_some() {
            skill_summaries(&party.hits, request, view.names, metrics.total_output, ops)
        } else {
            (Vec::new(), 0)
        };
        let coverage = effect_coverage(
            found.effects,
            view.effect_catalog,
            found.total_hits,
            found.total_damage,
            ops,
            Ghost(effect_items(party.hits@, *request)),
        );
        let (character_name, character_color) = page_title(party, request, view);
        let qte_type = match &request.filter {
            CombatDetailFilter::QteType(value) => Some(value.clone()),
            _ => None,
        };
        let page = MainDpsDetailSnapshot {
            contract_version: MAIN_DPS_DETAIL_CONTRACT_VERSION,
            generation: decimal_text(view.generation),
            kind: if request.character_id.is_some() {
                "character"
            } else {
                "team"
            },
            abyss_half: match selected_half {
                Some(AbyssHalf::First) => Some("first"),
                Some(AbyssHalf::Second) => Some("second"),
                None => None,
            },
            character_id: request.character_id,
            character_name,
            character_color,
            filter: filter_id(&request.filter),
            qte_type,
            skill_filter: request.skill_filter.clone(),
            columns: <MainDpsDetailColumns as From<HitDetailColumnsConfig>>::from(view.columns),
            actions: view.actions,
            metrics,
            direction,
            hit_types,
            attribution,
            qte_summaries: qte_rows,
            qte_summary_total_count,
            qte_summaries_truncated: qte_summary_total_count > MAIN_DPS_DETAIL_QTE_LIMIT,
            skills,
            skill_total_count,
            skills_truncated: skill_total_count > MAIN_DPS_DETAIL_SKILL_LIMIT,
            effect_coverage: coverage,
            total_hits: found.total_hits,
            total_damage: found.total_damage,
            max_row_damage: found.max_row_damage,
            offset,
            rows: found.rows,
        };
        assert(tells_details(
            *ops,
            *unknown_share,
            *combat,
            selected_half,
            *request,
            *view,
            offset,
            limit,
            absent,
            page,
        ));
        page
    }
}

} // verus!
