//! The compact readout that every HUD frontend draws. It holds aggregates
//! only: no packets, no hits, no session state.
use std::collections::HashSet;

use vstd::prelude::*;

use crate::double::{
    answer, evaluate, lawful, sum_of, Arith, Double, HUNDRED_BITS, ONE_BITS,
};
use crate::model::{
    AbyssHalf, AbyssState, CharacterStats, CharacterTotals, CombatState, DpsTimeBasis, Hit,
    PartyCombatState,
};
use crate::text::{decimal, decimal_text, held, shown};
use crate::timeline::{TimelineBucket, TimelineSeries};

verus! {

broadcast use vstd::std_specs::hash::group_hash_axioms;

pub const HUD_SNAPSHOT_VERSION: u32 = 3;

pub const HUD_TIMELINE_MAX_BUCKETS: usize = 60;

/// How many characters a team has at most.
pub const TEAM_DPS_MAX_MEMBERS: usize = 4;

#[derive(Clone, Copy, Debug, PartialEq, Eq, Structural)]
pub enum HudDataState {
    Empty,
    Preview,
    Live,
}

#[derive(Clone, Copy, Debug, PartialEq, Eq, Structural)]
pub enum HudAbyssHalf {
    First,
    Second,
}

impl vstd::std_specs::convert::FromSpecImpl<AbyssHalf> for HudAbyssHalf {
    open spec fn obeys_from_spec() -> bool {
        true
    }

    open spec fn from_spec(value: AbyssHalf) -> Self {
        match value {
            AbyssHalf::First => HudAbyssHalf::First,
            AbyssHalf::Second => HudAbyssHalf::Second,
        }
    }
}

impl From<AbyssHalf> for HudAbyssHalf {
    fn from(value: AbyssHalf) -> (result: Self) {
        match value {
            AbyssHalf::First => HudAbyssHalf::First,
            AbyssHalf::Second => HudAbyssHalf::Second,
        }
    }
}

/// A part of the HUD that can be shown, hidden and moved.
#[derive(Clone, Copy, Debug, PartialEq, Eq, Structural)]
pub enum HudModule {
    Title,
    Summary,
    Status,
    Characters,
    Timeline,
}

#[derive(Clone, Copy, Debug, PartialEq, Eq, Structural)]
pub enum HudModuleSnapshot {
    Title,
    Summary,
    Status,
    Characters,
    Timeline,
}

impl vstd::std_specs::convert::FromSpecImpl<HudModule> for HudModuleSnapshot {
    open spec fn obeys_from_spec() -> bool {
        true
    }

    open spec fn from_spec(value: HudModule) -> Self {
        match value {
            HudModule::Title => HudModuleSnapshot::Title,
            HudModule::Summary => HudModuleSnapshot::Summary,
            HudModule::Status => HudModuleSnapshot::Status,
            HudModule::Characters => HudModuleSnapshot::Characters,
            HudModule::Timeline => HudModuleSnapshot::Timeline,
        }
    }
}

impl From<HudModule> for HudModuleSnapshot {
    fn from(value: HudModule) -> (result: Self) {
        match value {
            HudModule::Title => HudModuleSnapshot::Title,
            HudModule::Summary => HudModuleSnapshot::Summary,
            HudModule::Status => HudModuleSnapshot::Status,
            HudModule::Characters => HudModuleSnapshot::Characters,
            HudModule::Timeline => HudModuleSnapshot::Timeline,
        }
    }
}

#[derive(Clone, Debug)]
pub struct HudConfig {
    pub width: u16,
    pub module_order: Vec<HudModule>,
    pub show_title: bool,
    pub show_team_dps: bool,
    pub show_duration: bool,
    pub show_total_damage: bool,
    pub show_character_rows: bool,
    pub show_damage_taken: bool,
    pub show_abyss_half: bool,
    pub show_passthrough_state: bool,
    pub show_mini_timeline: bool,
}

#[derive(Clone, Debug)]
pub struct HudConfigSnapshot {
    pub width: u16,
    pub module_order: Vec<HudModuleSnapshot>,
    pub show_title: bool,
    pub show_team_dps: bool,
    pub show_duration: bool,
    pub show_total_damage: bool,
    pub show_character_rows: bool,
    pub show_damage_taken: bool,
    pub show_abyss_half: bool,
    pub show_passthrough_state: bool,
    pub show_mini_timeline: bool,
}

/// How a module shows in the snapshot.
pub open spec fn module_shown(module: HudModule) -> HudModuleSnapshot {
    match module {
        HudModule::Title => HudModuleSnapshot::Title,
        HudModule::Summary => HudModuleSnapshot::Summary,
        HudModule::Status => HudModuleSnapshot::Status,
        HudModule::Characters => HudModuleSnapshot::Characters,
        HudModule::Timeline => HudModuleSnapshot::Timeline,
    }
}

impl HudConfigSnapshot {
    /// Whether the snapshot shows a valid configuration.
    pub open spec fn shows(self, config: HudConfig) -> bool {
        &&& self.width == config.width
        &&& self.module_order@ == config.module_order@.map_values(
            |module: HudModule| module_shown(module),
        )
        &&& self.show_title == config.show_title
        &&& self.show_team_dps == config.show_team_dps
        &&& self.show_duration == config.show_duration
        &&& self.show_total_damage == config.show_total_damage
        &&& self.show_character_rows == config.show_character_rows
        &&& self.show_damage_taken == config.show_damage_taken
        &&& self.show_abyss_half == config.show_abyss_half
        &&& self.show_passthrough_state == config.show_passthrough_state
        &&& self.show_mini_timeline == config.show_mini_timeline
    }

    /// Whether the snapshot shows what is made of a configuration.
    pub open spec fn shows_valid<Z: Fn(&HudConfig) -> HudConfig>(
        self,
        sanitize: Z,
        config: HudConfig,
    ) -> bool {
        exists|valid: HudConfig| #[trigger]
            call_ensures(sanitize, (&config,), valid) && self.shows(valid)
    }

    /// The snapshot of a configuration, which `sanitize` makes valid.
    pub fn from<Z: Fn(&HudConfig) -> HudConfig>(config: &HudConfig, sanitize: &Z) -> (result: Self)
        requires
            call_requires(*sanitize, (config,)),
        ensures
            result.shows_valid(*sanitize, *config),
    {
        let config = sanitize(config);
        let order = &config.module_order;
        let mut module_order: Vec<HudModuleSnapshot> = Vec::new();
        let mut i: usize = 0;
        while i < order.len()
            invariant
                i <= order.len(),
                module_order@.len() == i,
                forall|k: int| 0 <= k < i ==> #[trigger] module_order@[k] == module_shown(order@[k]),
            decreases order.len() - i,
        {
            module_order.push(<HudModuleSnapshot as From<HudModule>>::from(order[i]));
            i = i + 1;
        }
        assert(module_order@ =~= order@.map_values(|module: HudModule| module_shown(module)));
        HudConfigSnapshot {
            width: config.width,
            module_order,
            show_title: config.show_title,
            show_team_dps: config.show_team_dps,
            show_duration: config.show_duration,
            show_total_damage: config.show_total_damage,
            show_character_rows: config.show_character_rows,
            show_damage_taken: config.show_damage_taken,
            show_abyss_half: config.show_abyss_half,
            show_passthrough_state: config.show_passthrough_state,
            show_mini_timeline: config.show_mini_timeline,
        }
    }
}

#[derive(Clone, Copy, Debug, PartialEq, Eq, Structural)]
pub struct HudSummarySnapshot {
    pub team_dps: Double,
    pub duration_seconds: Double,
    pub total_damage: Double,
    pub total_damage_taken: Double,
}

#[derive(Clone, Debug)]
pub struct HudCharacterSnapshot {
    pub character_id: u32,
    pub name: String,
    pub preview_label_suffix: Option<String>,
    pub hits: String,
    pub damage: Double,
    pub dps: Double,
    pub damage_share_percent: Double,
    pub damage_taken: Double,
    pub color: Option<String>,
}

#[derive(Clone, Copy, Debug, PartialEq, Eq, Structural)]
pub struct HudStatusSnapshot {
    pub abyss_detected: bool,
    pub abyss_floor: Option<u32>,
    pub abyss_half: Option<HudAbyssHalf>,
    pub abyss_success: bool,
}

#[derive(Clone, Debug)]
pub struct HudTimelineBucketSnapshot {
    pub start_seconds: Double,
    pub end_seconds: Double,
    pub damage: Double,
    pub dps: Double,
    pub hits: String,
}

#[derive(Clone, Debug)]
pub struct HudTimelineSnapshot {
    pub bucket_seconds: Double,
    pub duration_seconds: Double,
    pub peak_dps: Double,
    pub buckets: Vec<HudTimelineBucketSnapshot>,
}

#[derive(Clone, Debug)]
pub struct HudSnapshot {
    pub version: u32,
    pub data_state: HudDataState,
    pub config: HudConfigSnapshot,
    pub summary: Option<HudSummarySnapshot>,
    pub characters: Vec<HudCharacterSnapshot>,
    pub status: HudStatusSnapshot,
    pub timeline: Option<HudTimelineSnapshot>,
}

#[derive(Clone, Copy, Debug, PartialEq, Eq, Structural)]
pub struct HudProjectionOptions {
    pub dps_time_basis: DpsTimeBasis,
    pub separate_reaction_damage: bool,
    pub selected_abyss_half: Option<AbyssHalf>,
    pub preview_when_empty: bool,
    pub timeline_bucket_seconds: Double,
}

impl Default for HudProjectionOptions {
    fn default() -> (result: Self)
        ensures
            result == (HudProjectionOptions {
                dps_time_basis: DpsTimeBasis::SubtractTimeStop,
                separate_reaction_damage: false,
                selected_abyss_half: None,
                preview_when_empty: false,
                timeline_bucket_seconds: Double { bits: ONE_BITS },
            }),
    {
        HudProjectionOptions {
            dps_time_basis: DpsTimeBasis::SubtractTimeStop,
            separate_reaction_damage: false,
            selected_abyss_half: None,
            preview_when_empty: false,
            timeline_bucket_seconds: Double { bits: ONE_BITS },
        }
    }
}

/// Whether a character row has anything to show.
pub open spec fn has_visible_totals(row: CharacterTotals) -> bool {
    row.hits > 0 || row.damage.positive() || row.hits_taken > 0 || row.damage_taken.positive()
}

pub fn character_has_visible_totals(row: &CharacterTotals) -> (result: bool)
    ensures
        result == has_visible_totals(*row),
{
    row.hits > 0 || row.damage.is_positive() || row.hits_taken > 0 || row.damage_taken.is_positive()
}

/// A reading kept between zero and one hundred.
pub open spec fn within_hundred(value: Double) -> Double {
    if value.below(Double { bits: 0 }) {
        Double { bits: 0 }
    } else if (Double { bits: HUNDRED_BITS }).below(value) {
        Double { bits: HUNDRED_BITS }
    } else {
        value
    }
}

/// What percentage of `total` a value is.
pub open spec fn percent_of<F: Fn(Arith) -> Double>(
    ops: F,
    value: Double,
    total: Double,
) -> Double {
    if value.finite() && total.finite() && total.positive() {
        within_hundred(
            answer(
                ops,
                Arith::Product(
                    answer(ops, Arith::Quotient(value, total)),
                    Double { bits: HUNDRED_BITS },
                ),
            ),
        )
    } else {
        Double { bits: 0 }
    }
}

fn percentage<F: Fn(Arith) -> Double>(value: Double, total: Double, ops: &F) -> (result: Double)
    requires
        lawful(*ops),
    ensures
        result == percent_of(*ops, value, total),
{
    if value.is_finite() && total.is_finite() && total.is_positive() {
        let ratio = evaluate(ops, Arith::Quotient(value, total));
        let percent = evaluate(ops, Arith::Product(ratio, Double { bits: HUNDRED_BITS }));
        if percent.is_below(Double::zero()) {
            Double::zero()
        } else if (Double { bits: HUNDRED_BITS }).is_below(percent) {
            Double { bits: HUNDRED_BITS }
        } else {
            percent
        }
    } else {
        Double::zero()
    }
}

/// Whether a character dealt a hit that is more than a QTE follow-up of an
/// unknown character.
pub open spec fn shows_a_hit(hits: Seq<Hit>, char_id: u32) -> bool {
    exists|i: int|
        0 <= i < hits.len() && (#[trigger] hits[i]).char_id == char_id && (hits[i].char_known
            || !hits[i].class.qte_follow_up)
}

fn any_shown_hit(hits: &Vec<Hit>, char_id: u32) -> (result: bool)
    ensures
        result == shows_a_hit(hits@, char_id),
{
    let mut i: usize = 0;
    while i < hits.len()
        invariant
            i <= hits.len(),
            forall|k: int|
                0 <= k < i ==> !((#[trigger] hits@[k]).char_id == char_id && (hits@[k].char_known
                    || !hits@[k].class.qte_follow_up)),
        decreases hits.len() - i,
    {
        if hits[i].char_id == char_id && (hits[i].char_known || !hits[i].class.qte_follow_up) {
            return true;
        }
        i = i + 1;
    }
    false
}

/// Whether a character gets a row.
pub open spec fn gets_row(
    party: PartyCombatState,
    hidden: Set<u32>,
    separate_reaction_damage: bool,
    index: int,
) -> bool {
    let row = party.stats@[index];
    !hidden.contains(row.char_id) && shows_a_hit(party.hits@, row.char_id) && has_visible_totals(
        row.under_policy(separate_reaction_damage),
    )
}

/// Whether the row at `left` stands above the row at `right`: more damage
/// first, then the smaller number.
pub open spec fn stands_above(
    party: PartyCombatState,
    separate_reaction_damage: bool,
    left: int,
    right: int,
) -> bool {
    let a = party.stats@[left].under_policy(
        separate_reaction_damage,
    ).damage.displayed().total_rank();
    let b = party.stats@[right].under_policy(
        separate_reaction_damage,
    ).damage.displayed().total_rank();
    a > b || (a == b && party.stats@[left].char_id < party.stats@[right].char_id)
}

/// `ranking` lists the first `upto` rows that are drawn, best first.
pub open spec fn ranks_rows(
    party: PartyCombatState,
    hidden: Set<u32>,
    separate_reaction_damage: bool,
    upto: int,
    ranking: Seq<usize>,
) -> bool {
    &&& forall|k: int|
        0 <= k < ranking.len() ==> (#[trigger] ranking[k]) < upto && gets_row(
            party,
            hidden,
            separate_reaction_damage,
            ranking[k] as int,
        )
    &&& forall|i: int, j: int|
        0 <= i < j < ranking.len() ==> stands_above(
            party,
            separate_reaction_damage,
            #[trigger] ranking[i] as int,
            #[trigger] ranking[j] as int,
        )
    &&& forall|index: int|
        0 <= index < upto && #[trigger] gets_row(party, hidden, separate_reaction_damage, index)
            ==> ranked(ranking, index)
}

/// Whether a row is in a ranking.
pub open spec fn ranked(ranking: Seq<usize>, index: int) -> bool {
    exists|k: int| 0 <= k < ranking.len() && (#[trigger] ranking[k]) == index
}

fn is_above(
    party: &PartyCombatState,
    separate_reaction_damage: bool,
    left: usize,
    right: usize,
) -> (result: bool)
    requires
        left < party.stats@.len(),
        right < party.stats@.len(),
    ensures
        result == stands_above(*party, separate_reaction_damage, left as int, right as int),
{
    let a = party.stats[left].for_reaction_damage_policy(
        separate_reaction_damage,
    ).damage.finite_non_negative();
    let b = party.stats[right].for_reaction_damage_policy(
        separate_reaction_damage,
    ).damage.finite_non_negative();
    b.precedes(a) || (!a.precedes(b) && party.stats[left].char_id < party.stats[right].char_id)
}

fn rank_row(
    ranking: &mut Vec<usize>,
    party: &PartyCombatState,
    hidden: &HashSet<u32>,
    separate_reaction_damage: bool,
    index: usize,
)
    requires
        index < party.stats@.len(),
        party.rows_are_distinct(),
        ranks_rows(*party, hidden@, separate_reaction_damage, index as int, old(ranking)@),
        gets_row(*party, hidden@, separate_reaction_damage, index as int),
    ensures
        ranks_rows(*party, hidden@, separate_reaction_damage, index + 1, final(ranking)@),
{
    let ghost before = ranking@;
    let mut at: usize = 0;
    while at < ranking.len() && is_above(party, separate_reaction_damage, ranking[at], index)
        invariant
            at <= ranking.len(),
            ranking@ == before,
            index < party.stats@.len(),
            forall|k: int| 0 <= k < before.len() ==> (#[trigger] before[k]) < index,
            forall|k: int|
                0 <= k < at ==> stands_above(
                    *party,
                    separate_reaction_damage,
                    #[trigger] before[k] as int,
                    index as int,
                ),
        decreases ranking.len() - at,
    {
        at = at + 1;
    }
    ranking.insert(at, index);
    proof {
        let after = ranking@;
        assert forall|k: int| at <= k < before.len() implies stands_above(
            *party,
            separate_reaction_damage,
            index as int,
            #[trigger] before[k] as int,
        ) by {
            let next = before[at as int] as int;
            assert(party.stats@[next].char_id != party.stats@[index as int].char_id);
            assert(stands_above(*party, separate_reaction_damage, index as int, next));
            if k > at {
                assert(stands_above(
                    *party,
                    separate_reaction_damage,
                    next,
                    before[k] as int,
                ));
            }
        }
        assert forall|i: int, j: int| 0 <= i < j < after.len() implies stands_above(
            *party,
            separate_reaction_damage,
            #[trigger] after[i] as int,
            #[trigger] after[j] as int,
        ) by {
            let a = if i < at { i } else { i - 1 };
            let b = if j < at { j } else { j - 1 };
            if i != at {
                assert(after[i] == before[a]);
            }
            if j != at {
                assert(after[j] == before[b]);
            }
        }
        assert forall|k: int| 0 <= k < after.len() implies (#[trigger] after[k]) < index + 1
            && gets_row(*party, hidden@, separate_reaction_damage, after[k] as int) by {
            if k != at {
                assert(after[k] == before[if k < at { k } else { k - 1 }]);
            }
        }
        assert forall|any: int|
            0 <= any < index + 1 && #[trigger] gets_row(
                *party,
                hidden@,
                separate_reaction_damage,
                any,
            ) implies ranked(after, any) by {
            if any == index {
                assert(after[at as int] == any);
            } else {
                assert(ranked(before, any));
                let k = choose|k: int| 0 <= k < before.len() && (#[trigger] before[k]) == any;
                assert(after[if k < at { k } else { k + 1 }] == any);
            }
        }
    }
}

fn rank_rows(
    party: &PartyCombatState,
    hidden: &HashSet<u32>,
    separate_reaction_damage: bool,
) -> (ranking: Vec<usize>)
    requires
        party.rows_are_distinct(),
    ensures
        ranks_rows(
            *party,
            hidden@,
            separate_reaction_damage,
            party.stats@.len() as int,
            ranking@,
        ),
{
    let mut ranking: Vec<usize> = Vec::new();
    let mut i: usize = 0;
    while i < party.stats.len()
        invariant
            i <= party.stats@.len(),
            party.rows_are_distinct(),
            ranks_rows(*party, hidden@, separate_reaction_damage, i as int, ranking@),
        decreases party.stats@.len() - i,
    {
        let row = party.stats[i].for_reaction_damage_policy(separate_reaction_damage);
        let drawn = !hidden.contains(&party.stats[i].char_id) && any_shown_hit(
            &party.hits,
            party.stats[i].char_id,
        ) && character_has_visible_totals(&row);
        assert(drawn == gets_row(*party, hidden@, separate_reaction_damage, i as int));
        if drawn {
            rank_row(&mut ranking, party, hidden, separate_reaction_damage, i);
        }
        i = i + 1;
    }
    ranking
}

/// What a character's row says.
pub open spec fn draws_row<F: Fn(Arith) -> Double>(
    ops: F,
    stats: CharacterStats,
    options: HudProjectionOptions,
    total_damage: Double,
    drawn: HudCharacterSnapshot,
) -> bool {
    let row = stats.under_policy(options.separate_reaction_damage);
    &&& drawn.character_id == stats.char_id
    &&& drawn.name == stats.name
    &&& drawn.preview_label_suffix is None
    &&& drawn.hits@ == decimal(row.hits as nat)
    &&& drawn.damage == row.damage.displayed()
    &&& drawn.dps == row.dps.picked(
        options.dps_time_basis == DpsTimeBasis::SubtractTimeStop,
    ).displayed()
    &&& drawn.damage_share_percent == percent_of(ops, row.damage, total_damage)
    &&& drawn.damage_taken == row.damage_taken.displayed()
    &&& drawn.color is None
}

/// `drawn` are the best rows of a party, as many as a team has members.
pub open spec fn draws_rows<F: Fn(Arith) -> Double>(
    ops: F,
    party: PartyCombatState,
    hidden: Set<u32>,
    options: HudProjectionOptions,
    drawn: Seq<HudCharacterSnapshot>,
) -> bool {
    exists|ranking: Seq<usize>|
        {
            &&& #[trigger] ranks_rows(
                party,
                hidden,
                options.separate_reaction_damage,
                party.stats@.len() as int,
                ranking,
            )
            &&& drawn.len() == (if ranking.len() < TEAM_DPS_MAX_MEMBERS {
                ranking.len()
            } else {
                TEAM_DPS_MAX_MEMBERS as nat
            })
            &&& forall|k: int|
                0 <= k < drawn.len() ==> draws_row(
                    ops,
                    party.stats@[ranking[k] as int],
                    options,
                    party.total_damage,
                    #[trigger] drawn[k],
                )
        }
}

/// The totals line of a party.
pub open spec fn summary_of(
    party: PartyCombatState,
    options: HudProjectionOptions,
) -> HudSummarySnapshot {
    let subtract_time_stop = options.dps_time_basis == DpsTimeBasis::SubtractTimeStop;
    HudSummarySnapshot {
        team_dps: party.dps.picked(subtract_time_stop).displayed(),
        duration_seconds: party.duration.picked(subtract_time_stop).displayed(),
        total_damage: party.total_damage.displayed(),
        total_damage_taken: party.total_damage_taken.displayed(),
    }
}

fn project_readout<F: Fn(Arith) -> Double>(
    party: &PartyCombatState,
    hidden: &HashSet<u32>,
    options: &HudProjectionOptions,
    ops: &F,
) -> (result: (Vec<HudCharacterSnapshot>, HudSummarySnapshot))
    requires
        lawful(*ops),
        party.rows_are_distinct(),
    ensures
        draws_rows(*ops, *party, hidden@, *options, result.0@),
        result.1 == summary_of(*party, *options),
{
    let subtract_time_stop = options.dps_time_basis.subtracts_time_stop();
    let ranking = rank_rows(party, hidden, options.separate_reaction_damage);
    let ghost ranked_all = ranking@;
    let mut rows: Vec<HudCharacterSnapshot> = Vec::new();
    while rows.len() < ranking.len() && rows.len() < TEAM_DPS_MAX_MEMBERS
        invariant
            lawful(*ops),
            ranking@ == ranked_all,
            subtract_time_stop == (options.dps_time_basis == DpsTimeBasis::SubtractTimeStop),
            ranks_rows(
                *party,
                hidden@,
                options.separate_reaction_damage,
                party.stats@.len() as int,
                ranking@,
            ),
            rows@.len() <= ranking@.len(),
            rows@.len() <= TEAM_DPS_MAX_MEMBERS,
            forall|k: int|
                0 <= k < rows@.len() ==> draws_row(
                    *ops,
                    party.stats@[ranking@[k] as int],
                    *options,
                    party.total_damage,
                    #[trigger] rows@[k],
                ),
        decreases ranking@.len() - rows@.len(),
    {
        let stats = &party.stats[ranking[rows.len()]];
        let row = stats.for_reaction_damage_policy(options.separate_reaction_damage);
        rows.push(
            HudCharacterSnapshot {
                character_id: stats.char_id,
                name: stats.name.clone(),
                preview_label_suffix: None,
                hits: decimal_text(row.hits),
                damage: row.damage.finite_non_negative(),
                dps: row.dps.pick(subtract_time_stop).finite_non_negative(),
                damage_share_percent: percentage(row.damage, party.total_damage, ops),
                damage_taken: row.damage_taken.finite_non_negative(),
                color: None,
            },
        );
    }
    let summary = HudSummarySnapshot {
        team_dps: party.dps.pick(subtract_time_stop).finite_non_negative(),
        duration_seconds: party.duration.pick(subtract_time_stop).finite_non_negative(),
        total_damage: party.total_damage.finite_non_negative(),
        total_damage_taken: party.total_damage_taken.finite_non_negative(),
    };
    (rows, summary)
}

/// How many buckets of a series go into one drawn bucket.
pub open spec fn group_size(count: nat) -> nat {
    if count == 0 {
        1
    } else {
        ((count + HUD_TIMELINE_MAX_BUCKETS - 1) / HUD_TIMELINE_MAX_BUCKETS as int) as nat
    }
}

/// How many drawn buckets a series takes.
pub open spec fn group_count(count: nat) -> nat {
    ((count + group_size(count) - 1) / group_size(count) as int) as nat
}

/// The series buckets that drawn bucket `index` stands for.
pub open spec fn group_of(buckets: Seq<TimelineBucket>, index: int) -> Seq<TimelineBucket> {
    let size = group_size(buckets.len()) as int;
    let from = index * size;
    let to = if (index + 1) * size < buckets.len() {
        (index + 1) * size
    } else {
        buckets.len() as int
    };
    buckets.subrange(from, to)
}

pub open spec fn group_damages(group: Seq<TimelineBucket>) -> Seq<Double> {
    group.map_values(|bucket: TimelineBucket| bucket.damage)
}

/// The hits of a group, as far as they can be counted.
pub open spec fn group_hits(group: Seq<TimelineBucket>) -> u64
    decreases group.len(),
{
    if group.len() == 0 {
        0
    } else {
        let earlier = group_hits(group.drop_last());
        if earlier + group.last().hits > u64::MAX {
            u64::MAX
        } else {
            (earlier + group.last().hits) as u64
        }
    }
}

/// The shortest time that a drawn bucket is divided by: one millisecond.
pub const SHORTEST_BUCKET_BITS: u64 = 0x3f50_624d_d2f1_a9fc;

/// What a drawn bucket says of its group.
pub open spec fn draws_group<F: Fn(Arith) -> Double>(
    ops: F,
    group: Seq<TimelineBucket>,
    drawn: HudTimelineBucketSnapshot,
) -> bool {
    &&& drawn.start_seconds == group.first().start_offset.displayed()
    &&& drawn.end_seconds == group.last().end_offset.displayed().larger(drawn.start_seconds)
    &&& drawn.damage == sum_of(ops, group_damages(group)).displayed()
    &&& drawn.dps == answer(
        ops,
        Arith::Quotient(
            drawn.damage,
            answer(ops, Arith::Difference(drawn.end_seconds, drawn.start_seconds)).larger(
                Double { bits: SHORTEST_BUCKET_BITS },
            ),
        ),
    ).displayed()
    &&& drawn.hits@ == decimal(group_hits(group) as nat)
}

/// The largest reading of drawn buckets, at least zero.
pub open spec fn drawn_peak(buckets: Seq<HudTimelineBucketSnapshot>) -> Double
    decreases buckets.len(),
{
    if buckets.len() == 0 {
        Double { bits: 0 }
    } else {
        drawn_peak(buckets.drop_last()).larger(buckets.last().dps)
    }
}

/// The mini timeline of a series.
pub open spec fn draws_series<F: Fn(Arith) -> Double>(
    ops: F,
    series: TimelineSeries,
    drawn: HudTimelineSnapshot,
) -> bool {
    let buckets = series.buckets@;
    &&& drawn.buckets@.len() == group_count(buckets.len())
    &&& forall|k: int|
        0 <= k < drawn.buckets@.len() ==> draws_group(
            ops,
            group_of(buckets, k),
            #[trigger] drawn.buckets@[k],
        )
    &&& drawn.bucket_seconds == answer(
        ops,
        Arith::Product(
            series.bucket_seconds,
            answer(ops, Arith::FromCount(group_size(buckets.len()) as u64)),
        ),
    ).displayed()
    &&& drawn.duration_seconds == drawn.buckets@.last().end_seconds.larger(Double { bits: 0 })
    &&& drawn.peak_dps == drawn_peak(drawn.buckets@)
}

fn draw_group<F: Fn(Arith) -> Double>(
    buckets: &Vec<TimelineBucket>,
    from: usize,
    to: usize,
    ops: &F,
) -> (drawn: HudTimelineBucketSnapshot)
    requires
        lawful(*ops),
        from < to <= buckets@.len(),
    ensures
        draws_group(*ops, buckets@.subrange(from as int, to as int), drawn),
{
    let ghost group = buckets@.subrange(from as int, to as int);
    let start_seconds = buckets[from].start_offset.finite_non_negative();
    let end_seconds = buckets[to - 1].end_offset.finite_non_negative().max(start_seconds);
    let mut damage: Double = Double::zero();
    let mut hits: u64 = 0;
    let mut i: usize = from;
    while i < to
        invariant
            lawful(*ops),
            from <= i <= to <= buckets@.len(),
            group == buckets@.subrange(from as int, to as int),
            damage == sum_of(*ops, group_damages(group).take(i - from)),
            hits == group_hits(group.take(i - from)),
        decreases to - i,
    {
        assert(group_damages(group).take(i + 1 - from).drop_last() =~= group_damages(group).take(
            i - from,
        ));
        assert(group.take(i + 1 - from).drop_last() =~= group.take(i - from));
        damage = evaluate(ops, Arith::Sum(damage, buckets[i].damage));
        hits = if hits > u64::MAX - buckets[i].hits {
            u64::MAX
        } else {
            hits + buckets[i].hits
        };
        i = i + 1;
    }
    assert(group_damages(group).take(i - from) =~= group_damages(group));
    assert(group.take(i - from) =~= group);
    let shown_damage = damage.finite_non_negative();
    let seconds = evaluate(ops, Arith::Difference(end_seconds, start_seconds)).max(
        Double { bits: SHORTEST_BUCKET_BITS },
    );
    HudTimelineBucketSnapshot {
        start_seconds,
        end_seconds,
        damage: shown_damage,
        dps: evaluate(ops, Arith::Quotient(shown_damage, seconds)).finite_non_negative(),
        hits: decimal_text(hits),
    }
}

/// The drawn buckets cover a series: none of them is empty, and together they
/// reach its end.
pub proof fn groups_tile(count: nat)
    requires
        count > 0,
    ensures
        group_size(count) >= 1,
        group_count(count) >= 1,
        group_count(count) <= HUD_TIMELINE_MAX_BUCKETS,
        (group_count(count) - 1) * group_size(count) < count,
        count <= group_count(count) * group_size(count),
{
    let size = group_size(count) as int;
    let groups = group_count(count) as int;
    assert(60 * size >= count);
    assert(groups == (count + size - 1) / size);
    assert(groups * size <= count + size - 1 && count + size - 1 < (groups + 1) * size)
        by (nonlinear_arith)
        requires
            groups == (count + size - 1) / size,
            size >= 1,
    ;
    assert((groups - 1) * size == groups * size - size) by (nonlinear_arith);
    assert((groups + 1) * size == groups * size + size) by (nonlinear_arith);
    assert(groups <= 60) by (nonlinear_arith)
        requires
            groups * size <= count + size - 1,
            60 * size >= count,
            size >= 1,
    ;
    assert(groups >= 1) by (nonlinear_arith)
        requires
            count < (groups + 1) * size - size + 1,
            (groups + 1) * size == groups * size + size,
            count > 0,
            size >= 1,
    ;
}

/// Draws the mini timeline of a series, in at most
/// [`HUD_TIMELINE_MAX_BUCKETS`] buckets. A series without buckets has none.
pub fn project_timeline<F: Fn(Arith) -> Double>(series: &TimelineSeries, ops: &F) -> (result:
    Option<HudTimelineSnapshot>)
    requires
        lawful(*ops),
    ensures
        result is None <==> series.buckets@.len() == 0,
        result matches Some(drawn) ==> draws_series(*ops, *series, drawn),
{
    let count: usize = series.buckets.len();
    if count == 0 {
        return None;
    }
    let size: usize = (count - 1) / HUD_TIMELINE_MAX_BUCKETS + 1;
    let ghost buckets = series.buckets@;
    proof {
        assert(size == group_size(count as nat)) by {
            assert((count + 60 - 1) / 60 == (count - 1) / 60 + 1);
        }
        groups_tile(count as nat);
    }
    let mut drawn: Vec<HudTimelineBucketSnapshot> = Vec::new();
    let mut peak: Double = Double::zero();
    let mut from: usize = 0;
    while from < count
        invariant
            lawful(*ops),
            buckets == series.buckets@,
            count == buckets.len(),
            size == group_size(count as nat),
            size >= 1,
            size <= count,
            drawn@.len() <= group_count(count as nat),
            group_count(count as nat) <= HUD_TIMELINE_MAX_BUCKETS,
            (group_count(count as nat) - 1) * size < count <= group_count(count as nat) * size,
            from == (if drawn@.len() * size < count {
                drawn@.len() * size
            } else {
                count as int
            }),
            peak == drawn_peak(drawn@),
            forall|k: int|
                0 <= k < drawn@.len() ==> draws_group(
                    *ops,
                    group_of(buckets, k),
                    #[trigger] drawn@[k],
                ),
        decreases count - from,
    {
        let ghost index = drawn@.len() as int;
        let to: usize = if size < count - from {
            from + size
        } else {
            count
        };
        proof {
            assert((index + 1) * size == index * size + size) by (nonlinear_arith);
            assert(index < group_count(count as nat)) by (nonlinear_arith)
                requires
                    index * size < count,
                    count <= group_count(count as nat) * size,
                    size >= 1,
            ;
            assert(buckets.subrange(from as int, to as int) =~= group_of(buckets, index));
        }
        let bucket = draw_group(&series.buckets, from, to, ops);
        peak = peak.max(bucket.dps);
        let ghost earlier = drawn@;
        drawn.push(bucket);
        assert(drawn@.drop_last() =~= earlier);
        from = to;
    }
    proof {
        let n = drawn@.len() as int;
        let groups = group_count(count as nat) as int;
        assert(n >= groups) by (nonlinear_arith)
            requires
                n * size >= count,
                (groups - 1) * size < count,
                size >= 1,
        ;
    }
    let duration_seconds = drawn[drawn.len() - 1].end_seconds.max(Double::zero());
    let width = evaluate(ops, Arith::FromCount(size as u64));
    Some(
        HudTimelineSnapshot {
            bucket_seconds: evaluate(
                ops,
                Arith::Product(series.bucket_seconds, width),
            ).finite_non_negative(),
            duration_seconds,
            peak_dps: peak,
            buckets: drawn,
        },
    )
}

/// How many hits the buckets of a series hold.
pub open spec fn hits_of(buckets: Seq<TimelineBucket>) -> nat
    decreases buckets.len(),
{
    if buckets.len() == 0 {
        0
    } else {
        hits_of(buckets.drop_last()) + buckets.last().hits as nat
    }
}

/// How many hits the first `upto` drawn buckets say they hold.
pub open spec fn drawn_hits(buckets: Seq<TimelineBucket>, upto: nat) -> nat
    decreases upto,
{
    if upto == 0 {
        0
    } else {
        drawn_hits(buckets, (upto - 1) as nat) + group_hits(
            group_of(buckets, upto - 1),
        ) as nat
    }
}

proof fn hits_split(buckets: Seq<TimelineBucket>, at: int)
    requires
        0 <= at <= buckets.len(),
    ensures
        hits_of(buckets) == hits_of(buckets.take(at)) + hits_of(buckets.skip(at)),
    decreases buckets.len(),
{
    if at == buckets.len() {
        assert(buckets.take(at) =~= buckets);
        assert(buckets.skip(at) =~= Seq::<TimelineBucket>::empty());
    } else {
        let shorter = buckets.drop_last();
        hits_split(shorter, at);
        assert(shorter.take(at) =~= buckets.take(at));
        assert(shorter.skip(at) =~= buckets.skip(at).drop_last());
        assert(buckets.skip(at).last() == buckets.last());
    }
}

proof fn countable_groups_count_exactly(group: Seq<TimelineBucket>)
    requires
        hits_of(group) <= u64::MAX,
    ensures
        group_hits(group) == hits_of(group),
    decreases group.len(),
{
    if group.len() > 0 {
        countable_groups_count_exactly(group.drop_last());
    }
}

proof fn drawn_hits_are_prefix_hits(buckets: Seq<TimelineBucket>, upto: nat)
    requires
        buckets.len() > 0,
        hits_of(buckets) <= u64::MAX,
        upto <= group_count(buckets.len()),
    ensures
        ({
            let size = group_size(buckets.len()) as int;
            let end = if upto * size < buckets.len() {
                upto * size
            } else {
                buckets.len() as int
            };
            drawn_hits(buckets, upto) == hits_of(buckets.take(end))
        }),
    decreases upto,
{
    let size = group_size(buckets.len()) as int;
    groups_tile(buckets.len());
    if upto == 0 {
        assert(upto * size == 0) by (nonlinear_arith)
            requires
                upto == 0,
        ;
        assert(buckets.take(0) =~= Seq::<TimelineBucket>::empty());
    } else {
        let before = (upto - 1) as nat;
        drawn_hits_are_prefix_hits(buckets, before);
        assert(upto * size == before * size + size) by (nonlinear_arith)
            requires
                upto == before + 1,
        ;
        assert(before * size < buckets.len()) by (nonlinear_arith)
            requires
                before <= group_count(buckets.len()) - 1,
                (group_count(buckets.len()) - 1) * size < buckets.len(),
                size >= 1,
        ;
        let start = before * size;
        let end = if upto * size < buckets.len() {
            upto * size
        } else {
            buckets.len() as int
        };
        let prefix = buckets.take(end);
        hits_split(buckets, end);
        hits_split(prefix, start);
        assert(prefix.take(start) =~= buckets.take(start));
        assert(prefix.skip(start) =~= group_of(buckets, before as int));
        countable_groups_count_exactly(group_of(buckets, before as int));
    }
}

/// A mini timeline has at most [`HUD_TIMELINE_MAX_BUCKETS`] buckets, and they
/// hold all the hits of the series, as long as those can be counted at all.
pub proof fn grouping_keeps_every_hit(buckets: Seq<TimelineBucket>)
    requires
        buckets.len() > 0,
        hits_of(buckets) <= u64::MAX,
    ensures
        group_count(buckets.len()) <= HUD_TIMELINE_MAX_BUCKETS,
        drawn_hits(buckets, group_count(buckets.len())) == hits_of(buckets),
{
    groups_tile(buckets.len());
    drawn_hits_are_prefix_hits(buckets, group_count(buckets.len()));
    assert(buckets.take(buckets.len() as int) =~= buckets);
}

/// One character of the preview.
pub open spec fn preview_values() -> Seq<(Seq<char>, u64, Double)> {
    seq![
        ("A"@, 38, Double { bits: 0x4132_baec_0000_0000 }),
        ("B"@, 27, Double { bits: 0x4121_ab70_0000_0000 }),
        ("C"@, 16, Double { bits: 0x410f_bd00_0000_0000 }),
        ("D"@, 11, Double { bits: 0x4105_f248_0000_0000 }),
    ]
}

/// How long the preview fight lasts: 34.9 seconds.
pub const PREVIEW_DURATION_BITS: u64 = 0x4041_7333_3333_3333;

pub open spec fn preview_total<F: Fn(Arith) -> Double>(ops: F) -> Double {
    sum_of(
        ops,
        seq![
            preview_values()[0].2,
            preview_values()[1].2,
            preview_values()[2].2,
            preview_values()[3].2,
        ],
    )
}

/// What the preview says of one character.
pub open spec fn preview_row<F: Fn(Arith) -> Double>(
    ops: F,
    index: int,
    row: HudCharacterSnapshot,
) -> bool {
    let (suffix, hits, damage) = preview_values()[index];
    &&& row.character_id == u32::MAX - (3 - index)
    &&& row.name@.len() == 0
    &&& held(row.preview_label_suffix) == Some(suffix)
    &&& row.hits@ == decimal(hits as nat)
    &&& row.damage == damage
    &&& row.dps == answer(ops, Arith::Quotient(damage, Double { bits: PREVIEW_DURATION_BITS }))
    &&& row.damage_share_percent == percent_of(ops, damage, preview_total(ops))
    &&& row.damage_taken.bits == 0
    &&& row.color is None
}

/// The totals line of the preview.
pub open spec fn preview_summary<F: Fn(Arith) -> Double>(ops: F) -> HudSummarySnapshot {
    HudSummarySnapshot {
        team_dps: Double { bits: 0x40ef_65a0_0000_0000 },
        duration_seconds: Double { bits: PREVIEW_DURATION_BITS },
        total_damage: preview_total(ops),
        total_damage_taken: Double { bits: 0x40a6_2400_0000_0000 },
    }
}

fn preview_character<F: Fn(Arith) -> Double>(
    character_id: u32,
    suffix: &str,
    hits: u64,
    damage: Double,
    total_damage: Double,
    ops: &F,
) -> (row: HudCharacterSnapshot)
    requires
        lawful(*ops),
    ensures
        row.character_id == character_id,
        row.name@.len() == 0,
        held(row.preview_label_suffix) == Some(suffix@),
        row.hits@ == decimal(hits as nat),
        row.damage == damage,
        row.dps == answer(
            *ops,
            Arith::Quotient(damage, Double { bits: PREVIEW_DURATION_BITS }),
        ),
        row.damage_share_percent == percent_of(*ops, damage, total_damage),
        row.damage_taken.bits == 0,
        row.color is None,
{
    HudCharacterSnapshot {
        character_id,
        name: String::new(),
        preview_label_suffix: Some(suffix.to_owned()),
        hits: decimal_text(hits),
        damage,
        dps: evaluate(ops, Arith::Quotient(damage, Double { bits: PREVIEW_DURATION_BITS })),
        damage_share_percent: percentage(damage, total_damage, ops),
        damage_taken: Double::zero(),
        color: None,
    }
}

fn preview_readout<F: Fn(Arith) -> Double>(ops: &F) -> (result: (
    HudSummarySnapshot,
    Vec<HudCharacterSnapshot>,
))
    requires
        lawful(*ops),
    ensures
        result.0 == preview_summary(*ops),
        result.1@.len() == 4,
        forall|k: int| 0 <= k < 4 ==> preview_row(*ops, k, #[trigger] result.1@[k]),
{
    let a = Double { bits: 0x4132_baec_0000_0000 };
    let b = Double { bits: 0x4121_ab70_0000_0000 };
    let c = Double { bits: 0x410f_bd00_0000_0000 };
    let d = Double { bits: 0x4105_f248_0000_0000 };
    let one = evaluate(ops, Arith::Sum(Double::zero(), a));
    let two = evaluate(ops, Arith::Sum(one, b));
    let three = evaluate(ops, Arith::Sum(two, c));
    let total_damage = evaluate(ops, Arith::Sum(three, d));
    proof {
        let all = seq![a, b, c, d];
        assert(all.drop_last() =~= seq![a, b, c]);
        assert(seq![a, b, c].drop_last() =~= seq![a, b]);
        assert(seq![a, b].drop_last() =~= seq![a]);
        assert(seq![a].drop_last() =~= Seq::<Double>::empty());
        reveal_with_fuel(sum_of, 5);
        assert(total_damage == sum_of(*ops, all));
    }
    let mut rows: Vec<HudCharacterSnapshot> = Vec::new();
    rows.push(preview_character(u32::MAX - 3, "A", 38, a, total_damage, ops));
    rows.push(preview_character(u32::MAX - 2, "B", 27, b, total_damage, ops));
    rows.push(preview_character(u32::MAX - 1, "C", 16, c, total_damage, ops));
    rows.push(preview_character(u32::MAX, "D", 11, d, total_damage, ops));
    let summary = HudSummarySnapshot {
        team_dps: Double { bits: 0x40ef_65a0_0000_0000 },
        duration_seconds: Double { bits: PREVIEW_DURATION_BITS },
        total_damage,
        total_damage_taken: Double { bits: 0x40a6_2400_0000_0000 },
    };
    (summary, rows)
}

/// The readings of the preview timeline, one per second.
pub open spec fn preview_readings() -> Seq<Double> {
    seq![
        Double { bits: 0x40cf_4000_0000_0000 },
        Double { bits: 0x40e4_8200_0000_0000 },
        Double { bits: 0x40db_5800_0000_0000 },
        Double { bits: 0x40f1_1700_0000_0000 },
        Double { bits: 0x40e7_7000_0000_0000 },
        Double { bits: 0x40f4_0500_0000_0000 },
        Double { bits: 0x40e1_9400_0000_0000 },
        Double { bits: 0x40ec_5200_0000_0000 },
        Double { bits: 0x40d7_7000_0000_0000 },
    ]
}

/// What a bucket of the preview says.
pub open spec fn preview_bucket<F: Fn(Arith) -> Double>(
    ops: F,
    index: int,
    bucket: HudTimelineBucketSnapshot,
) -> bool {
    let second = Double { bits: ONE_BITS };
    let dps = preview_readings()[index];
    &&& bucket.start_seconds == answer(
        ops,
        Arith::Product(answer(ops, Arith::FromCount(index as u64)), second),
    )
    &&& bucket.end_seconds == answer(
        ops,
        Arith::Product(answer(ops, Arith::FromCount((index + 1) as u64)), second),
    )
    &&& bucket.damage == answer(ops, Arith::Product(dps, second))
    &&& bucket.dps == dps
    &&& bucket.hits@ == "1"@
}

/// The preview timeline.
pub open spec fn draws_preview<F: Fn(Arith) -> Double>(ops: F, drawn: HudTimelineSnapshot) -> bool {
    &&& drawn.buckets@.len() == 9
    &&& forall|k: int| 0 <= k < 9 ==> preview_bucket(ops, k, #[trigger] drawn.buckets@[k])
    &&& drawn.bucket_seconds.bits == ONE_BITS
    &&& drawn.duration_seconds == drawn.buckets@[8].end_seconds
    &&& drawn.peak_dps == drawn_peak(drawn.buckets@)
}

fn preview_timeline<F: Fn(Arith) -> Double>(ops: &F) -> (drawn: HudTimelineSnapshot)
    requires
        lawful(*ops),
    ensures
        draws_preview(*ops, drawn),
{
    let mut readings: Vec<Double> = Vec::new();
    readings.push(Double { bits: 0x40cf_4000_0000_0000 });
    readings.push(Double { bits: 0x40e4_8200_0000_0000 });
    readings.push(Double { bits: 0x40db_5800_0000_0000 });
    readings.push(Double { bits: 0x40f1_1700_0000_0000 });
    readings.push(Double { bits: 0x40e7_7000_0000_0000 });
    readings.push(Double { bits: 0x40f4_0500_0000_0000 });
    readings.push(Double { bits: 0x40e1_9400_0000_0000 });
    readings.push(Double { bits: 0x40ec_5200_0000_0000 });
    readings.push(Double { bits: 0x40d7_7000_0000_0000 });
    assert(readings@ =~= preview_readings());
    let second = Double { bits: ONE_BITS };
    let mut buckets: Vec<HudTimelineBucketSnapshot> = Vec::new();
    let mut peak: Double = Double::zero();
    let mut i: usize = 0;
    while i < 9
        invariant
            lawful(*ops),
            i <= 9,
            second.bits == ONE_BITS,
            readings@ == preview_readings(),
            buckets@.len() == i,
            peak == drawn_peak(buckets@),
            forall|k: int| 0 <= k < i ==> preview_bucket(*ops, k, #[trigger] buckets@[k]),
        decreases 9 - i,
    {
        let from = evaluate(ops, Arith::FromCount(i as u64));
        let to = evaluate(ops, Arith::FromCount((i + 1) as u64));
        let dps = readings[i];
        let ghost earlier = buckets@;
        peak = peak.max(dps);
        buckets.push(
            HudTimelineBucketSnapshot {
                start_seconds: evaluate(ops, Arith::Product(from, second)),
                end_seconds: evaluate(ops, Arith::Product(to, second)),
                damage: evaluate(ops, Arith::Product(dps, second)),
                dps,
                hits: "1".to_owned(),
            },
        );
        assert(buckets@.drop_last() =~= earlier);
        i = i + 1;
    }
    HudTimelineSnapshot {
        bucket_seconds: second,
        duration_seconds: buckets[8].end_seconds,
        peak_dps: peak,
        buckets,
    }
}

/// The half that the HUD shows: none outside the challenge, else the selected
/// one, else the one in progress, else the first.
pub open spec fn half_shown(
    abyss: AbyssState,
    selected: Option<AbyssHalf>,
) -> Option<AbyssHalf> {
    if !abyss.active {
        None
    } else if selected is Some {
        selected
    } else if abyss.active_half is Some {
        abyss.active_half
    } else {
        Some(AbyssHalf::First)
    }
}

pub fn shown_half(abyss: &AbyssState, selected: Option<AbyssHalf>) -> (result: Option<AbyssHalf>)
    ensures
        result == half_shown(*abyss, selected),
{
    if !abyss.is_active() {
        None
    } else if selected.is_some() {
        selected
    } else if abyss.active_half.is_some() {
        abyss.active_half
    } else {
        Some(AbyssHalf::First)
    }
}

/// The party whose readings the HUD shows.
pub open spec fn party_shown(state: CombatState, half: Option<AbyssHalf>) -> PartyCombatState {
    match half {
        Some(half) => state.battle.abyss.party(half),
        None => state.battle.team,
    }
}

/// Whether there is a readout, or only nothing to show.
pub open spec fn has_readout(summary: HudSummarySnapshot, rows: nat) -> bool {
    summary.total_damage.positive() || summary.team_dps.positive()
        || summary.total_damage_taken.positive() || rows > 0
}

/// The engine reads every session at every width.
pub open spec fn reads_every_series<
    T: Fn(&CombatState, Option<AbyssHalf>, Double, bool) -> TimelineSeries,
>(series_of: T) -> bool {
    forall|
        state: CombatState,
        half: Option<AbyssHalf>,
        seconds: Double,
        subtract_time_stop: bool,
    | #[trigger]
        call_requires(series_of, (&state, half, seconds, subtract_time_stop))
}

/// Whether the engine reads this series of a session: of the half, or of all
/// of it, at the bucket width and the time basis of the options.
pub open spec fn reads_series<
    T: Fn(&CombatState, Option<AbyssHalf>, Double, bool) -> TimelineSeries,
>(
    series_of: T,
    state: CombatState,
    half: Option<AbyssHalf>,
    options: HudProjectionOptions,
    series: TimelineSeries,
) -> bool {
    call_ensures(
        series_of,
        (
            &state,
            half,
            options.timeline_bucket_seconds,
            options.dps_time_basis == DpsTimeBasis::SubtractTimeStop,
        ),
        series,
    )
}

/// What the HUD shows of a session.
pub open spec fn draws_hud<
    F: Fn(Arith) -> Double,
    T: Fn(&CombatState, Option<AbyssHalf>, Double, bool) -> TimelineSeries,
    Z: Fn(&HudConfig) -> HudConfig,
>(
    ops: F,
    series_of: T,
    sanitize: Z,
    state: CombatState,
    config: HudConfig,
    hidden: Set<u32>,
    options: HudProjectionOptions,
    hud: HudSnapshot,
) -> bool {
    let half = half_shown(state.battle.abyss, options.selected_abyss_half);
    let party = party_shown(state, half);
    let summary = summary_of(party, options);
    &&& hud.version == HUD_SNAPSHOT_VERSION
    &&& hud.config.shows_valid(sanitize, config)
    &&& hud.status == (HudStatusSnapshot {
        abyss_detected: state.battle.abyss.active,
        abyss_floor: state.battle.abyss.floor,
        abyss_half: match half {
            Some(AbyssHalf::First) => Some(HudAbyssHalf::First),
            Some(AbyssHalf::Second) => Some(HudAbyssHalf::Second),
            None => None,
        },
        abyss_success: state.battle.abyss.success_at is Some,
    })
    &&& match hud.data_state {
        HudDataState::Live => {
            &&& draws_rows(ops, party, hidden, options, hud.characters@)
            &&& has_readout(summary, hud.characters@.len())
            &&& hud.summary == Some(summary)
            &&& if hud.config.show_mini_timeline {
                exists|series: TimelineSeries| #[trigger]
                    reads_series(series_of, state, half, options, series) && (hud.timeline is None
                        <==> series.buckets@.len() == 0) && (hud.timeline matches Some(
                        drawn,
                    ) ==> draws_series(ops, series, drawn))
            } else {
                hud.timeline is None
            }
        },
        HudDataState::Preview => {
            &&& options.preview_when_empty
            &&& nothing_to_show(ops, party, hidden, options)
            &&& hud.summary == Some(preview_summary(ops))
            &&& hud.characters@.len() == 4
            &&& forall|k: int| 0 <= k < 4 ==> preview_row(ops, k, #[trigger] hud.characters@[k])
            &&& hud.timeline is Some <==> hud.config.show_mini_timeline
            &&& hud.timeline matches Some(drawn) ==> draws_preview(ops, drawn)
        },
        HudDataState::Empty => {
            &&& !options.preview_when_empty
            &&& nothing_to_show(ops, party, hidden, options)
            &&& hud.summary is None
            &&& hud.characters@.len() == 0
            &&& hud.timeline is None
        },
    }
}

/// A party without rows and without totals.
pub open spec fn nothing_to_show<F: Fn(Arith) -> Double>(
    ops: F,
    party: PartyCombatState,
    hidden: Set<u32>,
    options: HudProjectionOptions,
) -> bool {
    draws_rows(ops, party, hidden, options, Seq::empty()) && !has_readout(
        summary_of(party, options),
        0,
    )
}

/// Draws the HUD. `series_of` asks the engine for the series of a half of a
/// session, or of all of it, and `sanitize` makes the configuration valid.
pub fn project_hud<
    F: Fn(Arith) -> Double,
    T: Fn(&CombatState, Option<AbyssHalf>, Double, bool) -> TimelineSeries,
    Z: Fn(&HudConfig) -> HudConfig,
>(
    state: &CombatState,
    config: &HudConfig,
    hidden_character_ids: &HashSet<u32>,
    options: HudProjectionOptions,
    series_of: &T,
    sanitize: &Z,
    ops: &F,
) -> (hud: HudSnapshot)
    requires
        lawful(*ops),
        reads_every_series(*series_of),
        call_requires(*sanitize, (config,)),
        state.battle.team.rows_are_distinct(),
        state.battle.abyss.first_half.rows_are_distinct(),
        state.battle.abyss.second_half.rows_are_distinct(),
    ensures
        draws_hud(
            *ops,
            *series_of,
            *sanitize,
            *state,
            *config,
            hidden_character_ids@,
            options,
            hud,
        ),
{
    let half = shown_half(&state.battle.abyss, options.selected_abyss_half);
    let party: &PartyCombatState = match half {
        Some(half) => state.battle.abyss.half(half),
        None => &state.battle.team,
    };
    let (rows, totals) = project_readout(party, hidden_character_ids, &options, ops);
    let live = totals.total_damage.is_positive() || totals.team_dps.is_positive()
        || totals.total_damage_taken.is_positive() || rows.len() > 0;
    assert(rows@.len() == 0 ==> rows@ =~= Seq::<HudCharacterSnapshot>::empty());
    let (data_state, summary, characters) = if live {
        (HudDataState::Live, Some(totals), rows)
    } else if options.preview_when_empty {
        let (summary, characters) = preview_readout(ops);
        (HudDataState::Preview, Some(summary), characters)
    } else {
        (HudDataState::Empty, None, Vec::new())
    };
    let shown_config = HudConfigSnapshot::from(config, sanitize);
    let timeline = if !shown_config.show_mini_timeline {
        None
    } else {
        match data_state {
            HudDataState::Empty => None,
            HudDataState::Preview => Some(preview_timeline(ops)),
            HudDataState::Live => {
                let series = series_of(
                    state,
                    half,
                    options.timeline_bucket_seconds,
                    options.dps_time_basis.subtracts_time_stop(),
                );
                assert(reads_series(*series_of, *state, half, options, series));
                project_timeline(&series, ops)
            },
        }
    };
    HudSnapshot {
        version: HUD_SNAPSHOT_VERSION,
        data_state,
        config: shown_config,
        summary,
        characters,
        status: HudStatusSnapshot {
            abyss_detected: state.battle.abyss.is_active(),
            abyss_floor: state.battle.abyss.floor,
            abyss_half: match half {
                Some(half) => Some(<HudAbyssHalf as From<AbyssHalf>>::from(half)),
                None => None,
            },
            abyss_success: state.battle.abyss.success_at.is_some(),
        },
        timeline,
    }
}

} // verus!
