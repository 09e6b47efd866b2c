//! What reading the hit axis page by page amounts to.
use vstd::prelude::*;

use crate::battle::{
    answers_axis, axis_of, axis_page, axis_row, battle_axis, first_sequence, half_of_hit, key_of,
    next_page, occurrences, pages_cover_the_axis, sequence_of, AxisHitKey, BattleAxisDto,
    BattleAxisHitDto, BattleReadError, BattleRecordContext,
};
use crate::double::{answer, sum_of, Arith, Double, INFINITY_BITS};
use crate::model::{CombatState, Hit};
use crate::text::{decimal, decimal_is_injective, held, shown};

verus! {

/// The rows of some pages, put together.
pub open spec fn rows_of(pages: Seq<BattleAxisDto>) -> Seq<BattleAxisHitDto>
    decreases pages.len(),
{
    if pages.len() == 0 {
        Seq::empty()
    } else {
        rows_of(pages.drop_last()) + pages.last().rows@
    }
}

/// Rows that say the same.
pub open spec fn same_row(left: BattleAxisHitDto, right: BattleAxisHitDto) -> bool {
    &&& left.battle_record_id@ == right.battle_record_id@
    &&& left.sequence@ == right.sequence@
    &&& left.timestamp_unix == right.timestamp_unix
    &&& left.relative_time_seconds == right.relative_time_seconds
    &&& shown(left.abyss_half) == shown(right.abyss_half)
    &&& left.character_id == right.character_id
    &&& left.character_name@ == right.character_name@
    &&& left.character_known == right.character_known
    &&& left.character_source@ == right.character_source@
    &&& left.attribution_status@ == right.attribution_status@
    &&& left.attribution_source@ == right.attribution_source@
    &&& shown(left.attribution_unknown_reason) == shown(right.attribution_unknown_reason)
    &&& held(left.team_snapshot_id) == held(right.team_snapshot_id)
    &&& left.direction@ == right.direction@
    &&& left.damage == right.damage
    &&& left.follow_up_damage == right.follow_up_damage
    &&& left.total_damage == right.total_damage
    &&& left.follow_up_timestamp_unix == right.follow_up_timestamp_unix
    &&& held(left.target_id) == held(right.target_id)
    &&& held(left.target_name) == held(right.target_name)
    &&& held(left.target_name_en) == held(right.target_name_en)
    &&& held(left.target_name_ja) == held(right.target_name_ja)
    &&& held(left.target_monster_id) == held(right.target_monster_id)
    &&& left.target_context@ == right.target_context@
    &&& left.target_hp_before == right.target_hp_before
    &&& left.target_hp_after == right.target_hp_after
    &&& left.target_max_hp == right.target_max_hp
    &&& left.target_hp_percent == right.target_hp_percent
    &&& left.gameplay_effect_index == right.gameplay_effect_index
    &&& held(left.gameplay_effect_name) == held(right.gameplay_effect_name)
    &&& held(left.ability_name) == held(right.ability_name)
    &&& held(left.damage_name) == held(right.damage_name)
    &&& held(left.damage_component) == held(right.damage_component)
    &&& held(left.attack_type) == held(right.attack_type)
    &&& held(left.damage_attribute) == held(right.damage_attribute)
    &&& held(left.follow_up_damage_name) == held(right.follow_up_damage_name)
    &&& held(left.follow_up_attack_type) == held(right.follow_up_attack_type)
    &&& held(left.follow_up_damage_attribute) == held(right.follow_up_damage_attribute)
}

/// Pages that were read one after the other: the first without a cursor, each
/// later one at the cursor that the page before it gave. The last page gives
/// none.
pub open spec fn reads_in_turn<F: Fn(Arith) -> Double>(
    ops: F,
    state: CombatState,
    context: BattleRecordContext,
    cursors: Seq<Option<u64>>,
    limits: Seq<usize>,
    pages: Seq<BattleAxisDto>,
) -> bool {
    &&& pages.len() > 0
    &&& cursors.len() == pages.len()
    &&& limits.len() == pages.len()
    &&& cursors[0] is None
    &&& forall|i: int|
        0 <= i < pages.len() ==> limits[i] >= 1 && answers_axis(
            ops,
            state,
            context,
            cursors[i],
            limits[i],
            Ok::<BattleAxisDto, BattleReadError>(#[trigger] pages[i]),
        )
    &&& forall|i: int|
        0 < i < pages.len() ==> #[trigger] cursors[i] is Some && held(pages[i - 1].next_cursor)
            == Some(decimal(cursors[i]->0 as nat))
    &&& pages.last().next_cursor is None
}

/// The row of the retained hit at a place.
pub open spec fn row_at<F: Fn(Arith) -> Double>(
    ops: F,
    state: CombatState,
    context: BattleRecordContext,
    k: int,
    row: BattleAxisHitDto,
) -> bool {
    let hits = state.battle.team.hits@;
    axis_row(
        ops,
        hits[k],
        context.id@,
        sequence_of(context.axis_base_sequence, k),
        match state.battle.started_at {
            Some(at) => at,
            None => Double { bits: 0 },
        },
        half_of_hit(
            hits,
            state.battle.abyss.first_half.hits@,
            state.battle.abyss.second_half.hits@,
            k,
        ),
        row,
    )
}

/// Where the page at a cursor begins to read.
spec fn asked(context: BattleRecordContext, cursor: Option<u64>) -> u64 {
    match cursor {
        Some(cursor) => cursor,
        None => first_sequence(context.axis_base_sequence),
    }
}

proof fn rows_stand_in_place<F: Fn(Arith) -> Double>(
    ops: F,
    state: CombatState,
    context: BattleRecordContext,
    cursor: u64,
    limit: usize,
    page: BattleAxisDto,
)
    requires
        axis_of(ops, state, context, cursor, limit, page),
    ensures
        ({
            let range = axis_page(
                context.axis_base_sequence,
                state.battle.team.hits@.len(),
                cursor,
                limit,
            );
            &&& page.rows@.len() == range.1 - range.0
            &&& forall|k: int|
                0 <= k < page.rows@.len() ==> row_at(
                    ops,
                    state,
                    context,
                    range.0 + k,
                    #[trigger] page.rows@[k],
                )
        }),
{
}

/// After `n` pages the rows are those of the first hits, up to the end of the
/// last page.
proof fn first_pages<F: Fn(Arith) -> Double>(
    ops: F,
    state: CombatState,
    context: BattleRecordContext,
    cursors: Seq<Option<u64>>,
    limits: Seq<usize>,
    pages: Seq<BattleAxisDto>,
    n: int,
)
    requires
        context.axis_base_sequence + state.battle.team.hits@.len() <= u64::MAX,
        reads_in_turn(ops, state, context, cursors, limits, pages),
        1 <= n <= pages.len(),
    ensures
        rows_of(pages.take(n)).len() == axis_page(
            context.axis_base_sequence,
            state.battle.team.hits@.len(),
            asked(context, cursors[n - 1]),
            limits[n - 1],
        ).1,
        forall|k: int|
            0 <= k < rows_of(pages.take(n)).len() ==> row_at(
                ops,
                state,
                context,
                k,
                #[trigger] rows_of(pages.take(n))[k],
            ),
    decreases n,
{
    let base = context.axis_base_sequence;
    let retained = state.battle.team.hits@.len();
    let cursor = asked(context, cursors[n - 1]);
    let page = pages[n - 1];
    let limit = limits[n - 1];
    assert(answers_axis(
        ops,
        state,
        context,
        cursors[n - 1],
        limit,
        Ok::<BattleAxisDto, BattleReadError>(page),
    ));
    assert(axis_of(ops, state, context, cursor, limit, page));
    if base < u64::MAX {
        pages_cover_the_axis(base, retained, cursor, limit);
    }
    rows_stand_in_place(ops, state, context, cursor, limit, page);
    let range = axis_page(base, retained, cursor, limit);
    let earlier = rows_of(pages.take(n - 1));
    assert(pages.take(n).drop_last() =~= pages.take(n - 1));
    assert(pages.take(n).last() == page);
    let rows = rows_of(pages.take(n));
    assert(rows == earlier + page.rows@);
    if n == 1 {
        assert(pages.take(0) =~= Seq::<BattleAxisDto>::empty());
        assert(earlier =~= Seq::<BattleAxisHitDto>::empty());
        assert(range.0 == 0);
    } else {
        first_pages(ops, state, context, cursors, limits, pages, n - 1);
        let before = asked(context, cursors[n - 2]);
        assert(answers_axis(
            ops,
            state,
            context,
            cursors[n - 2],
            limits[n - 2],
            Ok::<BattleAxisDto, BattleReadError>(pages[n - 2]),
        ));
        assert(axis_of(ops, state, context, before, limits[n - 2], pages[n - 2]));
        if base < u64::MAX {
            pages_cover_the_axis(base, retained, before, limits[n - 2]);
        }
        assert(cursors[n - 1] is Some);
        let next = next_page(base, retained, before, limits[n - 2]);
        assert(next is Some);
        decimal_is_injective(next->0 as nat, cursor as nat);
        assert(next == Some(cursor));
        assert(axis_page(base, retained, cursor, limits[n - 2]).0 == range.0);
        assert(earlier.len() == range.0);
    }
    assert forall|k: int| 0 <= k < rows.len() implies row_at(
        ops,
        state,
        context,
        k,
        #[trigger] rows[k],
    ) by {
        if k < earlier.len() {
            assert(rows[k] == earlier[k]);
        } else {
            assert(rows[k] == page.rows@[k - earlier.len()]);
        }
    }
}

/// The rows of all pages are those of all retained hits.
proof fn all_pages<F: Fn(Arith) -> Double>(
    ops: F,
    state: CombatState,
    context: BattleRecordContext,
    cursors: Seq<Option<u64>>,
    limits: Seq<usize>,
    pages: Seq<BattleAxisDto>,
)
    requires
        context.axis_base_sequence + state.battle.team.hits@.len() <= u64::MAX,
        reads_in_turn(ops, state, context, cursors, limits, pages),
    ensures
        rows_of(pages).len() == state.battle.team.hits@.len(),
        forall|k: int|
            0 <= k < rows_of(pages).len() ==> row_at(
                ops,
                state,
                context,
                k,
                #[trigger] rows_of(pages)[k],
            ),
{
    let base = context.axis_base_sequence;
    let retained = state.battle.team.hits@.len();
    let n = pages.len() as int;
    first_pages(ops, state, context, cursors, limits, pages, n);
    assert(pages.take(n) =~= pages);
    let last = asked(context, cursors[n - 1]);
    assert(answers_axis(
        ops,
        state,
        context,
        cursors[n - 1],
        limits[n - 1],
        Ok::<BattleAxisDto, BattleReadError>(pages[n - 1]),
    ));
    assert(axis_of(ops, state, context, last, limits[n - 1], pages[n - 1]));
    if base < u64::MAX {
        pages_cover_the_axis(base, retained, last, limits[n - 1]);
    }
    assert(next_page(base, retained, last, limits[n - 1]) is None);
}

/// Reading the axis page by page, at any page sizes, gives every retained hit
/// once and in order, numbered without a gap, and the rows say what the rows
/// of a single page that is large enough say. The numbers of the hits have to
/// fit their counter.
pub proof fn paging_reads_every_hit_once<F: Fn(Arith) -> Double>(
    ops: F,
    state: CombatState,
    context: BattleRecordContext,
    cursors: Seq<Option<u64>>,
    limits: Seq<usize>,
    pages: Seq<BattleAxisDto>,
    limit: usize,
    whole: BattleAxisDto,
)
    requires
        context.axis_base_sequence + state.battle.team.hits@.len() <= u64::MAX,
        reads_in_turn(ops, state, context, cursors, limits, pages),
        limit >= state.battle.team.hits@.len(),
        answers_axis(ops, state, context, None, limit, Ok::<BattleAxisDto, BattleReadError>(whole)),
    ensures
        rows_of(pages).len() == state.battle.team.hits@.len(),
        forall|k: int|
            0 <= k < rows_of(pages).len() ==> row_at(
                ops,
                state,
                context,
                k,
                #[trigger] rows_of(pages)[k],
            ) && rows_of(pages)[k].sequence@ == decimal(
                (context.axis_base_sequence + k + 1) as nat,
            ),
        whole.rows@.len() == rows_of(pages).len(),
        forall|k: int|
            0 <= k < rows_of(pages).len() ==> same_row(
                #[trigger] rows_of(pages)[k],
                whole.rows@[k],
            ),
{
    let base = context.axis_base_sequence;
    let retained = state.battle.team.hits@.len();
    all_pages(ops, state, context, cursors, limits, pages);
    let first = first_sequence(base);
    assert(axis_of(ops, state, context, first, limit, whole));
    if base < u64::MAX {
        pages_cover_the_axis(base, retained, first, limit);
    }
    rows_stand_in_place(ops, state, context, first, limit, whole);
    assert(axis_page(base, retained, first, limit) == (0int, retained as int));
    assert forall|k: int| 0 <= k < rows_of(pages).len() implies same_row(
        #[trigger] rows_of(pages)[k],
        whole.rows@[k],
    ) by {
        assert(row_at(ops, state, context, k, rows_of(pages)[k]));
        assert(row_at(ops, state, context, 0 + k, whole.rows@[k]));
    }
}

/// The engine totals a hit as its own damage and its follow-up damage together.
pub open spec fn totals_a_hit<F: Fn(Arith) -> Double>(ops: F, hit: Hit) -> bool {
    hit.class.total_damage == answer(ops, Arith::Sum(hit.damage, hit.follow_up_damage))
}

/// Which hit a row of a page is of: the page begins at its cursor, and the rows
/// follow on.
pub open spec fn hit_of_row(context: BattleRecordContext, cursor: Option<u64>, k: int) -> int {
    match cursor {
        Some(cursor) => cursor - 1 - context.axis_base_sequence + k,
        None => k,
    }
}

/// A row says of its hit who dealt it, when, which way it went, how much it
/// did, and to whom.
pub proof fn rows_tell_their_hits<F: Fn(Arith) -> Double>(
    ops: &F,
    state: &CombatState,
    context: BattleRecordContext,
    cursor: Option<u64>,
    limit: usize,
    axis: BattleAxisDto,
    k: int,
)
    requires
        context.axis_base_sequence + state.battle.team.hits@.len() < u64::MAX,
        call_ensures(
            battle_axis::<F>,
            (state, context, cursor, limit, ops),
            Ok::<BattleAxisDto, BattleReadError>(axis),
        ),
        0 <= k < axis.rows@.len(),
    ensures
        ({
            let at = hit_of_row(context, cursor, k);
            let hit = state.battle.team.hits@[at];
            let row = axis.rows@[k];
            &&& 0 <= at < state.battle.team.hits@.len()
            &&& row.battle_record_id@ == context.id@
            &&& row.sequence@ == decimal((context.axis_base_sequence + at + 1) as nat)
            &&& row.timestamp_unix == hit.timestamp
            &&& row.character_id == hit.char_id
            &&& row.character_name@ == hit.char_name@
            &&& row.character_known == hit.char_known
            &&& row.damage == hit.damage
            &&& row.follow_up_damage == hit.follow_up_damage
            &&& row.total_damage == hit.class.total_damage
            &&& row.follow_up_timestamp_unix == hit.follow_up_timestamp
            &&& held(row.target_id) == held(hit.target_id)
            &&& held(row.target_name) == held(hit.target_name)
            &&& held(row.target_name_en) == held(hit.target_name_en)
            &&& held(row.target_name_ja) == held(hit.target_name_ja)
            &&& held(row.target_monster_id) == held(hit.target_monster_id)
            &&& row.target_context@ == hit.target_context@
            &&& row.target_hp_before == hit.target_hp_before
            &&& row.target_hp_after == hit.target_hp_after
            &&& row.target_max_hp == hit.target_max_hp
            &&& row.target_hp_percent == hit.target_hp_percent
            &&& row.gameplay_effect_index == hit.gameplay_effect_index
            &&& held(row.gameplay_effect_name) == held(hit.gameplay_effect_name)
            &&& held(row.ability_name) == held(hit.ability_name)
            &&& held(row.damage_name) == held(hit.damage_name)
            &&& held(row.damage_component) == held(hit.damage_component)
            &&& held(row.attack_type) == held(hit.attack_type)
            &&& held(row.damage_attribute) == held(hit.damage_attribute)
            &&& held(row.follow_up_damage_name) == held(hit.follow_up_damage_name)
            &&& held(row.follow_up_attack_type) == held(hit.follow_up_attack_type)
            &&& held(row.follow_up_damage_attribute) == held(hit.follow_up_damage_attribute)
            &&& row.direction@ == "outgoing"@ <==> hit.direction is Outgoing
            &&& row.direction@ == "incoming"@ <==> hit.direction is Incoming
            &&& row.direction@ == "unknown"@ <==> hit.direction is Unknown
            &&& row.attribution_status@ == "attributed"@ <==> hit.char_known
            &&& row.attribution_status@ == "unknown"@ <==> !hit.char_known
            &&& row.attribution_unknown_reason is Some <==> !hit.char_known
            &&& row.character_source@ == row.attribution_source@
            &&& row.character_source@ == "packet"@ <==> hit.char_source is Packet
            &&& row.character_source@ == "session"@ <==> hit.char_source is Session
            &&& row.character_source@ == "gameplay_effect"@ <==> hit.char_source is GameplayEffect
            &&& row.character_source@ == "export_json"@ <==> hit.char_source is ExportJson
            &&& row.character_source@ == "unknown"@ <==> hit.char_source is Unknown
        }),
{
    reveal_strlit("outgoing");
    reveal_strlit("incoming");
    reveal_strlit("unknown");
    reveal_strlit("attributed");
    reveal_strlit("packet");
    reveal_strlit("session");
    reveal_strlit("gameplay_effect");
    reveal_strlit("export_json");
    let base = context.axis_base_sequence;
    let retained = state.battle.team.hits@.len();
    let asked_for = asked(context, cursor);
    assert(axis_of(*ops, *state, context, asked_for, limit, axis));
    pages_cover_the_axis(base, retained, asked_for, limit);
    rows_stand_in_place(*ops, *state, context, asked_for, limit, axis);
    let range = axis_page(base, retained, asked_for, limit);
    assert(row_at(*ops, *state, context, range.0 + k, axis.rows@[k]));
    assert("outgoing"@[0] == 'o' && "incoming"@[0] == 'i' && "unknown"@[0] == 'u');
    assert("attributed"@[0] == 'a');
    assert("packet"@[0] == 'p' && "session"@[0] == 's' && "gameplay_effect"@[0] == 'g');
    assert("export_json"@[0] == 'e');
}

/// Every row's total is its damage and its follow-up damage together, as the
/// engine totals a hit.
pub proof fn rows_total_their_damage<F: Fn(Arith) -> Double>(
    ops: &F,
    state: &CombatState,
    context: BattleRecordContext,
    cursor: Option<u64>,
    limit: usize,
    axis: BattleAxisDto,
)
    requires
        context.axis_base_sequence + state.battle.team.hits@.len() < u64::MAX,
        forall|i: int|
            0 <= i < state.battle.team.hits@.len() ==> totals_a_hit(
                *ops,
                #[trigger] state.battle.team.hits@[i],
            ),
        call_ensures(
            battle_axis::<F>,
            (state, context, cursor, limit, ops),
            Ok::<BattleAxisDto, BattleReadError>(axis),
        ),
    ensures
        forall|k: int|
            0 <= k < axis.rows@.len() ==> (#[trigger] axis.rows@[k]).total_damage == answer(
                *ops,
                Arith::Sum(axis.rows@[k].damage, axis.rows@[k].follow_up_damage),
            ),
{
    assert forall|k: int| 0 <= k < axis.rows@.len() implies (#[trigger] axis.rows@[k]).total_damage
        == answer(*ops, Arith::Sum(axis.rows@[k].damage, axis.rows@[k].follow_up_damage)) by {
        rows_tell_their_hits(ops, state, context, cursor, limit, axis, k);
        assert(totals_a_hit(*ops, state.battle.team.hits@[hit_of_row(context, cursor, k)]));
    }
}

/// A row's time counts from the first hit of the battle, or from zero where
/// there is none.
pub proof fn rows_count_time_from_the_start<F: Fn(Arith) -> Double>(
    ops: &F,
    state: &CombatState,
    context: BattleRecordContext,
    cursor: Option<u64>,
    limit: usize,
    axis: BattleAxisDto,
    k: int,
)
    requires
        call_ensures(
            battle_axis::<F>,
            (state, context, cursor, limit, ops),
            Ok::<BattleAxisDto, BattleReadError>(axis),
        ),
        0 <= k < axis.rows@.len(),
    ensures
        ({
            let row = axis.rows@[k];
            let start = match state.battle.started_at {
                Some(start) => start,
                None => Double { bits: 0 },
            };
            let passed = answer(*ops, Arith::Difference(row.timestamp_unix, start));
            &&& 0 < passed.bits < INFINITY_BITS ==> row.relative_time_seconds == passed
            &&& row.relative_time_seconds.finite()
            &&& !row.relative_time_seconds.below(Double { bits: 0 })
        }),
{
    let asked_for = asked(context, cursor);
    assert(axis_of(*ops, *state, context, asked_for, limit, axis));
    rows_stand_in_place(*ops, *state, context, asked_for, limit, axis);
}

/// What the outgoing hits deal, in order.
pub open spec fn outgoing_totals(hits: Seq<Hit>) -> Seq<Double>
    decreases hits.len(),
{
    if hits.len() == 0 {
        Seq::empty()
    } else if hits.last().direction is Outgoing {
        outgoing_totals(hits.drop_last()).push(hits.last().class.total_damage)
    } else {
        outgoing_totals(hits.drop_last())
    }
}

/// The totals of the rows of outgoing hits, in order.
pub open spec fn outgoing_row_totals(rows: Seq<BattleAxisHitDto>) -> Seq<Double>
    decreases rows.len(),
{
    if rows.len() == 0 {
        Seq::empty()
    } else if rows.last().direction@ == "outgoing"@ {
        outgoing_row_totals(rows.drop_last()).push(rows.last().total_damage)
    } else {
        outgoing_row_totals(rows.drop_last())
    }
}

proof fn row_totals_are_hit_totals<F: Fn(Arith) -> Double>(
    ops: F,
    state: CombatState,
    context: BattleRecordContext,
    rows: Seq<BattleAxisHitDto>,
    n: int,
)
    requires
        0 <= n <= rows.len(),
        rows.len() <= state.battle.team.hits@.len(),
        forall|k: int|
            0 <= k < rows.len() ==> row_at(ops, state, context, k, #[trigger] rows[k]),
    ensures
        outgoing_row_totals(rows.take(n)) == outgoing_totals(state.battle.team.hits@.take(n)),
    decreases n,
{
    let hits = state.battle.team.hits@;
    if n == 0 {
        assert(rows.take(0) =~= Seq::<BattleAxisHitDto>::empty());
        assert(hits.take(0) =~= Seq::<Hit>::empty());
    } else {
        row_totals_are_hit_totals(ops, state, context, rows, n - 1);
        assert(rows.take(n).drop_last() =~= rows.take(n - 1));
        assert(hits.take(n).drop_last() =~= hits.take(n - 1));
        assert(row_at(ops, state, context, n - 1, rows[n - 1]));
        reveal_strlit("outgoing");
        reveal_strlit("incoming");
        reveal_strlit("unknown");
        assert("outgoing"@[0] == 'o' && "incoming"@[0] == 'i' && "unknown"@[0] == 'u');
    }
}

/// Over all pages, the totals of the outgoing rows add up to the total output
/// of the battle, where that is what the engine sums up.
pub proof fn paged_totals_add_up_to_the_output<F: Fn(Arith) -> Double>(
    ops: F,
    state: CombatState,
    context: BattleRecordContext,
    cursors: Seq<Option<u64>>,
    limits: Seq<usize>,
    pages: Seq<BattleAxisDto>,
)
    requires
        context.axis_base_sequence + state.battle.team.hits@.len() <= u64::MAX,
        reads_in_turn(ops, state, context, cursors, limits, pages),
        state.battle.team.total_damage == sum_of(ops, outgoing_totals(state.battle.team.hits@)),
    ensures
        sum_of(ops, outgoing_row_totals(rows_of(pages))) == state.battle.team.total_damage,
{
    let hits = state.battle.team.hits@;
    let rows = rows_of(pages);
    all_pages(ops, state, context, cursors, limits, pages);
    row_totals_are_hit_totals(ops, state, context, rows, rows.len() as int);
    assert(rows.take(rows.len() as int) =~= rows);
    assert(hits.take(rows.len() as int) =~= hits);
}

/// Whether a row can be of a hit.
pub open spec fn is_row_of(hit: Hit, row: BattleAxisHitDto) -> bool {
    &&& hit.timestamp == row.timestamp_unix
    &&& hit.char_id == row.character_id
    &&& hit.damage == row.damage
    &&& hit.target_hp_after == row.target_hp_after
}

proof fn occurring_keys_occur(hits: Seq<Hit>, key: AxisHitKey)
    ensures
        occurrences(hits, key) > 0 ==> exists|i: int|
            0 <= i < hits.len() && key_of(#[trigger] hits[i]) == key,
    decreases hits.len(),
{
    if hits.len() > 0 {
        let shorter = hits.drop_last();
        occurring_keys_occur(shorter, key);
        if key_of(hits.last()) == key {
            assert(key_of(hits[hits.len() - 1]) == key);
        } else if occurrences(shorter, key) > 0 {
            let i = choose|i: int| 0 <= i < shorter.len() && key_of(#[trigger] shorter[i]) == key;
            assert(key_of(hits[i]) == key);
        }
    }
}

proof fn occurrences_add_up(left: Seq<Hit>, right: Seq<Hit>, key: AxisHitKey)
    ensures
        occurrences(left + right, key) == occurrences(left, key) + occurrences(right, key),
    decreases right.len(),
{
    if right.len() == 0 {
        assert(left + right =~= left);
    } else {
        occurrences_add_up(left, right.drop_last(), key);
        assert((left + right).drop_last() =~= left + right.drop_last());
    }
}

/// A hit counts among those up to it and not among the earlier ones.
proof fn earlier_occurrences_are_fewer(hits: Seq<Hit>, at: int)
    requires
        0 <= at < hits.len(),
    ensures
        occurrences(hits.take(at), key_of(hits[at])) < occurrences(hits, key_of(hits[at])),
{
    let key = key_of(hits[at]);
    assert(hits =~= hits.take(at) + hits.skip(at));
    occurrences_add_up(hits.take(at), hits.skip(at), key);
    assert(hits.skip(at) =~= seq![hits[at]] + hits.skip(at + 1));
    occurrences_add_up(seq![hits[at]], hits.skip(at + 1), key);
    assert(occurrences(seq![hits[at]].drop_last(), key) == 0);
    assert(occurrences(seq![hits[at]], key) == 1);
}

/// A row of the upper half stands for a hit that the first half recorded too,
/// one of the lower half for a hit of the second. Where no half recorded
/// anything, no row names one.
pub proof fn rows_name_a_half_that_has_the_hit<F: Fn(Arith) -> Double>(
    ops: &F,
    state: &CombatState,
    context: BattleRecordContext,
    cursor: Option<u64>,
    limit: usize,
    axis: BattleAxisDto,
    k: int,
)
    requires
        call_ensures(
            battle_axis::<F>,
            (state, context, cursor, limit, ops),
            Ok::<BattleAxisDto, BattleReadError>(axis),
        ),
        0 <= k < axis.rows@.len(),
    ensures
        ({
            let row = axis.rows@[k];
            let first = state.battle.abyss.first_half.hits@;
            let second = state.battle.abyss.second_half.hits@;
            &&& shown(row.abyss_half) == Some("upper"@) ==> exists|i: int|
                0 <= i < first.len() && is_row_of(#[trigger] first[i], row)
            &&& shown(row.abyss_half) == Some("lower"@) ==> exists|i: int|
                0 <= i < second.len() && is_row_of(#[trigger] second[i], row)
            &&& row.abyss_half is Some ==> shown(row.abyss_half) == Some("upper"@) || shown(
                row.abyss_half,
            ) == Some("lower"@)
            &&& first.len() == 0 && second.len() == 0 ==> row.abyss_half is None
        }),
{
    let base = context.axis_base_sequence;
    let hits = state.battle.team.hits@;
    let first = state.battle.abyss.first_half.hits@;
    let second = state.battle.abyss.second_half.hits@;
    let asked_for = asked(context, cursor);
    assert(axis_of(*ops, *state, context, asked_for, limit, axis));
    rows_stand_in_place(*ops, *state, context, asked_for, limit, axis);
    let range = axis_page(base, hits.len(), asked_for, limit);
    let row = axis.rows@[k];
    let at = range.0 + k;
    assert(row_at(*ops, *state, context, at, row));
    let key = key_of(hits[at]);
    occurring_keys_occur(first, key);
    occurring_keys_occur(second, key);
    reveal_strlit("upper");
    reveal_strlit("lower");
    assert("upper"@[0] == 'u' && "lower"@[0] == 'l');
    if occurrences(first, key) > 0 {
        let i = choose|i: int| 0 <= i < first.len() && key_of(#[trigger] first[i]) == key;
        assert(is_row_of(first[i], row));
    }
    if occurrences(second, key) > 0 {
        let i = choose|i: int| 0 <= i < second.len() && key_of(#[trigger] second[i]) == key;
        assert(is_row_of(second[i], row));
    }
}

/// Where the hits of the first half and then those of the second are the hits
/// of the session, the rows up to the end of the first half say upper, and all
/// later ones lower.
pub proof fn rows_change_halves_with_the_hits<F: Fn(Arith) -> Double>(
    ops: &F,
    state: &CombatState,
    context: BattleRecordContext,
    cursor: Option<u64>,
    limit: usize,
    axis: BattleAxisDto,
    k: int,
)
    requires
        context.axis_base_sequence + state.battle.team.hits@.len() < u64::MAX,
        state.battle.team.hits@ == state.battle.abyss.first_half.hits@
            + state.battle.abyss.second_half.hits@,
        call_ensures(
            battle_axis::<F>,
            (state, context, cursor, limit, ops),
            Ok::<BattleAxisDto, BattleReadError>(axis),
        ),
        0 <= k < axis.rows@.len(),
    ensures
        shown(axis.rows@[k].abyss_half) == Some(
            if hit_of_row(context, cursor, k) < state.battle.abyss.first_half.hits@.len() {
                "upper"@
            } else {
                "lower"@
            },
        ),
{
    let base = context.axis_base_sequence;
    let hits = state.battle.team.hits@;
    let first = state.battle.abyss.first_half.hits@;
    let second = state.battle.abyss.second_half.hits@;
    let asked_for = asked(context, cursor);
    assert(axis_of(*ops, *state, context, asked_for, limit, axis));
    pages_cover_the_axis(base, hits.len(), asked_for, limit);
    rows_stand_in_place(*ops, *state, context, asked_for, limit, axis);
    let range = axis_page(base, hits.len(), asked_for, limit);
    let at = range.0 + k;
    assert(at == hit_of_row(context, cursor, k));
    assert(row_at(*ops, *state, context, at, axis.rows@[k]));
    let key = key_of(hits[at]);
    if at < first.len() {
        assert(hits.take(at) =~= first.take(at));
        earlier_occurrences_are_fewer(first, at);
    } else {
        let there = at - first.len();
        assert(hits.take(at) =~= first + second.take(there));
        occurrences_add_up(first, second.take(there), key);
        earlier_occurrences_are_fewer(second, there);
    }
}

/// A page has as many rows as it was asked for, at least one, unless the axis
/// ends before; it says where the next one begins exactly where one is left to
/// read, and how many hits there are.
pub proof fn pages_are_as_long_as_asked<F: Fn(Arith) -> Double>(
    ops: &F,
    state: &CombatState,
    context: BattleRecordContext,
    cursor: Option<u64>,
    limit: usize,
    axis: BattleAxisDto,
)
    requires
        context.axis_base_sequence + state.battle.team.hits@.len() < u64::MAX,
        call_ensures(
            battle_axis::<F>,
            (state, context, cursor, limit, ops),
            Ok::<BattleAxisDto, BattleReadError>(axis),
        ),
    ensures
        ({
            let base = context.axis_base_sequence;
            let retained = state.battle.team.hits@.len();
            let begin = hit_of_row(context, cursor, 0);
            let wanted = if limit == 0 {
                1
            } else {
                limit as int
            };
            let left = retained - begin;
            &&& 0 <= begin <= retained
            &&& axis.rows@.len() == (if wanted < left {
                wanted
            } else {
                left
            })
            &&& axis.next_cursor is Some <==> wanted < left
            &&& axis.next_cursor is Some ==> axis.next_cursor->0@ == decimal(
                (base + begin + wanted + 1) as nat,
            )
            &&& axis.total_hits@ == decimal((base + retained) as nat)
            &&& axis.retained_hits == retained
            &&& axis.first_available_cursor@ == decimal((base + 1) as nat)
            &&& axis.cursor@ == decimal((base + begin + 1) as nat)
            &&& axis.complete <==> base == 0
            &&& axis.finalized <==> context.finalized
            &&& axis.battle_record_id@ == context.id@
            &&& axis.generation@ == decimal(context.generation as nat)
        }),
{
    let base = context.axis_base_sequence;
    let retained = state.battle.team.hits@.len();
    let asked_for = asked(context, cursor);
    assert(axis_of(*ops, *state, context, asked_for, limit, axis));
    pages_cover_the_axis(base, retained, asked_for, limit);
}

/// A cursor that points before the first retained hit has expired, one past
/// the place after the last hit is invalid; every other one is served.
pub proof fn cursors_are_served_within_the_axis<F: Fn(Arith) -> Double>(
    ops: &F,
    state: &CombatState,
    context: BattleRecordContext,
    cursor: Option<u64>,
    limit: usize,
    result: Result<BattleAxisDto, BattleReadError>,
)
    requires
        context.axis_base_sequence + state.battle.team.hits@.len() < u64::MAX,
        call_ensures(battle_axis::<F>, (state, context, cursor, limit, ops), result),
    ensures
        ({
            let base = context.axis_base_sequence;
            let total = base + state.battle.team.hits@.len();
            &&& result is Ok <==> (cursor is None || base < cursor->0 <= total + 1)
            &&& result is Err && cursor->0 <= base ==> result->Err_0 is AxisCursorExpired
                && result->Err_0->first_available == base + 1
            &&& result is Err && cursor->0 > base ==> result->Err_0 is AxisCursorInvalid
                && result->Err_0->last_available == total
        }),
{
}

} // verus!
