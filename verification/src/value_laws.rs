//! What the readings, texts and names that everything is made of can be relied
//! on for.
use vstd::prelude::*;

use crate::battle::{
    characters_on_timeline, key_of, saturating_sum, take_hit_half, timeline_character_count,
    HitCounts,
};
use crate::double::{answer, Arith, Double};
use crate::hud::{character_has_visible_totals, shown_half};
use crate::lanes::{turn_after_debug, turn_after_reliable, LaneTurn, Polled};
use crate::live_capture::{
    wrapping_sum, LiveCapturePhase, LiveCaptureResources, LiveCaptureService,
};
use crate::model::{
    AbyssHalf, AbyssState, CaptureQualitySource, CharacterInfo, CharacterStats, CharacterTotals,
    CombatState, DpsTimeBasis, EngineEvent, Hit, HitDirection, PolicyReading, TimedReading,
};
use crate::names::AbilityNames;
use crate::reducer::advance_generation;
use crate::rpc::{DomainError, RpcError};
use crate::single::{pairs_are_equal, Pair, Single};
use crate::tally::rank_totals;
use crate::text::{
    decimal, decimal_text, hexadecimal, hexadecimal_text, hexadecimal_value, is_ordered_before,
    is_blank, order_is_total, order_is_transitive, parse_hexadecimal, shown, starts_with,
    strip_prefix, trim, white_space,
};
use crate::timeline::{
    timeline_time_stop_duration, valid_css_hex_color, TimelineIntervalProjection, TimelineScope,
};

verus! {

/// A hit has one direction.
pub proof fn hits_have_one_direction(direction: HitDirection, incoming: bool, outgoing: bool)
    requires
        call_ensures(HitDirection::is_incoming, (direction,), incoming),
        call_ensures(HitDirection::is_outgoing, (direction,), outgoing),
    ensures
        !(incoming && outgoing),
        direction is Incoming ==> incoming,
        direction is Outgoing ==> outgoing,
        direction is Unknown ==> !incoming && !outgoing,
{
}

/// A time basis says whether stopped time is left out, and is made of that; a
/// reading is picked by it, and totals by the policy.
pub proof fn readings_are_picked_as_asked(
    subtract: bool,
    basis: DpsTimeBasis,
    back: bool,
    timed: TimedReading,
    adjusted: Double,
    plain: Double,
    policy: PolicyReading,
    separated: Double,
    combined: Double,
    stats: &CharacterStats,
    apart: CharacterTotals,
    together: CharacterTotals,
)
    requires
        call_ensures(DpsTimeBasis::from_subtract_time_stop, (subtract,), basis),
        call_ensures(DpsTimeBasis::subtracts_time_stop, (basis,), back),
        call_ensures(TimedReading::pick, (timed, true), adjusted),
        call_ensures(TimedReading::pick, (timed, false), plain),
        call_ensures(PolicyReading::pick, (policy, true), separated),
        call_ensures(PolicyReading::pick, (policy, false), combined),
        call_ensures(CharacterStats::for_reaction_damage_policy, (stats, true), apart),
        call_ensures(CharacterStats::for_reaction_damage_policy, (stats, false), together),
    ensures
        back == subtract,
        basis is SubtractTimeStop <==> subtract,
        adjusted == timed.subtract_time_stop,
        plain == timed.wall_clock,
        separated == policy.separated,
        combined == policy.combined,
        apart == stats.separated,
        together == stats.combined,
{
}

/// A row has something to show where it dealt or took hits or damage.
pub proof fn rows_show_what_they_have(row: &CharacterTotals, visible: bool)
    requires
        call_ensures(character_has_visible_totals, (row,), visible),
    ensures
        row.hits > 0 || row.hits_taken > 0 ==> visible,
        0 < row.damage.bits < 0x7ff0_0000_0000_0000 ==> visible,
        0 < row.damage_taken.bits < 0x7ff0_0000_0000_0000 ==> visible,
        row.hits == 0 && row.hits_taken == 0 && row.damage.bits == 0 && row.damage_taken.bits == 0
            ==> !visible,
{
}

/// Outside of a challenge no half is shown; in one the chosen half is, else
/// the one that is played, else the first.
pub proof fn one_half_of_a_challenge_is_shown(
    abyss: &AbyssState,
    selected: Option<AbyssHalf>,
    half: Option<AbyssHalf>,
)
    requires
        call_ensures(shown_half, (abyss, selected), half),
    ensures
        half is Some <==> abyss.active,
        abyss.active && selected is Some ==> half == selected,
        abyss.active && selected is None && abyss.active_half is Some ==> half == abyss.active_half,
        abyss.active && selected is None && abyss.active_half is None ==> half == Some(
            AbyssHalf::First,
        ),
{
}

/// Readings are ordered as numbers: nothing is below itself, of two different
/// numbers one is below the other, and the order carries over; no NaN takes
/// part.
pub proof fn readings_are_ordered(
    a: Double,
    b: Double,
    c: Double,
    ab: bool,
    ba: bool,
    bc: bool,
    ac: bool,
    nan: bool,
    finite: bool,
    positive: bool,
)
    requires
        call_ensures(Double::is_below, (a, b), ab),
        call_ensures(Double::is_below, (b, a), ba),
        call_ensures(Double::is_below, (b, c), bc),
        call_ensures(Double::is_below, (a, c), ac),
        call_ensures(Double::is_nan, (a,), nan),
        call_ensures(Double::is_finite, (a,), finite),
        call_ensures(Double::is_positive, (a,), positive),
    ensures
        !(ab && ba),
        ab && bc ==> ac,
        nan ==> !ab && !ba,
        nan ==> !finite && !positive,
        a.bits < b.bits <= 0x7ff0_0000_0000_0000 ==> ab,
        0x8000_0000_0000_0000 <= b.bits < a.bits <= 0xfff0_0000_0000_0000 ==> ab,
        0x8000_0000_0000_0000 < a.bits <= 0xfff0_0000_0000_0000 && b.bits <= 0x7ff0_0000_0000_0000
            ==> ab,
        a.bits == 0 && b.bits == 0x8000_0000_0000_0000 ==> !ab && !ba,
        finite <==> a.bits < 0x7ff0_0000_0000_0000 || 0x8000_0000_0000_0000 <= a.bits
            < 0xfff0_0000_0000_0000,
        positive <==> 0 < a.bits <= 0x7ff0_0000_0000_0000,
{
}

/// The larger of two numbers is one of them and below neither; the smaller is
/// one of them and neither is below it; a NaN yields to the other side.
pub proof fn extremes_are_one_of_the_two(a: Double, b: Double, larger: Double, smaller: Double)
    requires
        call_ensures(Double::max, (a, b), larger),
        call_ensures(Double::min, (a, b), smaller),
    ensures
        larger == a || larger == b,
        smaller == a || smaller == b,
        !a.nan() && !b.nan() ==> larger.rank() >= a.rank() && larger.rank() >= b.rank(),
        !a.nan() && !b.nan() ==> smaller.rank() <= a.rank() && smaller.rank() <= b.rank(),
        a.nan() ==> larger == b && smaller == b,
        b.nan() ==> larger == a && smaller == a || a.nan(),
{
}

/// Every two patterns are told apart by the total order, which agrees with the
/// numbers.
pub proof fn every_reading_has_a_place(a: Double, b: Double, before: bool, after: bool, below: bool)
    requires
        call_ensures(Double::precedes, (a, b), before),
        call_ensures(Double::precedes, (b, a), after),
        call_ensures(Double::is_below, (a, b), below),
    ensures
        !(before && after),
        a != b ==> before || after,
        below ==> before,
{
}

/// Single-precision numbers are compared as numbers, pairs side by side.
pub proof fn singles_are_compared_as_numbers(
    a: Single,
    b: Single,
    equal: bool,
    at_most: bool,
    back: bool,
    larger: Single,
    left: Pair,
    right: Pair,
    pairs: bool,
    none: bool,
)
    requires
        call_ensures(Single::is_equal_to, (a, b), equal),
        call_ensures(Single::is_at_most, (a, b), at_most),
        call_ensures(Single::is_at_most, (b, a), back),
        call_ensures(Single::max, (a, b), larger),
        call_ensures(pairs_are_equal, (Some(left), Some(right)), pairs),
        call_ensures(pairs_are_equal, (Some(left), None::<Pair>), none),
    ensures
        equal <==> at_most && back,
        a.bits == b.bits && a.bits <= 0x7f80_0000 ==> equal,
        a.bits < b.bits <= 0x7f80_0000 ==> at_most && !back && larger == b,
        larger == a || larger == b,
        pairs ==> left.first.equals(right.first) && left.second.equals(right.second),
        left.first.equals(right.first) && left.second.equals(right.second) ==> pairs,
        !none,
{
}

/// A sum that would not fit stops at the end; a marker that would not starts
/// over.
pub proof fn counters_stay_in_their_range(
    a: u64,
    b: u64,
    saturated: u64,
    wrapped: u64,
    next: u64,
)
    requires
        call_ensures(saturating_sum, (a, b), saturated),
        call_ensures(wrapping_sum, (a, b), wrapped),
        call_ensures(advance_generation, (a,), next),
    ensures
        a + b <= u64::MAX ==> saturated == a + b && wrapped == a + b,
        a + b > u64::MAX ==> saturated == u64::MAX && wrapped + u64::MAX + 1 == a + b,
        a < u64::MAX ==> next == a + 1,
        a == u64::MAX ==> next == 0,
{
}

/// The totals are ranked from the largest down, each once.
pub proof fn totals_are_ranked_from_the_largest(totals: &Vec<Double>, ranking: Vec<usize>)
    requires
        call_ensures(rank_totals, (totals,), ranking),
    ensures
        ranking@.len() == totals@.len(),
        forall|k: int| 0 <= k < ranking@.len() ==> (#[trigger] ranking@[k]) < totals@.len(),
        forall|i: int, j: int|
            0 <= i < j < ranking@.len() ==> #[trigger] ranking@[i] != #[trigger] ranking@[j]
                && totals@[ranking@[i] as int].total_rank()
                >= totals@[ranking@[j] as int].total_rank(),
{
}

/// A hit is taken from the first half that still has one like it, and from no
/// other; where neither has, nothing is taken.
pub proof fn hits_are_taken_from_the_half_that_has_them(
    hit: &Hit,
    first: &mut HitCounts,
    second: &mut HitCounts,
    half: Option<AbyssHalf>,
)
    requires
        call_ensures(take_hit_half, (hit, first, second), half),
    ensures
        old(first).count(key_of(*hit)) > 0 ==> {
            &&& half == Some(AbyssHalf::First)
            &&& final(first).count(key_of(*hit)) == old(first).count(key_of(*hit)) - 1
            &&& final(second).count(key_of(*hit)) == old(second).count(key_of(*hit))
        },
        old(first).count(key_of(*hit)) == 0 && old(second).count(key_of(*hit)) > 0 ==> {
            &&& half == Some(AbyssHalf::Second)
            &&& final(second).count(key_of(*hit)) == old(second).count(key_of(*hit)) - 1
            &&& final(first).count(key_of(*hit)) == 0
        },
        old(first).count(key_of(*hit)) == 0 && old(second).count(key_of(*hit)) == 0
            ==> half is None,
{
}

/// The characters on a timeline are those that dealt a hit with a time; each
/// counts once.
proof fn counted_characters_dealt_a_hit(hits: Seq<Hit>)
    ensures
        characters_on_timeline(hits).finite(),
        characters_on_timeline(hits).len() <= hits.len(),
        forall|id: u32| #[trigger]
            characters_on_timeline(hits).contains(id) <==> exists|at: int|
                0 <= at < hits.len() && (#[trigger] hits[at]).char_id == id && !(hits[at].direction
                    is Incoming) && hits[at].timestamp.finite(),
    decreases hits.len(),
{
    if hits.len() > 0 {
        let fewer = hits.drop_last();
        counted_characters_dealt_a_hit(fewer);
        assert forall|id: u32| #[trigger]
            characters_on_timeline(hits).contains(id) <==> exists|at: int|
                0 <= at < hits.len() && (#[trigger] hits[at]).char_id == id && !(hits[at].direction
                    is Incoming) && hits[at].timestamp.finite() by {
            if characters_on_timeline(hits).contains(id) {
                if characters_on_timeline(fewer).contains(id) {
                    let at = choose|at: int|
                        0 <= at < fewer.len() && (#[trigger] fewer[at]).char_id == id && !(
                        fewer[at].direction is Incoming) && fewer[at].timestamp.finite();
                    assert(hits[at] == fewer[at]);
                } else {
                    assert(hits[hits.len() - 1].char_id == id);
                }
            }
            if exists|at: int|
                0 <= at < hits.len() && (#[trigger] hits[at]).char_id == id && !(hits[at].direction
                    is Incoming) && hits[at].timestamp.finite() {
                let at = choose|at: int|
                    0 <= at < hits.len() && (#[trigger] hits[at]).char_id == id && !(
                    hits[at].direction is Incoming) && hits[at].timestamp.finite();
                if at < fewer.len() {
                    assert(fewer[at] == hits[at]);
                    assert(characters_on_timeline(fewer).contains(id));
                }
            }
        }
    }
}

/// A scope of a battle counts the characters that dealt a hit with a time in
/// it: none where there is none, and no more than hits.
pub proof fn characters_are_counted_once(state: &CombatState, whole: usize, first: usize)
    requires
        call_ensures(timeline_character_count, (state, TimelineScope::Whole), whole),
        call_ensures(timeline_character_count, (state, TimelineScope::First), first),
    ensures
        whole <= state.battle.team.hits@.len(),
        first <= state.battle.abyss.first_half.hits@.len(),
        whole == 0 <==> forall|at: int|
            0 <= at < state.battle.team.hits@.len() ==> (#[trigger] state.battle.team.hits@[at]).direction
                is Incoming || !state.battle.team.hits@[at].timestamp.finite(),
{
    let hits = state.battle.team.hits@;
    counted_characters_dealt_a_hit(hits);
    counted_characters_dealt_a_hit(state.battle.abyss.first_half.hits@);
    let seen = characters_on_timeline(hits);
    if whole == 0 {
        assert(seen =~= Set::empty());
        assert forall|at: int| 0 <= at < hits.len() implies (#[trigger] hits[at]).direction
            is Incoming || !hits[at].timestamp.finite() by {
            if !(hits[at].direction is Incoming) && hits[at].timestamp.finite() {
                assert(seen.contains(hits[at].char_id));
            }
        }
    } else {
        let id = seen.choose();
        assert(seen.contains(id));
    }
}

/// A colour is a hash sign with three or six hexadecimal digits behind it.
pub proof fn colors_are_hexadecimal(value: &str, valid: bool)
    requires
        call_ensures(valid_css_hex_color, (value,), valid),
    ensures
        valid ==> value@.len() == 4 || value@.len() == 7,
        valid ==> value@[0] == '#',
        valid ==> forall|at: int|
            1 <= at < value@.len() ==> ('0' <= #[trigger] value@[at] <= '9') || ('a' <= value@[at]
                <= 'f') || ('A' <= value@[at] <= 'F'),
        (value@.len() == 4 || value@.len() == 7) && value@[0] == '#' && (forall|at: int|
            1 <= at < value@.len() ==> ('0' <= #[trigger] value@[at] <= '9') || ('a' <= value@[at]
                <= 'f') || ('A' <= value@[at] <= 'F')) ==> valid,
{
}

/// Stopped time adds up interval by interval: none for none, and for one more
/// interval its length, unless that is negative.
pub proof fn stopped_time_adds_up<F: Fn(Arith) -> Double>(
    intervals: &Vec<TimelineIntervalProjection>,
    fewer: &Vec<TimelineIntervalProjection>,
    ops: &F,
    total: Double,
    earlier: Double,
)
    requires
        call_ensures(timeline_time_stop_duration::<F>, (intervals, ops), total),
        call_ensures(timeline_time_stop_duration::<F>, (fewer, ops), earlier),
        intervals@.len() > 0,
        fewer@ == intervals@.drop_last(),
    ensures
        fewer@.len() == 0 ==> earlier.bits == 0,
        ({
            let last = intervals@.last();
            let length = answer(*ops, Arith::Difference(last.end, last.start));
            &&& length.bits < 0x7ff0_0000_0000_0000 ==> total == answer(
                *ops,
                Arith::Sum(earlier, length),
            )
            &&& 0x8000_0000_0000_0000 < length.bits < 0xfff0_0000_0000_0000 ==> total == answer(
                *ops,
                Arith::Sum(earlier, Double { bits: 0 }),
            )
        }),
{
    let all = crate::timeline::lengths_of(*ops, intervals@);
    let before = crate::timeline::lengths_of(*ops, fewer@);
    assert(all.drop_last() =~= before);
}

/// A prefix that a text begins with can be taken off, and what is left follows
/// it; any other cannot.
pub proof fn prefixes_come_off(text: &str, prefix: &str, begins: bool, rest: Option<&str>)
    requires
        call_ensures(starts_with, (text, prefix), begins),
        call_ensures(strip_prefix, (text, prefix), rest),
    ensures
        begins <==> rest is Some,
        rest matches Some(left) ==> text@ == prefix@ + left@,
        prefix@.len() > text@.len() ==> !begins,
        begins ==> forall|at: int|
            0 <= at < prefix@.len() ==> #[trigger] text@[at] == prefix@[at],
{
    if begins {
        assert forall|at: int| 0 <= at < prefix@.len() implies #[trigger] text@[at]
            == prefix@[at] by {
            assert(text@.subrange(0, prefix@.len() as int)[at] == text@[at]);
        }
    }
}

/// A trimmed text neither begins nor ends with white space and is part of the
/// text; a blank one is empty.
pub proof fn trimmed_texts_have_no_white_space_around(text: &str, inner: &str, empty: bool)
    requires
        call_ensures(trim, (text,), inner),
        call_ensures(is_blank, (text,), empty),
    ensures
        empty <==> inner@.len() == 0,
        empty <==> forall|at: int| 0 <= at < text@.len() ==> white_space(#[trigger] text@[at]),
        inner@.len() > 0 ==> !white_space(inner@[0]) && !white_space(inner@.last()),
        inner@.len() <= text@.len(),
        text@.len() > 0 && !white_space(text@[0]) && !white_space(text@.last()) ==> inner@ == text@,
{
    let (from, to) = choose|from: int, to: int| #[trigger]
        crate::text::trimmed_between(text@, inner@, from, to);
    if text@.len() > 0 && !white_space(text@[0]) && !white_space(text@.last()) {
        if from > 0 {
            assert(white_space(text@.subrange(0, from)[0]));
        }
        if to < text@.len() {
            let tail = text@.subrange(to, text@.len() as int);
            assert(white_space(tail[tail.len() - 1]));
        }
        assert(inner@ =~= text@);
    }
}

/// Texts are ordered: none before itself, one of two different ones before the
/// other, and the order carries over.
pub proof fn texts_are_ordered(
    a: &str,
    b: &str,
    c: &str,
    ab: bool,
    ba: bool,
    bc: bool,
    ac: bool,
)
    requires
        call_ensures(is_ordered_before, (a, b), ab),
        call_ensures(is_ordered_before, (b, a), ba),
        call_ensures(is_ordered_before, (b, c), bc),
        call_ensures(is_ordered_before, (a, c), ac),
    ensures
        a@ != b@ ==> ab || ba,
        ab && bc ==> ac,
        a@.len() > 0 && b@.len() > 0 && a@[0] < b@[0] ==> ab && !ba,
        a@.len() == 0 && b@.len() > 0 ==> ab,
{
    order_is_total(a@, b@);
    if ab && bc {
        order_is_transitive(a@, b@, c@);
    }
}

/// A number in decimal ends in its last digit, and begins as the number without
/// it.
pub proof fn decimals_are_written_digit_by_digit(n: u64, text: String, fewer: String)
    requires
        call_ensures(decimal_text, (n,), text),
        call_ensures(decimal_text, ((n / 10) as u64,), fewer),
    ensures
        text@.len() > 0,
        text@.last() as int == '0' as int + n % 10,
        n < 10 ==> text@.len() == 1,
        n >= 10 ==> text@.drop_last() == fewer@,
{
    if n >= 10 {
        assert(text@.drop_last() =~= fewer@);
    }
}

/// What hexadecimal digits stand for once they were written.
proof fn hexadecimal_reads_back(n: nat, width: nat)
    ensures
        hexadecimal(n, width).len() == width,
        hexadecimal_value(hexadecimal(n, width)) is Some,
        n < sixteens(width) ==> hexadecimal_value(hexadecimal(n, width)) == Some(n),
        width > 0 ==> hexadecimal(n, width)[0] != '+',
    decreases width,
{
    if width > 0 {
        let shorter = (width - 1) as nat;
        hexadecimal_reads_back(n / 16, shorter);
        let digits = hexadecimal(n, width);
        assert(digits.drop_last() =~= hexadecimal(n / 16, shorter));
        assert(digits.last() == crate::text::digit(n % 16));
        if n < sixteens(width) {
            assert(n / 16 < sixteens(shorter)) by (nonlinear_arith)
                requires
                    n < 16 * sixteens(shorter),
            ;
            assert((n / 16) * 16 + n % 16 == n) by (nonlinear_arith);
        }
    }
}

/// Sixteen as often by itself.
spec fn sixteens(width: nat) -> nat
    decreases width,
{
    if width == 0 {
        1
    } else {
        16 * sixteens((width - 1) as nat)
    }
}

/// A number written in hexadecimal has sixteen digits and reads back as it
/// was; a sign before it changes nothing.
pub proof fn hexadecimal_numbers_read_back(n: u64, text: String, written: &str, read: Option<u64>)
    requires
        call_ensures(hexadecimal_text, (n,), text),
        written@ == text@,
        call_ensures(parse_hexadecimal, (written,), read),
    ensures
        text@.len() == 16,
        read == Some(n),
{
    hexadecimal_reads_back(n as nat, 16);
    assert(sixteens(16) == 0x1_0000_0000_0000_0000) by {
        reveal_with_fuel(sixteens, 17);
    }
}

/// Every failure has the code and the number that clients know it by.
pub proof fn failures_are_known_by_their_code(error: DomainError, code: &'static str)
    requires
        call_ensures(DomainError::code, (error,), code),
    ensures
        error is ProtocolVersionMismatch ==> code@ == "PROTOCOL_VERSION_MISMATCH"@,
        error is HandshakeRequired ==> code@ == "HANDSHAKE_REQUIRED"@,
        error is InventoryNotReady ==> code@ == "INVENTORY_NOT_READY"@,
        error is EquipmentRequestRejected ==> code@ == "EQUIPMENT_REQUEST_REJECTED"@,
        error is ModsPluginBusy ==> code@ == "MODS_PLUGIN_BUSY"@,
        error is ModsPluginUnavailable ==> code@ == "MODS_PLUGIN_UNAVAILABLE"@,
        error is NpcapNotFound ==> code@ == "NPCAP_NOT_FOUND"@,
        error is GameProcessNotFound ==> code@ == "GAME_PROCESS_NOT_FOUND"@,
        error is CaptureDeviceNotFound ==> code@ == "CAPTURE_DEVICE_NOT_FOUND"@,
        error is SystemProbeFailed ==> code@ == "SYSTEM_PROBE_FAILED"@,
        error is CaptureAlreadyRunning ==> code@ == "CAPTURE_ALREADY_RUNNING"@,
        error is CaptureNotRunning ==> code@ == "CAPTURE_NOT_RUNNING"@,
        error is BattleRecordNotFound ==> code@ == "BATTLE_RECORD_NOT_FOUND"@,
        error is BattleAxisCursorExpired ==> code@ == "BATTLE_AXIS_CURSOR_EXPIRED"@,
        error is BattleAxisCursorInvalid ==> code@ == "BATTLE_AXIS_CURSOR_INVALID"@,
        error is BattleTimelineTooLarge ==> code@ == "BATTLE_TIMELINE_TOO_LARGE"@,
{
}

/// A failure that is about a number tells it, at the end of its message; the
/// protocol's own failures have its numbers.
pub proof fn failures_tell_their_number(
    error: DomainError,
    message: String,
    failure: RpcError,
    number: Option<i32>,
)
    requires
        call_ensures(DomainError::message, (error,), message),
        call_ensures(RpcError::protocol_number, (failure,), number),
    ensures
        error matches DomainError::EquipmentRequestRejected { status } ==> message@
            == "Mod loader rejected the request with status "@ + decimal(status as nat),
        error matches DomainError::BattleAxisCursorExpired { first_available } ==> message@
            == "The requested cursor was trimmed; first available cursor is "@ + decimal(
            first_available as nat,
        ),
        error matches DomainError::BattleAxisCursorInvalid { last_available } ==> message@
            == "The requested cursor exceeds the last available hit "@ + decimal(
            last_available as nat,
        ),
        failure is ParseError ==> number == Some(-32700i32),
        failure is InvalidRequest ==> number == Some(-32600i32),
        failure is MethodNotFound ==> number == Some(-32601i32),
        failure is Domain ==> number is None,
{
}

/// What the reliable lane holds is handled, and the debug lane is only looked
/// at where it is empty; a lane that is closed is not waited for.
pub proof fn the_reliable_lane_comes_first(
    event: EngineEvent,
    found: Option<LaneTurn>,
    closed: Option<LaneTurn>,
    empty: Option<LaneTurn>,
    debug: LaneTurn,
    debug_closed: LaneTurn,
    debug_empty: LaneTurn,
)
    requires
        call_ensures(turn_after_reliable, (Polled::Event(event),), found),
        call_ensures(turn_after_reliable, (Polled::Closed,), closed),
        call_ensures(turn_after_reliable, (Polled::Empty,), empty),
        call_ensures(turn_after_debug, (Polled::Event(event),), debug),
        call_ensures(turn_after_debug, (Polled::Closed,), debug_closed),
        call_ensures(turn_after_debug, (Polled::Empty,), debug_empty),
    ensures
        found is Some && found->0 is Handle && found->0->Handle_0 == event,
        closed is Some && closed->0 is WaitDebug,
        empty is None,
        debug is Handle && debug->Handle_0 == event,
        debug_closed is WaitReliable,
        debug_empty is WaitEither,
{
}

/// A phase is active from the start to the end of a capture; readers see the
/// session, its inventory's markers and its source as they are.
pub proof fn services_are_read_as_they_are(
    service: &LiveCaptureService,
    phase: LiveCapturePhase,
    active: bool,
    inventory: (u64, u64),
    snapshot: (&CombatState, CaptureQualitySource),
)
    requires
        call_ensures(LiveCapturePhase::is_active, (phase,), active),
        call_ensures(LiveCaptureService::inventory_revision, (service,), inventory),
        call_ensures(LiveCaptureService::state_and_source_snapshot, (service,), snapshot),
    ensures
        active <==> phase is Starting || phase is Running || phase is Stopping,
        inventory.0 == service.state.inventory.items_generation,
        inventory.1 == service.state.inventory.characters_generation,
        *snapshot.0 == service.state,
        snapshot.1 == service.control.quality_source,
{
}

/// Tables that could not be loaded leave the others, and every failure is
/// reported, the characters' before the names'.
pub proof fn failed_tables_are_reported(
    failed: String,
    names: AbilityNames,
    warning: String,
    result: (LiveCaptureResources, Vec<String>),
    characters: std::collections::HashMap<u32, CharacterInfo>,
    fine: (LiveCaptureResources, Vec<String>),
)
    requires
        call_ensures(
            LiveCaptureResources::load,
            (
                Err::<std::collections::HashMap<u32, CharacterInfo>, String>(failed),
                (names, Some(warning)),
            ),
            result,
        ),
        call_ensures(
            LiveCaptureResources::load,
            (
                Ok::<std::collections::HashMap<u32, CharacterInfo>, String>(characters),
                (names, None::<String>),
            ),
            fine,
        ),
    ensures
        result.1@.len() == 2,
        result.1@[0] == failed,
        result.1@[1] == warning,
        result.0.ability_catalog == names,
        result.0.characters@.dom() =~= Set::<u32>::empty(),
        fine.1@.len() == 0,
        fine.0.characters == characters,
        fine.0.ability_catalog == names,
{
}

} // verus!
