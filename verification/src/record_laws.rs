//! What the record of a battle can be relied on to say.
use vstd::prelude::*;

use crate::battle::{
    abyss_half_code, battle_record, capture_source_code, character_source_code, fill_record,
    fills_record, hit_direction_code, stopped_within, timeline_scope_code, BattleRecordContext,
    BattleRecordDto,
};
use crate::double::Double;
use crate::hud_laws::fit;
use crate::model::{
    AbyssHalf, CaptureQualitySource, CombatState, DpsTimeBasis, HitCharacterSource, HitDirection,
};
use crate::text::{decimal, held, shown};
use crate::timeline::{TimelineInterval, TimelineScope};

verus! {

/// A record names its battle, says whether it is over, when it began and ended,
/// how many hits it has had and which of them are still there, and what is
/// known of the challenge.
pub proof fn records_say_what_the_battle_was<S, Q>(
    state: &CombatState,
    context: BattleRecordContext,
    intervals: &Vec<TimelineInterval>,
    summary: Option<S>,
    quality: Q,
    record: BattleRecordDto<S, Q>,
)
    requires
        call_ensures(
            fill_record::<S, Q>,
            (state, context, intervals, summary, quality),
            record,
        ),
    ensures
        record.battle_record_id@ == context.id@,
        held(record.capture_operation_id) == shown(context.capture_operation_id),
        record.generation@ == decimal(context.generation as nat),
        context.finalized ==> record.state@ == "finalized"@,
        !context.finalized ==> record.state@ == "live"@,
        record.finalized_at_unix_ms == context.finalized_at_unix_ms,
        record.started_at_unix == state.battle.started_at,
        record.ended_at_unix == state.battle.ended_at,
        record.axis_complete <==> context.axis_base_sequence == 0,
        context.axis_base_sequence < u64::MAX ==> record.axis_first_sequence@ == decimal(
            (context.axis_base_sequence + 1) as nat,
        ),
        context.axis_base_sequence + state.battle.team.hits@.len() <= u64::MAX
            ==> record.axis_total_hits@ == decimal(
            (context.axis_base_sequence + state.battle.team.hits@.len()) as nat,
        ),
        context.source is Live ==> record.source@ == "live"@,
        context.source is PcapngReplay ==> record.source@ == "pcapng_replay"@,
        context.source is JsonReplay ==> record.source@ == "json_replay"@,
        context.source is Unknown ==> record.source@ == "unknown"@,
        record.abyss.detected <==> state.battle.abyss.active,
        record.abyss.floor == state.battle.abyss.floor,
        record.abyss.active_half is Some <==> state.battle.abyss.active_half is Some,
        state.battle.abyss.active_half == Some(AbyssHalf::First) ==> record.abyss.active_half->0@
            == "upper"@,
        state.battle.abyss.active_half == Some(AbyssHalf::Second) ==> record.abyss.active_half->0@
            == "lower"@,
        record.abyss.first_half_at_unix == state.battle.abyss.first_half_at,
        record.abyss.second_half_at_unix == state.battle.abyss.second_half_at,
        record.abyss.success_at_unix == state.battle.abyss.success_at,
        record.abyss.exited_at_unix == state.battle.abyss.exited_at,
        record.summary == summary,
        record.quality == quality,
        record.time_stop_intervals@.len() == intervals@.len(),
        forall|k: int|
            0 <= k < intervals@.len() ==> {
                let told = #[trigger] record.time_stop_intervals@[k];
                &&& fit(intervals@[k].start_offset) ==> told.start_offset_seconds
                    == intervals@[k].start_offset
                &&& fit(intervals@[k].end_offset) ==> told.end_offset_seconds
                    == intervals@[k].end_offset
            },
{
}

/// The summary of a record is the engine's on the time basis that was asked
/// for, with the reaction damage counted in; its quality is graded by the
/// capture's source. A battle that has not begun or not ended has no stopped
/// time.
pub proof fn records_summarize_as_asked<
    S,
    Q,
    F: Fn(&CombatState, CaptureQualitySource, DpsTimeBasis, bool) -> Option<S>,
    G: Fn(&CombatState, CaptureQualitySource) -> Q,
    I: Fn(&CombatState, Double, Double) -> Vec<TimelineInterval>,
>(
    state: &CombatState,
    context: BattleRecordContext,
    subtract_time_stop: bool,
    summarize: &F,
    grade: &G,
    stops: &I,
    record: BattleRecordDto<S, Q>,
)
    requires
        call_ensures(
            battle_record::<S, Q, F, G, I>,
            (state, context, subtract_time_stop, summarize, grade, stops),
            record,
        ),
    ensures
        subtract_time_stop ==> call_ensures(
            *summarize,
            (state, context.source, DpsTimeBasis::SubtractTimeStop, false),
            record.summary,
        ),
        !subtract_time_stop ==> call_ensures(
            *summarize,
            (state, context.source, DpsTimeBasis::WallClock, false),
            record.summary,
        ),
        call_ensures(*grade, (state, context.source), record.quality),
        state.battle.started_at is None || state.battle.ended_at is None
            ==> record.time_stop_intervals@.len() == 0,
        record.battle_record_id@ == context.id@,
        record.started_at_unix == state.battle.started_at,
        record.ended_at_unix == state.battle.ended_at,
{
    let intervals = choose|intervals: Vec<TimelineInterval>| #[trigger]
        stopped_within(*stops, *state, intervals) && fills_record(
            *state,
            context,
            intervals@,
            record.summary,
            record.quality,
            record,
        );
    assert(fills_record(
        *state,
        context,
        intervals@,
        record.summary,
        record.quality,
        record,
    ));
}

/// What is read between the first and the last hit is what the engine finds
/// stopped there.
pub proof fn records_show_the_stopped_time<
    S,
    Q,
    F: Fn(&CombatState, CaptureQualitySource, DpsTimeBasis, bool) -> Option<S>,
    G: Fn(&CombatState, CaptureQualitySource) -> Q,
    I: Fn(&CombatState, Double, Double) -> Vec<TimelineInterval>,
>(
    state: &CombatState,
    context: BattleRecordContext,
    subtract_time_stop: bool,
    summarize: &F,
    grade: &G,
    stops: &I,
    record: BattleRecordDto<S, Q>,
    found: Vec<TimelineInterval>,
)
    requires
        call_ensures(
            battle_record::<S, Q, F, G, I>,
            (state, context, subtract_time_stop, summarize, grade, stops),
            record,
        ),
        state.battle.started_at is Some,
        state.battle.ended_at is Some,
        forall|other: Vec<TimelineInterval>| #[trigger]
            call_ensures(
                *stops,
                (state, state.battle.started_at->0, state.battle.ended_at->0),
                other,
            ) ==> other == found,
    ensures
        record.time_stop_intervals@.len() == found@.len(),
        forall|k: int|
            0 <= k < found@.len() ==> {
                let told = #[trigger] record.time_stop_intervals@[k];
                &&& fit(found@[k].start_offset) ==> told.start_offset_seconds
                    == found@[k].start_offset
                &&& fit(found@[k].end_offset) ==> told.end_offset_seconds == found@[k].end_offset
            },
{
    let intervals = choose|intervals: Vec<TimelineInterval>| #[trigger]
        stopped_within(*stops, *state, intervals) && fills_record(
            *state,
            context,
            intervals@,
            record.summary,
            record.quality,
            record,
        );
    assert(intervals == found);
}

/// The first half is the upper line, the second the lower one.
pub proof fn halves_are_named_as_lines(
    half: AbyssHalf,
    half_code: &'static str,
    scope: TimelineScope,
    scope_code: &'static str,
)
    requires
        call_ensures(abyss_half_code, (half,), half_code),
        call_ensures(timeline_scope_code, (scope,), scope_code),
    ensures
        half is First ==> half_code@ == "upper"@,
        half is Second ==> half_code@ == "lower"@,
        scope is Whole ==> scope_code@ == "all"@,
        scope is First ==> scope_code@ == "upper"@,
        scope is Second ==> scope_code@ == "lower"@,
        half is First && scope is First ==> half_code@ == scope_code@,
        half is Second && scope is Second ==> half_code@ == scope_code@,
{
}

/// Sources and directions are named after what they are.
pub proof fn sources_are_named_after_what_they_are(
    source: CaptureQualitySource,
    source_code: &'static str,
    owner: HitCharacterSource,
    owner_code: &'static str,
    direction: HitDirection,
    direction_code: &'static str,
)
    requires
        call_ensures(capture_source_code, (source,), source_code),
        call_ensures(character_source_code, (owner,), owner_code),
        call_ensures(hit_direction_code, (direction,), direction_code),
    ensures
        source is Live ==> source_code@ == "live"@,
        source is PcapngReplay ==> source_code@ == "pcapng_replay"@,
        source is JsonReplay ==> source_code@ == "json_replay"@,
        source is Unknown ==> source_code@ == "unknown"@,
        owner is Packet ==> owner_code@ == "packet"@,
        owner is Session ==> owner_code@ == "session"@,
        owner is GameplayEffect ==> owner_code@ == "gameplay_effect"@,
        owner is ExportJson ==> owner_code@ == "export_json"@,
        owner is Unknown ==> owner_code@ == "unknown"@,
        direction is Outgoing ==> direction_code@ == "outgoing"@,
        direction is Incoming ==> direction_code@ == "incoming"@,
        direction is Unknown ==> direction_code@ == "unknown"@,
{
}

} // verus!
