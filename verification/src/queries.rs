//! Battle reads, and the requests that are answered only once the queued
//! events are processed.
use std::collections::HashMap;

use vstd::prelude::*;

use crate::battle::{
    answers_axis, answers_timeline, battle_axis, battle_options, battle_record, battle_timeline,
    reads_records, records_battle, takes_whole_parts, BattleAxisDto, BattleReadError,
    BattleRecordContext, BattleTimelineDto,
};
use crate::double::{lawful, Arith, Double};
use crate::history::{CaptureQualitySummary, CombatSessionSummary};
use crate::model::{
    BattleState, CaptureQualitySource, CharacterInfo, CombatState, DpsTimeBasis, Inventory,
};
use crate::reducer::{accepts_all, BattleUpdate, EngineStep};
use crate::requests::{
    concludes, drained, failure_reply, send_failure, send_reply, stop_result,
};
use crate::rpc::{
    asked_scope, battle_read_error, read_failure, timeline_scope, BattleAxisParams,
    BattleRecordParams, BattleTimelineParams, RpcError,
};
use crate::runtime::{operation_name, record_name, BattleRecordRuntime, RuntimeControl};
use crate::session::{
    enriches_all, is_summary, replies, summarizes_all, Effect, Message, RecordReply, Reply,
    Runtime, StampedEvent,
};
use crate::single::Single;
use crate::text::{as_text, held, shown};
use crate::timeline::{
    reads_timelines, sizes_buckets, BucketWidth, TimelineInterval, TimelineReadings,
    TimelineScope,
};

verus! {

/// Whether a context is that of a record.
pub open spec fn describes(record: BattleRecordRuntime, context: BattleRecordContext) -> bool {
    &&& context.id@ == record_name(record.number)
    &&& shown(context.capture_operation_id) == (match record.capture_operation {
        Some(operation) => Some(operation_name(operation)),
        None => None,
    })
    &&& context.generation == record.generation
    &&& context.finalized == record.finalized
    &&& context.finalized_at_unix_ms == record.finalized_at_unix_ms
    &&& context.axis_base_sequence == record.axis_base_sequence
    &&& context.source == record.source
}

/// What reading the record leads to.
pub open spec fn reads_record<
    C,
    S: Fn(&CombatState, CaptureQualitySource, DpsTimeBasis, bool) -> Option<CombatSessionSummary>,
    G: Fn(&CombatState, CaptureQualitySource) -> CaptureQualitySummary,
    I: Fn(&CombatState, Double, Double) -> Vec<TimelineInterval>,
>(
    summarize: S,
    grade: G,
    stops: I,
    session: Runtime<C>,
    params: BattleRecordParams,
    result: Result<Option<RecordReply>, BattleReadError>,
) -> bool {
    match session.control.record_for(held(params.battle_record_id)) {
        Err(error) => result == Err::<Option<RecordReply>, _>(error),
        Ok(None) => result == Ok::<Option<RecordReply>, BattleReadError>(None),
        Ok(Some(record)) => {
            &&& result matches Ok(Some(dto))
            &&& exists|context: BattleRecordContext| #[trigger]
                describes(record, context) && records_battle(
                    summarize,
                    grade,
                    stops,
                    session.state,
                    context,
                    params.subtract_time_stop,
                    dto,
                )
        },
    }
}

/// What reading a page of the axis leads to.
pub open spec fn reads_axis<C, F: Fn(Arith) -> Double>(
    ops: F,
    session: Runtime<C>,
    params: BattleAxisParams,
    result: Result<Option<BattleAxisDto>, BattleReadError>,
) -> bool {
    match session.control.record_for(held(params.battle_record_id)) {
        Err(error) => result == Err::<Option<BattleAxisDto>, _>(error),
        Ok(None) => result == Ok::<Option<BattleAxisDto>, BattleReadError>(None),
        Ok(Some(record)) => exists|context: BattleRecordContext| #[trigger]
            describes(record, context) && answers_axis(
                ops,
                session.state,
                context,
                params.cursor,
                params.limit,
                match result {
                    Ok(Some(axis)) => Ok(axis),
                    Ok(None) => arbitrary(),
                    Err(error) => Err(error),
                },
            ) && result != Ok::<Option<BattleAxisDto>, BattleReadError>(None),
    }
}

/// What reading the timeline leads to.
pub open spec fn reads_timeline<
    C,
    F: Fn(Arith) -> Double,
    W: Fn(Double) -> usize,
    R: Fn(&CombatState, TimelineScope, Double, bool) -> TimelineReadings,
    B: Fn(Single) -> BucketWidth,
>(
    ops: F,
    whole: W,
    read: R,
    width: B,
    characters: Map<u32, CharacterInfo>,
    session: Runtime<C>,
    params: BattleTimelineParams,
    result: Result<Option<BattleTimelineDto>, BattleReadError>,
) -> bool {
    match session.control.record_for(held(params.battle_record_id)) {
        Err(error) => result == Err::<Option<BattleTimelineDto>, _>(error),
        Ok(None) => result == Ok::<Option<BattleTimelineDto>, BattleReadError>(None),
        Ok(Some(record)) => exists|context: BattleRecordContext| #[trigger]
            describes(record, context) && answers_timeline(
                ops,
                whole,
                read,
                width,
                session.state,
                characters,
                context,
                battle_options(
                    asked_scope(params.scope),
                    params.bucket_seconds,
                    params.subtract_time_stop,
                ),
                match result {
                    Ok(Some(timeline)) => Ok(timeline),
                    Ok(None) => arbitrary(),
                    Err(error) => Err(error),
                },
            ) && result != Ok::<Option<BattleTimelineDto>, BattleReadError>(None),
    }
}

fn operation_text(record: &BattleRecordRuntime) -> (result: Option<String>)
    ensures
        held(result) == (match record.capture_operation {
            Some(operation) => Some(operation_name(operation)),
            None => None,
        }),
{
    match record.capture_operation {
        Some(operation) => Some(operation.text()),
        None => None,
    }
}

fn record_context<'a>(
    record: &BattleRecordRuntime,
    id: &'a String,
    operation: &'a Option<String>,
) -> (context: BattleRecordContext<'a>)
    requires
        id@ == record_name(record.number),
        held(*operation) == (match record.capture_operation {
            Some(operation) => Some(operation_name(operation)),
            None => None,
        }),
    ensures
        describes(*record, context),
{
    BattleRecordContext {
        id: id.as_str(),
        capture_operation_id: as_text(operation),
        generation: record.generation,
        finalized: record.finalized,
        finalized_at_unix_ms: record.finalized_at_unix_ms,
        axis_base_sequence: record.axis_base_sequence,
        source: record.source,
    }
}

impl<C: Clone> Runtime<C> {
    /// Reads the record of the battle.
    pub fn battle_record<
        S: Fn(&CombatState, CaptureQualitySource, DpsTimeBasis, bool) -> Option<
            CombatSessionSummary,
        >,
        G: Fn(&CombatState, CaptureQualitySource) -> CaptureQualitySummary,
        I: Fn(&CombatState, Double, Double) -> Vec<TimelineInterval>,
    >(&self, params: &BattleRecordParams, summarize: &S, grade: &G, stops: &I) -> (result: Result<
        Option<RecordReply>,
        BattleReadError,
    >)
        requires
            summarizes_all(*summarize),
            reads_records(*grade, *stops),
        ensures
            reads_record(*summarize, *grade, *stops, *self, *params, result),
    {
        match self.control.battle_record_context(as_text(&params.battle_record_id)) {
            Err(error) => Err(error),
            Ok(None) => Ok(None),
            Ok(Some(record)) => {
                let id = record.id();
                let operation = operation_text(&record);
                let context = record_context(&record, &id, &operation);
                let ghost described = context;
                let dto = battle_record(
                    &self.state,
                    context,
                    params.subtract_time_stop,
                    summarize,
                    grade,
                    stops,
                );
                assert(describes(record, described));
                Ok(Some(dto))
            },
        }
    }

    /// Reads a page of the hit axis.
    pub fn battle_axis<F: Fn(Arith) -> Double>(&self, params: &BattleAxisParams, ops: &F) -> (result:
        Result<Option<BattleAxisDto>, BattleReadError>)
        requires
            lawful(*ops),
        ensures
            reads_axis(*ops, *self, *params, result),
    {
        match self.control.battle_record_context(as_text(&params.battle_record_id)) {
            Err(error) => Err(error),
            Ok(None) => Ok(None),
            Ok(Some(record)) => {
                let id = record.id();
                let operation = operation_text(&record);
                let context = record_context(&record, &id, &operation);
                let ghost described = context;
                match battle_axis(&self.state, context, params.cursor, params.limit, ops) {
                    Ok(axis) => {
                        assert(describes(record, described));
                        Ok(Some(axis))
                    },
                    Err(error) => Err(error),
                }
            },
        }
    }

    /// Reads the timeline.
    pub fn battle_timeline<
        F: Fn(Arith) -> Double,
        W: Fn(Double) -> usize,
        R: Fn(&CombatState, TimelineScope, Double, bool) -> TimelineReadings,
        B: Fn(Single) -> BucketWidth,
    >(
        &self,
        params: &BattleTimelineParams,
        characters: &HashMap<u32, CharacterInfo>,
        read: &R,
        width: &B,
        ops: &F,
        whole: &W,
    ) -> (result: Result<Option<BattleTimelineDto>, BattleReadError>)
        requires
            lawful(*ops),
            takes_whole_parts(*whole),
            reads_timelines(*read),
            sizes_buckets(*width),
        ensures
            reads_timeline(*ops, *whole, *read, *width, characters@, *self, *params, result),
    {
        match self.control.battle_record_context(as_text(&params.battle_record_id)) {
            Err(error) => Err(error),
            Ok(None) => Ok(None),
            Ok(Some(record)) => {
                let id = record.id();
                let operation = operation_text(&record);
                let context = record_context(&record, &id, &operation);
                let ghost described = context;
                let answer = battle_timeline(
                    &self.state,
                    characters,
                    context,
                    timeline_scope(params.scope),
                    params.bucket_seconds,
                    params.subtract_time_stop,
                    read,
                    width,
                    ops,
                    whole,
                );
                assert(describes(record, described));
                match answer {
                    Ok(timeline) => Ok(Some(timeline)),
                    Err(error) => Err(error),
                }
            },
        }
    }

    /// Forgets the battle. The inventory stays.
    pub fn reset_battle(&mut self) -> (effects: Vec<Effect<C>>)
        ensures
            final(self).state.battle.blank(),
            final(self).state.inventory == old(self).state.inventory,
            final(self).control == (RuntimeControl {
                record: None,
                battle_summary_dirty: false,
                ..old(self).control
            }),
            final(self).latest_inventory == old(self).latest_inventory,
            final(self).pending_equipment_requests == old(self).pending_equipment_requests,
            effects@ == seq![Effect::<C>::ClearSummary],
    {
        self.state.clear_battle_preserving_inventory();
        self.control.record = None;
        self.control.battle_summary_dirty = false;
        let mut effects: Vec<Effect<C>> = Vec::new();
        effects.push(Effect::ClearSummary);
        assert(effects@ =~= seq![Effect::<C>::ClearSummary]);
        effects
    }
}

/// The answer to a read that can fail.
pub open spec fn read_answer<C, T>(
    id: String,
    result: Result<T, BattleReadError>,
    reply: Reply<C>,
) -> Seq<Effect<C>> {
    match result {
        Ok(_) => replies(Message::Success { id, result: reply }),
        Err(error) => failure_reply(id, RpcError::Domain(read_failure(error))),
    }
}

impl<C: Clone> Runtime<C> {
    /// Answers a request for the summary, once the queued events are
    /// processed.
    pub fn answer_summary<
        E: Fn(BattleState, &BattleUpdate) -> EngineStep,
        I: Fn(&Inventory) -> C,
        S: Fn(&CombatState, CaptureQualitySource, DpsTimeBasis, bool) -> Option<
            CombatSessionSummary,
        >,
    >(
        &mut self,
        id: String,
        subtract_time_stop: bool,
        events: Vec<StampedEvent>,
        engine: &E,
        enrich: &I,
        summarize: &S,
    ) -> (effects: Vec<Effect<C>>)
        requires
            accepts_all(*engine),
            enriches_all::<C, I>(*enrich),
            summarizes_all(*summarize),
            old(self).control.coherent(),
            old(self).has_room(2 * events@.len()),
        ensures
            final(self).control.coherent(),
            exists|batch: Seq<Effect<C>>, summary: Option<CombatSessionSummary>|
                {
                    &&& #[trigger] drained(
                        *engine,
                        *enrich,
                        *summarize,
                        *old(self),
                        events@,
                        *final(self),
                        batch,
                    )
                    &&& #[trigger] is_summary(
                        *summarize,
                        final(self).state,
                        subtract_time_stop,
                        summary,
                    )
                    &&& effects@ == batch + replies(
                        Message::Success { id, result: Reply::<C>::Summary(summary) },
                    )
                },
    {
        let mut effects = self.drain_engine_events(events, engine, enrich, summarize);
        let summary = self.battle_summary(subtract_time_stop, summarize);
        send_reply(&mut effects, id, Reply::Summary(summary));
        effects
    }

    /// Answers a request for the record, once the queued events are processed.
    pub fn answer_record<
        E: Fn(BattleState, &BattleUpdate) -> EngineStep,
        I: Fn(&Inventory) -> C,
        S: Fn(&CombatState, CaptureQualitySource, DpsTimeBasis, bool) -> Option<
            CombatSessionSummary,
        >,
        G: Fn(&CombatState, CaptureQualitySource) -> CaptureQualitySummary,
        T: Fn(&CombatState, Double, Double) -> Vec<TimelineInterval>,
    >(
        &mut self,
        id: String,
        params: &BattleRecordParams,
        events: Vec<StampedEvent>,
        engine: &E,
        enrich: &I,
        summarize: &S,
        grade: &G,
        stops: &T,
    ) -> (effects: Vec<Effect<C>>)
        requires
            accepts_all(*engine),
            enriches_all::<C, I>(*enrich),
            summarizes_all(*summarize),
            old(self).control.coherent(),
            old(self).has_room(2 * events@.len()),
            reads_records(*grade, *stops),
        ensures
            final(self).control.coherent(),
            exists|
                batch: Seq<Effect<C>>,
                result: Result<Option<RecordReply>, BattleReadError>,
            |
                {
                    &&& #[trigger] drained(
                        *engine,
                        *enrich,
                        *summarize,
                        *old(self),
                        events@,
                        *final(self),
                        batch,
                    )
                    &&& #[trigger] reads_record(
                        *summarize,
                        *grade,
                        *stops,
                        *final(self),
                        *params,
                        result,
                    )
                    &&& effects@ == batch + read_answer(
                        id,
                        result,
                        Reply::<C>::Record(result->Ok_0),
                    )
                },
    {
        let mut effects = self.drain_engine_events(events, engine, enrich, summarize);
        let ghost batch = effects@;
        let result = self.battle_record(params, summarize, grade, stops);
        let ghost told = result;
        match result {
            Ok(record) => send_reply(&mut effects, id, Reply::Record(record)),
            Err(error) => send_failure(&mut effects, id, battle_read_error(error)),
        }
        assert(reads_record(*summarize, *grade, *stops, *self, *params, told));
        effects
    }

    /// Answers a request for a page of the axis, once the queued events are
    /// processed.
    pub fn answer_axis<
        E: Fn(BattleState, &BattleUpdate) -> EngineStep,
        I: Fn(&Inventory) -> C,
        S: Fn(&CombatState, CaptureQualitySource, DpsTimeBasis, bool) -> Option<
            CombatSessionSummary,
        >,
        F: Fn(Arith) -> Double,
    >(
        &mut self,
        id: String,
        params: &BattleAxisParams,
        events: Vec<StampedEvent>,
        engine: &E,
        enrich: &I,
        summarize: &S,
        ops: &F,
    ) -> (effects: Vec<Effect<C>>)
        requires
            accepts_all(*engine),
            enriches_all::<C, I>(*enrich),
            summarizes_all(*summarize),
            old(self).control.coherent(),
            old(self).has_room(2 * events@.len()),
            lawful(*ops),
        ensures
            final(self).control.coherent(),
            exists|
                batch: Seq<Effect<C>>,
                result: Result<Option<BattleAxisDto>, BattleReadError>,
            |
                {
                    &&& #[trigger] drained(
                        *engine,
                        *enrich,
                        *summarize,
                        *old(self),
                        events@,
                        *final(self),
                        batch,
                    )
                    &&& #[trigger] reads_axis(*ops, *final(self), *params, result)
                    &&& effects@ == batch + read_answer(
                        id,
                        result,
                        Reply::<C>::Axis(result->Ok_0),
                    )
                },
    {
        let mut effects = self.drain_engine_events(events, engine, enrich, summarize);
        let ghost batch = effects@;
        let result = self.battle_axis(params, ops);
        let ghost told = result;
        match result {
            Ok(axis) => send_reply(&mut effects, id, Reply::Axis(axis)),
            Err(error) => send_failure(&mut effects, id, battle_read_error(error)),
        }
        assert(reads_axis(*ops, *self, *params, told));
        effects
    }

    /// Answers a request for the timeline, once the queued events are
    /// processed.
    pub fn answer_timeline<
        E: Fn(BattleState, &BattleUpdate) -> EngineStep,
        I: Fn(&Inventory) -> C,
        S: Fn(&CombatState, CaptureQualitySource, DpsTimeBasis, bool) -> Option<
            CombatSessionSummary,
        >,
        F: Fn(Arith) -> Double,
        W: Fn(Double) -> usize,
        R: Fn(&CombatState, TimelineScope, Double, bool) -> TimelineReadings,
        B: Fn(Single) -> BucketWidth,
    >(
        &mut self,
        id: String,
        params: &BattleTimelineParams,
        events: Vec<StampedEvent>,
        characters: &HashMap<u32, CharacterInfo>,
        engine: &E,
        enrich: &I,
        summarize: &S,
        read: &R,
        width: &B,
        ops: &F,
        whole: &W,
    ) -> (effects: Vec<Effect<C>>)
        requires
            accepts_all(*engine),
            enriches_all::<C, I>(*enrich),
            summarizes_all(*summarize),
            old(self).control.coherent(),
            old(self).has_room(2 * events@.len()),
            lawful(*ops),
            takes_whole_parts(*whole),
            reads_timelines(*read),
            sizes_buckets(*width),
        ensures
            final(self).control.coherent(),
            exists|
                batch: Seq<Effect<C>>,
                result: Result<Option<BattleTimelineDto>, BattleReadError>,
            |
                {
                    &&& #[trigger] drained(
                        *engine,
                        *enrich,
                        *summarize,
                        *old(self),
                        events@,
                        *final(self),
                        batch,
                    )
                    &&& #[trigger] reads_timeline(
                        *ops,
                        *whole,
                        *read,
                        *width,
                        characters@,
                        *final(self),
                        *params,
                        result,
                    )
                    &&& effects@ == batch + read_answer(
                        id,
                        result,
                        Reply::<C>::Timeline(result->Ok_0),
                    )
                },
    {
        let mut effects = self.drain_engine_events(events, engine, enrich, summarize);
        let ghost batch = effects@;
        let result = self.battle_timeline(params, characters, read, width, ops, whole);
        let ghost told = result;
        match result {
            Ok(timeline) => send_reply(&mut effects, id, Reply::Timeline(timeline)),
            Err(error) => send_failure(&mut effects, id, battle_read_error(error)),
        }
        assert(reads_timeline(
            *ops,
            *whole,
            *read,
            *width,
            characters@,
            *self,
            *params,
            told,
        ));
        effects
    }

    /// Answers a request to forget the battle, the queued events with it.
    pub fn answer_reset<
        E: Fn(BattleState, &BattleUpdate) -> EngineStep,
        I: Fn(&Inventory) -> C,
        S: Fn(&CombatState, CaptureQualitySource, DpsTimeBasis, bool) -> Option<
            CombatSessionSummary,
        >,
    >(
        &mut self,
        id: String,
        events: Vec<StampedEvent>,
        engine: &E,
        enrich: &I,
        summarize: &S,
    ) -> (effects: Vec<Effect<C>>)
        requires
            accepts_all(*engine),
            enriches_all::<C, I>(*enrich),
            summarizes_all(*summarize),
            old(self).control.coherent(),
            old(self).has_room(2 * events@.len()),
        ensures
            final(self).control.coherent(),
            final(self).state.battle.blank(),
            final(self).control.record is None,
            !final(self).control.battle_summary_dirty,
            exists|quiet: Runtime<C>, batch: Seq<Effect<C>>|
                {
                    &&& #[trigger] drained(
                        *engine,
                        *enrich,
                        *summarize,
                        *old(self),
                        events@,
                        quiet,
                        batch,
                    )
                    &&& final(self).state.inventory == quiet.state.inventory
                    &&& final(self).control == (RuntimeControl {
                        record: None,
                        battle_summary_dirty: false,
                        ..quiet.control
                    })
                    &&& final(self).latest_inventory == quiet.latest_inventory
                    &&& final(self).pending_equipment_requests
                        == quiet.pending_equipment_requests
                    &&& effects@ == batch + seq![Effect::<C>::ClearSummary] + replies(
                        Message::Success { id, result: Reply::<C>::Reset { reset: true } },
                    )
                },
    {
        let mut effects = self.drain_engine_events(events, engine, enrich, summarize);
        let mut cleared = self.reset_battle();
        effects.append(&mut cleared);
        send_reply(&mut effects, id, Reply::Reset { reset: true });
        effects
    }

    /// Answers the request to shut down; the session ends after it.
    pub fn shut_down<
        E: Fn(BattleState, &BattleUpdate) -> EngineStep,
        I: Fn(&Inventory) -> C,
        S: Fn(&CombatState, CaptureQualitySource, DpsTimeBasis, bool) -> Option<
            CombatSessionSummary,
        >,
    >(
        &mut self,
        id: String,
        events: Vec<StampedEvent>,
        now: u64,
        engine: &E,
        enrich: &I,
        summarize: &S,
    ) -> (effects: Vec<Effect<C>>)
        requires
            accepts_all(*engine),
            enriches_all::<C, I>(*enrich),
            summarizes_all(*summarize),
            old(self).control.coherent(),
            old(self).has_room(2 * events@.len() + 2),
        ensures
            final(self).control.coherent(),
            effects@.len() > 0,
            effects@.last() == (Effect::<C>::Send {
                message: Message::Success { id, result: Reply::Shutdown { shutting_down: true } },
                checked: false,
            }),
            match stop_result(old(self).control, Ok(())) {
                Err(_) => *final(self) == *old(self) && effects@.len() == 1,
                Ok((operation, profile)) => exists|
                    quiet: Runtime<C>,
                    batch: Seq<Effect<C>>,
                    tail: Seq<Effect<C>>,
                |
                    {
                        &&& #[trigger] drained(
                            *engine,
                            *enrich,
                            *summarize,
                            old(self).with_control(old(self).control.without_capture()),
                            events@,
                            quiet,
                            batch,
                        )
                        &&& effects@.drop_last() == #[trigger] (batch + tail)
                        &&& concludes(
                            *summarize,
                            quiet,
                            operation,
                            profile,
                            now,
                            Seq::empty(),
                            *final(self),
                            tail,
                        )
                    },
            },
    {
        let mut effects = self.stop_for_exit(events, now, engine, enrich, summarize);
        let ghost stopped = effects@;
        effects.push(
            Effect::Send {
                message: Message::Success { id, result: Reply::Shutdown { shutting_down: true } },
                checked: false,
            },
        );
        assert(effects@.drop_last() =~= stopped);
        effects
    }
}

} // verus!
