//! What the session does about requests.
use std::collections::HashMap;

use vstd::prelude::*;
use vstd::std_specs::iter::IteratorSpec;

use crate::error::CoreErrorCode;
use crate::history::CombatSessionSummary;
use crate::model::{
    BattleState, CaptureQualitySource, CombatState, DpsTimeBasis, Inventory,
};
use crate::reducer::{accepts_all, BattleUpdate, EngineStep};
use crate::rpc::{
    answered, capture_options, carries_out, core_error, mods_plugin_request, operated_character,
    BattleQuery, CaptureControllerOptions, CaptureProfile, DomainError, ModsPluginRequest,
    ModsPluginResponse, ModsPluginSubmitError, Request, RpcError, PROTOCOL_VERSION,
};
use crate::runtime::{OperationId, RuntimeControl};
use crate::session::{
    enriches_all, final_summary, is_summary, next_status, notifies, processed, replies,
    summarizes_all, CaptureStatus, Effect, EquipmentOutcome, Event, InventorySnapshot, Message,
    Reply, Runtime, StampedEvent, StatusResult,
};

verus! {

broadcast use vstd::std_specs::hash::group_hash_axioms;

/// All effects of a run of events.
pub open spec fn all_effects<C>(batches: Seq<Seq<Effect<C>>>) -> Seq<Effect<C>>
    decreases batches.len(),
{
    if batches.len() == 0 {
        Seq::empty()
    } else {
        all_effects(batches.drop_last()) + batches.last()
    }
}

/// Whether the sessions and effects are those of processing events in order.
pub open spec fn is_run<
    C: Clone,
    E: Fn(BattleState, &BattleUpdate) -> EngineStep,
    I: Fn(&Inventory) -> C,
    S: Fn(&CombatState, CaptureQualitySource, DpsTimeBasis, bool) -> Option<CombatSessionSummary>,
>(
    engine: E,
    enrich: I,
    summarize: S,
    events: Seq<StampedEvent>,
    sessions: Seq<Runtime<C>>,
    batches: Seq<Seq<Effect<C>>>,
) -> bool {
    &&& sessions.len() == events.len() + 1
    &&& batches.len() == events.len()
    &&& forall|i: int|
        0 <= i < events.len() ==> processed(
            engine,
            enrich,
            summarize,
            sessions[i],
            events[i].event,
            events[i].received_at_unix_ms,
            sessions[i + 1],
            #[trigger] batches[i],
        )
}

/// What a run of queued events does to a session.
pub open spec fn drained<
    C: Clone,
    E: Fn(BattleState, &BattleUpdate) -> EngineStep,
    I: Fn(&Inventory) -> C,
    S: Fn(&CombatState, CaptureQualitySource, DpsTimeBasis, bool) -> Option<CombatSessionSummary>,
>(
    engine: E,
    enrich: I,
    summarize: S,
    before: Runtime<C>,
    events: Seq<StampedEvent>,
    after: Runtime<C>,
    effects: Seq<Effect<C>>,
) -> bool {
    exists|sessions: Seq<Runtime<C>>, batches: Seq<Seq<Effect<C>>>|
        {
            &&& #[trigger] is_run(engine, enrich, summarize, events, sessions, batches)
            &&& sessions.first() == before
            &&& sessions.last() == after
            &&& effects == all_effects(batches)
        }
}

/// The status that a client is told.
pub open spec fn reports<C>(
    session: Runtime<C>,
    raw_capture_path: Option<String>,
    status: StatusResult,
) -> bool {
    &&& status.handshaken == session.control.handshaken
    &&& status.capture_running == (session.control.capture is Some)
    &&& status.profile == session.control.capture
    &&& status.inventory_generation == (match session.latest_inventory {
        Some(snapshot) => Some(snapshot.generation),
        None => None,
    })
    &&& status.battle_available == session.state.battle.has_content()
    &&& status.raw_capture_path == raw_capture_path
}

impl<C: Clone> Runtime<C> {
    /// Processes the events that are queued.
    pub fn drain_engine_events<
        E: Fn(BattleState, &BattleUpdate) -> EngineStep,
        I: Fn(&Inventory) -> C,
        S: Fn(&CombatState, CaptureQualitySource, DpsTimeBasis, bool) -> Option<
            CombatSessionSummary,
        >,
    >(
        &mut self,
        events: Vec<StampedEvent>,
        engine: &E,
        enrich: &I,
        summarize: &S,
    ) -> (effects: Vec<Effect<C>>)
        requires
            accepts_all(*engine),
            enriches_all::<C, I>(*enrich),
            summarizes_all(*summarize),
            old(self).control.coherent(),
            old(self).has_room(2 * events@.len()),
        ensures
            drained(
                *engine,
                *enrich,
                *summarize,
                *old(self),
                events@,
                *final(self),
                effects@,
            ),
            final(self).control.coherent(),
            final(self).control.sequence <= old(self).control.sequence + 2 * events@.len(),
            final(self).control.inventory_generation <= old(self).control.inventory_generation
                + events@.len(),
    {
        let mut effects: Vec<Effect<C>> = Vec::new();
        let ghost all = events@;
        let ghost before = *self;
        let ghost mut sessions: Seq<Runtime<C>> = seq![*self];
        let ghost mut batches: Seq<Seq<Effect<C>>> = Seq::empty();
        let mut remaining: Vec<StampedEvent> = reversed(events);
        let ghost mut done: int = 0;
        while remaining.len() > 0
            invariant
                accepts_all(*engine),
                enriches_all::<C, I>(*enrich),
                summarizes_all(*summarize),
                0 <= done <= all.len(),
                remaining@ == all.skip(done).reverse(),
                sessions.len() == done + 1,
                batches.len() == done,
                sessions.first() == before,
                sessions.last() == *self,
                effects@ == all_effects(batches),
                forall|i: int|
                    0 <= i < done ==> processed(
                        *engine,
                        *enrich,
                        *summarize,
                        sessions[i],
                        all[i].event,
                        all[i].received_at_unix_ms,
                        sessions[i + 1],
                        #[trigger] batches[i],
                    ),
                self.control.coherent(),
                before.has_room(2 * all.len()),
                self.control.sequence <= before.control.sequence + 2 * done,
                self.control.inventory_generation <= before.control.inventory_generation + done,
            decreases remaining.len(),
        {
            let ghost previous = *self;
            let ghost earlier = batches;
            let ghost reached = sessions;
            if let Some(next) = remaining.pop() {
                assert(next == all[done]);
                assert(remaining@ =~= all.skip(done + 1).reverse());
                let mut batch = self.process_engine_event(
                    next.event,
                    next.received_at_unix_ms,
                    engine,
                    enrich,
                    summarize,
                );
                proof {
                    batches = batches.push(batch@);
                    sessions = sessions.push(*self);
                    assert(batches.drop_last() =~= earlier);
                    assert forall|i: int| 0 <= i < done + 1 implies processed(
                        *engine,
                        *enrich,
                        *summarize,
                        sessions[i],
                        all[i].event,
                        all[i].received_at_unix_ms,
                        sessions[i + 1],
                        #[trigger] batches[i],
                    ) by {
                        if i < done {
                            assert(batches[i] == earlier[i]);
                            assert(sessions[i] == reached[i] && sessions[i + 1] == reached[i + 1]);
                        } else {
                            assert(sessions[i] == previous);
                        }
                    }
                    done = done + 1;
                }
                effects.append(&mut batch);
            }
        }
        proof {
            assert(all.skip(done).reverse().len() == all.len() - done);
            assert(is_run(*engine, *enrich, *summarize, all, sessions, batches));
        }
        effects
    }
}

fn reversed(events: Vec<StampedEvent>) -> (result: Vec<StampedEvent>)
    ensures
        result@ == events@.skip(0).reverse(),
{
    let mut rest = events;
    let ghost all = rest@;
    let mut result: Vec<StampedEvent> = Vec::new();
    while rest.len() > 0
        invariant
            rest@ == all.take(rest@.len() as int),
            rest@.len() <= all.len(),
            result@ == all.skip(rest@.len() as int).reverse(),
        decreases rest.len(),
    {
        let ghost length = rest@.len();
        if let Some(last) = rest.pop() {
            result.push(last);
            assert(last == all[length - 1]);
            assert(result@ =~= all.skip(length - 1).reverse());
        }
    }
    result
}

/// What a stop amounts to, given what capture control made of it.
pub open spec fn stop_result(
    control: RuntimeControl,
    outcome: Result<(), CoreErrorCode>,
) -> Result<(OperationId, CaptureProfile), CoreErrorCode> {
    match (control.capture, outcome) {
        (None, _) => Err(CoreErrorCode::CaptureNotRunning),
        (Some(_), Err(code)) => Err(code),
        (Some(profile), Ok(_)) => Ok((control.active_operation->0, profile)),
    }
}

/// The control after a stop. Capture control that refuses has nothing running.
pub open spec fn after_stop(
    control: RuntimeControl,
    outcome: Result<(), CoreErrorCode>,
) -> RuntimeControl {
    match (control.capture, outcome) {
        (None, _) => control,
        (Some(_), Err(_)) => RuntimeControl { capture: None, active_operation: None, ..control },
        (Some(_), Ok(_)) => control.without_capture(),
    }
}

/// The end of a capture that was stopped: the record is closed, the last
/// summary is sent, then the reply, then the status.
pub open spec fn concludes<
    C: Clone,
    S: Fn(&CombatState, CaptureQualitySource, DpsTimeBasis, bool) -> Option<CombatSessionSummary>,
>(
    summarize: S,
    before: Runtime<C>,
    operation: OperationId,
    profile: CaptureProfile,
    now: u64,
    reply: Seq<Effect<C>>,
    after: Runtime<C>,
    effects: Seq<Effect<C>>,
) -> bool {
    let closed = before.control.finalized(Some(operation), now);
    exists|summary: Option<CombatSessionSummary>| #[trigger]
        is_summary(summarize, before.state, true, summary) && {
            &&& after == (Runtime { control: closed.summarized(summary).numbered(), ..before })
            &&& effects == final_summary::<C>(summary, closed.sequence) + reply + notifies::<C>(
                Event::Capture(
                    next_status(
                        closed.summarized(summary),
                        operation,
                        profile,
                        CaptureStatus::Stopped,
                    ),
                ),
            )
        }
}

/// The reply to a request to stop.
pub open spec fn stop_reply<C>(id: String, operation: OperationId) -> Seq<Effect<C>> {
    replies(
        Message::Success { id, result: Reply::CaptureStopped { operation, stopped: true } },
    )
}

/// The reply to the request that asked for a stop, if one did.
pub open spec fn reply_if_asked<C>(id: Option<String>, operation: OperationId) -> Seq<Effect<C>> {
    match id {
        Some(id) => stop_reply(id, operation),
        None => Seq::empty(),
    }
}

/// The reply to a request that failed.
pub open spec fn failure_reply<C>(id: String, error: RpcError) -> Seq<Effect<C>> {
    replies(Message::Failure { id: Some(id), error })
}

pub fn send_reply<C>(effects: &mut Vec<Effect<C>>, id: String, result: Reply<C>)
    ensures
        final(effects)@ == old(effects)@ + replies(Message::Success { id, result }),
{
    effects.push(Effect::Send { message: Message::Success { id, result }, checked: true });
    assert(effects@ =~= old(effects)@ + replies(Message::Success { id, result }));
}

pub fn send_failure<C>(effects: &mut Vec<Effect<C>>, id: String, error: RpcError)
    ensures
        final(effects)@ == old(effects)@ + failure_reply::<C>(id, error),
{
    effects.push(
        Effect::Send { message: Message::Failure { id: Some(id), error }, checked: true },
    );
    assert(effects@ =~= old(effects)@ + failure_reply::<C>(id, error));
}

/// The answer to what capture control found of the environment.
pub fn detect_reply<D>(environment: Result<D, CoreErrorCode>) -> (result: Result<D, RpcError>)
    ensures
        match environment {
            Ok(found) => result == Ok::<D, RpcError>(found),
            Err(code) => result == Err::<D, RpcError>(RpcError::Domain(answered(code))),
        },
{
    match environment {
        Ok(found) => Ok(found),
        Err(code) => Err(core_error(code)),
    }
}

/// What the reader of the request stream hands to the session. A line that was
/// no request may have an id nevertheless.
#[derive(Clone, Debug)]
pub enum ReaderEvent {
    Request { id: String, request: Request },
    Error { id: Option<String>, error: RpcError, fatal: bool },
    Eof,
}

/// What comes of what the reader hands over.
#[derive(Debug)]
pub enum ReaderStep<C> {
    Request(Step<C>),
    /// Report a failure. After a fatal one, and where the client is gone,
    /// [`Runtime::stop_for_exit`] follows, and the session ends.
    Report { effects: Vec<Effect<C>>, fatal: bool },
    /// [`Runtime::stop_for_exit`], and the session ends.
    End,
}

/// The message about a line that was no request.
pub fn reader_failure<C>(id: Option<String>, error: RpcError) -> (message: Message<C>)
    ensures
        message == (Message::<C>::Failure { id, error }),
{
    Message::Failure { id, error }
}

impl<C: Clone> Runtime<C> {
    pub fn status(&self, raw_capture_path: Option<String>) -> (status: StatusResult)
        ensures
            reports(*self, raw_capture_path, status),
    {
        StatusResult {
            handshaken: self.control.handshaken,
            capture_running: self.control.capture.is_some(),
            profile: self.control.capture,
            inventory_generation: match &self.latest_inventory {
                Some(snapshot) => Some(snapshot.generation),
                None => None,
            },
            battle_available: self.state.battle.is_archivable(),
            raw_capture_path,
        }
    }

    /// Takes note of what capture control made of a start.
    pub fn start_capture(
        &mut self,
        profile: CaptureProfile,
        outcome: Result<(), CoreErrorCode>,
    ) -> (result: Result<OperationId, CoreErrorCode>)
        requires
            old(self).control.operation_sequence < u64::MAX,
        ensures
            old(self).control.coherent() ==> final(self).control.coherent(),
            match outcome {
                Err(code) => result == Err::<OperationId, _>(code) && *final(self) == *old(self),
                Ok(_) => {
                    let operation = OperationId {
                        number: (old(self).control.operation_sequence + 1) as u64,
                    };
                    &&& result == Ok::<_, CoreErrorCode>(operation)
                    &&& *final(self) == (Runtime {
                        control: RuntimeControl {
                            capture: Some(profile),
                            operation_sequence: operation.number,
                            active_operation: Some(operation),
                            latest_operation: Some(operation),
                            running_notified: false,
                            ..old(self).control
                        },
                        ..*old(self)
                    })
                },
            },
    {
        match outcome {
            Err(code) => Err(code),
            Ok(_) => {
                self.control.operation_sequence = self.control.operation_sequence + 1;
                let operation = OperationId { number: self.control.operation_sequence };
                self.control.capture = Some(profile);
                self.control.active_operation = Some(operation);
                self.control.latest_operation = Some(operation);
                self.control.running_notified = false;
                Ok(operation)
            },
        }
    }

    /// Answers a request to start, and announces the capture.
    pub fn finish_capture_start(
        &mut self,
        id: String,
        profile: CaptureProfile,
        outcome: Result<(), CoreErrorCode>,
    ) -> (effects: Vec<Effect<C>>)
        requires
            old(self).control.operation_sequence < u64::MAX,
            old(self).control.sequence < u64::MAX,
        ensures
            old(self).control.coherent() ==> final(self).control.coherent(),
            match outcome {
                Err(code) => {
                    &&& *final(self) == *old(self)
                    &&& effects@ == failure_reply::<C>(id, RpcError::Domain(answered(code)))
                },
                Ok(_) => {
                    let operation = OperationId {
                        number: (old(self).control.operation_sequence + 1) as u64,
                    };
                    let started = RuntimeControl {
                        capture: Some(profile),
                        operation_sequence: operation.number,
                        active_operation: Some(operation),
                        latest_operation: Some(operation),
                        running_notified: false,
                        ..old(self).control
                    };
                    &&& *final(self) == (Runtime { control: started.numbered(), ..*old(self) })
                    &&& effects@ == replies(
                        Message::Success { id, result: Reply::<C>::CaptureStarted { operation } },
                    ) + notifies::<C>(
                        Event::Capture(
                            next_status(started, operation, profile, CaptureStatus::Starting),
                        ),
                    )
                },
            },
    {
        let mut effects: Vec<Effect<C>> = Vec::new();
        match self.start_capture(profile, outcome) {
            Err(code) => {
                send_failure(&mut effects, id, core_error(code));
                assert(effects@ =~= failure_reply::<C>(id, RpcError::Domain(answered(code))));
            },
            Ok(operation) => {
                send_reply(&mut effects, id, Reply::CaptureStarted { operation });
                assert(effects@ =~= replies(
                    Message::Success { id, result: Reply::<C>::CaptureStarted { operation } },
                ));
                self.send_capture_status_for(
                    &mut effects,
                    operation,
                    profile,
                    CaptureStatus::Starting,
                );
            },
        }
        effects
    }

    /// Takes note of what capture control made of a stop.
    pub fn stop_capture(&mut self, outcome: Result<(), CoreErrorCode>) -> (result: Result<
        (OperationId, CaptureProfile),
        CoreErrorCode,
    >)
        requires
            old(self).control.coherent(),
        ensures
            result == stop_result(old(self).control, outcome),
            *final(self) == (Runtime {
                control: after_stop(old(self).control, outcome),
                ..*old(self)
            }),
            final(self).control.coherent(),
    {
        if let (Some(profile), Some(operation)) = (
            self.control.capture,
            self.control.active_operation,
        ) {
            self.control.capture = None;
            self.control.active_operation = None;
            match outcome {
                Err(code) => Err(code),
                Ok(_) => {
                    self.control.running_notified = false;
                    Ok((operation, profile))
                },
            }
        } else {
            Err(CoreErrorCode::CaptureNotRunning)
        }
    }

    /// Ends a capture that was stopped.
    fn conclude<
        S: Fn(&CombatState, CaptureQualitySource, DpsTimeBasis, bool) -> Option<
            CombatSessionSummary,
        >,
    >(
        &mut self,
        operation: OperationId,
        profile: CaptureProfile,
        now: u64,
        reply_to: Option<String>,
        summarize: &S,
    ) -> (effects: Vec<Effect<C>>)
        requires
            summarizes_all(*summarize),
            old(self).has_room(2),
        ensures
            concludes(
                *summarize,
                *old(self),
                operation,
                profile,
                now,
                reply_if_asked::<C>(reply_to, operation),
                *final(self),
                effects@,
            ),
    {
        let mut effects: Vec<Effect<C>> = Vec::new();
        self.control.finalize_current_battle_record(Some(operation), now);
        let ghost closed = self.control;
        let ghost reply = reply_if_asked::<C>(reply_to, operation);
        self.send_final_battle_summary(&mut effects, summarize);
        let ghost summary = choose|summary: Option<CombatSessionSummary>| #[trigger]
            is_summary(*summarize, old(self).state, true, summary) && self.control
                == closed.summarized(summary) && effects@ == Seq::<Effect<C>>::empty()
                + final_summary::<C>(summary, closed.sequence);
        proof {
            assert(effects@ =~= final_summary::<C>(summary, closed.sequence));
        }
        if let Some(id) = reply_to {
            send_reply(&mut effects, id, Reply::CaptureStopped { operation, stopped: true });
        }
        assert(effects@ =~= final_summary::<C>(summary, closed.sequence) + reply);
        self.send_capture_status_for(&mut effects, operation, profile, CaptureStatus::Stopped);
        assert(is_summary(*summarize, old(self).state, true, summary));
        effects
    }

    /// Answers a request to stop, once capture control has stopped and the
    /// events that it left behind are processed.
    pub fn finish_capture_stop<
        E: Fn(BattleState, &BattleUpdate) -> EngineStep,
        I: Fn(&Inventory) -> C,
        S: Fn(&CombatState, CaptureQualitySource, DpsTimeBasis, bool) -> Option<
            CombatSessionSummary,
        >,
    >(
        &mut self,
        id: String,
        outcome: Result<(), CoreErrorCode>,
        events: Vec<StampedEvent>,
        now: u64,
        engine: &E,
        enrich: &I,
        summarize: &S,
    ) -> (effects: Vec<Effect<C>>)
        requires
            accepts_all(*engine),
            enriches_all::<C, I>(*enrich),
            summarizes_all(*summarize),
            old(self).control.coherent(),
            old(self).has_room(2 * events@.len() + 2),
        ensures
            final(self).control.coherent(),
            exists|quiet: Runtime<C>, batch: Seq<Effect<C>>, tail: Seq<Effect<C>>|
                {
                    &&& #[trigger] drained(
                        *engine,
                        *enrich,
                        *summarize,
                        old(self).with_control(after_stop(old(self).control, outcome)),
                        events@,
                        quiet,
                        batch,
                    )
                    &&& effects@ == #[trigger] (batch + tail)
                    &&& match stop_result(old(self).control, outcome) {
                        Ok((operation, profile)) => concludes(
                            *summarize,
                            quiet,
                            operation,
                            profile,
                            now,
                            stop_reply::<C>(id, operation),
                            *final(self),
                            tail,
                        ),
                        Err(code) => *final(self) == quiet && tail == failure_reply::<C>(
                            id,
                            RpcError::Domain(answered(code)),
                        ),
                    }
                },
    {
        let result = self.stop_capture(outcome);
        let mut effects = self.drain_engine_events(events, engine, enrich, summarize);
        let ghost quiet = *self;
        let ghost batch = effects@;
        match result {
            Ok((operation, profile)) => {
                let mut tail = self.conclude(operation, profile, now, Some(id), summarize);
                let ghost sent = tail@;
                effects.append(&mut tail);
                assert(effects@ == batch + sent);
            },
            Err(code) => {
                send_failure(&mut effects, id, core_error(code));
                assert(effects@ == batch + failure_reply::<C>(
                    id,
                    RpcError::Domain(answered(code)),
                ));
            },
        }
        effects
    }

    /// Stops a capture that runs, because the session is about to end. The
    /// events are those that capture control left behind.
    pub fn stop_for_exit<
        E: Fn(BattleState, &BattleUpdate) -> EngineStep,
        I: Fn(&Inventory) -> C,
        S: Fn(&CombatState, CaptureQualitySource, DpsTimeBasis, bool) -> Option<
            CombatSessionSummary,
        >,
    >(
        &mut self,
        events: Vec<StampedEvent>,
        now: u64,
        engine: &E,
        enrich: &I,
        summarize: &S,
    ) -> (effects: Vec<Effect<C>>)
        requires
            accepts_all(*engine),
            enriches_all::<C, I>(*enrich),
            summarizes_all(*summarize),
            old(self).control.coherent(),
            old(self).has_room(2 * events@.len() + 2),
        ensures
            final(self).control.coherent(),
            match stop_result(old(self).control, Ok(())) {
                Err(_) => *final(self) == *old(self) && effects@.len() == 0,
                Ok((operation, profile)) => exists|
                    quiet: Runtime<C>,
                    batch: Seq<Effect<C>>,
                    tail: Seq<Effect<C>>,
                |
                    {
                        &&& #[trigger] drained(
                            *engine,
                            *enrich,
                            *summarize,
                            old(self).with_control(old(self).control.without_capture()),
                            events@,
                            quiet,
                            batch,
                        )
                        &&& effects@ == #[trigger] (batch + tail)
                        &&& concludes(
                            *summarize,
                            quiet,
                            operation,
                            profile,
                            now,
                            Seq::empty(),
                            *final(self),
                            tail,
                        )
                    },
            },
    {
        match self.stop_capture(Ok(())) {
            Err(_) => Vec::new(),
            Ok((operation, profile)) => {
                let mut effects = self.drain_engine_events(events, engine, enrich, summarize);
                let ghost batch = effects@;
                let mut tail = self.conclude(operation, profile, now, None, summarize);
                let ghost sent = tail@;
                effects.append(&mut tail);
                assert(effects@ == batch + sent);
                effects
            },
        }
    }
}

/// What a request leads to.
#[derive(Debug)]
pub enum Step<C> {
    /// The request is answered.
    Done(Vec<Effect<C>>),
    /// Probe the environment and answer with it.
    Detect { id: String },
    /// Start capture control, then [`Runtime::finish_capture_start`].
    Start { id: String, options: CaptureControllerOptions },
    /// Stop capture control, then [`Runtime::finish_capture_stop`].
    Stop { id: String },
    /// Hand the mod loader a request, then [`Runtime::finish_equipment_submit`].
    Submit { id: String, request: ModsPluginRequest },
    /// Answer once the queued events are processed.
    Query { id: String, query: BattleQuery },
    /// Stop capture control, then [`Runtime::shut_down`], and end.
    Exit { id: String },
}

/// Whether a client speaks this protocol.
pub open spec fn speaks_protocol(protocol_min: u32, protocol_max: u32) -> bool {
    protocol_min <= PROTOCOL_VERSION <= protocol_max
}

/// The latest inventory is told.
pub open spec fn tells_inventory<C: Clone>(
    latest: InventorySnapshot<C>,
    id: String,
    effects: Seq<Effect<C>>,
) -> bool {
    &&& effects.len() == 1
    &&& effects[0] matches Effect::Send { message, checked }
    &&& checked
    &&& message matches Message::Success { id: answered_id, result }
    &&& answered_id == id
    &&& result matches Reply::Inventory(snapshot)
    &&& snapshot.generation == latest.generation
    &&& snapshot.captured_at_unix_ms == latest.captured_at_unix_ms
    &&& cloned(latest.contents, snapshot.contents)
}

/// The status is told.
pub open spec fn tells_status<C: Clone>(
    session: Runtime<C>,
    raw_capture_path: Option<String>,
    id: String,
    effects: Seq<Effect<C>>,
) -> bool {
    &&& effects.len() == 1
    &&& effects[0] matches Effect::Send { message, checked }
    &&& checked
    &&& message matches Message::Success { id: answered_id, result }
    &&& answered_id == id
    &&& result matches Reply::Status(status)
    &&& reports(session, raw_capture_path, status)
}

/// What a request leads to, and what it does to the session.
pub open spec fn handles<C: Clone>(
    before: Runtime<C>,
    id: String,
    request: Request,
    raw_capture_path: Option<String>,
    after: Runtime<C>,
    step: Step<C>,
) -> bool {
    match request {
        Request::Hello(params) => if speaks_protocol(params.protocol_min, params.protocol_max) {
            &&& after == before.with_control(RuntimeControl { handshaken: true, ..before.control })
            &&& step matches Step::Done(effects)
            &&& effects@ == replies(Message::Success { id, result: Reply::<C>::Hello })
        } else {
            &&& after == before
            &&& step matches Step::Done(effects)
            &&& effects@ == failure_reply::<C>(
                id,
                RpcError::Domain(DomainError::ProtocolVersionMismatch),
            )
        },
        Request::Shutdown => after == before && step == (Step::<C>::Exit { id }),
        _ => if !before.control.handshaken {
            &&& after == before
            &&& step matches Step::Done(effects)
            &&& effects@ == failure_reply::<C>(id, RpcError::Domain(DomainError::HandshakeRequired))
        } else {
            handles_known(before, id, request, raw_capture_path, after, step)
        },
    }
}

/// What a request of a client that has shaken hands leads to.
pub open spec fn handles_known<C: Clone>(
    before: Runtime<C>,
    id: String,
    request: Request,
    raw_capture_path: Option<String>,
    after: Runtime<C>,
    step: Step<C>,
) -> bool {
    match request {
        Request::Status => {
            &&& after == before
            &&& step matches Step::Done(effects)
            &&& tells_status(before, raw_capture_path, id, effects@)
        },
        Request::CaptureDetect => after == before && step == (Step::<C>::Detect { id }),
        Request::CaptureStart(params) => {
            &&& after == before
            &&& step matches Step::Start { id: kept, options }
            &&& kept == id
            &&& call_ensures(capture_options, (params,), options)
        },
        Request::CaptureStop => after == before && step == (Step::<C>::Stop { id }),
        Request::InventoryGetLatest => {
            &&& after == before
            &&& step matches Step::Done(effects)
            &&& match before.latest_inventory {
                Some(latest) => tells_inventory(latest, id, effects@),
                None => effects@ == failure_reply::<C>(
                    id,
                    RpcError::Domain(DomainError::InventoryNotReady),
                ),
            }
        },
        Request::Equipment(operation) => {
            &&& after == before.with_control(
                RuntimeControl {
                    equipment_request_sequence: (before.control.equipment_request_sequence
                        + 1) as u64,
                    ..before.control
                },
            )
            &&& step matches Step::Submit { id: kept, request }
            &&& kept == id
            &&& request.request_id == after.control.equipment_request_sequence
            &&& request.character == operated_character(operation)
            &&& carries_out(operation, request.operation)
        },
        Request::Battle(query) => after == before && step == (Step::<C>::Query { id, query }),
        Request::Unknown => {
            &&& after == before
            &&& step matches Step::Done(effects)
            &&& effects@ == failure_reply::<C>(id, RpcError::MethodNotFound)
        },
        _ => true,
    }
}

impl<C: Clone> Runtime<C> {
    /// Decides what a request leads to. `raw_capture_path` is where capture
    /// control writes its raw capture, if it tells.
    pub fn handle_request(
        &mut self,
        id: String,
        request: Request,
        raw_capture_path: Option<String>,
    ) -> (step: Step<C>)
        requires
            request is Equipment && old(self).control.handshaken ==> old(
                self).control.equipment_request_sequence < u64::MAX,
        ensures
            handles(*old(self), id, request, raw_capture_path, *final(self), step),
    {
        let mut effects: Vec<Effect<C>> = Vec::new();
        match request {
            Request::Hello(params) => {
                if params.protocol_min > PROTOCOL_VERSION || params.protocol_max
                    < PROTOCOL_VERSION {
                    send_failure(
                        &mut effects,
                        id,
                        RpcError::Domain(DomainError::ProtocolVersionMismatch),
                    );
                    assert(effects@ =~= failure_reply::<C>(
                        id,
                        RpcError::Domain(DomainError::ProtocolVersionMismatch),
                    ));
                } else {
                    self.control.handshaken = true;
                    send_reply(&mut effects, id, Reply::Hello);
                    assert(effects@ =~= replies(
                        Message::Success { id, result: Reply::<C>::Hello },
                    ));
                }
                Step::Done(effects)
            },
            Request::Shutdown => Step::Exit { id },
            _ => if !self.control.handshaken {
                send_failure(&mut effects, id, RpcError::Domain(DomainError::HandshakeRequired));
                assert(effects@ =~= failure_reply::<C>(
                    id,
                    RpcError::Domain(DomainError::HandshakeRequired),
                ));
                Step::Done(effects)
            } else {
                self.handle_known_request(id, request, raw_capture_path)
            },
        }
    }

    fn handle_known_request(
        &mut self,
        id: String,
        request: Request,
        raw_capture_path: Option<String>,
    ) -> (step: Step<C>)
        requires
            request is Equipment ==> old(self).control.equipment_request_sequence < u64::MAX,
            request !is Hello && request !is Shutdown,
        ensures
            handles_known(*old(self), id, request, raw_capture_path, *final(self), step),
    {
        let mut effects: Vec<Effect<C>> = Vec::new();
        match request {
            Request::Status => {
                let status = self.status(raw_capture_path);
                send_reply(&mut effects, id, Reply::Status(status));
                Step::Done(effects)
            },
            Request::CaptureDetect => Step::Detect { id },
            Request::CaptureStart(params) => {
                let options = capture_options(params);
                Step::Start { id, options }
            },
            Request::CaptureStop => Step::Stop { id },
            Request::InventoryGetLatest => {
                match &self.latest_inventory {
                    Some(latest) => {
                        let snapshot = InventorySnapshot {
                            generation: latest.generation,
                            captured_at_unix_ms: latest.captured_at_unix_ms,
                            contents: latest.contents.clone(),
                        };
                        send_reply(&mut effects, id, Reply::Inventory(snapshot));
                    },
                    None => {
                        send_failure(
                            &mut effects,
                            id,
                            RpcError::Domain(DomainError::InventoryNotReady),
                        );
                        assert(effects@ =~= failure_reply::<C>(
                            id,
                            RpcError::Domain(DomainError::InventoryNotReady),
                        ));
                    },
                }
                Step::Done(effects)
            },
            Request::Equipment(operation) => {
                self.control.equipment_request_sequence = self.control.equipment_request_sequence
                    + 1;
                let request = mods_plugin_request(
                    self.control.equipment_request_sequence,
                    operation,
                );
                Step::Submit { id, request }
            },
            Request::Battle(query) => Step::Query { id, query },
            _ => {
                send_failure(&mut effects, id, RpcError::MethodNotFound);
                assert(effects@ =~= failure_reply::<C>(id, RpcError::MethodNotFound));
                Step::Done(effects)
            },
        }
    }

    /// Decides what comes of what the reader hands over.
    pub fn handle_reader_event(
        &mut self,
        event: ReaderEvent,
        raw_capture_path: Option<String>,
    ) -> (step: ReaderStep<C>)
        requires
            event matches ReaderEvent::Request { request, .. } && request is Equipment && old(
                self,
            ).control.handshaken ==> old(self).control.equipment_request_sequence < u64::MAX,
        ensures
            match event {
                ReaderEvent::Request { id, request } => {
                    &&& step matches ReaderStep::Request(step)
                    &&& handles(*old(self), id, request, raw_capture_path, *final(self), step)
                },
                ReaderEvent::Error { id, error, fatal } => {
                    &&& *final(self) == *old(self)
                    &&& step matches ReaderStep::Report { effects, fatal: ends }
                    &&& effects@ == replies(Message::<C>::Failure { id, error })
                    &&& ends == fatal
                },
                ReaderEvent::Eof => *final(self) == *old(self) && step == ReaderStep::<C>::End,
            },
    {
        match event {
            ReaderEvent::Request { id, request } => ReaderStep::Request(
                self.handle_request(id, request, raw_capture_path),
            ),
            ReaderEvent::Error { id, error, fatal } => {
                let mut effects: Vec<Effect<C>> = Vec::new();
                effects.push(Effect::Send { message: reader_failure(id, error), checked: true });
                assert(effects@ =~= replies(Message::<C>::Failure { id, error }));
                ReaderStep::Report { effects, fatal }
            },
            ReaderEvent::Eof => ReaderStep::End,
        }
    }

    /// Takes note of whether the mod loader took a request. One that was taken
    /// is answered later.
    pub fn finish_equipment_submit(
        &mut self,
        id: String,
        request_id: u64,
        outcome: Result<(), ModsPluginSubmitError>,
    ) -> (effects: Vec<Effect<C>>)
        requires
            !old(self).pending_equipment_requests@.dom().contains(request_id),
        ensures
            final(self).state == old(self).state,
            final(self).control == old(self).control,
            final(self).latest_inventory == old(self).latest_inventory,
            match outcome {
                Ok(_) => {
                    &&& final(self).pending_equipment_requests@ == old(
                        self).pending_equipment_requests@.insert(request_id, id)
                    &&& effects@.len() == 0
                },
                Err(error) => {
                    &&& final(self).pending_equipment_requests@ == old(
                        self).pending_equipment_requests@
                    &&& effects@ == failure_reply::<C>(
                        id,
                        RpcError::Domain(
                            match error {
                                ModsPluginSubmitError::Busy => DomainError::ModsPluginBusy,
                                ModsPluginSubmitError::Disconnected =>
                                    DomainError::ModsPluginUnavailable,
                            },
                        ),
                    )
                },
            },
    {
        let mut effects: Vec<Effect<C>> = Vec::new();
        match outcome {
            Ok(_) => {
                let _ = self.pending_equipment_requests.insert(request_id, id);
            },
            Err(ModsPluginSubmitError::Busy) => {
                send_failure(&mut effects, id, RpcError::Domain(DomainError::ModsPluginBusy));
                assert(effects@ =~= failure_reply::<C>(
                    id,
                    RpcError::Domain(DomainError::ModsPluginBusy),
                ));
            },
            Err(ModsPluginSubmitError::Disconnected) => {
                send_failure(
                    &mut effects,
                    id,
                    RpcError::Domain(DomainError::ModsPluginUnavailable),
                );
                assert(effects@ =~= failure_reply::<C>(
                    id,
                    RpcError::Domain(DomainError::ModsPluginUnavailable),
                ));
            },
        }
        effects
    }
}

/// The answer to a request that the mod loader has answered.
pub open spec fn equipment_reply<C>(id: String, status: Option<u32>) -> Seq<Effect<C>> {
    match status {
        Some(0) => replies(
            Message::Success { id, result: Reply::Equipment(EquipmentOutcome::RpcDispatched) },
        ),
        Some(1) => replies(
            Message::Success { id, result: Reply::Equipment(EquipmentOutcome::DryRunOk) },
        ),
        Some(status) => failure_reply(
            id,
            RpcError::Domain(DomainError::EquipmentRequestRejected { status }),
        ),
        None => failure_reply(id, RpcError::Domain(DomainError::ModsPluginUnavailable)),
    }
}

/// Whether every waiting request was failed, each once.
pub open spec fn fails_each<C>(pending: Map<u64, String>, effects: Seq<Effect<C>>) -> bool {
    exists|keys: Seq<u64>|
        {
            &&& #[trigger] keys.no_duplicates()
            &&& keys.len() == effects.len()
            &&& forall|key: u64| pending.dom().contains(key) <==> #[trigger] keys.contains(key)
            &&& forall|i: int|
                0 <= i < keys.len() ==> #[trigger] effects[i] == (Effect::<C>::Send {
                    message: Message::Failure {
                        id: Some(pending[keys[i]]),
                        error: RpcError::Domain(DomainError::ModsPluginUnavailable),
                    },
                    checked: true,
                })
        }
}

impl<C: Clone> Runtime<C> {
    /// Answers the request that the mod loader has answered. A response that
    /// no request waits for is ignored.
    pub fn process_equipment_response(&mut self, response: ModsPluginResponse) -> (effects: Vec<
        Effect<C>,
    >)
        ensures
            final(self).state == old(self).state,
            final(self).control == old(self).control,
            final(self).latest_inventory == old(self).latest_inventory,
            ({
                let pending = old(self).pending_equipment_requests@;
                let left = final(self).pending_equipment_requests@;
                if pending.dom().contains(response.request_id) {
                    &&& left == pending.remove(response.request_id)
                    &&& effects@ == equipment_reply::<C>(
                        pending[response.request_id],
                        response.status,
                    )
                } else {
                    &&& left == pending
                    &&& effects@.len() == 0
                }
            }),
    {
        let mut effects: Vec<Effect<C>> = Vec::new();
        let ghost pending = self.pending_equipment_requests@;
        match self.pending_equipment_requests.remove(&response.request_id) {
            None => {
                assert(self.pending_equipment_requests@ =~= pending);
            },
            Some(id) => {
                match response.status {
                    Some(0) => {
                        send_reply(
                            &mut effects,
                            id,
                            Reply::Equipment(EquipmentOutcome::RpcDispatched),
                        );
                    },
                    Some(1) => {
                        send_reply(&mut effects, id, Reply::Equipment(EquipmentOutcome::DryRunOk));
                    },
                    Some(status) => {
                        send_failure(
                            &mut effects,
                            id,
                            RpcError::Domain(DomainError::EquipmentRequestRejected { status }),
                        );
                    },
                    None => {
                        send_failure(
                            &mut effects,
                            id,
                            RpcError::Domain(DomainError::ModsPluginUnavailable),
                        );
                    },
                }
                assert(effects@ =~= equipment_reply::<C>(id, response.status));
            },
        }
        effects
    }

    /// Fails every request that waits, because the mod loader is gone.
    pub fn fail_pending_equipment_requests(&mut self) -> (effects: Vec<Effect<C>>)
        ensures
            final(self).state == old(self).state,
            final(self).control == old(self).control,
            final(self).latest_inventory == old(self).latest_inventory,
            final(self).pending_equipment_requests@ == Map::<u64, String>::empty(),
            fails_each(old(self).pending_equipment_requests@, effects@),
    {
        let mut effects: Vec<Effect<C>> = Vec::new();
        let mut pending: HashMap<u64, String> = HashMap::new();
        std::mem::swap(&mut self.pending_equipment_requests, &mut pending);
        let ghost waiting = pending@;
        let waiting_requests = pending.iter();
        let ghost listed = waiting_requests.remaining();
        let ghost mut keys: Seq<u64> = Seq::empty();
        for (key, id) in entries: waiting_requests
            invariant
                entries.seq() == listed,
                keys.len() == entries.index(),
                effects@.len() == entries.index(),
                forall|i: int| 0 <= i < keys.len() ==> #[trigger] keys[i] == *listed[i].0,
                forall|i: int|
                    0 <= i < keys.len() ==> #[trigger] effects@[i] == (Effect::<C>::Send {
                        message: Message::Failure {
                            id: Some(*listed[i].1),
                            error: RpcError::Domain(DomainError::ModsPluginUnavailable),
                        },
                        checked: true,
                    }),
        {
            effects.push(
                Effect::Send {
                    message: Message::Failure {
                        id: Some(id.clone()),
                        error: RpcError::Domain(DomainError::ModsPluginUnavailable),
                    },
                    checked: true,
                },
            );
            proof {
                keys = keys.push(*key);
            }
        }
        proof {
            assert forall|i: int| 0 <= i < keys.len() implies waiting.contains_key(
                #[trigger] keys[i],
            ) && waiting[keys[i]] == *listed[i].1 by {
                assert(waiting.contains_key(*listed[i].0));
            }
            assert forall|i: int, j: int| 0 <= i < j < keys.len() implies keys[i] != keys[j] by {
                if keys[i] == keys[j] {
                    assert(listed[i] == listed[j]);
                }
            }
            assert forall|key: u64| waiting.dom().contains(key) implies #[trigger] keys.contains(
                key,
            ) by {
                let pair = (&key, &waiting[key]);
                assert(waiting.contains_key(key));
                assert(listed.contains(pair));
                let at = choose|at: int| 0 <= at < listed.len() && listed[at] == pair;
                assert(keys[at] == key);
            }
            assert(keys.no_duplicates());
        }
        effects
    }
}

} // verus!
