//! The session behind the line protocol: one capture, one battle record, and
//! the equipment requests that wait for the mod loader.
//!
//! Channels, threads, the clock and capture control stay with the caller. The
//! session decides what every request and event does, and hands back the
//! effects that the caller has to perform, in order.
use std::collections::HashMap;

use vstd::prelude::*;

use crate::battle::{BattleAxisDto, BattleRecordDto, BattleTimelineDto};
use crate::history::{CaptureQualitySummary, CombatSessionSummary};
use crate::model::{
    BattleState, CaptureQualitySource, CombatState, DpsTimeBasis, EngineEvent, Inventory,
    TimeStopEvent,
};
use crate::reducer::{
    accepts_all, apply_engine_event, reduces, BattleUpdate, CoreSignal, EngineStep,
};
use crate::rpc::{CaptureProfile, RpcError};
use crate::runtime::{OperationId, RuntimeControl};

verus! {

broadcast use vstd::std_specs::hash::group_hash_axioms;

/// How often a changed battle summary is published, in milliseconds.
pub const BATTLE_SUMMARY_INTERVAL_MS: u64 = 250;

/// How many requests wait for the session at most.
pub const COMMAND_QUEUE_CAPACITY: usize = 128;

/// How many messages wait for the client at most.
pub const OUTBOUND_QUEUE_CAPACITY: usize = 1024;

/// The inventory as it was captured last. The contents are what the item
/// catalogue makes of it.
#[derive(Clone, Debug)]
pub struct InventorySnapshot<C> {
    pub generation: u64,
    pub captured_at_unix_ms: u64,
    pub contents: C,
}

#[derive(Clone, Copy, Debug, PartialEq, Eq, Structural)]
pub struct SummaryEvent {
    pub sequence: u64,
    pub summary: CombatSessionSummary,
}

#[derive(Clone, Copy, Debug, PartialEq, Eq, Structural)]
pub enum CaptureStatus {
    Starting,
    Running,
    Stopped,
}

#[derive(Clone, Copy, Debug, PartialEq, Eq, Structural)]
pub struct CaptureStatusEvent {
    pub sequence: u64,
    pub operation: OperationId,
    pub status: CaptureStatus,
    pub profile: CaptureProfile,
}

/// What the client is told without having asked.
#[derive(Clone, Debug)]
pub enum Event<C> {
    Inventory { sequence: u64, snapshot: InventorySnapshot<C> },
    Warning { sequence: u64 },
    Error { sequence: u64 },
    Summary(SummaryEvent),
    Capture(CaptureStatusEvent),
}

#[derive(Clone, Debug)]
pub struct StatusResult {
    pub handshaken: bool,
    pub capture_running: bool,
    pub profile: Option<CaptureProfile>,
    pub inventory_generation: Option<u64>,
    pub battle_available: bool,
    pub raw_capture_path: Option<String>,
}

/// What became of a change of equipment.
#[derive(Clone, Copy, Debug, PartialEq, Eq, Structural)]
pub enum EquipmentOutcome {
    RpcDispatched,
    DryRunOk,
}

pub type RecordReply = BattleRecordDto<CombatSessionSummary, CaptureQualitySummary>;

/// What a request that succeeded is answered with.
#[derive(Clone, Debug)]
pub enum Reply<C> {
    Hello,
    Shutdown { shutting_down: bool },
    Status(StatusResult),
    CaptureStarted { operation: OperationId },
    CaptureStopped { operation: OperationId, stopped: bool },
    Inventory(InventorySnapshot<C>),
    Equipment(EquipmentOutcome),
    Summary(Option<CombatSessionSummary>),
    Record(Option<RecordReply>),
    Axis(Option<BattleAxisDto>),
    Timeline(Option<BattleTimelineDto>),
    Reset { reset: bool },
}

/// One message to the client. A failure without an id belongs to no request.
#[derive(Clone, Debug)]
pub enum Message<C> {
    Success { id: String, result: Reply<C> },
    Failure { id: Option<String>, error: RpcError },
    Notification(Event<C>),
}

/// What the caller has to do. When a checked message cannot be sent any more,
/// the session ends; other messages may be lost.
#[derive(Clone, Debug)]
pub enum Effect<C> {
    Send { message: Message<C>, checked: bool },
    /// Replace the summary that waits to be written.
    PublishSummary(SummaryEvent),
    /// Drop the summary that waits to be written.
    ClearSummary,
}

/// The method that a notification is sent under.
pub open spec fn event_method<C>(event: Event<C>) -> Seq<char> {
    match event {
        Event::Inventory { .. } => "event.inventory.snapshot"@,
        Event::Warning { .. } => "event.core.warning"@,
        Event::Error { .. } => "event.core.error"@,
        Event::Summary(_) => "event.battle.summary"@,
        Event::Capture(_) => "event.capture.status"@,
    }
}

impl<C> Event<C> {
    pub fn method(&self) -> (result: &'static str)
        ensures
            result@ == event_method(*self),
    {
        match self {
            Event::Inventory { .. } => "event.inventory.snapshot",
            Event::Warning { .. } => "event.core.warning",
            Event::Error { .. } => "event.core.error",
            Event::Summary(_) => "event.battle.summary",
            Event::Capture(_) => "event.capture.status",
        }
    }

    /// What a warning or an error says; the details stay here.
    pub fn core_message(&self) -> (result: Option<&'static str>)
        ensures
            match *self {
                Event::Warning { .. } => result matches Some(text) && text@ == "Capture warning"@,
                Event::Error { .. } => result matches Some(text) && text@ == "Capture failed"@,
                _ => result is None,
            },
    {
        match self {
            Event::Warning { .. } => Some("Capture warning"),
            Event::Error { .. } => Some("Capture failed"),
            _ => None,
        }
    }
}

impl CaptureStatus {
    pub fn text(self) -> (result: &'static str)
        ensures
            result@ == (match self {
                CaptureStatus::Starting => "starting"@,
                CaptureStatus::Running => "running"@,
                CaptureStatus::Stopped => "stopped"@,
            }),
    {
        match self {
            CaptureStatus::Starting => "starting",
            CaptureStatus::Running => "running",
            CaptureStatus::Stopped => "stopped",
        }
    }
}

impl EquipmentOutcome {
    pub fn text(self) -> (result: &'static str)
        ensures
            result@ == (match self {
                EquipmentOutcome::RpcDispatched => "rpc_dispatched"@,
                EquipmentOutcome::DryRunOk => "dry_run_ok"@,
            }),
    {
        match self {
            EquipmentOutcome::RpcDispatched => "rpc_dispatched",
            EquipmentOutcome::DryRunOk => "dry_run_ok",
        }
    }
}

/// The newest message of a stream whose older ones need not be written.
#[derive(Clone, Debug)]
pub struct LatestMessage<T> {
    pub slot: Option<T>,
}

impl<T> LatestMessage<T> {
    pub fn new() -> (result: Self)
        ensures
            result.slot is None,
    {
        LatestMessage { slot: None }
    }

    pub fn publish(&mut self, message: T)
        ensures
            final(self).slot == Some(message),
    {
        self.slot = Some(message);
    }

    pub fn clear(&mut self)
        ensures
            final(self).slot is None,
    {
        self.slot = None;
    }

    pub fn take(&mut self) -> (message: Option<T>)
        ensures
            message == old(self).slot,
            final(self).slot is None,
    {
        self.slot.take()
    }
}

/// An event with the time of its arrival, in milliseconds of the calendar.
#[derive(Clone, Debug)]
pub struct StampedEvent {
    pub event: EngineEvent,
    pub received_at_unix_ms: u64,
}

#[derive(Debug)]
pub struct Runtime<C> {
    pub state: CombatState,
    pub control: RuntimeControl,
    pub latest_inventory: Option<InventorySnapshot<C>>,
    /// The client's ids of the requests that the mod loader has not answered.
    pub pending_equipment_requests: HashMap<u64, String>,
}

/// The time basis that stands for whether stopped time is subtracted.
pub open spec fn basis_of(subtract_time_stop: bool) -> DpsTimeBasis {
    if subtract_time_stop {
        DpsTimeBasis::SubtractTimeStop
    } else {
        DpsTimeBasis::WallClock
    }
}

/// The engine summarises every state.
pub open spec fn summarizes_all<
    S: Fn(&CombatState, CaptureQualitySource, DpsTimeBasis, bool) -> Option<CombatSessionSummary>,
>(summarize: S) -> bool {
    forall|state: CombatState, source: CaptureQualitySource, basis: DpsTimeBasis|
        #[trigger] call_requires(summarize, (&state, source, basis, false))
}

/// Whether `summary` is the engine's summary of a live state.
pub open spec fn is_summary<
    S: Fn(&CombatState, CaptureQualitySource, DpsTimeBasis, bool) -> Option<CombatSessionSummary>,
>(
    summarize: S,
    state: CombatState,
    subtract_time_stop: bool,
    summary: Option<CombatSessionSummary>,
) -> bool {
    call_ensures(
        summarize,
        (&state, CaptureQualitySource::Live, basis_of(subtract_time_stop), false),
        summary,
    )
}

/// The item catalogue takes every inventory.
pub open spec fn enriches_all<C, I: Fn(&Inventory) -> C>(enrich: I) -> bool {
    forall|inventory: Inventory| #[trigger] call_requires(enrich, (&inventory,))
}

/// An event that can pause or resume the battle clock.
pub open spec fn may_change_time_stop(state: CombatState, event: EngineEvent) -> bool {
    match event {
        EngineEvent::TimeStop(TimeStopEvent::GamePauseStarted { timestamp, .. }) =>
            timestamp.finite(),
        EngineEvent::TimeStop(TimeStopEvent::GamePauseEnded { .. }) => state.battle.game_paused,
        _ => false,
    }
}

/// Whether an event changed what battle reads show.
pub open spec fn changes_projection(
    before: CombatState,
    event: EngineEvent,
    after: CombatState,
) -> bool {
    after.battle.team.hits_generation != before.battle.team.hits_generation
        || after.battle.abyss.event_count != before.battle.abyss.event_count
        || may_change_time_stop(before, event)
}

/// How many hits fell off the front when an event was applied.
pub open spec fn dropped_by(before: CombatState, event: EngineEvent, after: CombatState) -> u64 {
    let length = before.battle.team.hits@.len();
    let held = if length < usize::MAX {
        length + 1
    } else {
        length
    };
    let kept = after.battle.team.hits@.len();
    if event is Hit && kept < held {
        (held - kept) as u64
    } else {
        0
    }
}

/// A checked message, and nothing else.
pub open spec fn replies<C>(message: Message<C>) -> Seq<Effect<C>> {
    seq![Effect::Send { message, checked: true }]
}

/// A notification, and nothing else.
pub open spec fn notifies<C>(event: Event<C>) -> Seq<Effect<C>> {
    seq![Effect::Send { message: Message::Notification(event), checked: false }]
}

/// The effects of the last summary of a capture, and the control after it.
pub open spec fn final_summary<C>(summary: Option<CombatSessionSummary>, sequence: u64) -> Seq<
    Effect<C>,
> {
    match summary {
        Some(summary) => seq![Effect::<C>::ClearSummary] + notifies(
            Event::Summary(SummaryEvent { sequence: (sequence + 1) as u64, summary }),
        ),
        None => seq![Effect::ClearSummary],
    }
}

impl RuntimeControl {
    /// The battle changed in a way that its summary shows.
    pub open spec fn marked_dirty(self, has_content: bool, dropped_hits: u64) -> Self {
        RuntimeControl { battle_summary_dirty: true, ..self.marked(has_content, dropped_hits) }
    }

    /// The last summary of a capture was sent.
    pub open spec fn summarized(self, summary: Option<CombatSessionSummary>) -> Self {
        let clean = RuntimeControl { battle_summary_dirty: false, ..self };
        if summary is Some {
            clean.numbered()
        } else {
            clean
        }
    }

    /// No capture runs any more.
    pub open spec fn without_capture(self) -> Self {
        RuntimeControl { capture: None, active_operation: None, running_notified: false, ..self }
    }
}

/// The capture status that is numbered next.
pub open spec fn next_status(
    control: RuntimeControl,
    operation: OperationId,
    profile: CaptureProfile,
    status: CaptureStatus,
) -> CaptureStatusEvent {
    CaptureStatusEvent { sequence: (control.sequence + 1) as u64, operation, status, profile }
}

/// A new inventory was published.
pub open spec fn publishes_inventory<C: Clone, I: Fn(&Inventory) -> C>(
    enrich: I,
    before: Runtime<C>,
    now: u64,
    after: Runtime<C>,
    effects: Seq<Effect<C>>,
) -> bool {
    let generation = (before.control.inventory_generation + 1) as u64;
    &&& after.control == (RuntimeControl {
        inventory_generation: generation,
        sequence: (before.control.sequence + 1) as u64,
        ..before.control
    })
    &&& after.latest_inventory matches Some(kept)
    &&& kept.generation == generation
    &&& kept.captured_at_unix_ms == now
    &&& call_ensures(enrich, (&after.state.inventory,), kept.contents)
    &&& effects.len() == 1
    &&& effects[0] matches Effect::Send { message, checked }
    &&& !checked
    &&& message matches Message::Notification(Event::Inventory { sequence, snapshot })
    &&& sequence == after.control.sequence
    &&& snapshot.generation == generation
    &&& snapshot.captured_at_unix_ms == now
    &&& cloned(kept.contents, snapshot.contents)
}

/// What the session does about a signal, once its state has taken an event
/// that changed the battle's projection or not, and dropped hits.
#[verifier::opaque]
pub open spec fn reacts<
    C: Clone,
    I: Fn(&Inventory) -> C,
    S: Fn(&CombatState, CaptureQualitySource, DpsTimeBasis, bool) -> Option<CombatSessionSummary>,
>(
    enrich: I,
    summarize: S,
    before: Runtime<C>,
    projection_changed: bool,
    dropped_hits: u64,
    now: u64,
    signal: CoreSignal,
    after: Runtime<C>,
    effects: Seq<Effect<C>>,
) -> bool {
    let has_content = after.state.battle.has_content();
    &&& after.pending_equipment_requests == before.pending_equipment_requests
    &&& signal !is InventoryReplaced ==> after.latest_inventory == before.latest_inventory
    &&& match signal {
        CoreSignal::StateChanged => effects.len() == 0 && after.control == (
        if projection_changed {
            before.control.marked_dirty(has_content, dropped_hits)
        } else {
            before.control
        }),
        CoreSignal::PacketObserved => effects.len() == 0 && after.control == before.control.marked(
            has_content,
            0,
        ),
        CoreSignal::ModScript { state_changed, .. } => effects.len() == 0 && after.control == (
        if state_changed {
            before.control.marked_dirty(has_content, 0)
        } else {
            before.control
        }),
        CoreSignal::DebugPacket
        | CoreSignal::PartyEffectsReplaced { .. }
        | CoreSignal::InventoryCharactersReplaced => effects.len() == 0 && after.control
            == before.control,
        CoreSignal::InventoryReplaced => publishes_inventory(enrich, before, now, after, effects),
        CoreSignal::Status(_) => match before.control.capture {
            Some(profile) if !before.control.running_notified => {
                &&& after.control == (RuntimeControl {
                    running_notified: true,
                    ..before.control.numbered()
                })
                &&& effects == notifies::<C>(
                    Event::Capture(
                        next_status(
                            before.control,
                            before.control.active_operation->0,
                            profile,
                            CaptureStatus::Running,
                        ),
                    ),
                )
            },
            _ => effects.len() == 0 && after.control == before.control,
        },
        CoreSignal::Warning(_) => {
            &&& after.control == before.control.numbered()
            &&& effects == notifies::<C>(Event::Warning { sequence: after.control.sequence })
        },
        CoreSignal::Error(_) => {
            &&& after.control == before.control.numbered()
            &&& effects == notifies::<C>(Event::Error { sequence: after.control.sequence })
        },
        CoreSignal::CaptureStopped => match before.control.capture {
            Some(profile) => stops(summarize, before.control, profile, now, after, effects),
            None => effects.len() == 0 && after.control == before.control,
        },
    }
}

/// A capture ended by itself: the record is closed, the last summary is sent,
/// and then the status.
pub open spec fn stops<
    C,
    S: Fn(&CombatState, CaptureQualitySource, DpsTimeBasis, bool) -> Option<CombatSessionSummary>,
>(
    summarize: S,
    before: RuntimeControl,
    profile: CaptureProfile,
    now: u64,
    after: Runtime<C>,
    effects: Seq<Effect<C>>,
) -> bool {
    let operation = before.active_operation->0;
    let closed = before.without_capture().finalized(Some(operation), now);
    exists|summary: Option<CombatSessionSummary>| #[trigger]
        is_summary(summarize, after.state, true, summary) && {
            &&& after.control == closed.summarized(summary).numbered()
            &&& effects == final_summary::<C>(summary, closed.sequence) + notifies::<C>(
                Event::Capture(
                    next_status(
                        closed.summarized(summary),
                        operation,
                        profile,
                        CaptureStatus::Stopped,
                    ),
                ),
            )
        }
}

/// What one event does to a session.
pub open spec fn processed<
    C: Clone,
    E: Fn(BattleState, &BattleUpdate) -> EngineStep,
    I: Fn(&Inventory) -> C,
    S: Fn(&CombatState, CaptureQualitySource, DpsTimeBasis, bool) -> Option<CombatSessionSummary>,
>(
    engine: E,
    enrich: I,
    summarize: S,
    before: Runtime<C>,
    event: EngineEvent,
    now: u64,
    after: Runtime<C>,
    effects: Seq<Effect<C>>,
) -> bool {
    exists|signal: CoreSignal| #[trigger]
        reduces(engine, before.state, event, after.state, signal) && reacts(
            enrich,
            summarize,
            before,
            changes_projection(before.state, event, after.state),
            dropped_by(before.state, event, after.state),
            now,
            signal,
            after,
            effects,
        )
}

impl<C: Clone> Runtime<C> {
    /// The session can still number `messages` messages.
    pub open spec fn has_room(self, messages: nat) -> bool {
        self.control.sequence + messages <= u64::MAX && self.control.inventory_generation + messages
            <= u64::MAX
    }

    pub open spec fn with_control(self, control: RuntimeControl) -> Self {
        Runtime { control, ..self }
    }

    pub fn new() -> (result: Self)
        ensures
            result.state.blank(),
            result.control == (RuntimeControl {
                handshaken: false,
                capture: None,
                active_operation: None,
                latest_operation: None,
                sequence: 0,
                inventory_generation: 0,
                operation_sequence: 0,
                battle_record_sequence: 0,
                equipment_request_sequence: 0,
                running_notified: false,
                battle_summary_dirty: false,
                record: None,
            }),
            result.latest_inventory is None,
            result.pending_equipment_requests@ == Map::<u64, String>::empty(),
    {
        Runtime {
            state: CombatState::default(),
            control: RuntimeControl {
                handshaken: false,
                capture: None,
                active_operation: None,
                latest_operation: None,
                sequence: 0,
                inventory_generation: 0,
                operation_sequence: 0,
                battle_record_sequence: 0,
                equipment_request_sequence: 0,
                running_notified: false,
                battle_summary_dirty: false,
                record: None,
            },
            latest_inventory: None,
            pending_equipment_requests: HashMap::new(),
        }
    }

    /// Numbers one more message.
    fn next_sequence(&mut self) -> (sequence: u64)
        requires
            old(self).control.sequence < u64::MAX,
        ensures
            *final(self) == (Runtime { control: old(self).control.numbered(), ..*old(self) }),
            sequence == final(self).control.sequence,
    {
        self.control.sequence = self.control.sequence + 1;
        self.control.sequence
    }

    /// Notifies the client of what became of a capture.
    pub fn send_capture_status_for(
        &mut self,
        effects: &mut Vec<Effect<C>>,
        operation: OperationId,
        profile: CaptureProfile,
        status: CaptureStatus,
    )
        requires
            old(self).control.sequence < u64::MAX,
        ensures
            *final(self) == (Runtime { control: old(self).control.numbered(), ..*old(self) }),
            final(effects)@ == old(effects)@ + notifies::<C>(
                Event::Capture(next_status(old(self).control, operation, profile, status)),
            ),
    {
        let sequence: u64 = self.next_sequence();
        let event = CaptureStatusEvent { sequence, operation, status, profile };
        effects.push(
            Effect::Send { message: Message::Notification(Event::Capture(event)), checked: false },
        );
        assert(effects@ =~= old(effects)@ + notifies::<C>(
            Event::Capture(next_status(old(self).control, operation, profile, status)),
        ));
    }

    /// The engine's summary of the session.
    pub fn battle_summary<
        S: Fn(&CombatState, CaptureQualitySource, DpsTimeBasis, bool) -> Option<
            CombatSessionSummary,
        >,
    >(&self, subtract_time_stop: bool, summarize: &S) -> (summary: Option<CombatSessionSummary>)
        requires
            summarizes_all(*summarize),
        ensures
            is_summary(*summarize, self.state, subtract_time_stop, summary),
    {
        let basis = DpsTimeBasis::from_subtract_time_stop(subtract_time_stop);
        summarize(&self.state, CaptureQualitySource::Live, basis, false)
    }

    /// Sends the last summary of a capture, which cannot be coalesced.
    pub fn send_final_battle_summary<
        S: Fn(&CombatState, CaptureQualitySource, DpsTimeBasis, bool) -> Option<
            CombatSessionSummary,
        >,
    >(&mut self, effects: &mut Vec<Effect<C>>, summarize: &S)
        requires
            summarizes_all(*summarize),
            old(self).control.sequence < u64::MAX,
        ensures
            exists|summary: Option<CombatSessionSummary>| #[trigger]
                is_summary(*summarize, old(self).state, true, summary) && {
                    &&& *final(self) == (Runtime {
                        control: old(self).control.summarized(summary),
                        ..*old(self)
                    })
                    &&& final(effects)@ == old(effects)@ + final_summary::<C>(
                        summary,
                        old(self).control.sequence,
                    )
                },
    {
        self.control.battle_summary_dirty = false;
        effects.push(Effect::ClearSummary);
        let summary = self.battle_summary(true, summarize);
        if let Some(summary) = summary {
            let sequence: u64 = self.next_sequence();
            effects.push(
                Effect::Send {
                    message: Message::Notification(
                        Event::Summary(SummaryEvent { sequence, summary }),
                    ),
                    checked: false,
                },
            );
        }
        proof {
            assert(is_summary(*summarize, old(self).state, true, summary));
            assert(effects@ =~= old(effects)@ + final_summary::<C>(
                summary,
                old(self).control.sequence,
            ));
        }
    }

    /// Publishes a changed summary, which replaces one that was not written
    /// yet.
    pub fn flush_battle_summary<
        S: Fn(&CombatState, CaptureQualitySource, DpsTimeBasis, bool) -> Option<
            CombatSessionSummary,
        >,
    >(&mut self, summarize: &S) -> (effects: Vec<Effect<C>>)
        requires
            summarizes_all(*summarize),
            old(self).control.sequence < u64::MAX,
        ensures
            if !old(self).control.battle_summary_dirty {
                *final(self) == *old(self) && effects@.len() == 0
            } else {
                exists|summary: Option<CombatSessionSummary>| #[trigger]
                    is_summary(*summarize, old(self).state, true, summary) && {
                        &&& *final(self) == (Runtime {
                            control: old(self).control.summarized(summary),
                            ..*old(self)
                        })
                        &&& effects@ == (match summary {
                            Some(summary) => seq![
                                Effect::<C>::PublishSummary(
                                    SummaryEvent {
                                        sequence: final(self).control.sequence,
                                        summary,
                                    },
                                ),
                            ],
                            None => Seq::<Effect<C>>::empty(),
                        })
                    }
            },
    {
        let mut effects: Vec<Effect<C>> = Vec::new();
        if !self.control.battle_summary_dirty {
            return effects;
        }
        self.control.battle_summary_dirty = false;
        let summary = self.battle_summary(true, summarize);
        if let Some(summary) = summary {
            let sequence: u64 = self.next_sequence();
            effects.push(Effect::PublishSummary(SummaryEvent { sequence, summary }));
        }
        assert(is_summary(*summarize, old(self).state, true, summary));
        effects
    }
}

impl<C: Clone> Runtime<C> {
    /// Publishes the inventory that the session holds.
    fn publish_inventory_snapshot<I: Fn(&Inventory) -> C>(
        &mut self,
        effects: &mut Vec<Effect<C>>,
        now: u64,
        enrich: &I,
    )
        requires
            enriches_all::<C, I>(*enrich),
            old(self).has_room(1),
            old(effects)@.len() == 0,
        ensures
            publishes_inventory(*enrich, *old(self), now, *final(self), final(effects)@),
            final(self).state == old(self).state,
            final(self).pending_equipment_requests == old(self).pending_equipment_requests,
    {
        let generation: u64 = self.control.inventory_generation + 1;
        self.control.inventory_generation = generation;
        let contents: C = enrich(&self.state.inventory);
        let copy: C = contents.clone();
        self.latest_inventory = Some(
            InventorySnapshot { generation, captured_at_unix_ms: now, contents },
        );
        let sequence: u64 = self.next_sequence();
        effects.push(
            Effect::Send {
                message: Message::Notification(
                    Event::Inventory {
                        sequence,
                        snapshot: InventorySnapshot {
                            generation,
                            captured_at_unix_ms: now,
                            contents: copy,
                        },
                    },
                ),
                checked: false,
            },
        );
    }

    /// A capture ended by itself.
    fn close_capture<
        S: Fn(&CombatState, CaptureQualitySource, DpsTimeBasis, bool) -> Option<
            CombatSessionSummary,
        >,
    >(
        &mut self,
        effects: &mut Vec<Effect<C>>,
        operation: OperationId,
        profile: CaptureProfile,
        now: u64,
        summarize: &S,
    )
        requires
            summarizes_all(*summarize),
            old(self).has_room(2),
            old(self).control.active_operation == Some(operation),
            old(effects)@.len() == 0,
        ensures
            stops(*summarize, old(self).control, profile, now, *final(self), final(effects)@),
            *final(self) == (Runtime { control: final(self).control, ..*old(self) }),
    {
        self.control.active_operation = None;
        self.control.capture = None;
        self.control.running_notified = false;
        self.control.finalize_current_battle_record(Some(operation), now);
        let ghost closed = self.control;
        self.send_final_battle_summary(effects, summarize);
        let ghost summary = choose|summary: Option<CombatSessionSummary>| #[trigger]
            is_summary(*summarize, old(self).state, true, summary) && self.control
                == closed.summarized(summary) && effects@ == old(effects)@ + final_summary::<C>(
                summary,
                closed.sequence,
            );
        proof {
            assert(old(effects)@ + final_summary::<C>(summary, closed.sequence)
                =~= final_summary::<C>(summary, closed.sequence));
        }
        self.send_capture_status_for(effects, operation, profile, CaptureStatus::Stopped);
        assert(is_summary(*summarize, self.state, true, summary));
    }

    /// Reacts to the signal of an event that the state has taken.
    fn react<
        I: Fn(&Inventory) -> C,
        S: Fn(&CombatState, CaptureQualitySource, DpsTimeBasis, bool) -> Option<
            CombatSessionSummary,
        >,
    >(
        &mut self,
        signal: CoreSignal,
        projection_changed: bool,
        dropped_hits: u64,
        now: u64,
        enrich: &I,
        summarize: &S,
    ) -> (effects: Vec<Effect<C>>)
        requires
            enriches_all::<C, I>(*enrich),
            summarizes_all(*summarize),
            old(self).control.coherent(),
            old(self).has_room(2),
        ensures
            reacts(
                *enrich,
                *summarize,
                *old(self),
                projection_changed,
                dropped_hits,
                now,
                signal,
                *final(self),
                effects@,
            ),
            final(self).state == old(self).state,
            final(self).control.coherent(),
            final(self).control.sequence <= old(self).control.sequence + 2,
            final(self).control.inventory_generation <= old(self).control.inventory_generation + 1,
    {
        reveal(reacts);
        let mut effects: Vec<Effect<C>> = Vec::new();
        let has_content = self.state.battle.is_archivable();
        match signal {
            CoreSignal::StateChanged => {
                if projection_changed {
                    self.control.mark_battle_changed(has_content, dropped_hits);
                    self.control.battle_summary_dirty = true;
                }
            },
            CoreSignal::PacketObserved => {
                self.control.mark_battle_changed(has_content, 0);
            },
            CoreSignal::ModScript { state_changed, .. } => {
                if state_changed {
                    self.control.mark_battle_changed(has_content, 0);
                    self.control.battle_summary_dirty = true;
                }
            },
            CoreSignal::DebugPacket
            | CoreSignal::PartyEffectsReplaced { .. }
            | CoreSignal::InventoryCharactersReplaced => {},
            CoreSignal::InventoryReplaced => {
                self.publish_inventory_snapshot(&mut effects, now, enrich);
            },
            CoreSignal::Status(_) => {
                if let (Some(profile), Some(operation)) = (
                    self.control.capture,
                    self.control.active_operation,
                ) {
                    if !self.control.running_notified {
                        self.control.running_notified = true;
                        self.send_capture_status_for(
                            &mut effects,
                            operation,
                            profile,
                            CaptureStatus::Running,
                        );
                    }
                }
            },
            CoreSignal::Warning(_) => {
                let sequence: u64 = self.next_sequence();
                effects.push(
                    Effect::Send {
                        message: Message::Notification(Event::Warning { sequence }),
                        checked: false,
                    },
                );
            },
            CoreSignal::Error(_) => {
                let sequence: u64 = self.next_sequence();
                effects.push(
                    Effect::Send {
                        message: Message::Notification(Event::Error { sequence }),
                        checked: false,
                    },
                );
            },
            CoreSignal::CaptureStopped => {
                if let (Some(profile), Some(operation)) = (
                    self.control.capture,
                    self.control.active_operation,
                ) {
                    self.close_capture(&mut effects, operation, profile, now, summarize);
                }
            },
        }
        effects
    }

    /// Applies one engine event and reacts to its signal.
    pub fn process_engine_event<
        E: Fn(BattleState, &BattleUpdate) -> EngineStep,
        I: Fn(&Inventory) -> C,
        S: Fn(&CombatState, CaptureQualitySource, DpsTimeBasis, bool) -> Option<
            CombatSessionSummary,
        >,
    >(
        &mut self,
        event: EngineEvent,
        now: u64,
        engine: &E,
        enrich: &I,
        summarize: &S,
    ) -> (effects: Vec<Effect<C>>)
        requires
            accepts_all(*engine),
            enriches_all::<C, I>(*enrich),
            summarizes_all(*summarize),
            old(self).control.coherent(),
            old(self).has_room(2),
        ensures
            processed(
                *engine,
                *enrich,
                *summarize,
                *old(self),
                event,
                now,
                *final(self),
                effects@,
            ),
            final(self).control.coherent(),
            final(self).control.sequence <= old(self).control.sequence + 2,
            final(self).control.inventory_generation <= old(self).control.inventory_generation + 1,
    {
        let ghost before = *self;
        let ghost taken = event;
        let appended_hit = matches!(&event, EngineEvent::Hit(_));
        let previous_hit_count: usize = self.state.battle.team.hits.len();
        let previous_hits_generation: u64 = self.state.battle.team.hits_generation;
        let previous_abyss_event_count: u64 = self.state.battle.abyss.event_count;
        let time_stop_state_may_change = match &event {
            EngineEvent::TimeStop(TimeStopEvent::GamePauseStarted { timestamp, .. }) =>
                timestamp.is_finite(),
            EngineEvent::TimeStop(TimeStopEvent::GamePauseEnded { .. }) =>
                self.state.battle.game_paused,
            _ => false,
        };
        let signal = apply_engine_event(&mut self.state, event, engine);
        let hit_count: usize = self.state.battle.team.hits.len();
        let held: usize = if previous_hit_count < usize::MAX {
            previous_hit_count + 1
        } else {
            previous_hit_count
        };
        let dropped_hits: u64 = if appended_hit && hit_count < held {
            (held - hit_count) as u64
        } else {
            0
        };
        let projection_changed = self.state.battle.team.hits_generation
            != previous_hits_generation || self.state.battle.abyss.event_count
            != previous_abyss_event_count || time_stop_state_may_change;
        let ghost signalled = signal;
        let ghost applied = *self;
        let effects = self.react(
            signal,
            projection_changed,
            dropped_hits,
            now,
            enrich,
            summarize,
        );
        proof {
            assert(reduces(*engine, before.state, taken, self.state, signalled));
            same_reaction(
                *enrich,
                *summarize,
                applied,
                before,
                projection_changed,
                dropped_hits,
                now,
                signalled,
                *self,
                effects@,
            );
        }
        effects
    }
}

/// A reaction does not depend on the state before the event.
proof fn same_reaction<
    C: Clone,
    I: Fn(&Inventory) -> C,
    S: Fn(&CombatState, CaptureQualitySource, DpsTimeBasis, bool) -> Option<CombatSessionSummary>,
>(
    enrich: I,
    summarize: S,
    applied: Runtime<C>,
    before: Runtime<C>,
    projection_changed: bool,
    dropped_hits: u64,
    now: u64,
    signal: CoreSignal,
    after: Runtime<C>,
    effects: Seq<Effect<C>>,
)
    requires
        reacts(
            enrich,
            summarize,
            applied,
            projection_changed,
            dropped_hits,
            now,
            signal,
            after,
            effects,
        ),
        applied == (Runtime { state: applied.state, ..before }),
    ensures
        reacts(
            enrich,
            summarize,
            before,
            projection_changed,
            dropped_hits,
            now,
            signal,
            after,
            effects,
        ),
{
    reveal(reacts);
}

} // verus!
