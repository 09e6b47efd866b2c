//! The one place where an engine event meets the session state. Every frontend
//! routes its events through [`apply_engine_event`] and acts on the signal.
use vstd::prelude::*;

use crate::model::{
    AbyssEvent, AbyssState, BattleState, CombatState, EmptyCurtainCharacter, EmptyCurtainItem,
    EngineEvent, Hit, HitActiveEffect, HitDamageCorrection, HitFollowUp, Inventory, ModScriptEvent,
    PacketDebug, PacketLog, PacketObservation, PartyEffectSnapshot, TimeStopEvent,
};

verus! {

/// What the caller still has to do after the state was updated.
#[derive(Debug, PartialEq)]
pub enum CoreSignal {
    /// A hit, follow-up, correction, abyss event or time stop was applied.
    StateChanged,
    /// The equipment snapshot was replaced wholesale.
    InventoryReplaced,
    /// The character-to-item mapping was replaced wholesale.
    InventoryCharactersReplaced,
    /// A debug packet was recorded.
    DebugPacket,
    /// The packet counters moved without a retained payload.
    PacketObserved,
    /// A script message. `state_changed` tells whether a projection changed;
    /// revisions key off it and never off the event alone.
    ModScript { event: Box<ModScriptEvent>, state_changed: bool },
    PartyEffectsReplaced { state_changed: bool },
    /// A status line to surface.
    Status(String),
    /// A degradation that is not fatal.
    Warning(String),
    /// The engine task failed.
    Error(String),
    CaptureStopped,
}

/// An update that only the combat engine can carry out.
#[derive(Clone, Debug)]
pub enum BattleUpdate {
    Hit(Hit),
    FollowUp(HitFollowUp),
    DamageCorrection(HitDamageCorrection),
    Packet(PacketDebug),
    Abyss(AbyssEvent),
    TimeStop(TimeStopEvent),
    ModScript(ModScriptEvent),
}

/// What the engine made of an update.
#[derive(Clone, Debug)]
pub struct EngineStep {
    pub battle: BattleState,
    /// The update changed something that a projection shows.
    pub projection_changed: bool,
}

/// The engine takes every update on every battle.
pub open spec fn accepts_all<E: Fn(BattleState, &BattleUpdate) -> EngineStep>(engine: E) -> bool {
    forall|battle: BattleState, update: BattleUpdate|
        #[trigger] call_requires(engine, (battle, &update))
}

/// The engine update that an event calls for, if it calls for one.
pub open spec fn update_of(event: EngineEvent) -> Option<BattleUpdate> {
    match event {
        EngineEvent::Hit(hit) => Some(BattleUpdate::Hit(hit)),
        EngineEvent::HitFollowUp(follow_up) => Some(BattleUpdate::FollowUp(follow_up)),
        EngineEvent::HitDamageCorrection(correction) => Some(
            BattleUpdate::DamageCorrection(correction),
        ),
        EngineEvent::Packet(packet) => Some(BattleUpdate::Packet(packet)),
        EngineEvent::Abyss(abyss) => Some(BattleUpdate::Abyss(abyss)),
        EngineEvent::TimeStop(time_stop) => Some(BattleUpdate::TimeStop(time_stop)),
        EngineEvent::ModScript(script) => Some(BattleUpdate::ModScript(script)),
        _ => None,
    }
}

/// A restart that arrives after the challenge was left starts from nothing.
pub open spec fn forgets_abyss(abyss: AbyssState, event: EngineEvent) -> bool {
    event is Abyss && event->Abyss_0 is RestartDetected && abyss.active_half is None
        && abyss.exited_at is Some
}

/// The battle that the engine gets to see for an event.
pub open spec fn handed_to_engine(
    before: BattleState,
    event: EngineEvent,
    handed: BattleState,
) -> bool {
    if forgets_abyss(before.abyss, event) {
        handed.abyss.blank() && handed == (BattleState { abyss: handed.abyss, ..before })
    } else {
        handed == before
    }
}

/// The packet counters after one more packet.
pub open spec fn counted(log: PacketLog, observation: PacketObservation) -> PacketLog {
    PacketLog {
        packet_count: if log.packet_count == u64::MAX {
            u64::MAX
        } else {
            (log.packet_count + 1) as u64
        },
        packets_with_hits: if observation.parsed_hits == 0 || log.packets_with_hits == u64::MAX {
            log.packets_with_hits
        } else {
            (log.packets_with_hits + 1) as u64
        },
        ..log
    }
}

/// The generation that follows `generation`; after the last comes the first.
pub open spec fn next_generation(generation: u64) -> u64 {
    if generation == u64::MAX {
        0
    } else {
        (generation + 1) as u64
    }
}

/// Advances a generation.
pub fn advance_generation(generation: u64) -> (result: u64)
    ensures
        result == next_generation(generation),
{
    if generation == u64::MAX {
        0
    } else {
        generation + 1
    }
}

/// Two effect snapshots with the same content.
pub open spec fn same_snapshot(left: PartyEffectSnapshot, right: PartyEffectSnapshot) -> bool {
    left.snapshot_sequence == right.snapshot_sequence && left.character_id == right.character_id
        && left.effects@ == right.effects@
}

/// Two snapshot lists with the same content in the same order.
pub open spec fn same_snapshots(
    left: Seq<PartyEffectSnapshot>,
    right: Seq<PartyEffectSnapshot>,
) -> bool {
    left.len() == right.len() && forall|i: int|
        0 <= i < left.len() ==> same_snapshot(#[trigger] left[i], right[i])
}

/// The signal for an event, given what became of it.
pub open spec fn signal_for(event: EngineEvent, changed: bool, signal: CoreSignal) -> bool {
    match event {
        EngineEvent::Hit(_)
        | EngineEvent::HitFollowUp(_)
        | EngineEvent::HitDamageCorrection(_)
        | EngineEvent::Abyss(_)
        | EngineEvent::TimeStop(_) => signal == CoreSignal::StateChanged,
        EngineEvent::Packet(_) => signal == CoreSignal::DebugPacket,
        EngineEvent::PacketObservation(_) => signal == CoreSignal::PacketObserved,
        EngineEvent::EmptyCurtain(_) => signal == CoreSignal::InventoryReplaced,
        EngineEvent::EmptyCurtainCharacters(_) => signal == CoreSignal::InventoryCharactersReplaced,
        EngineEvent::ModScript(script) => signal == (CoreSignal::ModScript {
            event: Box::new(script),
            state_changed: changed,
        }),
        EngineEvent::PartyEffects(_) => signal == (CoreSignal::PartyEffectsReplaced {
            state_changed: changed,
        }),
        EngineEvent::Status(text) => signal == CoreSignal::Status(text),
        EngineEvent::Warning(text) => signal == CoreSignal::Warning(text),
        EngineEvent::Error(text) => signal == CoreSignal::Error(text),
        EngineEvent::CaptureStopped => signal == CoreSignal::CaptureStopped,
    }
}

/// What an event that needs no engine does to the state.
pub open spec fn applied_directly(
    before: CombatState,
    event: EngineEvent,
    after: CombatState,
    changed: bool,
) -> bool {
    match event {
        EngineEvent::PacketObservation(observation) => after == (CombatState {
            battle: BattleState {
                packet_log: counted(before.battle.packet_log, observation),
                ..before.battle
            },
            ..before
        }),
        EngineEvent::EmptyCurtain(items) => after == (CombatState {
            inventory: Inventory {
                items,
                items_generation: next_generation(before.inventory.items_generation),
                ..before.inventory
            },
            ..before
        }),
        EngineEvent::EmptyCurtainCharacters(characters) => after == (CombatState {
            inventory: Inventory {
                characters,
                characters_generation: next_generation(before.inventory.characters_generation),
                ..before.inventory
            },
            ..before
        }),
        EngineEvent::PartyEffects(snapshots) => {
            &&& changed == !same_snapshots(before.battle.party_effects@, snapshots@)
            &&& after == (CombatState {
                battle: BattleState { party_effects: snapshots, ..before.battle },
                ..before
            })
        },
        _ => after == before,
    }
}

/// What an event does to the state, and what it signals.
#[verifier::opaque]
pub open spec fn reduces<E: Fn(BattleState, &BattleUpdate) -> EngineStep>(
    engine: E,
    before: CombatState,
    event: EngineEvent,
    after: CombatState,
    signal: CoreSignal,
) -> bool {
    match update_of(event) {
        Some(update) => exists|handed: BattleState, step: EngineStep|
            {
                &&& handed_to_engine(before.battle, event, handed)
                &&& #[trigger] call_ensures(engine, (handed, &update), step)
                &&& after == (CombatState { battle: step.battle, ..before })
                &&& signal_for(event, step.projection_changed, signal)
            },
        None => exists|changed: bool|
            applied_directly(before, event, after, changed) && #[trigger] signal_for(
                event,
                changed,
                signal,
            ),
    }
}

fn same_effect(left: &HitActiveEffect, right: &HitActiveEffect) -> (result: bool)
    ensures
        result == (*left == *right),
{
    *left == *right
}

fn snapshots_match(left: &PartyEffectSnapshot, right: &PartyEffectSnapshot) -> (result: bool)
    ensures
        result == same_snapshot(*left, *right),
{
    if left.snapshot_sequence != right.snapshot_sequence || left.character_id
        != right.character_id || left.effects.len() != right.effects.len() {
        return false;
    }
    let mut i: usize = 0;
    while i < left.effects.len()
        invariant
            i <= left.effects.len(),
            left.effects@.len() == right.effects@.len(),
            forall|k: int| 0 <= k < i ==> left.effects@[k] == #[trigger] right.effects@[k],
        decreases left.effects.len() - i,
    {
        if !same_effect(&left.effects[i], &right.effects[i]) {
            return false;
        }
        i = i + 1;
    }
    assert(left.effects@ =~= right.effects@);
    true
}

fn snapshot_lists_match(
    left: &Vec<PartyEffectSnapshot>,
    right: &Vec<PartyEffectSnapshot>,
) -> (result: bool)
    ensures
        result == same_snapshots(left@, right@),
{
    if left.len() != right.len() {
        return false;
    }
    let mut i: usize = 0;
    while i < left.len()
        invariant
            i <= left.len(),
            left@.len() == right@.len(),
            forall|k: int| 0 <= k < i ==> same_snapshot(#[trigger] left@[k], right@[k]),
        decreases left.len() - i,
    {
        if !snapshots_match(&left[i], &right[i]) {
            assert(!same_snapshot(left@[i as int], right@[i as int]));
            return false;
        }
        i = i + 1;
    }
    true
}

impl CombatState {
    /// Counts one packet without keeping its payload.
    pub fn observe_packet(&mut self, observation: PacketObservation)
        ensures
            *final(self) == (CombatState {
                battle: BattleState {
                    packet_log: counted(old(self).battle.packet_log, observation),
                    ..old(self).battle
                },
                ..*old(self)
            }),
    {
        if self.battle.packet_log.packet_count < u64::MAX {
            self.battle.packet_log.packet_count = self.battle.packet_log.packet_count + 1;
        }
        if observation.parsed_hits > 0 && self.battle.packet_log.packets_with_hits < u64::MAX {
            self.battle.packet_log.packets_with_hits = self.battle.packet_log.packets_with_hits + 1;
        }
    }

    /// Installs a new equipment snapshot.
    pub fn replace_empty_curtain(&mut self, items: Vec<EmptyCurtainItem>)
        ensures
            *final(self) == (CombatState {
                inventory: Inventory {
                    items,
                    items_generation: next_generation(old(self).inventory.items_generation),
                    ..old(self).inventory
                },
                ..*old(self)
            }),
    {
        self.inventory.items = items;
        self.inventory.items_generation = advance_generation(self.inventory.items_generation);
    }

    /// Installs a new character mapping.
    pub fn replace_empty_curtain_characters(&mut self, characters: Vec<EmptyCurtainCharacter>)
        ensures
            *final(self) == (CombatState {
                inventory: Inventory {
                    characters,
                    characters_generation: next_generation(
                        old(self).inventory.characters_generation,
                    ),
                    ..old(self).inventory
                },
                ..*old(self)
            }),
    {
        self.inventory.characters = characters;
        self.inventory.characters_generation = advance_generation(
            self.inventory.characters_generation,
        );
    }

    /// Installs the effects that the next hits freeze, and tells whether they
    /// differ from the ones in force.
    pub fn replace_party_effects(&mut self, snapshots: Vec<PartyEffectSnapshot>) -> (changed: bool)
        ensures
            changed == !same_snapshots(old(self).battle.party_effects@, snapshots@),
            *final(self) == (CombatState {
                battle: BattleState { party_effects: snapshots, ..old(self).battle },
                ..*old(self)
            }),
    {
        let changed = !snapshot_lists_match(&self.battle.party_effects, &snapshots);
        self.battle.party_effects = snapshots;
        changed
    }
}

fn run_engine<E: Fn(BattleState, &BattleUpdate) -> EngineStep>(
    state: &mut CombatState,
    update: &BattleUpdate,
    engine: &E,
) -> (projection_changed: bool)
    requires
        accepts_all(*engine),
    ensures
        exists|step: EngineStep| #[trigger]
            call_ensures(*engine, (old(state).battle, update), step) && *final(state) == (
            CombatState { battle: step.battle, ..*old(state) }) && projection_changed
                == step.projection_changed,
{
    let mut battle: BattleState = BattleState::default();
    std::mem::swap(&mut state.battle, &mut battle);
    let step = engine(battle, update);
    state.battle = step.battle;
    step.projection_changed
}

/// Applies one engine event and says what the caller still has to do.
pub fn apply_engine_event<E: Fn(BattleState, &BattleUpdate) -> EngineStep>(
    state: &mut CombatState,
    event: EngineEvent,
    engine: &E,
) -> (signal: CoreSignal)
    requires
        accepts_all(*engine),
    ensures
        reduces(*engine, *old(state), event, *final(state), signal),
{
    proof {
        reveal(reduces);
    }
    match event {
        EngineEvent::Hit(hit) => {
            run_engine(state, &BattleUpdate::Hit(hit), engine);
            CoreSignal::StateChanged
        },
        EngineEvent::HitFollowUp(follow_up) => {
            run_engine(state, &BattleUpdate::FollowUp(follow_up), engine);
            CoreSignal::StateChanged
        },
        EngineEvent::HitDamageCorrection(correction) => {
            run_engine(state, &BattleUpdate::DamageCorrection(correction), engine);
            CoreSignal::StateChanged
        },
        EngineEvent::Packet(packet) => {
            run_engine(state, &BattleUpdate::Packet(packet), engine);
            CoreSignal::DebugPacket
        },
        EngineEvent::PacketObservation(observation) => {
            state.observe_packet(observation);
            let signal = CoreSignal::PacketObserved;
            assert(signal_for(event, false, signal));
            signal
        },
        EngineEvent::Abyss(abyss) => {
            if matches!(abyss, AbyssEvent::RestartDetected { .. })
                && state.battle.abyss.active_half.is_none()
                && state.battle.abyss.exited_at.is_some() {
                state.battle.abyss = AbyssState::default();
            }
            assert(handed_to_engine(old(state).battle, event, state.battle));
            run_engine(state, &BattleUpdate::Abyss(abyss), engine);
            CoreSignal::StateChanged
        },
        EngineEvent::TimeStop(time_stop) => {
            run_engine(state, &BattleUpdate::TimeStop(time_stop), engine);
            CoreSignal::StateChanged
        },
        EngineEvent::EmptyCurtain(items) => {
            state.replace_empty_curtain(items);
            let signal = CoreSignal::InventoryReplaced;
            assert(signal_for(event, false, signal));
            signal
        },
        EngineEvent::EmptyCurtainCharacters(characters) => {
            state.replace_empty_curtain_characters(characters);
            let signal = CoreSignal::InventoryCharactersReplaced;
            assert(signal_for(event, false, signal));
            signal
        },
        EngineEvent::ModScript(script) => {
            let update = BattleUpdate::ModScript(script);
            let state_changed = run_engine(state, &update, engine);
            match update {
                BattleUpdate::ModScript(script) => CoreSignal::ModScript {
                    event: Box::new(script),
                    state_changed,
                },
                _ => {
                    assert(false);
                    CoreSignal::StateChanged
                },
            }
        },
        EngineEvent::PartyEffects(snapshots) => {
            let state_changed = state.replace_party_effects(snapshots);
            let signal = CoreSignal::PartyEffectsReplaced { state_changed };
            assert(signal_for(event, state_changed, signal));
            signal
        },
        EngineEvent::Status(text) => {
            let signal = CoreSignal::Status(text);
            assert(signal_for(event, false, signal));
            signal
        },
        EngineEvent::Warning(text) => {
            let signal = CoreSignal::Warning(text);
            assert(signal_for(event, false, signal));
            signal
        },
        EngineEvent::Error(text) => {
            let signal = CoreSignal::Error(text);
            assert(signal_for(event, false, signal));
            signal
        },
        EngineEvent::CaptureStopped => {
            let signal = CoreSignal::CaptureStopped;
            assert(signal_for(event, false, signal));
            signal
        },
    }
}

/// The signal tells which event was applied.
pub proof fn signal_tells_the_event<E: Fn(BattleState, &BattleUpdate) -> EngineStep>(
    engine: E,
    before: CombatState,
    event: EngineEvent,
    after: CombatState,
    signal: CoreSignal,
)
    requires
        reduces(engine, before, event, after, signal),
    ensures
        exists|changed: bool| #[trigger] signal_for(event, changed, signal),
{
    reveal(reduces);
}

/// Status lines, warnings, failures and the end of a capture leave the state
/// as it was.
pub proof fn lifecycle_events_leave_the_state<E: Fn(BattleState, &BattleUpdate) -> EngineStep>(
    engine: E,
    before: CombatState,
    event: EngineEvent,
    after: CombatState,
    signal: CoreSignal,
)
    requires
        reduces(engine, before, event, after, signal),
        event is Status || event is Warning || event is Error || event is CaptureStopped,
    ensures
        after == before,
{
    reveal(reduces);
}

/// Only inventory events touch the inventory, and they touch nothing else.
pub proof fn inventory_and_battle_stay_apart<E: Fn(BattleState, &BattleUpdate) -> EngineStep>(
    engine: E,
    before: CombatState,
    event: EngineEvent,
    after: CombatState,
    signal: CoreSignal,
)
    requires
        reduces(engine, before, event, after, signal),
    ensures
        event is EmptyCurtain || event is EmptyCurtainCharacters ==> after.battle == before.battle,
        !(event is EmptyCurtain || event is EmptyCurtainCharacters) ==> after.inventory
            == before.inventory,
{
    reveal(reduces);
}

/// Installing the effects that are already in force reports no change.
pub proof fn repeated_party_effects_report_no_change<
    E: Fn(BattleState, &BattleUpdate) -> EngineStep,
>(
    engine: E,
    before: CombatState,
    event: EngineEvent,
    after: CombatState,
    signal: CoreSignal,
)
    requires
        reduces(engine, before, event, after, signal),
        event matches EngineEvent::PartyEffects(snapshots) && same_snapshots(
            before.battle.party_effects@,
            snapshots@,
        ),
    ensures
        signal == (CoreSignal::PartyEffectsReplaced { state_changed: false }),
{
    reveal(reduces);
}

} // verus!
