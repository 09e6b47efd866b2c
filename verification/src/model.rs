//! The combat data that the library reads, as the combat engine reports it.
//!
//! The engine owns the numbers: it decides what a packet means, how a hit is
//! attributed and what a fight sums to. The types here hold its readings as
//! plain values. Where a reading exists once per time basis or once per
//! reaction-damage policy, both variants are held and the library picks.
use vstd::prelude::*;

use crate::double::Double;

verus! {

#[derive(Clone, Copy, Debug, PartialEq, Eq, Structural)]
pub enum HitDirection {
    Outgoing,
    Incoming,
    Unknown,
}

impl HitDirection {
    pub fn is_incoming(self) -> (result: bool)
        ensures
            result == (self == HitDirection::Incoming),
    {
        matches!(self, HitDirection::Incoming)
    }

    pub fn is_outgoing(self) -> (result: bool)
        ensures
            result == (self == HitDirection::Outgoing),
    {
        matches!(self, HitDirection::Outgoing)
    }
}

/// Where the engine took a hit's character from.
#[derive(Clone, Copy, Debug, PartialEq, Eq, Structural)]
pub enum HitCharacterSource {
    Packet,
    Session,
    GameplayEffect,
    ExportJson,
    Unknown,
}

#[derive(Clone, Copy, Debug, PartialEq, Eq, Structural)]
pub enum AbyssHalf {
    First,
    Second,
}

/// Where the data of a capture session came from.
#[derive(Clone, Copy, Debug, PartialEq, Eq, Structural)]
pub enum CaptureQualitySource {
    Live,
    PcapngReplay,
    JsonReplay,
    Unknown,
}

#[derive(Clone, Copy, Debug, PartialEq, Eq, Structural)]
pub enum Language {
    SimplifiedChinese,
    English,
    Japanese,
}

/// Whether stopped game time counts toward a duration.
#[derive(Clone, Copy, Debug, PartialEq, Eq, Structural)]
pub enum DpsTimeBasis {
    SubtractTimeStop,
    WallClock,
}

impl DpsTimeBasis {
    pub fn subtracts_time_stop(self) -> (result: bool)
        ensures
            result == (self == DpsTimeBasis::SubtractTimeStop),
    {
        matches!(self, DpsTimeBasis::SubtractTimeStop)
    }

    pub fn from_subtract_time_stop(subtract_time_stop: bool) -> (result: Self)
        ensures
            result == (if subtract_time_stop {
                DpsTimeBasis::SubtractTimeStop
            } else {
                DpsTimeBasis::WallClock
            }),
    {
        if subtract_time_stop {
            DpsTimeBasis::SubtractTimeStop
        } else {
            DpsTimeBasis::WallClock
        }
    }
}

/// One reading under both time bases.
#[derive(Clone, Copy, Debug, PartialEq, Eq, Structural)]
pub struct TimedReading {
    pub wall_clock: Double,
    pub subtract_time_stop: Double,
}

impl TimedReading {
    pub open spec fn picked(self, subtract_time_stop: bool) -> Double {
        if subtract_time_stop {
            self.subtract_time_stop
        } else {
            self.wall_clock
        }
    }

    pub fn pick(self, subtract_time_stop: bool) -> (result: Double)
        ensures
            result == self.picked(subtract_time_stop),
    {
        if subtract_time_stop {
            self.subtract_time_stop
        } else {
            self.wall_clock
        }
    }

    pub fn zero() -> (result: Self)
        ensures
            result.wall_clock.bits == 0,
            result.subtract_time_stop.bits == 0,
    {
        TimedReading { wall_clock: Double::zero(), subtract_time_stop: Double::zero() }
    }
}

#[derive(Clone, Copy, Debug, PartialEq, Eq, Structural)]
pub enum ActiveEffectKind {
    GameplayEffect,
    Buff,
    Debuff,
}

#[derive(Clone, Copy, Debug, PartialEq, Eq, Structural)]
pub struct HitActiveEffect {
    pub name_hash: u64,
    pub effect_key: u64,
    pub stack_count: u16,
    pub duration_ms: u32,
    pub kind: ActiveEffectKind,
    pub inhibited: bool,
    pub infinite: bool,
}

#[derive(Clone, Debug)]
pub struct PartyEffectSnapshot {
    pub snapshot_sequence: u64,
    pub character_id: u32,
    pub effects: Vec<HitActiveEffect>,
}

/// What the engine's damage rules say of one hit.
#[derive(Clone, Copy, Debug, PartialEq, Eq, Structural)]
pub struct HitClassification {
    /// The hit's own damage and its follow-up damage together.
    pub total_damage: Double,
    /// The part of the total that an elemental reaction dealt.
    pub reaction_damage: Double,
    /// Shared break damage that belongs to no single character.
    pub unbalance: bool,
    /// The hit as a whole is a QTE follow-up.
    pub qte_follow_up: bool,
    /// The hit's attack type is a QTE follow-up type.
    pub attack_type_is_qte: bool,
    /// The follow-up's attack type is a QTE follow-up type.
    pub follow_up_type_is_qte: bool,
}

#[derive(Clone, Debug)]
pub struct Hit {
    pub timestamp: Double,
    pub char_id: u32,
    pub char_name: String,
    pub char_known: bool,
    pub damage: Double,
    pub byte_offset: usize,
    pub bit_shift: u8,
    pub char_source: HitCharacterSource,
    pub direction: HitDirection,
    pub target_hp_before: Double,
    pub target_hp_after: Double,
    pub target_max_hp: Double,
    pub target_hp_percent: Double,
    pub target_id: Option<String>,
    pub target_name: Option<String>,
    pub target_name_en: Option<String>,
    pub target_name_ja: Option<String>,
    pub target_monster_id: Option<String>,
    pub target_context: Vec<String>,
    pub gameplay_effect_index: Option<u32>,
    pub gameplay_effect_name: Option<String>,
    pub ability_name: Option<String>,
    pub damage_name: Option<String>,
    pub damage_component: Option<String>,
    pub attack_type: Option<String>,
    pub damage_attribute: Option<String>,
    pub follow_up_damage: Double,
    pub follow_up_timestamp: Option<Double>,
    pub follow_up_damage_name: Option<String>,
    pub follow_up_attack_type: Option<String>,
    pub follow_up_damage_attribute: Option<String>,
    pub active_effects: Vec<HitActiveEffect>,
    pub class: HitClassification,
}

#[derive(Clone, Debug)]
pub struct HitFollowUp {
    pub source_timestamp: Double,
    pub source_char_id: u32,
    pub source_damage: Double,
    pub source_target_hp_before: Double,
    pub source_target_hp_after: Double,
    pub source_target_max_hp: Double,
    pub source_gameplay_effect_index: Option<u32>,
    pub timestamp: Double,
    pub damage: Double,
    pub target_hp_after: Double,
    pub target_hp_percent: Double,
    pub damage_name: Option<String>,
    pub attack_type: Option<String>,
    pub damage_attribute: Option<String>,
}

#[derive(Clone, Debug)]
pub struct HitDamageCorrection {
    pub source_timestamp: Double,
    pub source_char_id: u32,
    pub source_damage: Double,
    pub source_target_hp_before: Double,
    pub source_target_hp_after: Double,
    pub source_target_max_hp: Double,
    pub source_gameplay_effect_index: Option<u32>,
    pub damage: Double,
    pub target_hp_before: Double,
    pub target_hp_after: Double,
    pub target_hp_percent: Double,
}

#[derive(Clone, Debug)]
pub struct CharacterInfo {
    pub name_zh: String,
    pub name_en: String,
    pub color: Option<String>,
    pub avatar: Option<String>,
    pub attribute: Option<String>,
}

/// The totals of one character under one reaction-damage policy.
#[derive(Clone, Copy, Debug, PartialEq, Eq, Structural)]
pub struct CharacterTotals {
    pub hits: u64,
    pub attributed_hits: u64,
    pub damage: Double,
    pub hits_taken: u64,
    pub damage_taken: Double,
    pub dps: TimedReading,
    pub duration: TimedReading,
}

#[derive(Clone, Debug)]
pub struct CharacterStats {
    pub char_id: u32,
    pub name: String,
    /// Reaction damage counted as the character's own.
    pub combined: CharacterTotals,
    /// Reaction damage left out.
    pub separated: CharacterTotals,
}

impl CharacterStats {
    pub open spec fn under_policy(self, separate_reaction_damage: bool) -> CharacterTotals {
        if separate_reaction_damage {
            self.separated
        } else {
            self.combined
        }
    }

    pub fn for_reaction_damage_policy(&self, separate_reaction_damage: bool) -> (result:
        CharacterTotals)
        ensures
            result == self.under_policy(separate_reaction_damage),
    {
        if separate_reaction_damage {
            self.separated
        } else {
            self.combined
        }
    }
}

/// A number that the engine reads off for each reaction-damage policy.
#[derive(Clone, Copy, Debug, PartialEq, Eq, Structural)]
pub struct PolicyReading {
    pub combined: Double,
    pub separated: Double,
}

impl PolicyReading {
    /// The reading for a policy.
    pub open spec fn picked(self, separate_reaction_damage: bool) -> Double {
        if separate_reaction_damage {
            self.separated
        } else {
            self.combined
        }
    }

    pub fn pick(self, separate_reaction_damage: bool) -> (result: Double)
        ensures
            result == self.picked(separate_reaction_damage),
    {
        if separate_reaction_damage {
            self.separated
        } else {
            self.combined
        }
    }

    pub fn zero() -> (result: Self)
        ensures
            result.combined.bits == 0,
            result.separated.bits == 0,
    {
        PolicyReading { combined: Double::zero(), separated: Double::zero() }
    }
}

/// Team damage by what it is attributed to.
#[derive(Clone, Copy, Debug, PartialEq, Eq, Structural)]
pub struct DamageAttributionSummary {
    pub total_damage: Double,
    pub character_damage: PolicyReading,
    pub character_reaction_damage: Double,
    pub shared_damage: Double,
    pub unattributed_damage: Double,
}

/// The hits of one party and what they sum to.
#[derive(Clone, Debug)]
pub struct PartyCombatState {
    pub hits: Vec<Hit>,
    pub hits_generation: u64,
    pub stats: Vec<CharacterStats>,
    pub total_damage: Double,
    pub total_damage_taken: Double,
    pub dps: TimedReading,
    pub duration: TimedReading,
    pub attribution: DamageAttributionSummary,
}

impl PartyCombatState {
    /// Nothing was recorded.
    pub open spec fn blank(self) -> bool {
        &&& self.hits@.len() == 0
        &&& self.hits_generation == 0
        &&& self.stats@.len() == 0
        &&& self.total_damage.bits == 0
        &&& self.total_damage_taken.bits == 0
        &&& self.dps.wall_clock.bits == 0
        &&& self.dps.subtract_time_stop.bits == 0
        &&& self.duration.wall_clock.bits == 0
        &&& self.duration.subtract_time_stop.bits == 0
        &&& self.attribution.total_damage.bits == 0
        &&& self.attribution.character_damage.combined.bits == 0
        &&& self.attribution.character_damage.separated.bits == 0
        &&& self.attribution.character_reaction_damage.bits == 0
        &&& self.attribution.shared_damage.bits == 0
        &&& self.attribution.unattributed_damage.bits == 0
    }

    /// No two rows belong to the same character.
    pub open spec fn rows_are_distinct(self) -> bool {
        forall|i: int, j: int|
            0 <= i < j < self.stats@.len() ==> #[trigger] self.stats@[i].char_id
                != #[trigger] self.stats@[j].char_id
    }
}

impl Default for PartyCombatState {
    fn default() -> (result: Self)
        ensures
            result.blank(),
    {
        PartyCombatState {
            hits: Vec::new(),
            hits_generation: 0,
            stats: Vec::new(),
            total_damage: Double::zero(),
            total_damage_taken: Double::zero(),
            dps: TimedReading::zero(),
            duration: TimedReading::zero(),
            attribution: DamageAttributionSummary {
                total_damage: Double::zero(),
                character_damage: PolicyReading::zero(),
                character_reaction_damage: Double::zero(),
                shared_damage: Double::zero(),
                unattributed_damage: Double::zero(),
            },
        }
    }
}

/// The two-half challenge that splits a session into rounds.
#[derive(Clone, Debug)]
pub struct AbyssState {
    /// The engine considers the challenge entered.
    pub active: bool,
    pub event_count: u64,
    pub floor: Option<u32>,
    pub active_half: Option<AbyssHalf>,
    pub first_half: PartyCombatState,
    pub second_half: PartyCombatState,
    pub first_half_at: Option<Double>,
    pub second_half_at: Option<Double>,
    pub success_at: Option<Double>,
    pub exited_at: Option<Double>,
}

impl AbyssState {
    pub open spec fn blank(self) -> bool {
        &&& !self.active
        &&& self.event_count == 0
        &&& self.floor is None
        &&& self.active_half is None
        &&& self.first_half.blank()
        &&& self.second_half.blank()
        &&& self.first_half_at is None
        &&& self.second_half_at is None
        &&& self.success_at is None
        &&& self.exited_at is None
    }

    pub open spec fn party(self, half: AbyssHalf) -> PartyCombatState {
        match half {
            AbyssHalf::First => self.first_half,
            AbyssHalf::Second => self.second_half,
        }
    }

    pub fn half(&self, half: AbyssHalf) -> (result: &PartyCombatState)
        ensures
            *result == self.party(half),
    {
        match half {
            AbyssHalf::First => &self.first_half,
            AbyssHalf::Second => &self.second_half,
        }
    }

    pub fn is_active(&self) -> (result: bool)
        ensures
            result == self.active,
    {
        self.active
    }
}

impl Default for AbyssState {
    fn default() -> (result: Self)
        ensures
            result.blank(),
    {
        AbyssState {
            active: false,
            event_count: 0,
            floor: None,
            active_half: None,
            first_half: PartyCombatState::default(),
            second_half: PartyCombatState::default(),
            first_half_at: None,
            second_half_at: None,
            success_at: None,
            exited_at: None,
        }
    }
}

/// The part of a session that a round boundary detaches.
#[derive(Clone, Debug)]
pub struct BattleState {
    pub team: PartyCombatState,
    pub abyss: AbyssState,
    pub party_effects: Vec<PartyEffectSnapshot>,
    pub started_at: Option<Double>,
    pub ended_at: Option<Double>,
    pub game_paused: bool,
    pub damage_correction_count: u64,
    pub packet_log: PacketLog,
}

impl BattleState {
    pub open spec fn blank(self) -> bool {
        &&& self.team.blank()
        &&& self.abyss.blank()
        &&& self.party_effects@.len() == 0
        &&& self.packet_log.blank()
        &&& self.started_at is None
        &&& self.ended_at is None
        &&& !self.game_paused
        &&& self.damage_correction_count == 0
    }

    /// Whether a round boundary would find something to archive.
    pub open spec fn has_content(self) -> bool {
        self.team.hits@.len() > 0 || self.team.stats@.len() > 0 || self.abyss.active
    }

    pub fn is_archivable(&self) -> (result: bool)
        ensures
            result == self.has_content(),
    {
        self.team.hits.len() > 0 || self.team.stats.len() > 0 || self.abyss.active
    }
}

impl Default for BattleState {
    fn default() -> (result: Self)
        ensures
            result.blank(),
    {
        BattleState {
            team: PartyCombatState::default(),
            abyss: AbyssState::default(),
            party_effects: Vec::new(),
            started_at: None,
            ended_at: None,
            game_paused: false,
            damage_correction_count: 0,
            packet_log: PacketLog::default(),
        }
    }
}

/// The session-scoped number of an inventory item or a character.
#[derive(Clone, Copy, Debug, PartialEq, Eq, Structural)]
pub struct HtItemNetId {
    pub solt: i32,
    pub serial: i32,
}

impl HtItemNetId {
    /// The number that stands for no item.
    pub fn zero() -> (result: Self)
        ensures
            result == (HtItemNetId { solt: 0, serial: 0 }),
    {
        HtItemNetId { solt: 0, serial: 0 }
    }
}

#[derive(Clone, Copy, Debug, PartialEq, Eq, Structural)]
pub struct EmptyCurtainPlacement {
    pub row: u8,
    pub column: u8,
}

/// A stat of an item, as the packet engine names it.
#[derive(Clone, Debug)]
pub struct EmptyCurtainStat {
    pub name: String,
    pub value: Double,
}

#[derive(Clone, Debug)]
pub struct EmptyCurtainItem {
    pub id: HtItemNetId,
    pub item_id: String,
    pub level: u32,
    pub main_stats: Vec<EmptyCurtainStat>,
    pub sub_stats: Vec<EmptyCurtainStat>,
    pub locked: bool,
    pub discarded: bool,
    pub character_net_id: Option<HtItemNetId>,
    pub equipped_character_id: Option<u32>,
    pub equipped_placement: Option<EmptyCurtainPlacement>,
}

#[derive(Clone, Copy, Debug, PartialEq, Eq, Structural)]
pub struct EmptyCurtainCharacter {
    pub net_id: HtItemNetId,
    pub character_id: u32,
}

/// The captured inventory, which outlives every round.
#[derive(Clone, Debug)]
pub struct Inventory {
    pub items: Vec<EmptyCurtainItem>,
    pub items_generation: u64,
    pub characters: Vec<EmptyCurtainCharacter>,
    pub characters_generation: u64,
}

impl Inventory {
    pub open spec fn blank(self) -> bool {
        &&& self.items@.len() == 0
        &&& self.items_generation == 0
        &&& self.characters@.len() == 0
        &&& self.characters_generation == 0
    }
}

impl Default for Inventory {
    fn default() -> (result: Self)
        ensures
            result.blank(),
    {
        Inventory {
            items: Vec::new(),
            items_generation: 0,
            characters: Vec::new(),
            characters_generation: 0,
        }
    }
}

#[derive(Clone, Debug)]
pub struct PacketDebug {
    pub timestamp: Double,
    pub source: String,
    pub destination: String,
    pub direction: String,
    pub payload_len: usize,
    pub declared_ids: Vec<u32>,
    pub parsed_hits: usize,
    pub note: String,
    pub payload_preview: String,
    pub payload_hex: String,
    pub decoded_text: String,
}

#[derive(Clone, Copy, Debug, PartialEq, Eq, Structural)]
pub struct PacketObservation {
    pub parsed_hits: usize,
}

/// What was seen of the packet stream.
#[derive(Clone, Debug)]
pub struct PacketLog {
    pub packets: Vec<PacketDebug>,
    pub packets_generation: u64,
    pub packet_count: u64,
    pub packets_with_hits: u64,
}

impl PacketLog {
    pub open spec fn blank(self) -> bool {
        &&& self.packets@.len() == 0
        &&& self.packets_generation == 0
        &&& self.packet_count == 0
        &&& self.packets_with_hits == 0
    }
}

impl Default for PacketLog {
    fn default() -> (result: Self)
        ensures
            result.blank(),
    {
        PacketLog {
            packets: Vec::new(),
            packets_generation: 0,
            packet_count: 0,
            packets_with_hits: 0,
        }
    }
}

/// Everything known of one capture session.
#[derive(Clone, Debug)]
pub struct CombatState {
    pub battle: BattleState,
    pub inventory: Inventory,
}

impl CombatState {
    pub open spec fn blank(self) -> bool {
        self.battle.blank() && self.inventory.blank()
    }

    /// Detaches everything but the inventory. The detached session has an
    /// empty inventory, and this one keeps nothing else.
    pub fn take_battle_preserving_inventory(&mut self) -> (detached: CombatState)
        ensures
            detached.battle == old(self).battle,
            detached.inventory.blank(),
            final(self).inventory == old(self).inventory,
            final(self).battle.blank(),
    {
        let mut battle: BattleState = BattleState::default();
        std::mem::swap(&mut self.battle, &mut battle);
        CombatState { battle, inventory: Inventory::default() }
    }

    /// Forgets everything but the inventory.
    pub fn clear_battle_preserving_inventory(&mut self)
        ensures
            final(self).inventory == old(self).inventory,
            final(self).battle.blank(),
    {
        self.battle = BattleState::default();
    }
}

impl Default for CombatState {
    fn default() -> (result: Self)
        ensures
            result.blank(),
    {
        CombatState { battle: BattleState::default(), inventory: Inventory::default() }
    }
}

#[derive(Clone, Copy, Debug, PartialEq, Eq, Structural)]
pub enum AbyssEvent {
    RestartDetected { timestamp: Double },
    Stage {
        timestamp: Double,
        cycle: Option<u32>,
        floor: Option<u32>,
        half: AbyssHalf,
        allow_late_backfill: bool,
    },
    Success { timestamp: Double },
    Exit { timestamp: Double },
}

#[derive(Clone, Copy, Debug, PartialEq, Eq, Structural)]
pub enum TimeStopEvent {
    GamePauseStarted { timestamp: Double, pause_type_mask: u32 },
    GamePauseEnded { timestamp: Double, pause_type_mask: u32 },
}

#[derive(Clone, Debug, PartialEq)]
pub struct EnemyIdentity {
    pub config_hash: u64,
    pub config_id: String,
    pub monster_id: String,
    pub name_en: String,
    pub name_zh: String,
    pub name_ja: String,
}

#[derive(Clone, Copy, Debug, PartialEq, Eq, Structural)]
pub enum ModScriptEventPhase {
    Preprocess,
    Postprocess,
}

#[derive(Clone, Debug, PartialEq)]
pub struct ModScriptEvent {
    pub sequence: u64,
    pub filetime: u64,
    pub script: String,
    pub phase: ModScriptEventPhase,
    pub name: String,
    pub values: Vec<u64>,
    pub enemy_identity: Option<EnemyIdentity>,
}

/// One message from the combat engine.
#[derive(Clone, Debug)]
pub enum EngineEvent {
    Hit(Hit),
    HitFollowUp(HitFollowUp),
    HitDamageCorrection(HitDamageCorrection),
    Packet(PacketDebug),
    PacketObservation(PacketObservation),
    Abyss(AbyssEvent),
    TimeStop(TimeStopEvent),
    EmptyCurtain(Vec<EmptyCurtainItem>),
    EmptyCurtainCharacters(Vec<EmptyCurtainCharacter>),
    ModScript(ModScriptEvent),
    PartyEffects(Vec<PartyEffectSnapshot>),
    Status(String),
    Warning(String),
    Error(String),
    CaptureStopped,
}

} // verus!
