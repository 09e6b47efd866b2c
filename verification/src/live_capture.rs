//! Ownership of one capture and its authoritative session state.
//!
//! Threads, clocks and the packet source stay with the caller. The service
//! holds the state that they share, decides what every request and event does
//! to it, and says what the caller has to perform.
use std::collections::{HashMap, VecDeque};

use vstd::prelude::*;

use crate::error::{CoreError, CoreErrorCode};
use crate::history::{
    abyss_event_starts_new_round, starts_new_round, CaptureQualitySummary, HistoryCombatDetails,
    PendingHistoryArchive,
};
use crate::model::{
    AbyssEvent, BattleState, CaptureQualitySource, CharacterInfo, CombatState, EngineEvent, Hit,
    HitDirection,
};
use crate::names::AbilityNames;
use crate::reducer::{
    accepts_all, advance_generation, apply_engine_event, next_generation, reduces, BattleUpdate,
    CoreSignal, EngineStep,
};

verus! {

/// How many finished rounds wait for the archive at most.
pub const MAX_PENDING_ABYSS_ARCHIVES: usize = 64;

#[derive(Clone, Copy, Debug, PartialEq, Eq, Structural)]
pub enum LiveCapturePhase {
    Idle,
    Starting,
    Running,
    Stopping,
    Stopped,
    Failed,
}

#[derive(Clone, Copy, Debug, PartialEq, Eq, Structural)]
pub enum LiveCaptureIssue {
    Start(CoreErrorCode),
    RuntimeWarning,
    RuntimeError,
}

/// How diagnostics name an issue.
pub open spec fn issue_name(issue: LiveCaptureIssue) -> Seq<char> {
    match issue {
        LiveCaptureIssue::Start(code) => match code {
            CoreErrorCode::NpcapNotFound => "Start(NpcapNotFound)"@,
            CoreErrorCode::GameProcessNotFound => "Start(GameProcessNotFound)"@,
            CoreErrorCode::CaptureDeviceNotFound => "Start(CaptureDeviceNotFound)"@,
            CoreErrorCode::SystemProbeFailed => "Start(SystemProbeFailed)"@,
            CoreErrorCode::CaptureAlreadyRunning => "Start(CaptureAlreadyRunning)"@,
            CoreErrorCode::CaptureNotRunning => "Start(CaptureNotRunning)"@,
        },
        LiveCaptureIssue::RuntimeWarning => "RuntimeWarning"@,
        LiveCaptureIssue::RuntimeError => "RuntimeError"@,
    }
}

impl LiveCaptureIssue {
    pub fn name(self) -> (name: &'static str)
        ensures
            name@ == issue_name(self),
    {
        match self {
            LiveCaptureIssue::Start(code) => match code {
                CoreErrorCode::NpcapNotFound => "Start(NpcapNotFound)",
                CoreErrorCode::GameProcessNotFound => "Start(GameProcessNotFound)",
                CoreErrorCode::CaptureDeviceNotFound => "Start(CaptureDeviceNotFound)",
                CoreErrorCode::SystemProbeFailed => "Start(SystemProbeFailed)",
                CoreErrorCode::CaptureAlreadyRunning => "Start(CaptureAlreadyRunning)",
                CoreErrorCode::CaptureNotRunning => "Start(CaptureNotRunning)",
            },
            LiveCaptureIssue::RuntimeWarning => "RuntimeWarning",
            LiveCaptureIssue::RuntimeError => "RuntimeError",
        }
    }
}

#[derive(Clone, Copy, Debug, PartialEq, Eq, Structural)]
pub struct LiveCaptureStatus {
    pub phase: LiveCapturePhase,
    pub issue: Option<LiveCaptureIssue>,
}

impl Default for LiveCaptureStatus {
    fn default() -> (result: Self)
        ensures
            result == (LiveCaptureStatus { phase: LiveCapturePhase::Idle, issue: None }),
    {
        LiveCaptureStatus { phase: LiveCapturePhase::Idle, issue: None }
    }
}

impl LiveCapturePhase {
    /// A capture is starting, running or stopping.
    pub open spec fn active(self) -> bool {
        self == LiveCapturePhase::Starting || self == LiveCapturePhase::Running || self
            == LiveCapturePhase::Stopping
    }

    pub fn is_active(self) -> (result: bool)
        ensures
            result == self.active(),
    {
        matches!(
            self,
            LiveCapturePhase::Starting | LiveCapturePhase::Running | LiveCapturePhase::Stopping
        )
    }
}

/// What every session looks names up in.
#[derive(Clone, Debug)]
pub struct LiveCaptureResources {
    pub characters: HashMap<u32, CharacterInfo>,
    pub ability_catalog: AbilityNames,
}

impl Default for LiveCaptureResources {
    fn default() -> (result: Self)
        ensures
            result.characters@ == Map::<u32, CharacterInfo>::empty(),
            result.ability_catalog.damage_names.entries@.len() == 0,
            result.ability_catalog.ability_names.entries@.len() == 0,
    {
        LiveCaptureResources { characters: HashMap::new(), ability_catalog: AbilityNames::empty() }
    }
}

impl LiveCaptureResources {
    /// Takes what was loaded. A character table that could not be loaded is
    /// replaced by an empty one and its failure reported; so is the warning of
    /// the ability names, after it.
    pub fn load(
        characters: Result<HashMap<u32, CharacterInfo>, String>,
        ability_names: (AbilityNames, Option<String>),
    ) -> (result: (Self, Vec<String>))
        ensures
            match characters {
                Ok(characters) => result.0.characters == characters,
                Err(_) => result.0.characters@ == Map::<u32, CharacterInfo>::empty(),
            },
            result.0.ability_catalog == ability_names.0,
            result.1@ == (match characters {
                Ok(_) => Seq::<String>::empty(),
                Err(error) => seq![error],
            }) + (match ability_names.1 {
                Some(warning) => seq![warning],
                None => Seq::<String>::empty(),
            }),
    {
        let mut warnings: Vec<String> = Vec::new();
        let characters = match characters {
            Ok(characters) => characters,
            Err(error) => {
                warnings.push(error);
                HashMap::new()
            },
        };
        if let Some(warning) = ability_names.1 {
            warnings.push(warning);
        }
        (LiveCaptureResources { characters, ability_catalog: ability_names.0 }, warnings)
    }
}

#[derive(Clone, Copy, Debug, PartialEq, Eq, Structural)]
pub enum CaptureReplayKind {
    Pcapng,
    Json,
}

/// A round detached from the live session, ready to be archived while new
/// events go to its successor.
#[derive(Clone, Debug)]
pub struct CutRound {
    pub state: CombatState,
    pub source: CaptureQualitySource,
}

/// A challenge round detached at a boundary.
#[derive(Clone, Debug)]
pub struct DetachedAbyssRound {
    pub state: CombatState,
    pub source: CaptureQualitySource,
}

/// Markers of the packet stream.
#[derive(Clone, Copy, Debug, PartialEq, Eq, Structural)]
pub struct PacketStreamRevision {
    pub generation: u64,
    pub session_generation: u64,
    pub packet_generation: u64,
    pub observed_packet_count: u64,
}

/// What a stop request asks of the caller.
#[derive(Clone, Copy, Debug, PartialEq, Eq, Structural)]
pub struct StopAction {
    /// Raise the stop flag of the replay.
    pub stop_replay: bool,
    /// Run the stop worker.
    pub spawn_stop_worker: bool,
}

/// The lifecycle of a capture and the markers that its readers follow.
#[derive(Clone, Copy, Debug, PartialEq, Eq, Structural)]
pub struct CaptureControl {
    pub status: LiveCaptureStatus,
    pub quality_source: CaptureQualitySource,
    pub replay_running: bool,
    /// Moves whenever a frontend projection can have changed.
    pub revision: u64,
    /// Moves whenever the packet page can have changed.
    pub packet_revision: u64,
    pub packet_session_generation: u64,
    /// Moves with every confirmed outgoing hit, and with nothing else.
    pub outgoing_hit_revision: u64,
    /// When the last confirmed outgoing hit arrived, in nanoseconds of the
    /// caller's monotonic clock.
    pub last_outgoing_hit_at: Option<u128>,
    pub dropped_history_archives: u64,
}

#[derive(Clone, Debug)]
pub struct LiveCaptureService {
    pub state: CombatState,
    pub control: CaptureControl,
    /// Finished rounds, oldest first.
    pub pending_abyss_archives: VecDeque<PendingHistoryArchive>,
    pub resources: LiveCaptureResources,
}

/// Addition that wraps around.
pub open spec fn wrapped_sum(left: u64, right: u64) -> u64 {
    if left + right > u64::MAX {
        (left + right - u64::MAX - 1) as u64
    } else {
        (left + right) as u64
    }
}

pub fn wrapping_sum(left: u64, right: u64) -> (result: u64)
    ensures
        result == wrapped_sum(left, right),
{
    if left > u64::MAX - right {
        left - (u64::MAX - right) - 1
    } else {
        left + right
    }
}

/// The status after a start request, if the request is granted.
pub open spec fn start_requested(status: LiveCaptureStatus) -> Option<LiveCaptureStatus> {
    if status.phase.active() {
        None
    } else {
        Some(LiveCaptureStatus { phase: LiveCapturePhase::Starting, issue: None })
    }
}

/// The status after a stop request, if the request is granted.
pub open spec fn stop_requested(status: LiveCaptureStatus) -> Option<LiveCaptureStatus> {
    match status.phase {
        LiveCapturePhase::Idle | LiveCapturePhase::Stopped => None,
        _ => Some(LiveCaptureStatus { phase: LiveCapturePhase::Stopping, ..status }),
    }
}

/// The status once no controller is left running after a stop request.
pub open spec fn stop_finished(status: LiveCaptureStatus) -> LiveCaptureStatus {
    if status.phase == LiveCapturePhase::Stopping {
        LiveCaptureStatus { phase: LiveCapturePhase::Stopped, issue: None }
    } else {
        status
    }
}

/// The status that a signal leads to.
pub open spec fn status_after(status: LiveCaptureStatus, signal: CoreSignal) -> LiveCaptureStatus {
    match signal {
        CoreSignal::Status(_) => if status.phase == LiveCapturePhase::Starting {
            LiveCaptureStatus { phase: LiveCapturePhase::Running, ..status }
        } else {
            status
        },
        CoreSignal::Warning(_) => LiveCaptureStatus {
            issue: Some(LiveCaptureIssue::RuntimeWarning),
            ..status
        },
        CoreSignal::Error(_) => LiveCaptureStatus {
            phase: LiveCapturePhase::Failed,
            issue: Some(LiveCaptureIssue::RuntimeError),
        },
        CoreSignal::CaptureStopped => if status.phase == LiveCapturePhase::Failed {
            status
        } else {
            LiveCaptureStatus { phase: LiveCapturePhase::Stopped, issue: None }
        },
        _ => status,
    }
}

/// Whether a signal can change what a frontend shows.
pub open spec fn affects_frontend(signal: CoreSignal) -> bool {
    match signal {
        CoreSignal::StateChanged
        | CoreSignal::Status(_)
        | CoreSignal::Warning(_)
        | CoreSignal::Error(_)
        | CoreSignal::CaptureStopped => true,
        CoreSignal::ModScript { state_changed, .. } => state_changed,
        _ => false,
    }
}

/// Whether a signal can change what the packet page shows.
pub open spec fn affects_packets(signal: CoreSignal) -> bool {
    match signal {
        CoreSignal::DebugPacket
        | CoreSignal::PacketObserved
        | CoreSignal::Status(_)
        | CoreSignal::Error(_)
        | CoreSignal::CaptureStopped => true,
        _ => false,
    }
}

/// Whether an event ends the challenge round that was in progress before it.
pub open spec fn ends_round_before(state: CombatState, event: EngineEvent) -> bool {
    event matches EngineEvent::Abyss(abyss) && starts_new_round(state.battle.abyss.floor, abyss)
}

/// Whether an event closes the challenge round that it is still part of.
pub open spec fn ends_round_after(event: EngineEvent) -> bool {
    event is CaptureStopped || (event matches EngineEvent::Abyss(abyss) && abyss is Exit)
}

/// Whether a challenge half holds hits.
pub open spec fn has_abyss_hits(state: CombatState) -> bool {
    state.battle.abyss.first_half.hits@.len() > 0 || state.battle.abyss.second_half.hits@.len() > 0
}

pub open spec fn is_outgoing_hit(event: EngineEvent) -> bool {
    event matches EngineEvent::Hit(hit) && hit.direction == HitDirection::Outgoing
}

impl CaptureControl {
    pub open spec fn with_revision(self) -> Self {
        CaptureControl { revision: next_generation(self.revision), ..self }
    }

    pub open spec fn with_packet_revision(self) -> Self {
        CaptureControl { packet_revision: next_generation(self.packet_revision), ..self }
    }

    pub open spec fn with_packet_session(self) -> Self {
        CaptureControl {
            packet_session_generation: next_generation(self.packet_session_generation),
            packet_revision: next_generation(self.packet_revision),
            ..self
        }
    }

    /// A new status, which both the frontend and the packet page show.
    pub open spec fn with_status(self, status: LiveCaptureStatus) -> Self {
        (CaptureControl { status, ..self }).with_revision().with_packet_revision()
    }

    /// The round in progress was taken away.
    pub open spec fn with_round_detached(self) -> Self {
        (CaptureControl { last_outgoing_hit_at: None, ..self }).with_packet_session()
    }

    /// Archives were lost: they are counted, and the status carries a warning.
    pub open spec fn with_dropped(self, count: u64) -> Self {
        CaptureControl {
            dropped_history_archives: wrapped_sum(self.dropped_history_archives, count),
            status: LiveCaptureStatus {
                issue: Some(LiveCaptureIssue::RuntimeWarning),
                ..self.status
            },
            revision: next_generation(self.revision),
            ..self
        }
    }

    /// An outgoing hit was noted at `now`.
    pub open spec fn noted(self, event: EngineEvent, now: u128) -> Self {
        if is_outgoing_hit(event) {
            CaptureControl {
                last_outgoing_hit_at: Some(now),
                outgoing_hit_revision: next_generation(self.outgoing_hit_revision),
                ..self
            }
        } else {
            self
        }
    }

    /// The lifecycle took a signal in.
    pub open spec fn settled(self, signal: CoreSignal) -> Self {
        CaptureControl {
            status: status_after(self.status, signal),
            replay_running: self.replay_running && signal !is CaptureStopped,
            revision: if affects_frontend(signal) {
                next_generation(self.revision)
            } else {
                self.revision
            },
            packet_revision: if affects_packets(signal) {
                next_generation(self.packet_revision)
            } else {
                self.packet_revision
            },
            ..self
        }
    }

    fn bump_revision(&mut self)
        ensures
            *final(self) == old(self).with_revision(),
    {
        self.revision = advance_generation(self.revision);
    }

    fn bump_packet_session(&mut self)
        ensures
            *final(self) == old(self).with_packet_session(),
    {
        self.packet_session_generation = advance_generation(self.packet_session_generation);
        self.packet_revision = advance_generation(self.packet_revision);
    }

    fn detach_round(&mut self)
        ensures
            *final(self) == old(self).with_round_detached(),
    {
        self.last_outgoing_hit_at = None;
        self.bump_packet_session();
    }

    fn set_status(&mut self, status: LiveCaptureStatus)
        ensures
            *final(self) == old(self).with_status(status),
    {
        self.status = status;
        self.revision = advance_generation(self.revision);
        self.packet_revision = advance_generation(self.packet_revision);
    }

    fn record_start_failure(&mut self, code: CoreErrorCode)
        ensures
            *final(self) == old(self).with_status(
                LiveCaptureStatus {
                    phase: LiveCapturePhase::Failed,
                    issue: Some(LiveCaptureIssue::Start(code)),
                },
            ),
    {
        self.set_status(
            LiveCaptureStatus {
                phase: LiveCapturePhase::Failed,
                issue: Some(LiveCaptureIssue::Start(code)),
            },
        );
    }

    fn note_dropped_history_archives(&mut self, count: u64)
        ensures
            *final(self) == old(self).with_dropped(count),
    {
        self.dropped_history_archives = wrapping_sum(self.dropped_history_archives, count);
        self.status.issue = Some(LiveCaptureIssue::RuntimeWarning);
        self.revision = advance_generation(self.revision);
    }

    fn note_outgoing_hit(&mut self, event: &EngineEvent, now: u128)
        ensures
            *final(self) == old(self).noted(*event, now),
    {
        if let EngineEvent::Hit(hit) = event {
            if hit.direction.is_outgoing() {
                self.last_outgoing_hit_at = Some(now);
                self.outgoing_hit_revision = advance_generation(self.outgoing_hit_revision);
            }
        }
    }

    /// Takes a signal into the lifecycle.
    fn settle(&mut self, signal: &CoreSignal)
        ensures
            *final(self) == old(self).settled(*signal),
    {
        let affects_packet_projection = matches!(
            signal,
            CoreSignal::DebugPacket
                | CoreSignal::PacketObserved
                | CoreSignal::Status(_)
                | CoreSignal::Error(_)
                | CoreSignal::CaptureStopped
        );
        let affects_frontend_projection = match signal {
            CoreSignal::StateChanged => true,
            CoreSignal::InventoryReplaced
            | CoreSignal::InventoryCharactersReplaced
            | CoreSignal::DebugPacket
            | CoreSignal::PacketObserved => false,
            CoreSignal::ModScript { state_changed, .. } => *state_changed,
            // New effects only show on the next hit; nothing on screen changes.
            CoreSignal::PartyEffectsReplaced { .. } => false,
            CoreSignal::Status(_) => {
                if matches!(self.status.phase, LiveCapturePhase::Starting) {
                    self.status.phase = LiveCapturePhase::Running;
                }
                true
            },
            CoreSignal::Warning(_) => {
                self.status.issue = Some(LiveCaptureIssue::RuntimeWarning);
                true
            },
            CoreSignal::Error(_) => {
                self.status =
                LiveCaptureStatus {
                    phase: LiveCapturePhase::Failed,
                    issue: Some(LiveCaptureIssue::RuntimeError),
                };
                true
            },
            CoreSignal::CaptureStopped => {
                self.replay_running = false;
                if !matches!(self.status.phase, LiveCapturePhase::Failed) {
                    self.status =
                    LiveCaptureStatus { phase: LiveCapturePhase::Stopped, issue: None };
                }
                true
            },
        };
        if affects_frontend_projection {
            self.revision = advance_generation(self.revision);
        }
        if affects_packet_projection {
            self.packet_revision = advance_generation(self.packet_revision);
        }
    }
}

impl LiveCaptureService {
    /// The archive queue keeps to its bound.
    pub open spec fn wf(self) -> bool {
        self.pending_abyss_archives@.len() <= MAX_PENDING_ABYSS_ARCHIVES
    }

    /// `after` is `self` with its battle detached into `round`, if a challenge
    /// half holds hits.
    #[verifier::opaque]
    pub open spec fn detaches(self, after: Self, round: Option<DetachedAbyssRound>) -> bool {
        if has_abyss_hits(self.state) {
            &&& round is Some
            &&& round->0.state.battle == self.state.battle
            &&& round->0.state.inventory.blank()
            &&& round->0.source == self.control.quality_source
            &&& after.state.battle.blank()
            &&& after.state.inventory == self.state.inventory
            &&& after == (LiveCaptureService {
                state: after.state,
                control: self.control.with_round_detached(),
                ..self
            })
        } else {
            round is None && after == self
        }
    }

    /// `after` is `self` with a round queued for the archive. A round without
    /// details is not queued, and a full queue keeps what it has.
    pub open spec fn queues(
        self,
        details: Option<HistoryCombatDetails>,
        source: CaptureQualitySource,
        after: Self,
    ) -> bool {
        match details {
            None => after == self,
            Some(details) => if self.pending_abyss_archives@.len() >= MAX_PENDING_ABYSS_ARCHIVES {
                after == (LiveCaptureService { control: self.control.with_dropped(1), ..self })
            } else {
                &&& after.pending_abyss_archives@ == self.pending_abyss_archives@.push(
                    PendingHistoryArchive { details, source },
                )
                &&& after == (LiveCaptureService {
                    pending_abyss_archives: after.pending_abyss_archives,
                    ..self
                })
            },
        }
    }

    pub fn new(resources: LiveCaptureResources) -> (result: Self)
        ensures
            result.wf(),
            result.state.blank(),
            result.pending_abyss_archives@.len() == 0,
            result.resources == resources,
            result.control == (CaptureControl {
                status: LiveCaptureStatus { phase: LiveCapturePhase::Idle, issue: None },
                quality_source: CaptureQualitySource::Unknown,
                replay_running: false,
                revision: 0,
                packet_revision: 0,
                packet_session_generation: 0,
                outgoing_hit_revision: 0,
                last_outgoing_hit_at: None,
                dropped_history_archives: 0,
            }),
    {
        LiveCaptureService {
            state: CombatState::default(),
            control: CaptureControl {
                status: LiveCaptureStatus::default(),
                quality_source: CaptureQualitySource::Unknown,
                replay_running: false,
                revision: 0,
                packet_revision: 0,
                packet_session_generation: 0,
                outgoing_hit_revision: 0,
                last_outgoing_hit_at: None,
                dropped_history_archives: 0,
            },
            pending_abyss_archives: VecDeque::new(),
            resources,
        }
    }

    pub fn status(&self) -> (result: LiveCaptureStatus)
        ensures
            result == self.control.status,
    {
        self.control.status
    }

    pub fn replay_running(&self) -> (result: bool)
        ensures
            result == self.control.replay_running,
    {
        self.control.replay_running
    }

    pub fn quality_source(&self) -> (result: CaptureQualitySource)
        ensures
            result == self.control.quality_source,
    {
        self.control.quality_source
    }

    /// Moves whenever a frontend projection can have changed.
    pub fn revision(&self) -> (result: u64)
        ensures
            result == self.control.revision,
    {
        self.control.revision
    }

    /// Moves with every confirmed outgoing hit, and with nothing else.
    pub fn outgoing_hit_revision(&self) -> (result: u64)
        ensures
            result == self.control.outgoing_hit_revision,
    {
        self.control.outgoing_hit_revision
    }

    pub fn dropped_history_archives(&self) -> (result: u64)
        ensures
            result == self.control.dropped_history_archives,
    {
        self.control.dropped_history_archives
    }

    pub fn resources(&self) -> (result: &LiveCaptureResources)
        ensures
            *result == self.resources,
    {
        &self.resources
    }

    /// The two generations that can change the inventory page.
    pub fn inventory_revision(&self) -> (result: (u64, u64))
        ensures
            result.0 == self.state.inventory.items_generation,
            result.1 == self.state.inventory.characters_generation,
    {
        (self.state.inventory.items_generation, self.state.inventory.characters_generation)
    }

    /// The markers that the packet page follows.
    pub open spec fn packet_markers(self) -> PacketStreamRevision {
        PacketStreamRevision {
            generation: self.control.packet_revision,
            session_generation: self.control.packet_session_generation,
            packet_generation: self.state.battle.packet_log.packets_generation,
            observed_packet_count: self.state.battle.packet_log.packet_count,
        }
    }

    /// Reads the markers that the packet page follows.
    pub fn packet_stream_revision(&self) -> (result: PacketStreamRevision)
        ensures
            result == self.packet_markers(),
    {
        PacketStreamRevision {
            generation: self.control.packet_revision,
            session_generation: self.control.packet_session_generation,
            packet_generation: self.state.battle.packet_log.packets_generation,
            observed_packet_count: self.state.battle.packet_log.packet_count,
        }
    }

    /// Reads the session.
    pub fn with_state<T, R: FnOnce(&CombatState) -> T>(&self, read: R) -> (result: T)
        requires
            call_requires(read, (&self.state,)),
        ensures
            call_ensures(read, (&self.state,), result),
    {
        read(&self.state)
    }

    /// Reads the session together with the packets' markers and the number of
    /// events that wait.
    pub fn with_packet_state<T, R: FnOnce(PacketStreamRevision, usize, &CombatState) -> T>(
        &self,
        pending: usize,
        read: R,
    ) -> (result: T)
        requires
            call_requires(read, (self.packet_markers(), pending, &self.state)),
        ensures
            call_ensures(read, (self.packet_markers(), pending, &self.state), result),
    {
        read(self.packet_stream_revision(), pending, &self.state)
    }

    /// What the engine makes of the session's quality, given where its data
    /// came from.
    pub fn quality_summary<
        R: FnOnce(&CombatState, CaptureQualitySource) -> CaptureQualitySummary,
    >(&self, read: R) -> (summary: CaptureQualitySummary)
        requires
            call_requires(read, (&self.state, self.control.quality_source)),
        ensures
            call_ensures(read, (&self.state, self.control.quality_source), summary),
    {
        let (state, source) = self.state_and_source_snapshot();
        read(state, source)
    }

    /// The session and where its data came from, read together.
    pub fn state_and_source_snapshot(&self) -> (result: (&CombatState, CaptureQualitySource))
        ensures
            *result.0 == self.state,
            result.1 == self.control.quality_source,
    {
        (&self.state, self.control.quality_source)
    }

    /// How long ago the last confirmed outgoing hit arrived.
    pub fn idle_elapsed(&self, now: u128) -> (result: Option<u128>)
        ensures
            result == (match self.control.last_outgoing_hit_at {
                Some(last) => Some(
                    if now >= last {
                        (now - last) as u128
                    } else {
                        0
                    },
                ),
                None => None,
            }),
    {
        match self.control.last_outgoing_hit_at {
            Some(last) => if now >= last {
                Some(now - last)
            } else {
                Some(0)
            },
            None => None,
        }
    }

    /// Hands the waiting rounds out, oldest first.
    pub fn take_pending_abyss_archives(&mut self) -> (result: Vec<PendingHistoryArchive>)
        ensures
            result@ == old(self).pending_abyss_archives@,
            final(self).pending_abyss_archives@.len() == 0,
            *final(self) == (LiveCaptureService {
                pending_abyss_archives: final(self).pending_abyss_archives,
                ..*old(self)
            }),
    {
        let mut pending: VecDeque<PendingHistoryArchive> = VecDeque::new();
        std::mem::swap(&mut self.pending_abyss_archives, &mut pending);
        let ghost all = pending@;
        let mut result: Vec<PendingHistoryArchive> = Vec::new();
        while pending.len() > 0
            invariant
                result@ + pending@ == all,
            decreases pending@.len(),
        {
            let ghost was = pending@;
            let ghost had = result@;
            if let Some(archive) = pending.pop_front() {
                result.push(archive);
                assert(result@ + pending@ =~= had + was);
            }
        }
        assert(result@ =~= all);
        result
    }

    /// Puts failed rounds back in front of the ones that came later. The bound
    /// is kept by dropping from the back, so older rounds win.
    pub fn restore_pending_abyss_archives(&mut self, archives: Vec<PendingHistoryArchive>)
        requires
            old(self).wf(),
        ensures
            final(self).wf(),
            ({
                let all = archives@ + old(self).pending_abyss_archives@;
                &&& final(self).pending_abyss_archives@ == (if all.len()
                    > MAX_PENDING_ABYSS_ARCHIVES {
                    all.take(MAX_PENDING_ABYSS_ARCHIVES as int)
                } else {
                    all
                })
                &&& *final(self) == (LiveCaptureService {
                    pending_abyss_archives: final(self).pending_abyss_archives,
                    control: if all.len() > MAX_PENDING_ABYSS_ARCHIVES {
                        old(self).control.with_dropped(
                            (all.len() - MAX_PENDING_ABYSS_ARCHIVES) as u64,
                        )
                    } else {
                        old(self).control
                    },
                    ..*old(self)
                })
            }),
    {
        let dropped = put_in_front(&mut self.pending_abyss_archives, archives);
        if dropped > 0 {
            self.control.note_dropped_history_archives(dropped);
        }
    }

    /// Detaches the session's round and starts a fresh one, keeping the
    /// inventory. A session with nothing to archive is left as it is.
    pub fn cut_round(&mut self) -> (result: Option<CutRound>)
        ensures
            result is Some <==> old(self).state.battle.has_content(),
            result is None ==> *final(self) == *old(self),
            result matches Some(cut) ==> {
                &&& cut.state.battle == old(self).state.battle
                &&& cut.state.inventory.blank()
                &&& cut.source == old(self).control.quality_source
                &&& final(self).state.battle.blank()
                &&& final(self).state.inventory == old(self).state.inventory
                &&& *final(self) == (LiveCaptureService {
                    state: final(self).state,
                    control: old(self).control.with_round_detached().with_revision(),
                    ..*old(self)
                })
            },
    {
        if !self.state.battle.is_archivable() {
            return None;
        }
        let detached = self.state.take_battle_preserving_inventory();
        self.control.detach_round();
        self.control.bump_revision();
        Some(CutRound { state: detached, source: self.control.quality_source })
    }

    /// Clears the session. The capture itself goes on.
    pub fn reset_session(&mut self)
        ensures
            final(self).state.blank(),
            *final(self) == (LiveCaptureService {
                state: final(self).state,
                control: old(self).control.with_round_detached().with_revision(),
                ..*old(self)
            }),
    {
        self.state = CombatState::default();
        self.control.detach_round();
        self.control.bump_revision();
    }

    /// Installs a session that was reset before.
    pub fn restore_session(
        &mut self,
        state: CombatState,
        quality_source: CaptureQualitySource,
        now: u128,
    )
        ensures
            *final(self) == (LiveCaptureService {
                state,
                control: (CaptureControl {
                    quality_source,
                    last_outgoing_hit_at: if holds_outgoing(state.battle.team.hits@) {
                        Some(now)
                    } else {
                        None
                    },
                    ..old(self).control
                }).with_packet_session().with_revision(),
                ..*old(self)
            }),
    {
        let has_outgoing = any_outgoing(&state.battle.team.hits);
        self.state = state;
        self.control.quality_source = quality_source;
        self.control.last_outgoing_hit_at =
        if has_outgoing {
            Some(now)
        } else {
            None
        };
        self.control.bump_packet_session();
        self.control.bump_revision();
    }

    /// Asks for a live capture. `worker` tells whether the event worker is up,
    /// and `starter` whether the start worker is, which begins once the request
    /// is granted and reports through [`LiveCaptureService::finish_start`].
    pub fn request_start(
        &mut self,
        worker: Result<(), String>,
        starter: Result<(), String>,
    ) -> (result: Result<(), CoreError>)
        ensures
            begins(*old(self), worker, starter, *final(self), result),
    {
        if let Err(message) = worker {
            return Err(CoreError { code: CoreErrorCode::SystemProbeFailed, message });
        }
        if self.control.status.phase.is_active() {
            return Err(
                CoreError::new(
                    CoreErrorCode::CaptureAlreadyRunning,
                    "capture start is already active",
                ),
            );
        }
        self.control.set_status(
            LiveCaptureStatus { phase: LiveCapturePhase::Starting, issue: None },
        );
        match starter {
            Ok(_) => Ok(()),
            Err(message) => Err(self.worker_failed(message)),
        }
    }

    /// Asks for a replay, which begins a fresh session at once.
    pub fn request_replay(
        &mut self,
        kind: CaptureReplayKind,
        worker: Result<(), String>,
    ) -> (result: Result<(), CoreError>)
        ensures
            replays(*old(self), kind, worker, *final(self), result),
    {
        if let Err(message) = worker {
            return Err(CoreError { code: CoreErrorCode::SystemProbeFailed, message });
        }
        if self.control.status.phase.is_active() || self.control.replay_running {
            return Err(
                CoreError::new(
                    CoreErrorCode::CaptureAlreadyRunning,
                    "capture or replay is already active",
                ),
            );
        }
        self.state = CombatState::default();
        self.control.detach_round();
        self.control.replay_running = true;
        self.control.quality_source =
        match kind {
            CaptureReplayKind::Pcapng => CaptureQualitySource::PcapngReplay,
            CaptureReplayKind::Json => CaptureQualitySource::JsonReplay,
        };
        self.control.status = LiveCaptureStatus { phase: LiveCapturePhase::Running, issue: None };
        self.control.bump_revision();
        Ok(())
    }

    /// Asks for the end of a capture or replay. Asking again while it stops is
    /// granted and does nothing. `stopper` tells whether the stop worker is up,
    /// which begins where the answer asks for it.
    pub fn request_stop(&mut self, stopper: Result<(), String>) -> (result: Result<
        StopAction,
        CoreError,
    >)
        ensures
            halts(*old(self), stopper, *final(self), result),
    {
        let spawn_stop_worker = match self.control.status.phase {
            LiveCapturePhase::Starting => false,
            LiveCapturePhase::Running | LiveCapturePhase::Failed => !self.control.replay_running,
            LiveCapturePhase::Stopping => {
                return Ok(StopAction { stop_replay: false, spawn_stop_worker: false });
            },
            LiveCapturePhase::Idle | LiveCapturePhase::Stopped => {
                return Err(
                    CoreError::new(CoreErrorCode::CaptureNotRunning, "capture is not running"),
                );
            },
        };
        let issue = self.control.status.issue;
        self.control.set_status(LiveCaptureStatus { phase: LiveCapturePhase::Stopping, issue });
        if spawn_stop_worker {
            if let Err(message) = stopper {
                return Err(self.worker_failed(message));
            }
        }
        Ok(StopAction { stop_replay: self.control.replay_running, spawn_stop_worker })
    }

    /// Takes the outcome of starting the capture in. A capture that did start
    /// begins a fresh live session. The result tells whether a stop request
    /// came in meanwhile, so that the stop worker has to run now.
    pub fn finish_start(&mut self, outcome: Result<(), CoreErrorCode>) -> (spawn_stop_worker: bool)
        ensures
            match outcome {
                Err(code) => {
                    &&& !spawn_stop_worker
                    &&& *final(self) == (LiveCaptureService {
                        control: old(self).control.with_status(
                            LiveCaptureStatus {
                                phase: LiveCapturePhase::Failed,
                                issue: Some(LiveCaptureIssue::Start(code)),
                            },
                        ),
                        ..*old(self)
                    })
                },
                Ok(_) => {
                    &&& spawn_stop_worker == (old(self).control.status.phase
                        == LiveCapturePhase::Stopping)
                    &&& final(self).state.blank()
                    &&& *final(self) == (LiveCaptureService {
                        state: final(self).state,
                        control: (CaptureControl {
                            quality_source: CaptureQualitySource::Live,
                            ..old(self).control
                        }).with_packet_session().with_status(
                            if spawn_stop_worker {
                                old(self).control.status
                            } else {
                                LiveCaptureStatus { phase: LiveCapturePhase::Running, issue: None }
                            },
                        ),
                        ..*old(self)
                    })
                },
            },
    {
        match outcome {
            Ok(_) => {
                self.state = CombatState::default();
                self.control.quality_source = CaptureQualitySource::Live;
                self.control.bump_packet_session();
                let should_stop = matches!(self.control.status.phase, LiveCapturePhase::Stopping);
                let status = if should_stop {
                    self.control.status
                } else {
                    LiveCaptureStatus { phase: LiveCapturePhase::Running, issue: None }
                };
                self.control.set_status(status);
                should_stop
            },
            Err(code) => {
                self.control.record_start_failure(code);
                false
            },
        }
    }

    /// Takes in that a worker thread could not be spawned, and gives the error
    /// to report.
    pub fn worker_failed(&mut self, message: String) -> (result: CoreError)
        ensures
            result.code == CoreErrorCode::SystemProbeFailed,
            result.message == message,
            *final(self) == (LiveCaptureService {
                control: unmanned(old(self).control),
                ..*old(self)
            }),
    {
        self.control.record_start_failure(CoreErrorCode::SystemProbeFailed);
        CoreError { code: CoreErrorCode::SystemProbeFailed, message }
    }

    /// Runs the stop worker's decision. Where a controller still runs, the
    /// caller stops it and the end arrives as an event; where none runs, the
    /// stop is complete at once.
    pub fn finish_stop(&mut self, controller_running: bool) -> (stop_controller: bool)
        ensures
            stop_controller == controller_running,
            *final(self) == (if !controller_running && old(self).control.status.phase
                == LiveCapturePhase::Stopping {
                LiveCaptureService {
                    control: old(self).control.with_status(
                        stop_finished(old(self).control.status),
                    ),
                    ..*old(self)
                }
            } else {
                *old(self)
            }),
    {
        if controller_running {
            return true;
        }
        if matches!(self.control.status.phase, LiveCapturePhase::Stopping) {
            self.control.set_status(
                LiveCaptureStatus { phase: LiveCapturePhase::Stopped, issue: None },
            );
        }
        false
    }

    /// Detaches the challenge round if one of its halves holds hits. Taking
    /// the state is what keeps a round from being archived twice: its
    /// successor holds none of the old hits.
    fn detach_abyss_round_if_changed(&mut self) -> (round: Option<DetachedAbyssRound>)
        ensures
            old(self).detaches(*final(self), round),
            final(self).pending_abyss_archives == old(self).pending_abyss_archives,
    {
        proof {
            reveal(LiveCaptureService::detaches);
        }
        if self.state.battle.abyss.first_half.hits.len() == 0
            && self.state.battle.abyss.second_half.hits.len() == 0 {
            return None;
        }
        let source = self.control.quality_source;
        let detached = self.state.take_battle_preserving_inventory();
        self.control.detach_round();
        Some(DetachedAbyssRound { state: detached, source })
    }

    /// Queues a round for the archive, unless it has no details or the queue
    /// is full. A round that finds the queue full is counted as dropped.
    pub fn queue_detached_abyss_round(
        &mut self,
        details: Option<HistoryCombatDetails>,
        source: CaptureQualitySource,
    )
        ensures
            old(self).queues(details, source, *final(self)),
            old(self).wf() ==> final(self).wf(),
    {
        if let Some(details) = details {
            if self.pending_abyss_archives.len() >= MAX_PENDING_ABYSS_ARCHIVES {
                self.control.note_dropped_history_archives(1);
                return;
            }
            self.pending_abyss_archives.push_back(PendingHistoryArchive { details, source });
        }
    }

    /// Queues a detached round, if there is one.
    fn archive_round<D: Fn(&CombatState) -> Option<HistoryCombatDetails>>(
        &mut self,
        round: Option<DetachedAbyssRound>,
        details_of: &D,
    )
        requires
            old(self).wf(),
            forall|any: CombatState| #[trigger] call_requires(*details_of, (&any,)),
        ensures
            final(self).wf(),
            archives(*details_of, *old(self), round, *final(self)),
    {
        proof {
            reveal(archives);
        }
        if let Some(detached) = round {
            let details: Option<HistoryCombatDetails> = details_of(&detached.state);
            self.queue_detached_abyss_round(details, detached.source);
        }
    }

    /// Takes one engine event in. `details_of` gives the archive details of a
    /// detached round. The result tells whether the capture ended, in which
    /// case the caller releases its controller and joins the replay.
    pub fn process_event<
        E: Fn(BattleState, &BattleUpdate) -> EngineStep,
        D: Fn(&CombatState) -> Option<HistoryCombatDetails>,
    >(&mut self, event: EngineEvent, now: u128, engine: &E, details_of: &D) -> (
        capture_stopped: bool)
        requires
            old(self).wf(),
            accepts_all(*engine),
            forall|any: CombatState| #[trigger] call_requires(*details_of, (&any,)),
        ensures
            final(self).wf(),
            capture_stopped == (event is CaptureStopped),
            processes(*engine, *details_of, *old(self), event, now, *final(self)),
    {
        let pre_event_boundary = match &event {
            EngineEvent::Abyss(abyss) => abyss_event_starts_new_round(
                self.state.battle.abyss.floor,
                abyss,
            ),
            _ => false,
        };
        let post_event_archive = match &event {
            EngineEvent::CaptureStopped => true,
            EngineEvent::Abyss(abyss) => matches!(abyss, AbyssEvent::Exit { .. }),
            _ => false,
        };
        let mut round: Option<DetachedAbyssRound> = if pre_event_boundary {
            self.detach_abyss_round_if_changed()
        } else {
            None
        };
        let ghost opened = *self;
        let ghost first = round;
        self.control.note_outgoing_hit(&event, now);
        let capture_stopped = matches!(&event, EngineEvent::CaptureStopped);
        let ghost taken = event;
        let signal = apply_engine_event(&mut self.state, event, engine);
        let ghost applied = *self;
        if post_event_archive && round.is_none() {
            round = self.detach_abyss_round_if_changed();
        }
        let ghost closed = *self;
        let ghost last = round;
        self.archive_round(round, details_of);
        let ghost queued = *self;
        self.control.settle(&signal);
        assert(processes_through(
            *engine,
            *details_of,
            *old(self),
            taken,
            now,
            *self,
            EventPath { opened, first, applied, signal, closed, last, queued },
        )) by {
            reveal(processes_through);
        }
        capture_stopped
    }
}

/// A capture whose worker could not be spawned.
pub open spec fn unmanned(control: CaptureControl) -> CaptureControl {
    control.with_status(
        LiveCaptureStatus {
            phase: LiveCapturePhase::Failed,
            issue: Some(LiveCaptureIssue::Start(CoreErrorCode::SystemProbeFailed)),
        },
    )
}

/// What becomes of asking for the end of a capture or replay.
pub open spec fn halts(
    before: LiveCaptureService,
    stopper: Result<(), String>,
    after: LiveCaptureService,
    result: Result<StopAction, CoreError>,
) -> bool {
    match stop_requested(before.control.status) {
        None => {
            &&& result matches Err(error)
            &&& error.code == CoreErrorCode::CaptureNotRunning
            &&& error.message@ == "capture is not running"@
            &&& after == before
        },
        Some(status) => {
            let granted = before.control.with_status(status);
            let needs_worker = before.control.status.phase != LiveCapturePhase::Starting
                && !before.control.replay_running;
            if before.control.status.phase == LiveCapturePhase::Stopping {
                &&& result == Ok::<StopAction, CoreError>(
                    StopAction { stop_replay: false, spawn_stop_worker: false },
                )
                &&& after == before
            } else if needs_worker && stopper is Err {
                &&& result matches Err(error)
                &&& error.code == CoreErrorCode::SystemProbeFailed
                &&& error.message == stopper->Err_0
                &&& after == (LiveCaptureService { control: unmanned(granted), ..before })
            } else {
                &&& result == Ok::<StopAction, CoreError>(
                    StopAction {
                        stop_replay: before.control.replay_running,
                        spawn_stop_worker: needs_worker,
                    },
                )
                &&& after == (LiveCaptureService { control: granted, ..before })
            }
        },
    }
}

/// What becomes of asking for a live capture.
pub open spec fn begins(
    before: LiveCaptureService,
    worker: Result<(), String>,
    starter: Result<(), String>,
    after: LiveCaptureService,
    result: Result<(), CoreError>,
) -> bool {
    match (worker, start_requested(before.control.status)) {
        (Err(message), _) => {
            &&& result matches Err(error)
            &&& error.code == CoreErrorCode::SystemProbeFailed
            &&& error.message == message
            &&& after == before
        },
        (Ok(_), None) => {
            &&& result matches Err(error)
            &&& error.code == CoreErrorCode::CaptureAlreadyRunning
            &&& error.message@ == "capture start is already active"@
            &&& after == before
        },
        (Ok(_), Some(status)) => {
            let granted = before.control.with_status(status);
            match starter {
                Ok(_) => {
                    &&& result is Ok
                    &&& after == (LiveCaptureService { control: granted, ..before })
                },
                Err(message) => {
                    &&& result matches Err(error)
                    &&& error.code == CoreErrorCode::SystemProbeFailed
                    &&& error.message == message
                    &&& after == (LiveCaptureService { control: unmanned(granted), ..before })
                },
            }
        },
    }
}

/// What becomes of asking for a replay, which begins a fresh session at once.
pub open spec fn replays(
    before: LiveCaptureService,
    kind: CaptureReplayKind,
    worker: Result<(), String>,
    after: LiveCaptureService,
    result: Result<(), CoreError>,
) -> bool {
    match worker {
        Err(message) => {
            &&& result matches Err(error) && error.code == CoreErrorCode::SystemProbeFailed
                && error.message == message
            &&& after == before
        },
        Ok(_) => if before.control.status.phase.active() || before.control.replay_running {
            &&& result matches Err(error) && error.code == CoreErrorCode::CaptureAlreadyRunning
                && error.message@ == "capture or replay is already active"@
            &&& after == before
        } else {
            &&& result is Ok
            &&& after.state.blank()
            &&& after == (LiveCaptureService {
                state: after.state,
                control: (CaptureControl {
                    replay_running: true,
                    quality_source: match kind {
                        CaptureReplayKind::Pcapng => CaptureQualitySource::PcapngReplay,
                        CaptureReplayKind::Json => CaptureQualitySource::JsonReplay,
                    },
                    status: LiveCaptureStatus { phase: LiveCapturePhase::Running, issue: None },
                    ..before.control.with_round_detached()
                }).with_revision(),
                ..before
            })
        },
    }
}

/// Whether a list of hits holds a confirmed outgoing one.
pub open spec fn holds_outgoing(hits: Seq<Hit>) -> bool {
    exists|i: int| 0 <= i < hits.len() && (#[trigger] hits[i]).direction == HitDirection::Outgoing
}

fn any_outgoing(hits: &Vec<Hit>) -> (result: bool)
    ensures
        result == holds_outgoing(hits@),
{
    let mut i: usize = 0;
    while i < hits.len()
        invariant
            i <= hits.len(),
            forall|k: int| 0 <= k < i ==> (#[trigger] hits@[k]).direction != HitDirection::Outgoing,
        decreases hits.len() - i,
    {
        if hits[i].direction.is_outgoing() {
            return true;
        }
        i = i + 1;
    }
    false
}

/// Puts archives in front of a queue, dropping from the back past the bound,
/// and tells how many were dropped.
fn put_in_front(
    queue: &mut VecDeque<PendingHistoryArchive>,
    archives: Vec<PendingHistoryArchive>,
) -> (dropped: u64)
    requires
        old(queue)@.len() <= MAX_PENDING_ABYSS_ARCHIVES,
    ensures
        ({
            let all = archives@ + old(queue)@;
            &&& final(queue)@ == (if all.len() > MAX_PENDING_ABYSS_ARCHIVES {
                all.take(MAX_PENDING_ABYSS_ARCHIVES as int)
            } else {
                all
            })
            &&& dropped == (if all.len() > MAX_PENDING_ABYSS_ARCHIVES {
                all.len() - MAX_PENDING_ABYSS_ARCHIVES
            } else {
                0
            })
        }),
{
    let mut archives = archives;
    let mut dropped: u64 = 0;
    let ghost given = archives@;
    let ghost before = queue@;
    proof {
        vstd::std_specs::vec::axiom_spec_len(&archives);
    }
    while archives.len() > 0
        invariant
            archives@.len() <= given.len(),
            given.len() <= usize::MAX,
            before.len() <= MAX_PENDING_ABYSS_ARCHIVES,
            archives@ == given.take(archives@.len() as int),
            ({
                let all = given.skip(archives@.len() as int) + before;
                &&& queue@ == (if all.len() > MAX_PENDING_ABYSS_ARCHIVES {
                    all.take(MAX_PENDING_ABYSS_ARCHIVES as int)
                } else {
                    all
                })
                &&& dropped == (if all.len() > MAX_PENDING_ABYSS_ARCHIVES {
                    all.len() - MAX_PENDING_ABYSS_ARCHIVES
                } else {
                    0
                })
            }),
        decreases archives@.len(),
    {
        let ghost left = archives@.len() as int;
        let ghost earlier = given.skip(left) + before;
        if let Some(archive) = archives.pop() {
            let ghost later = given.skip(left - 1) + before;
            assert(later =~= seq![archive] + earlier);
            if queue.len() >= MAX_PENDING_ABYSS_ARCHIVES {
                queue.pop_back();
                dropped = dropped + 1;
            }
            queue.push_front(archive);
            assert(queue@ =~= (if later.len() > MAX_PENDING_ABYSS_ARCHIVES {
                later.take(MAX_PENDING_ABYSS_ARCHIVES as int)
            } else {
                later
            }));
            assert(archives@ =~= given.take(left - 1));
        }
    }
    assert(given.skip(0) =~= given);
    dropped
}

/// What queueing a detached round does.
#[verifier::opaque]
pub open spec fn archives<D: Fn(&CombatState) -> Option<HistoryCombatDetails>>(
    details_of: D,
    before: LiveCaptureService,
    round: Option<DetachedAbyssRound>,
    after: LiveCaptureService,
) -> bool {
    match round {
        Some(round) => exists|details: Option<HistoryCombatDetails>| #[trigger]
            call_ensures(details_of, (&round.state,), details) && before.queues(
                details,
                round.source,
                after,
            ),
        None => after == before,
    }
}

/// The states that an event passes through, in order.
pub ghost struct EventPath {
    /// After a round that the event ends was detached.
    pub opened: LiveCaptureService,
    pub first: Option<DetachedAbyssRound>,
    /// After the event was applied.
    pub applied: LiveCaptureService,
    pub signal: CoreSignal,
    /// After a round that the event closes was detached.
    pub closed: LiveCaptureService,
    pub last: Option<DetachedAbyssRound>,
    /// After the detached round was queued.
    pub queued: LiveCaptureService,
}

/// What an event does, along one path: a round that it ends is detached, an
/// outgoing hit is noted, the state takes the event, a round that it closes is
/// detached, the detached round is queued, and the lifecycle takes the signal.
#[verifier::opaque]
pub open spec fn processes_through<
    E: Fn(BattleState, &BattleUpdate) -> EngineStep,
    D: Fn(&CombatState) -> Option<HistoryCombatDetails>,
>(
    engine: E,
    details_of: D,
    before: LiveCaptureService,
    event: EngineEvent,
    now: u128,
    after: LiveCaptureService,
    path: EventPath,
) -> bool {
    &&& if ends_round_before(before.state, event) {
        before.detaches(path.opened, path.first)
    } else {
        path.opened == before && path.first is None
    }
    &&& reduces(engine, path.opened.state, event, path.applied.state, path.signal)
    &&& path.applied == (LiveCaptureService {
        state: path.applied.state,
        control: path.opened.control.noted(event, now),
        ..path.opened
    })
    &&& if ends_round_after(event) && path.first is None {
        path.applied.detaches(path.closed, path.last)
    } else {
        path.closed == path.applied && path.last == path.first
    }
    &&& archives(details_of, path.closed, path.last, path.queued)
    &&& after == (LiveCaptureService {
        control: path.queued.control.settled(path.signal),
        ..path.queued
    })
}

/// What an event does to the service.
pub open spec fn processes<
    E: Fn(BattleState, &BattleUpdate) -> EngineStep,
    D: Fn(&CombatState) -> Option<HistoryCombatDetails>,
>(
    engine: E,
    details_of: D,
    before: LiveCaptureService,
    event: EngineEvent,
    now: u128,
    after: LiveCaptureService,
) -> bool {
    exists|path: EventPath| #[trigger]
        processes_through(engine, details_of, before, event, now, after, path)
}

} // verus!
