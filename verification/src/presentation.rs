//! What is presented: the live session, a session frozen while processing is
//! paused, or an archived round that was selected.
use vstd::prelude::*;

use crate::combat_details::CombatDetailFilter;
use crate::detail::MainDpsDetailRequest;
use crate::detail_cache::MainDpsStreamRevision;
use crate::live_capture::{wrapped_sum, wrapping_sum, PacketStreamRevision};
use crate::model::{AbyssHalf, CombatState};
use crate::reducer::{advance_generation, next_generation};
use crate::settings::MainDpsDetailKind;
use crate::text::{held, same_text};

verus! {

/// A session as it was when processing was paused.
#[derive(Clone, Debug)]
pub struct PausedPresentation {
    pub state: CombatState,
    pub packet_revision: PacketStreamRevision,
}

/// An archived round that is looked at.
#[derive(Clone, Debug)]
pub struct SelectedRoundPresentation {
    pub record_id: String,
    pub state: CombatState,
}

/// What the list of rounds knows of one.
#[derive(Clone, Debug)]
pub struct HistoryRoundIndex {
    pub path: String,
    pub id: String,
    pub display_time: String,
    pub abyss_floor: Option<u32>,
    pub has_details: bool,
}

#[derive(Clone, Copy, Debug, PartialEq, Eq, Structural)]
pub struct PresentationControl {
    /// Moves whenever the main window can have changed.
    pub main_revision: u64,
    pub processing_paused: bool,
    pub selected_abyss_half: Option<AbyssHalf>,
    pub observed_abyss_half: Option<AbyssHalf>,
    /// The outgoing hits that had been counted when a round was selected.
    pub selected_outgoing_revision: u64,
}

impl PresentationControl {
    pub open spec fn with_main_revision(self) -> Self {
        PresentationControl { main_revision: next_generation(self.main_revision), ..self }
    }
}

#[derive(Clone, Debug)]
pub struct PresentationState {
    pub control: PresentationControl,
    pub selected_round: Option<SelectedRoundPresentation>,
    pub paused: Option<PausedPresentation>,
    pub character_detail_request: MainDpsDetailRequest,
    pub team_detail_request: MainDpsDetailRequest,
}

/// The half to look at and the half that was seen last. Only a change of the
/// half that is played changes the half to look at.
pub open spec fn followed(
    selected: Option<AbyssHalf>,
    observed: Option<AbyssHalf>,
    active: Option<AbyssHalf>,
) -> (Option<AbyssHalf>, Option<AbyssHalf>) {
    if active == observed {
        (selected, observed)
    } else {
        (active, active)
    }
}

pub fn next_live_abyss_selection(
    selected: Option<AbyssHalf>,
    observed: Option<AbyssHalf>,
    active: Option<AbyssHalf>,
) -> (result: (Option<AbyssHalf>, Option<AbyssHalf>))
    ensures
        result == followed(selected, observed, active),
{
    if active == observed {
        (selected, observed)
    } else {
        (active, active)
    }
}

/// A half that was chosen by hand stays until another half is played.
pub proof fn chosen_halves_stay_until_the_next_half(
    chosen: Option<AbyssHalf>,
    selected: Option<AbyssHalf>,
    observed: Option<AbyssHalf>,
    active: Option<AbyssHalf>,
    next: Option<AbyssHalf>,
)
    ensures
        ({
            let seen = followed(selected, observed, active).1;
            &&& seen == active
            &&& followed(chosen, seen, active) == (chosen, active)
            &&& next != active ==> followed(chosen, seen, next) == (next, next)
        }),
{
}

/// How far a counter that wraps around has moved.
pub open spec fn wrapped_difference(now: u64, before: u64) -> u64 {
    if now >= before {
        (now - before) as u64
    } else {
        (now + u64::MAX + 1 - before) as u64
    }
}

fn wrapping_difference(now: u64, before: u64) -> (result: u64)
    ensures
        result == wrapped_difference(now, before),
{
    if now >= before {
        now - before
    } else {
        now + (u64::MAX - before) + 1
    }
}

/// How much happened to a session since it was frozen: changes of hits and
/// inventory, and packets.
pub open spec fn missed(live: CombatState, frozen: CombatState) -> (u64, u64) {
    (
        wrapped_sum(
            wrapped_sum(
                wrapped_difference(
                    live.battle.team.hits_generation,
                    frozen.battle.team.hits_generation,
                ),
                wrapped_difference(
                    live.inventory.items_generation,
                    frozen.inventory.items_generation,
                ),
            ),
            wrapped_difference(
                live.inventory.characters_generation,
                frozen.inventory.characters_generation,
            ),
        ),
        wrapped_difference(
            live.battle.packet_log.packets_generation,
            frozen.battle.packet_log.packets_generation,
        ),
    )
}

impl PresentationState {
    /// The live session is presented, and the detail pages list every hit.
    pub open spec fn fresh(self) -> bool {
        self == (PresentationState {
            control: PresentationControl {
                main_revision: 0,
                processing_paused: false,
                selected_abyss_half: None,
                observed_abyss_half: None,
                selected_outgoing_revision: 0,
            },
            selected_round: None,
            paused: None,
            character_detail_request: MainDpsDetailRequest {
                character_id: None,
                filter: CombatDetailFilter::All,
                skill_filter: None,
            },
            team_detail_request: MainDpsDetailRequest {
                character_id: None,
                filter: CombatDetailFilter::All,
                skill_filter: None,
            },
        })
    }

    /// The presentation as the program starts.
    pub fn new() -> (result: Self)
        ensures
            result.fresh(),
    {
        PresentationState {
            control: PresentationControl {
                main_revision: 0,
                processing_paused: false,
                selected_abyss_half: None,
                observed_abyss_half: None,
                selected_outgoing_revision: 0,
            },
            selected_round: None,
            paused: None,
            character_detail_request: MainDpsDetailRequest::default(),
            team_detail_request: MainDpsDetailRequest::default(),
        }
    }

    /// Moves the marker of the main window.
    pub fn bump_main_dps_revision(&mut self)
        ensures
            *final(self) == (PresentationState {
                control: old(self).control.with_main_revision(),
                ..*old(self)
            }),
    {
        self.control.main_revision = advance_generation(self.control.main_revision);
    }

    /// A selected round is left as soon as another outgoing hit has arrived,
    /// unless processing is paused.
    pub open spec fn selection_is_over(self, outgoing_hit_revision: u64) -> bool {
        self.selected_round is Some && !self.control.processing_paused && outgoing_hit_revision
            != self.control.selected_outgoing_revision
    }

    /// `self` with a selection dropped that is over.
    pub open spec fn refreshed(self, outgoing_hit_revision: u64) -> Self {
        if self.selection_is_over(outgoing_hit_revision) {
            PresentationState {
                control: self.control.with_main_revision(),
                selected_round: None,
                ..self
            }
        } else {
            self
        }
    }

    /// The selected round, if it is still looked at.
    pub fn main_selected_round_id(&mut self, outgoing_hit_revision: u64) -> (result: Option<String>)
        ensures
            *final(self) == old(self).refreshed(outgoing_hit_revision),
            held(result) == (match final(self).selected_round {
                Some(round) => Some(round.record_id@),
                None => None,
            }),
    {
        if self.selected_round.is_some() && !self.control.processing_paused
            && outgoing_hit_revision != self.control.selected_outgoing_revision {
            self.selected_round = None;
            self.bump_main_dps_revision();
            return None;
        }
        match &self.selected_round {
            Some(round) => Some(round.record_id.clone()),
            None => None,
        }
    }

    /// Selects a round, or the live session. Selecting what is selected does
    /// nothing.
    pub fn set_main_selected_round(
        &mut self,
        selection: Option<SelectedRoundPresentation>,
        outgoing_hit_revision: u64,
    )
        ensures
            *final(self) == old(self).selecting(selection, outgoing_hit_revision),
    {
        let same = match (&self.selected_round, &selection) {
            (None, None) => true,
            (Some(current), Some(wanted)) => same_text(
                current.record_id.as_str(),
                wanted.record_id.as_str(),
            ),
            _ => false,
        };
        if same {
            return;
        }
        self.control.selected_outgoing_revision = outgoing_hit_revision;
        self.selected_round = selection;
        self.bump_main_dps_revision();
    }

    /// `self` with a selection dropped that the list no longer has.
    pub open spec fn kept_by(self, index: Seq<HistoryRoundIndex>) -> Self {
        if self.selected_round matches Some(round) && !is_listed(index, round.record_id@) {
            PresentationState {
                control: self.control.with_main_revision(),
                selected_round: None,
                ..self
            }
        } else {
            self
        }
    }

    /// `self` with another round selected, or the live session. Selecting what
    /// is selected does nothing.
    pub open spec fn selecting(
        self,
        selection: Option<SelectedRoundPresentation>,
        outgoing_hit_revision: u64,
    ) -> Self {
        if same_selection(self.selected_round, selection) {
            self
        } else {
            PresentationState {
                control: PresentationControl {
                    selected_outgoing_revision: outgoing_hit_revision,
                    ..self.control.with_main_revision()
                },
                selected_round: selection,
                ..self
            }
        }
    }

    /// `self` with a round selected whose session could be read.
    pub open spec fn with_round(
        self,
        record_id: String,
        loaded: Option<CombatState>,
        outgoing_hit_revision: u64,
    ) -> Self {
        match loaded {
            Some(state) => self.selecting(
                Some(SelectedRoundPresentation { record_id, state }),
                outgoing_hit_revision,
            ),
            None => self,
        }
    }

    /// Selects a round by its id, or the live session. `load` reads the session
    /// of an archived round. A round that is not listed with details, or that
    /// cannot be read, is refused.
    pub fn set_main_selected_round_id<L: Fn(&HistoryRoundIndex) -> Option<CombatState>>(
        &mut self,
        selection: Option<String>,
        index: &Vec<HistoryRoundIndex>,
        outgoing_hit_revision: u64,
        load: &L,
    ) -> (result: Result<(), ()>)
        requires
            forall|round: HistoryRoundIndex| #[trigger] call_requires(*load, (&round,)),
        ensures
            selection is None ==> result is Ok && *final(self) == old(self).selecting(
                None,
                outgoing_hit_revision,
            ),
            selection matches Some(id) ==> {
                let current = old(self).refreshed(outgoing_hit_revision).kept_by(index@);
                exists|loaded: Option<CombatState>|
                    {
                        &&& #[trigger] may_load(*load, index@, id@, loaded)
                        &&& result is Ok <==> loaded is Some
                        &&& *final(self) == current.with_round(id, loaded, outgoing_hit_revision)
                    }
            },
    {
        let record_id: String = match selection {
            Some(record_id) => record_id,
            None => {
                self.set_main_selected_round(None, outgoing_hit_revision);
                return Ok(());
            },
        };
        let _ = self.main_selected_round_id(outgoing_hit_revision);
        self.drop_stale_selection(index);
        let loaded: Option<CombatState> = match find_round(index, record_id.as_str(), true) {
            None => None,
            Some(at) => load(&index[at]),
        };
        assert(may_load(*load, index@, record_id@, loaded));
        match loaded {
            None => Err(()),
            Some(state) => {
                self.set_main_selected_round(
                    Some(SelectedRoundPresentation { record_id, state }),
                    outgoing_hit_revision,
                );
                Ok(())
            },
        }
    }

    /// Leaves a selected round that the list no longer has.
    pub fn drop_stale_selection(&mut self, index: &Vec<HistoryRoundIndex>)
        ensures
            *final(self) == old(self).kept_by(index@),
    {
        let stale = match &self.selected_round {
            Some(round) => find_round(index, round.record_id.as_str(), false).is_none(),
            None => false,
        };
        if stale {
            self.selected_round = None;
            self.bump_main_dps_revision();
        }
    }

    /// Pauses or resumes processing. While it is paused the frozen session is
    /// presented; the live one goes on unseen.
    pub fn set_main_processing_paused(
        &mut self,
        paused: bool,
        frozen: Option<PausedPresentation>,
        revision: &mut u64,
    )
        ensures
            if old(self).control.processing_paused == paused {
                *final(self) == *old(self) && *final(revision) == *old(revision)
            } else {
                &&& *final(self) == (PresentationState {
                    control: PresentationControl {
                        processing_paused: paused,
                        ..old(self).control.with_main_revision()
                    },
                    paused: if paused {
                        frozen
                    } else {
                        None
                    },
                    ..*old(self)
                })
                &&& *final(revision) == next_generation(*old(revision))
            },
    {
        if self.control.processing_paused == paused {
            return;
        }
        self.paused =
        if paused {
            frozen
        } else {
            None
        };
        self.control.processing_paused = paused;
        *revision = advance_generation(*revision);
        self.bump_main_dps_revision();
    }

    /// How much happened since processing was paused.
    pub fn main_paused_event_counts(&self, live: &CombatState) -> (result: (u64, u64))
        ensures
            result == (match self.paused {
                Some(paused) => missed(*live, paused.state),
                None => (0, 0),
            }),
    {
        match &self.paused {
            None => (0, 0),
            Some(paused) => {
                let hits: u64 = wrapping_difference(
                    live.battle.team.hits_generation,
                    paused.state.battle.team.hits_generation,
                );
                let items: u64 = wrapping_difference(
                    live.inventory.items_generation,
                    paused.state.inventory.items_generation,
                );
                let characters: u64 = wrapping_difference(
                    live.inventory.characters_generation,
                    paused.state.inventory.characters_generation,
                );
                let packets: u64 = wrapping_difference(
                    live.battle.packet_log.packets_generation,
                    paused.state.battle.packet_log.packets_generation,
                );
                (wrapping_sum(wrapping_sum(hits, items), characters), packets)
            },
        }
    }

    /// What is presented.
    pub open spec fn presents(self, live: CombatState) -> CombatState {
        match (self.selected_round, self.paused) {
            (Some(round), _) => round.state,
            (None, Some(paused)) if self.control.processing_paused => paused.state,
            _ => live,
        }
    }

    /// What is presented, once a selection that is over was dropped.
    pub fn presented<'a>(&'a self, live: &'a CombatState) -> (state: &'a CombatState)
        ensures
            *state == self.presents(*live),
    {
        if let Some(round) = &self.selected_round {
            return &round.state;
        }
        if self.control.processing_paused {
            if let Some(paused) = &self.paused {
                return &paused.state;
            }
        }
        live
    }

    /// Chooses the half to look at.
    pub fn set_main_selected_abyss_half(&mut self, half: Option<AbyssHalf>)
        ensures
            *final(self) == (if old(self).control.selected_abyss_half == half {
                *old(self)
            } else {
                PresentationState {
                    control: PresentationControl {
                        selected_abyss_half: half,
                        ..old(self).control.with_main_revision()
                    },
                    ..*old(self)
                }
            }),
    {
        if self.control.selected_abyss_half == half {
            return;
        }
        self.control.selected_abyss_half = half;
        self.bump_main_dps_revision();
    }

    /// Follows the half that is played.
    pub fn follow_live_abyss_half(&mut self, active: Option<AbyssHalf>) -> (half: Option<AbyssHalf>)
        ensures
            ({
                let next = followed(
                    old(self).control.selected_abyss_half,
                    old(self).control.observed_abyss_half,
                    active,
                );
                &&& half == next.0
                &&& *final(self) == (PresentationState {
                    control: PresentationControl {
                        selected_abyss_half: next.0,
                        observed_abyss_half: next.1,
                        ..old(self).control
                    },
                    ..*old(self)
                })
            }),
    {
        let (selected, observed) = next_live_abyss_selection(
            self.control.selected_abyss_half,
            self.control.observed_abyss_half,
            active,
        );
        self.control.selected_abyss_half = selected;
        self.control.observed_abyss_half = observed;
        selected
    }

    /// `self` as a new session finds it.
    pub open spec fn back_to_live(self, outgoing_hit_revision: u64) -> Self {
        PresentationState {
            control: PresentationControl {
                main_revision: next_generation(self.control.main_revision),
                processing_paused: false,
                selected_abyss_half: None,
                observed_abyss_half: None,
                selected_outgoing_revision: outgoing_hit_revision,
            },
            selected_round: None,
            paused: None,
            ..self
        }
    }

    /// Presents the live session again.
    pub fn return_main_presentation_to_live(&mut self, outgoing_hit_revision: u64)
        ensures
            *final(self) == old(self).back_to_live(outgoing_hit_revision),
    {
        self.selected_round = None;
        self.paused = None;
        self.control.processing_paused = false;
        self.control.selected_outgoing_revision = outgoing_hit_revision;
        self.control.selected_abyss_half = None;
        self.control.observed_abyss_half = None;
        self.bump_main_dps_revision();
    }

    /// The markers that the main window follows. A selected round does not
    /// depend on the capture; a frozen session depends on the packets, whose
    /// count is shown.
    pub open spec fn main_markers(
        self,
        capture_revision: u64,
        packet_revision: u64,
        presentation_revision: u64,
        history_revision: u64,
    ) -> MainDpsStreamRevision {
        MainDpsStreamRevision {
            capture: if self.selected_round is Some {
                0
            } else {
                capture_revision
            },
            packet: if self.control.processing_paused && self.selected_round is None {
                packet_revision
            } else {
                0
            },
            presentation: presentation_revision,
            history: history_revision,
            main: self.control.main_revision,
        }
    }

    /// Reads the markers that the main window follows.
    pub fn main_dps_stream_revision(
        &self,
        capture_revision: u64,
        packet_revision: u64,
        presentation_revision: u64,
        history_revision: u64,
    ) -> (result: MainDpsStreamRevision)
        ensures
            result == self.main_markers(
                capture_revision,
                packet_revision,
                presentation_revision,
                history_revision,
            ),
    {
        let selected = self.selected_round.is_some();
        MainDpsStreamRevision {
            capture: if selected {
                0
            } else {
                capture_revision
            },
            packet: if self.control.processing_paused && !selected {
                packet_revision
            } else {
                0
            },
            presentation: presentation_revision,
            history: history_revision,
            main: self.control.main_revision,
        }
    }

    /// The markers that the packet page follows.
    pub fn packet_stream_revision(&self, live: PacketStreamRevision) -> (result:
        PacketStreamRevision)
        ensures
            result == (match self.paused {
                Some(paused) if self.control.processing_paused => paused.packet_revision,
                _ => live,
            }),
    {
        if self.control.processing_paused {
            if let Some(paused) = &self.paused {
                return paused.packet_revision;
            }
        }
        live
    }

    pub open spec fn detail_request(self, kind: MainDpsDetailKind) -> MainDpsDetailRequest {
        match kind {
            MainDpsDetailKind::Character => self.character_detail_request,
            MainDpsDetailKind::Team => self.team_detail_request,
        }
    }

    pub fn main_dps_detail_request(&self, kind: MainDpsDetailKind) -> (result:
        &MainDpsDetailRequest)
        ensures
            *result == self.detail_request(kind),
    {
        match kind {
            MainDpsDetailKind::Character => &self.character_detail_request,
            MainDpsDetailKind::Team => &self.team_detail_request,
        }
    }

    pub fn set_main_dps_detail_request(
        &mut self,
        kind: MainDpsDetailKind,
        request: MainDpsDetailRequest,
    )
        ensures
            *final(self) == (match kind {
                MainDpsDetailKind::Character => PresentationState {
                    character_detail_request: request,
                    ..*old(self)
                },
                MainDpsDetailKind::Team => PresentationState {
                    team_detail_request: request,
                    ..*old(self)
                },
            }),
    {
        match kind {
            MainDpsDetailKind::Character => self.character_detail_request = request,
            MainDpsDetailKind::Team => self.team_detail_request = request,
        }
    }
}

/// Two selections of the same round.
pub open spec fn same_selection(
    left: Option<SelectedRoundPresentation>,
    right: Option<SelectedRoundPresentation>,
) -> bool {
    match (left, right) {
        (None, None) => true,
        (Some(left), Some(right)) => left.record_id@ == right.record_id@,
        _ => false,
    }
}

/// Whether a list has a round.
pub open spec fn is_listed(index: Seq<HistoryRoundIndex>, id: Seq<char>) -> bool {
    exists|k: int| 0 <= k < index.len() && (#[trigger] index[k]).id@ == id
}

/// The first round of a list with an id, and with details if those are needed.
pub open spec fn first_round(
    index: Seq<HistoryRoundIndex>,
    id: Seq<char>,
    with_details: bool,
) -> Option<int>
    decreases index.len(),
{
    if index.len() == 0 {
        None
    } else {
        match first_round(index.drop_last(), id, with_details) {
            Some(at) => Some(at),
            None => if index.last().id@ == id && (with_details ==> index.last().has_details) {
                Some(index.len() - 1)
            } else {
                None
            },
        }
    }
}

/// What reading the session of a listed round can give; one that is not listed
/// with details gives nothing.
pub open spec fn may_load<L: Fn(&HistoryRoundIndex) -> Option<CombatState>>(
    load: L,
    index: Seq<HistoryRoundIndex>,
    id: Seq<char>,
    loaded: Option<CombatState>,
) -> bool {
    match first_round(index, id, true) {
        Some(at) => call_ensures(load, (&index[at],), loaded),
        None => loaded is None,
    }
}

/// Finds a round in the list. One that is to be selected needs details.
pub fn find_round(index: &Vec<HistoryRoundIndex>, id: &str, with_details: bool) -> (result: Option<
    usize,
>)
    ensures
        match result {
            Some(at) => first_round(index@, id@, with_details) == Some(at as int) && at
                < index@.len(),
            None => first_round(index@, id@, with_details) is None,
        },
        !with_details ==> (result is Some <==> is_listed(index@, id@)),
{
    let mut found: Option<usize> = None;
    let mut i: usize = 0;
    while i < index.len()
        invariant
            i <= index@.len(),
            match found {
                Some(at) => first_round(index@.take(i as int), id@, with_details) == Some(at as int)
                    && at < index@.len() && index@[at as int].id@ == id@,
                None => first_round(index@.take(i as int), id@, with_details) is None && (
                !with_details ==> forall|k: int|
                    0 <= k < i ==> (#[trigger] index@[k]).id@ != id@),
            },
        decreases index.len() - i,
    {
        assert(index@.take(i + 1).drop_last() =~= index@.take(i as int));
        if found.is_none() && same_text(index[i].id.as_str(), id) && (!with_details
            || index[i].has_details) {
            found = Some(i);
        }
        i = i + 1;
    }
    assert(index@.take(i as int) =~= index@);
    found
}

/// The list of archived rounds as it was read last.
#[derive(Clone, Debug)]
pub struct MainRoundCache {
    /// The archive's marker at that time.
    pub revision: Option<u64>,
    pub index: Vec<HistoryRoundIndex>,
}

impl MainRoundCache {
    pub fn new() -> (result: Self)
        ensures
            result.revision is None,
            result.index@.len() == 0,
    {
        MainRoundCache { revision: None, index: Vec::new() }
    }

    /// The list of archived rounds, read anew where the archive has changed. A
    /// selected round that is not listed any more is left.
    pub fn main_round_index<L: Fn() -> Vec<HistoryRoundIndex>>(
        &mut self,
        presentation: &mut PresentationState,
        history_revision: u64,
        outgoing_hit_revision: u64,
        load: &L,
    ) -> (index: &Vec<HistoryRoundIndex>)
        requires
            call_requires(*load, ()),
        ensures
            index@ == final(self).index@,
            if old(self).revision == Some(history_revision) {
                *final(self) == *old(self)
            } else {
                &&& final(self).revision == Some(history_revision)
                &&& call_ensures(*load, (), final(self).index)
            },
            *final(presentation) == old(presentation).refreshed(outgoing_hit_revision).kept_by(
                index@,
            ),
    {
        if self.revision != Some(history_revision) {
            self.index = load();
            self.revision = Some(history_revision);
        }
        let _ = presentation.main_selected_round_id(outgoing_hit_revision);
        presentation.drop_stale_selection(&self.index);
        &self.index
    }
}

/// While processing is paused, the frozen session is presented whatever
/// becomes of the live one; after resuming, the live one is.
pub proof fn pausing_freezes_what_is_presented(
    before: PresentationState,
    frozen: PausedPresentation,
    live: CombatState,
)
    requires
        before.selected_round is None,
        !before.control.processing_paused,
    ensures
        ({
            let paused = PresentationState {
                control: PresentationControl {
                    processing_paused: true,
                    ..before.control.with_main_revision()
                },
                paused: Some(frozen),
                ..before
            };
            let resumed = PresentationState {
                control: PresentationControl {
                    processing_paused: false,
                    ..paused.control.with_main_revision()
                },
                paused: None,
                ..paused
            };
            paused.presents(live) == frozen.state && resumed.presents(live) == live
        }),
{
}

/// A selected round is presented until the next outgoing hit.
pub proof fn selections_end_with_the_next_hit(
    before: PresentationState,
    round: SelectedRoundPresentation,
    live: CombatState,
    selected_at: u64,
    now: u64,
)
    requires
        !before.control.processing_paused,
    ensures
        ({
            let selected = PresentationState {
                control: PresentationControl {
                    selected_outgoing_revision: selected_at,
                    ..before.control.with_main_revision()
                },
                selected_round: Some(round),
                ..before
            };
            &&& now == selected_at ==> selected.refreshed(now).presents(live) == round.state
            &&& now != selected_at ==> selected.refreshed(now).presents(live) == live
        }),
{
}

/// A new session is presented live.
pub proof fn new_sessions_are_presented_live(
    before: PresentationState,
    live: CombatState,
    outgoing_hit_revision: u64,
)
    ensures
        before.back_to_live(outgoing_hit_revision).presents(live) == live,
        before.back_to_live(outgoing_hit_revision).refreshed(outgoing_hit_revision)
            == before.back_to_live(outgoing_hit_revision),
{
}

/// The markers that the HUD follows.
#[derive(Clone, Copy, Debug, PartialEq, Eq, Structural)]
pub struct StreamRevision {
    pub capture: u64,
    pub presentation: u64,
}

/// While processing is paused the HUD does not follow the capture.
pub fn stream_revision(
    processing_paused: bool,
    capture_revision: u64,
    presentation_revision: u64,
) -> (result: StreamRevision)
    ensures
        result == (StreamRevision {
            capture: if processing_paused {
                0
            } else {
                capture_revision
            },
            presentation: presentation_revision,
        }),
{
    StreamRevision {
        capture: if processing_paused {
            0
        } else {
            capture_revision
        },
        presentation: presentation_revision,
    }
}

/// A cursor within the same session, and where it stands.
pub open spec fn usable_cursor(
    after: Option<PacketStreamRevision>,
    revision: PacketStreamRevision,
) -> Option<u64> {
    match after {
        Some(cursor) if cursor.session_generation == revision.session_generation => Some(
            cursor.packet_generation,
        ),
        _ => None,
    }
}

/// Whether a packet page can be brought up to date from a cursor, and from
/// where: only within the same session.
pub fn packet_cursor(
    after: Option<PacketStreamRevision>,
    revision: PacketStreamRevision,
) -> (result: Option<u64>)
    ensures
        result == usable_cursor(after, revision),
{
    match after {
        Some(cursor) => if cursor.session_generation == revision.session_generation {
            Some(cursor.packet_generation)
        } else {
            None
        },
        None => None,
    }
}

} // verus!
