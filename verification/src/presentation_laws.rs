//! What the windows present, and what becomes of it as the user goes along.
use vstd::prelude::*;

use crate::detail::MainDpsDetailRequest;
use crate::detail_cache::MainDpsStreamRevision;
use crate::lifecycle_laws::moved;
use crate::live_capture::PacketStreamRevision;
use crate::model::{AbyssHalf, CombatState};
use crate::presentation::{
    find_round, first_round, may_load, next_live_abyss_selection, packet_cursor, stream_revision,
    HistoryRoundIndex, PausedPresentation, PresentationState, SelectedRoundPresentation,
    StreamRevision,
};
use crate::settings::MainDpsDetailKind;

verus! {

/// A half chosen by hand is kept while the same half is played, and left for
/// the one that is played next.
pub proof fn the_played_half_is_followed(
    selected: Option<AbyssHalf>,
    observed: Option<AbyssHalf>,
    active: Option<AbyssHalf>,
    result: (Option<AbyssHalf>, Option<AbyssHalf>),
)
    requires
        call_ensures(next_live_abyss_selection, (selected, observed, active), result),
    ensures
        result.1 == active,
        active == observed ==> result.0 == selected,
        active != observed ==> result.0 == active,
{
}

/// What is left of a presentation whose main window only has to be drawn anew.
pub open spec fn only_redrawn(before: PresentationState, after: PresentationState) -> bool {
    &&& after.control.processing_paused == before.control.processing_paused
    &&& after.control.selected_abyss_half == before.control.selected_abyss_half
    &&& after.control.observed_abyss_half == before.control.observed_abyss_half
    &&& after.paused == before.paused
    &&& after.character_detail_request == before.character_detail_request
    &&& after.team_detail_request == before.team_detail_request
}

/// A fresh presentation shows the live session, with nothing chosen.
pub proof fn presentations_begin_live(fresh: PresentationState, live: &CombatState, shown: &CombatState)
    requires
        call_ensures(PresentationState::new, (), fresh),
        call_ensures(PresentationState::presented, (&fresh, live), shown),
    ensures
        *shown == *live,
        !fresh.control.processing_paused,
        fresh.control.selected_abyss_half is None,
        fresh.control.main_revision == 0,
        fresh.character_detail_request.character_id is None,
        fresh.character_detail_request.filter is All,
        fresh.character_detail_request.skill_filter is None,
        fresh.team_detail_request.character_id is None,
        fresh.team_detail_request.filter is All,
        fresh.team_detail_request.skill_filter is None,
{
}

/// A selected round is presented before anything else; without one, a frozen
/// session while processing is paused; else the live one.
pub proof fn selected_rounds_come_before_frozen_sessions(
    presentation: &PresentationState,
    live: &CombatState,
    shown: &CombatState,
)
    requires
        call_ensures(PresentationState::presented, (presentation, live), shown),
    ensures
        presentation.selected_round matches Some(round) ==> *shown == round.state,
        presentation.selected_round is None && presentation.control.processing_paused
            && presentation.paused is Some ==> *shown == presentation.paused->0.state,
        presentation.selected_round is None && (!presentation.control.processing_paused
            || presentation.paused is None) ==> *shown == *live,
{
}

/// A round that was selected is presented until another outgoing hit arrives;
/// then the live session is, and the window is told. While processing is
/// paused the round stays.
pub proof fn selected_rounds_stay_until_the_next_hit(
    selecting: &mut PresentationState,
    round: SelectedRoundPresentation,
    selected_at: u64,
    asking: &mut PresentationState,
    now: u64,
    named: Option<String>,
)
    requires
        old(selecting).selected_round is None,
        call_ensures(
            PresentationState::set_main_selected_round,
            (selecting, Some(round), selected_at),
            (),
        ),
        *old(asking) == *final(selecting),
        call_ensures(PresentationState::main_selected_round_id, (asking, now), named),
    ensures
        final(selecting).selected_round == Some(round),
        moved(old(selecting).control.main_revision, final(selecting).control.main_revision),
        only_redrawn(*old(selecting), *final(selecting)),
        now == selected_at || old(selecting).control.processing_paused ==> {
            &&& *final(asking) == *old(asking)
            &&& named is Some && named->0@ == round.record_id@
        },
        now != selected_at && !old(selecting).control.processing_paused ==> {
            &&& final(asking).selected_round is None
            &&& named is None
            &&& moved(old(asking).control.main_revision, final(asking).control.main_revision)
            &&& only_redrawn(*old(asking), *final(asking))
        },
{
}

/// Selecting the round that is selected does nothing; selecting the live
/// session leaves the round.
pub proof fn selections_are_made_once(
    repeating: &mut PresentationState,
    same: SelectedRoundPresentation,
    leaving: &mut PresentationState,
    outgoing: u64,
)
    requires
        old(repeating).selected_round is Some,
        old(repeating).selected_round->0.record_id@ == same.record_id@,
        call_ensures(
            PresentationState::set_main_selected_round,
            (repeating, Some(same), outgoing),
            (),
        ),
        call_ensures(
            PresentationState::set_main_selected_round,
            (leaving, None::<SelectedRoundPresentation>, outgoing),
            (),
        ),
    ensures
        *final(repeating) == *old(repeating),
        final(leaving).selected_round is None,
        old(leaving).selected_round is None ==> *final(leaving) == *old(leaving),
        old(leaving).selected_round is Some ==> moved(
            old(leaving).control.main_revision,
            final(leaving).control.main_revision,
        ) && only_redrawn(*old(leaving), *final(leaving)),
{
}

/// A round that is found has the id, has details where they are needed, and
/// is the first of that kind; where none is found there is none.
pub proof fn rounds_are_found_by_their_id(
    index: &Vec<HistoryRoundIndex>,
    id: &str,
    with_details: bool,
    found: Option<usize>,
)
    requires
        call_ensures(find_round, (index, id, with_details), found),
    ensures
        found matches Some(at) ==> {
            &&& at < index@.len()
            &&& index@[at as int].id@ == id@
            &&& with_details ==> index@[at as int].has_details
            &&& forall|earlier: int|
                0 <= earlier < at && (#[trigger] index@[earlier]).id@ == id@ ==> with_details
                    && !index@[earlier].has_details
        },
        found is None ==> forall|at: int|
            0 <= at < index@.len() && (#[trigger] index@[at]).id@ == id@ ==> with_details
                && !index@[at].has_details,
{
    first_has_the_id(index@, id@, with_details);
}

/// What the first round with an id is.
proof fn first_has_the_id(index: Seq<HistoryRoundIndex>, id: Seq<char>, with_details: bool)
    ensures
        match first_round(index, id, with_details) {
            Some(at) => {
                &&& 0 <= at < index.len()
                &&& index[at].id@ == id
                &&& with_details ==> index[at].has_details
                &&& forall|earlier: int|
                    0 <= earlier < at && (#[trigger] index[earlier]).id@ == id ==> with_details
                        && !index[earlier].has_details
            },
            None => forall|at: int|
                0 <= at < index.len() && (#[trigger] index[at]).id@ == id ==> with_details
                    && !index[at].has_details,
        },
    decreases index.len(),
{
    if index.len() > 0 {
        first_has_the_id(index.drop_last(), id, with_details);
        assert forall|at: int| 0 <= at < index.len() - 1 implies index.drop_last()[at]
            == #[trigger] index[at] by {}
    }
}

/// A round is selected by its id only where the list has it with details and
/// its session could be read; what is presented then is that session. A round
/// that was refused leaves no other selected in its place.
pub proof fn rounds_are_selected_as_listed<L: Fn(&HistoryRoundIndex) -> Option<CombatState>>(
    presentation: &mut PresentationState,
    id: String,
    index: &Vec<HistoryRoundIndex>,
    outgoing: u64,
    load: &L,
    result: Result<(), ()>,
)
    requires
        old(presentation).selected_round is None,
        call_ensures(
            PresentationState::set_main_selected_round_id::<L>,
            (presentation, Some(id), index, outgoing, load),
            result,
        ),
    ensures
        result is Err ==> *final(presentation) == *old(presentation),
        result is Ok ==> {
            &&& final(presentation).selected_round is Some
            &&& final(presentation).selected_round->0.record_id@ == id@
            &&& exists|at: int|
                {
                    &&& 0 <= at < index@.len()
                    &&& (#[trigger] index@[at]).id@ == id@
                    &&& index@[at].has_details
                    &&& call_ensures(
                        *load,
                        (&index@[at],),
                        Some(final(presentation).selected_round->0.state),
                    )
                }
            &&& moved(
                old(presentation).control.main_revision,
                final(presentation).control.main_revision,
            )
        },
{
    first_has_the_id(index@, id@, true);
    let loaded = choose|loaded: Option<CombatState>|
        {
            &&& #[trigger] may_load(*load, index@, id@, loaded)
            &&& result is Ok <==> loaded is Some
            &&& *final(presentation) == old(presentation).refreshed(outgoing).kept_by(
                index@,
            ).with_round(id, loaded, outgoing)
        };
    if let Some(at) = first_round(index@, id@, true) {
        let listed = index@[at];
    }
}

/// A selected round stays exactly as long as the list has it.
pub proof fn unlisted_rounds_are_left(
    presentation: &mut PresentationState,
    index: &Vec<HistoryRoundIndex>,
)
    requires
        call_ensures(PresentationState::drop_stale_selection, (presentation, index), ()),
    ensures
        old(presentation).selected_round is None ==> *final(presentation) == *old(presentation),
        old(presentation).selected_round matches Some(round) ==> {
            &&& (exists|at: int|
                0 <= at < index@.len() && (#[trigger] index@[at]).id@ == round.record_id@)
                ==> *final(presentation) == *old(presentation)
            &&& (forall|at: int|
                0 <= at < index@.len() ==> (#[trigger] index@[at]).id@ != round.record_id@) ==> {
                &&& final(presentation).selected_round is None
                &&& only_redrawn(*old(presentation), *final(presentation))
                &&& moved(
                    old(presentation).control.main_revision,
                    final(presentation).control.main_revision,
                )
            }
        },
{
}

/// Pausing freezes what it is given and resuming lets it go; both tell the
/// windows. Asking for what is already so does nothing.
pub proof fn pauses_end_as_they_began(
    pausing: &mut PresentationState,
    frozen: PausedPresentation,
    pausing_marker: &mut u64,
    resuming: &mut PresentationState,
    resuming_marker: &mut u64,
)
    requires
        !old(pausing).control.processing_paused,
        call_ensures(
            PresentationState::set_main_processing_paused,
            (pausing, true, Some(frozen), pausing_marker),
            (),
        ),
        *old(resuming) == *final(pausing),
        call_ensures(
            PresentationState::set_main_processing_paused,
            (resuming, false, None::<PausedPresentation>, resuming_marker),
            (),
        ),
    ensures
        final(pausing).control.processing_paused,
        final(pausing).paused == Some(frozen),
        final(pausing).selected_round == old(pausing).selected_round,
        moved(old(pausing).control.main_revision, final(pausing).control.main_revision),
        moved(*old(pausing_marker), *final(pausing_marker)),
        !final(resuming).control.processing_paused,
        final(resuming).paused is None,
        final(resuming).selected_round == old(pausing).selected_round,
        moved(old(resuming).control.main_revision, final(resuming).control.main_revision),
        moved(*old(resuming_marker), *final(resuming_marker)),
        final(resuming).control.selected_abyss_half == old(pausing).control.selected_abyss_half,
{
}

/// Pausing what is paused, or resuming what goes on, changes nothing.
pub proof fn pauses_are_made_once(
    presentation: &mut PresentationState,
    frozen: Option<PausedPresentation>,
    marker: &mut u64,
)
    requires
        call_ensures(
            PresentationState::set_main_processing_paused,
            (presentation, old(presentation).control.processing_paused, frozen, marker),
            (),
        ),
    ensures
        *final(presentation) == *old(presentation),
        *final(marker) == *old(marker),
{
}

/// What was missed during a pause is how far the session's own markers have
/// moved on: hits and inventory together, packets apart. Nothing was missed
/// where the session stands where it was frozen.
pub proof fn missed_events_are_counted(
    presentation: &PresentationState,
    live: &CombatState,
    counts: (u64, u64),
)
    requires
        call_ensures(PresentationState::main_paused_event_counts, (presentation, live), counts),
    ensures
        presentation.paused is None ==> counts == (0u64, 0u64),
        presentation.paused matches Some(paused) ==> {
            let was = paused.state;
            let hits = live.battle.team.hits_generation - was.battle.team.hits_generation;
            let items = live.inventory.items_generation - was.inventory.items_generation;
            let characters = live.inventory.characters_generation
                - was.inventory.characters_generation;
            let packets = live.battle.packet_log.packets_generation
                - was.battle.packet_log.packets_generation;
            &&& hits >= 0 && items >= 0 && characters >= 0 && hits + items + characters <= u64::MAX
                ==> counts.0 == hits + items + characters
            &&& packets >= 0 ==> counts.1 == packets
        },
{
}

/// Choosing a half shows it; choosing it again does nothing.
pub proof fn halves_are_chosen_once(
    choosing: &mut PresentationState,
    half: Option<AbyssHalf>,
    repeating: &mut PresentationState,
)
    requires
        call_ensures(PresentationState::set_main_selected_abyss_half, (choosing, half), ()),
        *old(repeating) == *final(choosing),
        call_ensures(PresentationState::set_main_selected_abyss_half, (repeating, half), ()),
    ensures
        final(choosing).control.selected_abyss_half == half,
        final(choosing).control.observed_abyss_half == old(choosing).control.observed_abyss_half,
        final(choosing).selected_round == old(choosing).selected_round,
        final(choosing).paused == old(choosing).paused,
        old(choosing).control.selected_abyss_half != half ==> moved(
            old(choosing).control.main_revision,
            final(choosing).control.main_revision,
        ),
        *final(repeating) == *final(choosing),
{
}

/// Following the half that is played remembers it, and returns what is looked
/// at from then on.
pub proof fn following_remembers_the_half(
    presentation: &mut PresentationState,
    active: Option<AbyssHalf>,
    half: Option<AbyssHalf>,
)
    requires
        call_ensures(PresentationState::follow_live_abyss_half, (presentation, active), half),
    ensures
        half == final(presentation).control.selected_abyss_half,
        final(presentation).control.observed_abyss_half == active,
        active == old(presentation).control.observed_abyss_half ==> *final(presentation) == *old(presentation),
        active != old(presentation).control.observed_abyss_half ==> half == active,
        final(presentation).control.main_revision == old(presentation).control.main_revision,
        final(presentation).selected_round == old(presentation).selected_round,
{
}

/// Once back at the live session nothing else is presented, nothing is chosen
/// and nothing is paused; the detail pages keep what they list.
pub proof fn returning_presents_the_live_session(
    presentation: &mut PresentationState,
    outgoing: u64,
    live: &CombatState,
    shown: &CombatState,
)
    requires
        call_ensures(
            PresentationState::return_main_presentation_to_live,
            (presentation, outgoing),
            (),
        ),
        call_ensures(PresentationState::presented, (&*final(presentation), live), shown),
    ensures
        *shown == *live,
        !final(presentation).control.processing_paused,
        final(presentation).paused is None,
        final(presentation).selected_round is None,
        final(presentation).control.selected_abyss_half is None,
        final(presentation).control.observed_abyss_half is None,
        final(presentation).control.selected_outgoing_revision == outgoing,
        moved(
            old(presentation).control.main_revision,
            final(presentation).control.main_revision,
        ),
        final(presentation).character_detail_request == old(presentation).character_detail_request,
        final(presentation).team_detail_request == old(presentation).team_detail_request,
{
}

/// The main window follows its own marker, the settings' and the archive's
/// always; the capture's unless a round is selected; the packets' only while
/// a frozen session is shown.
pub proof fn the_main_window_follows_what_it_shows(
    presentation: &PresentationState,
    capture: u64,
    packet: u64,
    settings: u64,
    history: u64,
    markers: MainDpsStreamRevision,
)
    requires
        call_ensures(
            PresentationState::main_dps_stream_revision,
            (presentation, capture, packet, settings, history),
            markers,
        ),
    ensures
        markers.main == presentation.control.main_revision,
        markers.presentation == settings,
        markers.history == history,
        presentation.selected_round is None ==> markers.capture == capture,
        presentation.selected_round is Some ==> markers.capture == 0 && markers.packet == 0,
        presentation.selected_round is None && presentation.control.processing_paused
            ==> markers.packet == packet,
        !presentation.control.processing_paused ==> markers.packet == 0,
{
}

/// The HUD follows the capture unless processing is paused, and its own
/// marker always.
pub proof fn the_hud_follows_the_capture(
    capture: u64,
    settings: u64,
    running: StreamRevision,
    paused: StreamRevision,
)
    requires
        call_ensures(stream_revision, (false, capture, settings), running),
        call_ensures(stream_revision, (true, capture, settings), paused),
    ensures
        running.capture == capture,
        running.presentation == settings,
        paused.capture == 0,
        paused.presentation == settings,
{
}

/// While a frozen session is shown the packet page stands still; else it
/// follows the capture.
pub proof fn the_packet_page_freezes_with_the_session(
    presentation: &PresentationState,
    live: PacketStreamRevision,
    markers: PacketStreamRevision,
)
    requires
        call_ensures(PresentationState::packet_stream_revision, (presentation, live), markers),
    ensures
        presentation.control.processing_paused && presentation.paused is Some ==> markers
            == presentation.paused->0.packet_revision,
        !presentation.control.processing_paused || presentation.paused is None ==> markers == live,
{
}

/// A cursor works within its own session alone, from where it stands.
pub proof fn cursors_belong_to_their_session(
    cursor: PacketStreamRevision,
    revision: PacketStreamRevision,
    known: Option<u64>,
    without: Option<u64>,
)
    requires
        call_ensures(packet_cursor, (Some(cursor), revision), known),
        call_ensures(packet_cursor, (None::<PacketStreamRevision>, revision), without),
    ensures
        without is None,
        known is Some <==> cursor.session_generation == revision.session_generation,
        known matches Some(from) ==> from == cursor.packet_generation,
{
}

/// A detail page lists what was last asked of it, and the other page is not
/// touched.
pub proof fn detail_pages_remember_what_was_asked(
    presentation: &mut PresentationState,
    kind: MainDpsDetailKind,
    request: MainDpsDetailRequest,
    asked: &MainDpsDetailRequest,
    other: MainDpsDetailKind,
    before: &MainDpsDetailRequest,
    after: &MainDpsDetailRequest,
)
    requires
        other != kind,
        call_ensures(
            PresentationState::set_main_dps_detail_request,
            (presentation, kind, request),
            (),
        ),
        call_ensures(
            PresentationState::main_dps_detail_request,
            (&*final(presentation), kind),
            asked,
        ),
        call_ensures(
            PresentationState::main_dps_detail_request,
            (&*old(presentation), other),
            before,
        ),
        call_ensures(
            PresentationState::main_dps_detail_request,
            (&*final(presentation), other),
            after,
        ),
    ensures
        *asked == request,
        *after == *before,
        final(presentation).control == old(presentation).control,
        final(presentation).selected_round == old(presentation).selected_round,
        kind is Character ==> final(presentation).character_detail_request == request,
        kind is Team ==> final(presentation).team_detail_request == request,
{
}

} // verus!
