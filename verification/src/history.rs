//! Round boundaries, and the archive that a finished round leaves behind.
use vstd::prelude::*;

use crate::double::Double;
use crate::model::{AbyssEvent, CaptureQualitySource, CombatState, DpsTimeBasis, Hit};

verus! {

/// The bounded record of a round's hits.
#[derive(Clone, Debug)]
pub struct HistoryCombatDetails {
    pub global_hits: Vec<Hit>,
    pub first_half_hits: Vec<Hit>,
    pub second_half_hits: Vec<Hit>,
    pub exited_at: Option<Double>,
}

#[derive(Clone, Copy, Debug, PartialEq, Eq, Structural)]
pub struct CaptureQualitySummary {
    pub source: CaptureQualitySource,
}

/// The engine's summary of a round.
#[derive(Clone, Copy, Debug, PartialEq, Eq, Structural)]
pub struct CombatSessionSummary {
    pub total_damage: Double,
    pub duration_seconds: Double,
    pub dps_time_basis: DpsTimeBasis,
    pub quality: CaptureQualitySummary,
}

#[derive(Clone, Debug)]
pub struct PreparedHistoryArchive {
    pub summary: CombatSessionSummary,
    pub details: Option<HistoryCombatDetails>,
}

/// A round that waits to be prepared and persisted. The source is frozen at
/// the boundary, so that a later switch between live capture and replay cannot
/// rewrite where an older round came from.
#[derive(Clone, Debug)]
pub struct PendingHistoryArchive {
    pub details: HistoryCombatDetails,
    pub source: CaptureQualitySource,
}

/// A restart, or a stage on another floor, ends the round in progress.
pub open spec fn starts_new_round(current_floor: Option<u32>, event: AbyssEvent) -> bool {
    match event {
        AbyssEvent::RestartDetected { .. } => true,
        AbyssEvent::Stage { floor: Some(next), .. } => current_floor is Some && current_floor->0
            != next,
        _ => false,
    }
}

pub fn abyss_event_starts_new_round(current_floor: Option<u32>, event: &AbyssEvent) -> (result:
    bool)
    ensures
        result == starts_new_round(current_floor, *event),
{
    match event {
        AbyssEvent::RestartDetected { .. } => true,
        AbyssEvent::Stage { floor: Some(next), .. } => match current_floor {
            Some(floor) => floor != *next,
            None => false,
        },
        _ => false,
    }
}

pub const NANOS_PER_SECOND: u128 = 1_000_000_000;

/// Whether an idle fight is due to be cut: capture runs, nothing is paused, no
/// challenge is entered, there is something to cut, and the last output lies
/// at least `idle_seconds` back. The idle time is given in nanoseconds.
pub fn auto_round_due(
    capture_running: bool,
    paused: bool,
    abyss_active: bool,
    game_paused: bool,
    has_hits: bool,
    idle_elapsed: Option<u128>,
    idle_seconds: u32,
) -> (result: bool)
    ensures
        result == (capture_running && !paused && !abyss_active && !game_paused && has_hits
            && idle_elapsed is Some && idle_elapsed->0 >= idle_seconds * NANOS_PER_SECOND),
{
    let long_enough = match idle_elapsed {
        Some(elapsed) => elapsed >= idle_seconds as u128 * NANOS_PER_SECOND,
        None => false,
    };
    capture_running && !paused && !abyss_active && !game_paused && has_hits && long_enough
}

/// Whether `archive` is what the state, with the details `details`, leaves
/// behind: the summary is taken of the state that the details restore, or of
/// the state itself where there are none, and without a summary there is no
/// archive.
pub open spec fn archived_with<
    R: Fn(&HistoryCombatDetails) -> CombatState,
    S: Fn(
        &CombatState,
        CaptureQualitySource,
        DpsTimeBasis,
        bool,
    ) -> Option<CombatSessionSummary>,
>(
    restore: R,
    summarize: S,
    state: CombatState,
    source: CaptureQualitySource,
    dps_time_mode: DpsTimeBasis,
    separate_reaction_damage: bool,
    details: Option<HistoryCombatDetails>,
    archive: Option<PreparedHistoryArchive>,
) -> bool {
    exists|subject: CombatState, summary: Option<CombatSessionSummary>|
        {
            &&& match details {
                Some(kept) => call_ensures(restore, (&kept,), subject),
                None => subject == state,
            }
            &&& #[trigger] call_ensures(
                summarize,
                (&subject, source, dps_time_mode, separate_reaction_damage),
                summary,
            )
            &&& match summary {
                Some(summary) => archive == Some(PreparedHistoryArchive { summary, details }),
                None => archive is None,
            }
        }
}

/// Prepares the archive of a round.
pub fn prepare_history_archive<
    D: Fn(&CombatState) -> Option<HistoryCombatDetails>,
    R: Fn(&HistoryCombatDetails) -> CombatState,
    S: Fn(
        &CombatState,
        CaptureQualitySource,
        DpsTimeBasis,
        bool,
    ) -> Option<CombatSessionSummary>,
>(
    state: &CombatState,
    source: CaptureQualitySource,
    dps_time_mode: DpsTimeBasis,
    separate_reaction_damage: bool,
    details_of: &D,
    restore: &R,
    summarize: &S,
) -> (archive: Option<PreparedHistoryArchive>)
    requires
        forall|any: CombatState| #[trigger] call_requires(*details_of, (&any,)),
        forall|any: HistoryCombatDetails| #[trigger] call_requires(*restore, (&any,)),
        forall|any: CombatState, s: CaptureQualitySource, b: DpsTimeBasis, r: bool| #[trigger]
            call_requires(*summarize, (&any, s, b, r)),
    ensures
        exists|details: Option<HistoryCombatDetails>| #[trigger]
            call_ensures(*details_of, (state,), details) && archived_with(
                *restore,
                *summarize,
                *state,
                source,
                dps_time_mode,
                separate_reaction_damage,
                details,
                archive,
            ),
{
    let details: Option<HistoryCombatDetails> = details_of(state);
    let summary: Option<CombatSessionSummary> = match &details {
        Some(kept) => {
            let restored = restore(kept);
            let summary = summarize(&restored, source, dps_time_mode, separate_reaction_damage);
            assert(call_ensures(*restore, (&details->0,), restored));
            summary
        },
        None => summarize(state, source, dps_time_mode, separate_reaction_damage),
    };
    let archive = match summary {
        Some(summary) => Some(PreparedHistoryArchive { summary, details }),
        None => None,
    };
    archive
}

} // verus!
