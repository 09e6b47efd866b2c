//! What becomes of rounds that are cut, saved and tried again.
use vstd::prelude::*;

use crate::desktop::AppState;
use crate::history::{
    archived_with, CombatSessionSummary, HistoryCombatDetails, PendingHistoryArchive,
    PreparedHistoryArchive,
};
use crate::lifecycle_laws::{moved, nothing_seen};
use crate::live_capture::{CutRound, LiveCaptureService};
use crate::model::{CaptureQualitySource, CombatState, DpsTimeBasis};
use crate::rounds::{
    are_fates, are_outcomes, cuts, failed_rounds, is_archive, is_cut, is_round_archive,
    keeps_archive, meets, moved_by, moved_by_fates, prepare_history_details, retries, unsaved,
    waits_with, HistoryService, RoundFate, SummaryPolicy,
};

verus! {

/// A battle that a cut finds something in.
pub open spec fn can_be_cut(state: CombatState) -> bool {
    state.battle.team.hits@.len() > 0 || state.battle.team.stats@.len() > 0
        || state.battle.abyss.active
}

/// The archive of a battle: the details of a session with this very battle, and
/// a summary made with the source and the policy that were given.
pub open spec fn archives_battle<
    D: Fn(&CombatState) -> Option<HistoryCombatDetails>,
    S: Fn(&CombatState, CaptureQualitySource, DpsTimeBasis, bool) -> Option<CombatSessionSummary>,
>(
    details_of: D,
    summarize: S,
    policy: SummaryPolicy,
    before: LiveCaptureService,
    archive: PreparedHistoryArchive,
) -> bool {
    exists|detached: CombatState, subject: CombatState|
        {
            &&& detached.battle == before.state.battle
            &&& #[trigger] call_ensures(details_of, (&detached,), archive.details)
            &&& #[trigger] call_ensures(
                summarize,
                (
                    &subject,
                    before.control.quality_source,
                    policy.dps_time_basis,
                    policy.separate_reaction_damage,
                ),
                Some(archive.summary),
            )
        }
}

/// What a cut that was made leaves: an empty battle with the inventory that
/// there was, and an archive that was saved, waits to be saved, or was not
/// worth one.
pub open spec fn is_cut_off<
    D: Fn(&CombatState) -> Option<HistoryCombatDetails>,
    S: Fn(&CombatState, CaptureQualitySource, DpsTimeBasis, bool) -> Option<CombatSessionSummary>,
    P: Fn(&PreparedHistoryArchive) -> Result<(), String>,
>(
    details_of: D,
    summarize: S,
    persist: P,
    policy: SummaryPolicy,
    history_before: HistoryService,
    before: LiveCaptureService,
    history_after: HistoryService,
    after: LiveCaptureService,
) -> bool {
    &&& nothing_seen(after.state)
    &&& after.state.inventory == before.state.inventory
    &&& after.control.last_outgoing_hit_at is None
    &&& after.control.status == before.control.status
    &&& after.control.quality_source == before.control.quality_source
    &&& moved(before.control.revision, after.control.revision)
    &&& after.pending_abyss_archives == before.pending_abyss_archives
    &&& {
        ||| history_after == history_before
        ||| {
            &&& history_after.pending_archives == history_before.pending_archives
            &&& moved(history_before.revision, history_after.revision)
            &&& exists|archive: PreparedHistoryArchive|
                {
                    &&& #[trigger] archives_battle(details_of, summarize, policy, before, archive)
                    &&& call_ensures(persist, (&archive,), Ok::<(), String>(()))
                }
        }
        ||| {
            &&& history_after.revision == history_before.revision
            &&& history_after.pending_archives@.len() == history_before.pending_archives@.len() + 1
            &&& history_after.pending_archives@.drop_last() == history_before.pending_archives@
            &&& archives_battle(
                details_of,
                summarize,
                policy,
                before,
                history_after.pending_archives@.last(),
            )
        }
    }
}

/// A cut that was made leaves what it should.
proof fn cuts_leave<
    D: Fn(&CombatState) -> Option<HistoryCombatDetails>,
    R: Fn(&HistoryCombatDetails) -> CombatState,
    S: Fn(&CombatState, CaptureQualitySource, DpsTimeBasis, bool) -> Option<CombatSessionSummary>,
    P: Fn(&PreparedHistoryArchive) -> Result<(), String>,
>(
    details_of: D,
    restore: R,
    summarize: S,
    persist: P,
    policy: SummaryPolicy,
    history_before: HistoryService,
    before: LiveCaptureService,
    history_after: HistoryService,
    after: LiveCaptureService,
)
    requires
        cuts(
            details_of,
            restore,
            summarize,
            persist,
            policy,
            history_before,
            before,
            history_after,
            after,
        ),
    ensures
        is_cut_off(
            details_of,
            summarize,
            persist,
            policy,
            history_before,
            before,
            history_after,
            after,
        ),
{
    let (cut, archive) = choose|cut: CutRound, archive: Option<PreparedHistoryArchive>|
        {
            &&& #[trigger] is_cut(before, after, cut)
            &&& #[trigger] is_archive(
                details_of,
                restore,
                summarize,
                policy,
                cut.state,
                cut.source,
                archive,
            )
            &&& keeps_archive(persist, history_before, archive, history_after)
        };
    let details = choose|details: Option<HistoryCombatDetails>| #[trigger]
        call_ensures(details_of, (&cut.state,), details) && archived_with(
            restore,
            summarize,
            cut.state,
            cut.source,
            policy.dps_time_basis,
            policy.separate_reaction_damage,
            details,
            archive,
        );
    if let Some(kept) = archive {
        assert(archives_battle(details_of, summarize, policy, before, kept));
        let outcome = choose|outcome: Result<(), String>| #[trigger]
            call_ensures(persist, (&kept,), outcome) && match outcome {
                Ok(_) => history_after.pending_archives == history_before.pending_archives && moved(
                    history_before.revision,
                    history_after.revision,
                ),
                Err(_) => {
                    &&& history_after.revision == history_before.revision
                    &&& history_after.pending_archives@ == history_before.pending_archives@.push(
                        kept,
                    )
                },
            };
        if let Ok(unit) = outcome {
            assert(unit == ());
        } else {
            assert(history_after.pending_archives@.drop_last()
                =~= history_before.pending_archives@);
        }
    }
}

/// A round is cut at the user's word where there is one, nothing is replayed
/// and the queue has room; else nothing happens. What was cut is archived as
/// it stood, and is not lost where it could not be saved.
pub proof fn rounds_are_cut_at_the_users_word<
    D: Fn(&CombatState) -> Option<HistoryCombatDetails>,
    R: Fn(&HistoryCombatDetails) -> CombatState,
    S: Fn(&CombatState, CaptureQualitySource, DpsTimeBasis, bool) -> Option<CombatSessionSummary>,
    P: Fn(&PreparedHistoryArchive) -> Result<(), String>,
>(
    history: &mut HistoryService,
    live: &mut LiveCaptureService,
    policy: SummaryPolicy,
    details_of: &D,
    restore: &R,
    summarize: &S,
    persist: &P,
    result: Result<bool, String>,
)
    requires
        call_ensures(
            HistoryService::archive_current_history_round::<D, R, S, P>,
            (history, live, policy, details_of, restore, summarize, persist),
            result,
        ),
    ensures
        result is Err <==> old(live).control.replay_running || old(history).pending_archives@.len() >= 64,
        result matches Ok(made) ==> made == can_be_cut(old(live).state),
        result != Ok::<bool, String>(true) ==> *final(history) == *old(history) && *final(live)
            == *old(live),
        result == Ok::<bool, String>(true) ==> is_cut_off(
            *details_of,
            *summarize,
            *persist,
            policy,
            *old(history),
            *old(live),
            *final(history),
            *final(live),
        ),
{
    if result == Ok::<bool, String>(true) {
        cuts_leave(
            *details_of,
            *restore,
            *summarize,
            *persist,
            policy,
            *old(history),
            *old(live),
            *final(history),
            *final(live),
        );
    }
}

/// The program cuts a round on the settings in force: stopped time is left out
/// of the summary exactly where the rates leave it out.
pub proof fn programs_cut_as_set<
    D: Fn(&CombatState) -> Option<HistoryCombatDetails>,
    R: Fn(&HistoryCombatDetails) -> CombatState,
    S: Fn(&CombatState, CaptureQualitySource, DpsTimeBasis, bool) -> Option<CombatSessionSummary>,
    P: Fn(&PreparedHistoryArchive) -> Result<(), String>,
>(
    app: &mut AppState,
    details_of: &D,
    restore: &R,
    summarize: &S,
    persist: &P,
    result: Result<bool, String>,
)
    requires
        call_ensures(
            AppState::archive_current_history_round::<D, R, S, P>,
            (app, details_of, restore, summarize, persist),
            result,
        ),
    ensures
        result is Err <==> old(app).live.control.replay_running || old(app).history.pending_archives@.len() >= 64,
        result matches Ok(made) ==> made == can_be_cut(old(app).live.state),
        result == Ok::<bool, String>(true) ==> exists|policy: SummaryPolicy|
            {
                &&& #[trigger] is_cut_off(
                    *details_of,
                    *summarize,
                    *persist,
                    policy,
                    old(app).history,
                    old(app).live,
                    final(app).history,
                    final(app).live,
                )
                &&& policy.dps_time_basis is SubtractTimeStop <==> old(app).settings.config.plain.capture.dps_time_mode is TimeStopAdjusted
                &&& policy.separate_reaction_damage == old(app).settings.config.plain.capture.separate_reaction_damage
            },
        final(app).settings == old(app).settings,
        final(app).presentation == old(app).presentation,
{
    if result == Ok::<bool, String>(true) {
        let policy = old(app).settings.config.sums_up();
        cuts_leave(
            *details_of,
            *restore,
            *summarize,
            *persist,
            policy,
            old(app).history,
            old(app).live,
            final(app).history,
            final(app).live,
        );
    }
}

/// An archive that can fail to be saved.
pub open spec fn can_fail<P: Fn(&PreparedHistoryArchive) -> Result<(), String>>(
    persist: P,
    archive: PreparedHistoryArchive,
) -> bool {
    exists|error: String| #[trigger] call_ensures(persist, (&archive,), Err::<(), String>(error))
}

/// What is left of a retry: rounds that were waiting and failed again, in
/// their order; the marker has gone as far as rounds have gone.
proof fn retries_leave<P: Fn(&PreparedHistoryArchive) -> Result<(), String>>(
    persist: P,
    archives: Seq<PreparedHistoryArchive>,
    outcomes: Seq<Result<(), String>>,
    revision: u64,
) -> (places: Seq<int>)
    requires
        are_outcomes(persist, archives, outcomes),
    ensures
        places.len() == unsaved(archives, outcomes).len(),
        forall|k: int|
            0 <= k < places.len() ==> 0 <= #[trigger] places[k] < archives.len() && unsaved(
                archives,
                outcomes,
            )[k] == archives[places[k]] && can_fail(persist, archives[places[k]]),
        forall|j: int, k: int|
            0 <= j < k < places.len() ==> #[trigger] places[j] < #[trigger] places[k],
        unsaved(archives, outcomes).len() <= archives.len(),
        revision + archives.len() - unsaved(archives, outcomes).len() <= u64::MAX ==> moved_by(
            revision,
            outcomes,
        ) == revision + archives.len() - unsaved(archives, outcomes).len(),
        (forall|k: int| 0 <= k < outcomes.len() ==> (#[trigger] outcomes[k]) is Ok) ==> unsaved(
            archives,
            outcomes,
        ).len() == 0,
        (forall|k: int| 0 <= k < outcomes.len() ==> (#[trigger] outcomes[k]) is Err) ==> unsaved(
            archives,
            outcomes,
        ).len() == archives.len(),
    decreases archives.len(),
{
    if archives.len() == 0 {
        Seq::empty()
    } else {
        let fewer = archives.drop_last();
        let earlier = outcomes.drop_last();
        assert forall|i: int| 0 <= i < fewer.len() implies call_ensures(
            persist,
            (&fewer[i],),
            #[trigger] earlier[i],
        ) by {
            assert(earlier[i] == outcomes[i]);
        }
        let before = retries_leave(persist, fewer, earlier, revision);
        let last = archives.len() - 1;
        let outcome = outcomes[last];
        assert(call_ensures(persist, (&archives[last],), outcome));
        assert forall|k: int| 0 <= k < earlier.len() implies #[trigger] earlier[k]
            == outcomes[k] by {}
        if let Err(error) = outcome {
            assert(call_ensures(persist, (&archives[last],), Err::<(), String>(error)));
            assert(can_fail(persist, archives[last]));
            let places = before.push(last);
            let kept = unsaved(archives, outcomes);
            assert forall|k: int| 0 <= k < places.len() implies 0 <= #[trigger] places[k]
                < archives.len() && kept[k] == archives[places[k]] && can_fail(
                persist,
                archives[places[k]],
            ) by {
                if k < before.len() {
                    assert(places[k] == before[k]);
                    assert(fewer[before[k]] == archives[before[k]]);
                }
            }
            assert forall|j: int, k: int| 0 <= j < k < places.len() implies #[trigger] places[j]
                < #[trigger] places[k] by {
                assert(places[j] == before[j]);
                if k < before.len() {
                    assert(places[k] == before[k]);
                }
            }
            places
        } else {
            assert forall|k: int| 0 <= k < before.len() implies 0 <= #[trigger] before[k]
                < archives.len() && unsaved(archives, outcomes)[k] == archives[before[k]]
                && can_fail(persist, archives[before[k]]) by {
                assert(fewer[before[k]] == archives[before[k]]);
            }
            before
        }
    }
}

/// The second list is made of items of the first that could fail, in the same
/// order.
pub open spec fn keeps_the_failed<P: Fn(&PreparedHistoryArchive) -> Result<(), String>>(
    persist: P,
    before: Seq<PreparedHistoryArchive>,
    after: Seq<PreparedHistoryArchive>,
) -> bool {
    exists|places: Seq<int>|
        {
            &&& #[trigger] places.len() == after.len()
            &&& forall|k: int|
                0 <= k < places.len() ==> 0 <= #[trigger] places[k] < before.len() && after[k]
                    == before[places[k]] && can_fail(persist, before[places[k]])
            &&& forall|j: int, k: int|
                0 <= j < k < places.len() ==> #[trigger] places[j] < #[trigger] places[k]
        }
}

/// A retry loses no round that fails again and keeps none that was saved; the
/// marker moves once for each that was.
pub proof fn retried_rounds_are_saved_or_kept<
    P: Fn(&PreparedHistoryArchive) -> Result<(), String>,
>(history: &mut HistoryService, persist: &P)
    requires
        call_ensures(
            HistoryService::retry_pending_history_archives::<P>,
            (history, persist),
            (),
        ),
    ensures
        keeps_the_failed(
            *persist,
            old(history).pending_archives@,
            final(history).pending_archives@,
        ),
        old(history).revision + old(history).pending_archives@.len() <= u64::MAX ==> final(history).revision + final(history).pending_archives@.len() == old(history).revision + old(history).pending_archives@.len(),
        (forall|archive: PreparedHistoryArchive| !#[trigger] can_fail(*persist, archive)) ==> final(history).pending_archives@.len() == 0,
        (forall|archive: PreparedHistoryArchive|
            !#[trigger] call_ensures(*persist, (&archive,), Ok::<(), String>(()))) ==> final(history).pending_archives@.len() == old(history).pending_archives@.len() && final(history).revision
            == old(history).revision,
{
    let archives = old(history).pending_archives@;
    let outcomes = choose|outcomes: Seq<Result<(), String>>|
        {
            &&& #[trigger] are_outcomes(*persist, archives, outcomes)
            &&& final(history).pending_archives@ == unsaved(archives, outcomes)
            &&& final(history).revision == moved_by(old(history).revision, outcomes)
        };
    let places = retries_leave(*persist, archives, outcomes, old(history).revision);
    assert(places.len() == final(history).pending_archives@.len());
    if forall|archive: PreparedHistoryArchive| !#[trigger] can_fail(*persist, archive) {
        if final(history).pending_archives@.len() > 0 {
            assert(can_fail(*persist, archives[places[0]]));
        }
    }
    if forall|archive: PreparedHistoryArchive|
        !#[trigger] call_ensures(*persist, (&archive,), Ok::<(), String>(())) {
        assert forall|k: int| 0 <= k < outcomes.len() implies (#[trigger] outcomes[k]) is Err by {
            if let Ok(unit) = outcomes[k] {
                assert(unit == ());
                assert(call_ensures(*persist, (&archives[k],), Ok::<(), String>(())));
            }
        }
    }
}

/// A challenge round is archived with its own details and source, summed up on
/// the policy that was given; one without a summary has no archive.
pub proof fn challenge_rounds_are_summed_up<
    R: Fn(&HistoryCombatDetails) -> CombatState,
    S: Fn(&CombatState, CaptureQualitySource, DpsTimeBasis, bool) -> Option<CombatSessionSummary>,
>(
    round: PendingHistoryArchive,
    policy: SummaryPolicy,
    restore: &R,
    summarize: &S,
    archive: Option<PreparedHistoryArchive>,
)
    requires
        call_ensures(
            prepare_history_details::<R, S>,
            (round, policy, restore, summarize),
            archive,
        ),
    ensures
        archive matches Some(kept) ==> kept.details == Some(round.details) && exists|
            state: CombatState,
        |
            {
                &&& #[trigger] call_ensures(*restore, (&round.details,), state)
                &&& call_ensures(
                    *summarize,
                    (&state, round.source, policy.dps_time_basis, policy.separate_reaction_damage),
                    Some(kept.summary),
                )
            },
        archive is None ==> exists|state: CombatState|
            {
                &&& #[trigger] call_ensures(*restore, (&round.details,), state)
                &&& call_ensures(
                    *summarize,
                    (&state, round.source, policy.dps_time_basis, policy.separate_reaction_damage),
                    None::<CombatSessionSummary>,
                )
            },
{
}

/// Rounds that failed are handed back, in their order, and the marker has gone
/// as far as rounds were saved.
proof fn failures_are_handed_back(
    rounds: Seq<PendingHistoryArchive>,
    fates: Seq<RoundFate>,
    revision: u64,
) -> (places: Seq<int>)
    requires
        fates.len() == rounds.len(),
    ensures
        places.len() == failed_rounds(rounds, fates).len(),
        forall|k: int|
            0 <= k < places.len() ==> 0 <= #[trigger] places[k] < rounds.len() && failed_rounds(
                rounds,
                fates,
            )[k] == rounds[places[k]] && fates[places[k]] is Failed,
        forall|j: int, k: int|
            0 <= j < k < places.len() ==> #[trigger] places[j] < #[trigger] places[k],
        failed_rounds(rounds, fates).len() <= rounds.len(),
        revision + rounds.len() <= u64::MAX ==> revision <= moved_by_fates(revision, fates)
            <= revision + rounds.len() - failed_rounds(rounds, fates).len(),
        revision + rounds.len() <= u64::MAX && (forall|k: int|
            0 <= k < fates.len() ==> (#[trigger] fates[k]) !is Empty) ==> moved_by_fates(
            revision,
            fates,
        ) == revision + rounds.len() - failed_rounds(rounds, fates).len(),
    decreases rounds.len(),
{
    if rounds.len() == 0 {
        Seq::empty()
    } else {
        let fewer = rounds.drop_last();
        let earlier = fates.drop_last();
        let before = failures_are_handed_back(fewer, earlier, revision);
        let last = rounds.len() - 1;
        assert forall|k: int| 0 <= k < earlier.len() implies #[trigger] earlier[k] == fates[k] by {}
        assert(fates[last] == fates.last());
        if fates.last() is Failed {
            let places = before.push(last);
            let failed = failed_rounds(rounds, fates);
            assert forall|k: int| 0 <= k < places.len() implies 0 <= #[trigger] places[k]
                < rounds.len() && failed[k] == rounds[places[k]] && fates[places[k]] is Failed by {
                if k < before.len() {
                    assert(places[k] == before[k]);
                    assert(fewer[before[k]] == rounds[before[k]]);
                    assert(earlier[before[k]] == fates[before[k]]);
                }
            }
            assert forall|j: int, k: int| 0 <= j < k < places.len() implies #[trigger] places[j]
                < #[trigger] places[k] by {
                assert(places[j] == before[j]);
                if k < before.len() {
                    assert(places[k] == before[k]);
                }
            }
            places
        } else {
            assert forall|k: int| 0 <= k < before.len() implies 0 <= #[trigger] before[k]
                < rounds.len() && failed_rounds(rounds, fates)[k] == rounds[before[k]]
                && fates[before[k]] is Failed by {
                assert(fewer[before[k]] == rounds[before[k]]);
                assert(earlier[before[k]] == fates[before[k]]);
            }
            before
        }
    }
}

/// The second list is made of rounds of the first whose archive could fail to
/// be saved, in the same order.
pub open spec fn hands_back_the_failed<P: Fn(&PreparedHistoryArchive) -> Result<(), String>>(
    persist: P,
    before: Seq<PendingHistoryArchive>,
    after: Seq<PendingHistoryArchive>,
) -> bool {
    exists|places: Seq<int>|
        {
            &&& #[trigger] places.len() == after.len()
            &&& forall|k: int|
                0 <= k < places.len() ==> 0 <= #[trigger] places[k] < before.len() && after[k]
                    == before[places[k]] && fails_for(persist, before[places[k]])
            &&& forall|j: int, k: int|
                0 <= j < k < places.len() ==> #[trigger] places[j] < #[trigger] places[k]
        }
}

/// An archive with the details of this round can fail to be saved.
pub open spec fn fails_for<P: Fn(&PreparedHistoryArchive) -> Result<(), String>>(
    persist: P,
    round: PendingHistoryArchive,
) -> bool {
    exists|archive: PreparedHistoryArchive| #[trigger]
        can_fail(persist, archive) && archive.details == Some(round.details)
}

/// A round that failed has an archive that could fail.
proof fn failed_rounds_could_fail<
    R: Fn(&HistoryCombatDetails) -> CombatState,
    S: Fn(&CombatState, CaptureQualitySource, DpsTimeBasis, bool) -> Option<CombatSessionSummary>,
    P: Fn(&PreparedHistoryArchive) -> Result<(), String>,
>(
    restore: R,
    summarize: S,
    persist: P,
    policy: SummaryPolicy,
    round: PendingHistoryArchive,
)
    requires
        meets(restore, summarize, persist, policy, round, RoundFate::Failed),
    ensures
        fails_for(persist, round),
{
    let archive = choose|archive: Option<PreparedHistoryArchive>|
        {
            &&& #[trigger] is_round_archive(restore, summarize, policy, round, archive)
            &&& match archive {
                None => false,
                Some(archive) => exists|outcome: Result<(), String>| #[trigger]
                    call_ensures(persist, (&archive,), outcome) && outcome is Err,
            }
        };
    let kept = archive->0;
    let outcome = choose|outcome: Result<(), String>| #[trigger]
        call_ensures(persist, (&kept,), outcome) && outcome is Err;
    if let Err(error) = outcome {
        assert(call_ensures(persist, (&kept,), Err::<(), String>(error)));
        assert(can_fail(persist, kept));
    }
}

/// Challenge rounds that could not be saved are handed back in their order,
/// and the rounds that wait to be saved again are not touched.
pub proof fn challenge_rounds_are_saved_or_handed_back<
    R: Fn(&HistoryCombatDetails) -> CombatState,
    S: Fn(&CombatState, CaptureQualitySource, DpsTimeBasis, bool) -> Option<CombatSessionSummary>,
    P: Fn(&PreparedHistoryArchive) -> Result<(), String>,
>(
    history: &mut HistoryService,
    rounds: Vec<PendingHistoryArchive>,
    policy: SummaryPolicy,
    restore: &R,
    summarize: &S,
    persist: &P,
    failed: Vec<PendingHistoryArchive>,
)
    requires
        old(history).revision + rounds@.len() <= u64::MAX,
        call_ensures(
            HistoryService::archive_rounds::<R, S, P>,
            (history, rounds, policy, restore, summarize, persist),
            failed,
        ),
    ensures
        hands_back_the_failed(*persist, rounds@, failed@),
        final(history).pending_archives == old(history).pending_archives,
        old(history).revision <= final(history).revision,
        final(history).revision + failed@.len() <= old(history).revision + rounds@.len(),
        (forall|archive: PreparedHistoryArchive| !#[trigger] can_fail(*persist, archive))
            ==> failed@.len() == 0,
{
    let fates = choose|fates: Seq<RoundFate>|
        {
            &&& #[trigger] are_fates(*restore, *summarize, *persist, policy, rounds@, fates)
            &&& failed@ == failed_rounds(rounds@, fates)
            &&& final(history).revision == moved_by_fates(old(history).revision, fates)
        };
    let places = failures_are_handed_back(rounds@, fates, old(history).revision);
    assert(places.len() == failed@.len());
    assert forall|k: int| 0 <= k < places.len() implies 0 <= #[trigger] places[k] < rounds@.len()
        && failed@[k] == rounds@[places[k]] && fails_for(*persist, rounds@[places[k]]) by {
        assert(meets(
            *restore,
            *summarize,
            *persist,
            policy,
            rounds@[places[k]],
            fates[places[k]],
        ));
        failed_rounds_could_fail(*restore, *summarize, *persist, policy, rounds@[places[k]]);
    }
    if failed@.len() > 0 {
        assert(fails_for(*persist, rounds@[places[0]]));
    }
}

/// A fight is idle for long enough: nothing but a running capture without
/// replay, challenge or pause, with hits, whose last output lies far enough
/// back.
pub open spec fn idles(live: LiveCaptureService, now: u128, seconds: u32) -> bool {
    &&& live.control.status.phase is Running
    &&& !live.control.replay_running
    &&& !live.state.battle.abyss.active
    &&& !live.state.battle.game_paused
    &&& live.state.battle.team.hits@.len() > 0
    &&& live.control.last_outgoing_hit_at is Some
    &&& live.control.last_outgoing_hit_at->0 + seconds * 1_000_000_000 <= now || seconds == 0
}

/// Maintenance leaves the battle alone, and is then only about rounds that
/// wait, unless the user has idle fights cut and this one is idle; a fight is
/// never cut while a challenge round could not be saved.
pub proof fn only_idle_fights_are_cut<
    D: Fn(&CombatState) -> Option<HistoryCombatDetails>,
    R: Fn(&HistoryCombatDetails) -> CombatState,
    S: Fn(&CombatState, CaptureQualitySource, DpsTimeBasis, bool) -> Option<CombatSessionSummary>,
    P: Fn(&PreparedHistoryArchive) -> Result<(), String>,
>(
    app: &mut AppState,
    now: u128,
    details_of: &D,
    restore: &R,
    summarize: &S,
    persist: &P,
)
    requires
        call_ensures(
            AppState::maintain_history_rounds::<D, R, S, P>,
            (app, now, details_of, restore, summarize, persist),
            (),
        ),
    ensures
        !old(app).settings.config.plain.capture.auto_round_after_idle ==> final(app).live.state
            == old(app).live.state && final(app).live.control == old(app).live.control,
        !idles(
            old(app).live,
            now,
            old(app).settings.config.plain.capture.auto_round_idle_seconds,
        ) ==> final(app).live.state == old(app).live.state && final(app).live.control == old(app).live.control,
        final(app).live.pending_abyss_archives@.len() > 0 ==> final(app).live.state == old(app).live.state,
        hands_back_the_failed(
            *persist,
            old(app).live.pending_abyss_archives@,
            final(app).live.pending_abyss_archives@,
        ),
        final(app).live.state.inventory == old(app).live.state.inventory,
        final(app).settings == old(app).settings,
        final(app).presentation == old(app).presentation,
{
    let before = old(app).live;
    let policy = old(app).settings.config.sums_up();
    let limit = old(app).settings.config.idle_limit();
    let (retried, fates, quiet) = choose|
        retried: HistoryService,
        fates: Seq<RoundFate>,
        quiet: LiveCaptureService,
    |
        {
            let failed = failed_rounds(before.pending_abyss_archives@, fates);
            let archived = HistoryService {
                revision: moved_by_fates(retried.revision, fates),
                ..retried
            };
            &&& #[trigger] retries(*persist, old(app).history, retried)
            &&& #[trigger] are_fates(
                *restore,
                *summarize,
                *persist,
                policy,
                before.pending_abyss_archives@,
                fates,
            )
            &&& #[trigger] waits_with(before, Seq::empty(), quiet)
            &&& if failed.len() > 0 {
                final(app).history == archived && waits_with(before, failed, final(app).live)
            } else {
                crate::rounds::cuts_when_idle(
                    *details_of,
                    *restore,
                    *summarize,
                    *persist,
                    policy,
                    limit is Some && crate::rounds::idle_cut_due(quiet, now, limit->0),
                    archived,
                    quiet,
                    final(app).history,
                    final(app).live,
                )
            }
        };
    let rounds = before.pending_abyss_archives@;
    let places = failures_are_handed_back(rounds, fates, 0);
    assert forall|k: int| 0 <= k < places.len() implies 0 <= #[trigger] places[k] < rounds.len()
        && failed_rounds(rounds, fates)[k] == rounds[places[k]] && fails_for(
        *persist,
        rounds[places[k]],
    ) by {
        assert(meets(*restore, *summarize, *persist, policy, rounds[places[k]], fates[places[k]]));
        failed_rounds_could_fail(*restore, *summarize, *persist, policy, rounds[places[k]]);
    }
    let failed = failed_rounds(rounds, fates);
    if failed.len() > 0 {
        assert(places.len() == final(app).live.pending_abyss_archives@.len());
    } else {
        assert(final(app).live.pending_abyss_archives@.len() == 0);
        assert(Seq::<int>::empty().len() == final(app).live.pending_abyss_archives@.len());
    }
}

} // verus!
