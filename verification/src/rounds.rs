//! Persisting rounds: cutting the current one, retrying those that could not
//! be saved, and archiving the rounds that a challenge left behind.
use vstd::prelude::*;

use crate::desktop::AppState;
use crate::history::{
    archived_with, auto_round_due, prepare_history_archive, CombatSessionSummary,
    HistoryCombatDetails, PendingHistoryArchive, PreparedHistoryArchive, NANOS_PER_SECOND,
};
use crate::live_capture::{CutRound, LiveCapturePhase, LiveCaptureService};
use crate::model::{CaptureQualitySource, CombatState, DpsTimeBasis};
use crate::reducer::{advance_generation, next_generation};
use crate::settings::{DpsTimeMode, UiConfig};

verus! {

/// How many rounds wait to be saved again at most. A full queue refuses the
/// next cut, so that the round in progress is kept.
pub const MAX_PENDING_HISTORY_ARCHIVES: usize = 64;

/// The archive's marker, and the rounds that could not be saved yet.
#[derive(Clone, Debug)]
pub struct HistoryService {
    pub revision: u64,
    /// Oldest first.
    pub pending_archives: Vec<PreparedHistoryArchive>,
}

/// How a round is summed up.
#[derive(Clone, Copy, Debug, PartialEq, Eq, Structural)]
pub struct SummaryPolicy {
    pub dps_time_basis: DpsTimeBasis,
    pub separate_reaction_damage: bool,
}

/// The engine takes every round apart and puts it together again, and sums
/// every session up; the archive takes every round.
pub open spec fn archives_all<
    D: Fn(&CombatState) -> Option<HistoryCombatDetails>,
    R: Fn(&HistoryCombatDetails) -> CombatState,
    S: Fn(&CombatState, CaptureQualitySource, DpsTimeBasis, bool) -> Option<CombatSessionSummary>,
    P: Fn(&PreparedHistoryArchive) -> Result<(), String>,
>(details_of: D, restore: R, summarize: S, persist: P) -> bool {
    &&& forall|state: CombatState| #[trigger] call_requires(details_of, (&state,))
    &&& forall|details: HistoryCombatDetails| #[trigger] call_requires(restore, (&details,))
    &&& forall|state: CombatState, source: CaptureQualitySource, basis: DpsTimeBasis, apart: bool|
        #[trigger] call_requires(summarize, (&state, source, basis, apart))
    &&& forall|archive: PreparedHistoryArchive| #[trigger] call_requires(persist, (&archive,))
}

/// Whether `archive` is the archive of a session.
pub open spec fn is_archive<
    D: Fn(&CombatState) -> Option<HistoryCombatDetails>,
    R: Fn(&HistoryCombatDetails) -> CombatState,
    S: Fn(&CombatState, CaptureQualitySource, DpsTimeBasis, bool) -> Option<CombatSessionSummary>,
>(
    details_of: D,
    restore: R,
    summarize: S,
    policy: SummaryPolicy,
    state: CombatState,
    source: CaptureQualitySource,
    archive: Option<PreparedHistoryArchive>,
) -> bool {
    exists|details: Option<HistoryCombatDetails>| #[trigger]
        call_ensures(details_of, (&state,), details) && archived_with(
            restore,
            summarize,
            state,
            source,
            policy.dps_time_basis,
            policy.separate_reaction_damage,
            details,
            archive,
        )
}

/// Whether `archive` is the archive of a challenge round that waits.
pub open spec fn is_round_archive<
    R: Fn(&HistoryCombatDetails) -> CombatState,
    S: Fn(&CombatState, CaptureQualitySource, DpsTimeBasis, bool) -> Option<CombatSessionSummary>,
>(
    restore: R,
    summarize: S,
    policy: SummaryPolicy,
    round: PendingHistoryArchive,
    archive: Option<PreparedHistoryArchive>,
) -> bool {
    exists|state: CombatState, summary: Option<CombatSessionSummary>|
        {
            &&& #[trigger] call_ensures(restore, (&round.details,), state)
            &&& #[trigger] call_ensures(
                summarize,
                (&state, round.source, policy.dps_time_basis, policy.separate_reaction_damage),
                summary,
            )
            &&& archive == (match summary {
                Some(summary) => Some(
                    PreparedHistoryArchive { summary, details: Some(round.details) },
                ),
                None => None,
            })
        }
}

/// `after` is `before` once an archive was handed over. One that could not be
/// saved waits.
pub open spec fn hands_over<P: Fn(&PreparedHistoryArchive) -> Result<(), String>>(
    persist: P,
    before: HistoryService,
    archive: PreparedHistoryArchive,
    after: HistoryService,
) -> bool {
    exists|outcome: Result<(), String>| #[trigger]
        call_ensures(persist, (&archive,), outcome) && match outcome {
            Ok(_) => after == (HistoryService {
                revision: next_generation(before.revision),
                ..before
            }),
            Err(_) => {
                &&& after.revision == before.revision
                &&& after.pending_archives@ == before.pending_archives@.push(archive)
            },
        }
}

/// `after` is `before` with its round detached into `cut`.
pub open spec fn is_cut(
    before: LiveCaptureService,
    after: LiveCaptureService,
    cut: CutRound,
) -> bool {
    &&& cut.state.battle == before.state.battle
    &&& cut.state.inventory.blank()
    &&& cut.source == before.control.quality_source
    &&& after.state.battle.blank()
    &&& after.state.inventory == before.state.inventory
    &&& after == (LiveCaptureService {
        state: after.state,
        control: before.control.with_round_detached().with_revision(),
        ..before
    })
}

/// What cutting the current round leads to.
pub open spec fn cuts<
    D: Fn(&CombatState) -> Option<HistoryCombatDetails>,
    R: Fn(&HistoryCombatDetails) -> CombatState,
    S: Fn(&CombatState, CaptureQualitySource, DpsTimeBasis, bool) -> Option<CombatSessionSummary>,
    P: Fn(&PreparedHistoryArchive) -> Result<(), String>,
>(
    details_of: D,
    restore: R,
    summarize: S,
    persist: P,
    policy: SummaryPolicy,
    history_before: HistoryService,
    before: LiveCaptureService,
    history_after: HistoryService,
    after: LiveCaptureService,
) -> bool {
    exists|cut: CutRound, archive: Option<PreparedHistoryArchive>|
        {
            &&& #[trigger] is_cut(before, after, cut)
            &&& #[trigger] is_archive(
                details_of,
                restore,
                summarize,
                policy,
                cut.state,
                cut.source,
                archive,
            )
            &&& keeps_archive(persist, history_before, archive, history_after)
        }
}

/// What becomes of an archive, if there is one.
pub open spec fn keeps_archive<P: Fn(&PreparedHistoryArchive) -> Result<(), String>>(
    persist: P,
    before: HistoryService,
    archive: Option<PreparedHistoryArchive>,
    after: HistoryService,
) -> bool {
    match archive {
        None => after == before,
        Some(archive) => hands_over(persist, before, archive, after),
    }
}

/// What becomes of a round that is cut at the user's word.
pub open spec fn cuts_at_word<
    D: Fn(&CombatState) -> Option<HistoryCombatDetails>,
    R: Fn(&HistoryCombatDetails) -> CombatState,
    S: Fn(&CombatState, CaptureQualitySource, DpsTimeBasis, bool) -> Option<CombatSessionSummary>,
    P: Fn(&PreparedHistoryArchive) -> Result<(), String>,
>(
    details_of: D,
    restore: R,
    summarize: S,
    persist: P,
    policy: SummaryPolicy,
    history_before: HistoryService,
    before: LiveCaptureService,
    history_after: HistoryService,
    after: LiveCaptureService,
    result: Result<bool, String>,
) -> bool {
    if before.control.replay_running {
        &&& result matches Err(message)
        &&& message@ == "History round cuts are unavailable during replay"@
        &&& history_after == history_before
        &&& after == before
    } else if history_before.pending_archives@.len() >= MAX_PENDING_HISTORY_ARCHIVES {
        &&& result matches Err(message)
        &&& message@ == "History retry queue is full; the current round was kept live"@
        &&& history_after == history_before
        &&& after == before
    } else if !before.state.battle.has_content() {
        &&& result == Ok::<bool, String>(false)
        &&& history_after == history_before
        &&& after == before
    } else {
        &&& result == Ok::<bool, String>(true)
        &&& cuts(
            details_of,
            restore,
            summarize,
            persist,
            policy,
            history_before,
            before,
            history_after,
            after,
        )
    }
}

impl HistoryService {
    pub open spec fn wf(self) -> bool {
        self.pending_archives@.len() <= MAX_PENDING_HISTORY_ARCHIVES
    }

    pub fn new() -> (result: Self)
        ensures
            result.wf(),
            result.revision == 0,
            result.pending_archives@.len() == 0,
    {
        HistoryService { revision: 0, pending_archives: Vec::new() }
    }

    /// Moves the archive's marker.
    pub fn bump_history_revision(&mut self)
        ensures
            *final(self) == (HistoryService {
                revision: next_generation(old(self).revision),
                ..*old(self)
            }),
    {
        self.revision = advance_generation(self.revision);
    }

    /// Cuts the current round and hands it to the archive. A round that could
    /// not be saved waits, and the live session goes on without it.
    pub fn archive_current_history_round_with<
        D: Fn(&CombatState) -> Option<HistoryCombatDetails>,
        R: Fn(&HistoryCombatDetails) -> CombatState,
        S: Fn(&CombatState, CaptureQualitySource, DpsTimeBasis, bool) -> Option<
            CombatSessionSummary,
        >,
        P: Fn(&PreparedHistoryArchive) -> Result<(), String>,
    >(
        &mut self,
        live: &mut LiveCaptureService,
        policy: SummaryPolicy,
        details_of: &D,
        restore: &R,
        summarize: &S,
        persist: &P,
    ) -> (result: Result<bool, String>)
        requires
            archives_all(*details_of, *restore, *summarize, *persist),
            old(self).wf(),
        ensures
            final(self).wf(),
            if old(self).pending_archives@.len() >= MAX_PENDING_HISTORY_ARCHIVES {
                &&& result matches Err(message)
                &&& message@ == "History retry queue is full; the current round was kept live"@
                &&& *final(self) == *old(self)
                &&& *final(live) == *old(live)
            } else if !old(live).state.battle.has_content() {
                &&& result == Ok::<bool, String>(false)
                &&& *final(self) == *old(self)
                &&& *final(live) == *old(live)
            } else {
                &&& result == Ok::<bool, String>(true)
                &&& cuts(
                    *details_of,
                    *restore,
                    *summarize,
                    *persist,
                    policy,
                    *old(self),
                    *old(live),
                    *final(self),
                    *final(live),
                )
            },
    {
        if self.pending_archives.len() >= MAX_PENDING_HISTORY_ARCHIVES {
            return Err(
                "History retry queue is full; the current round was kept live".to_owned(),
            );
        }
        let ghost before = *live;
        match live.cut_round() {
            None => Ok(false),
            Some(cut) => {
                proof {
                    assert(is_cut(before, *live, cut));
                }
                let prepared = prepare_history_archive(
                    &cut.state,
                    cut.source,
                    policy.dps_time_basis,
                    policy.separate_reaction_damage,
                    details_of,
                    restore,
                    summarize,
                );
                proof {
                    assert(is_archive(
                        *details_of,
                        *restore,
                        *summarize,
                        policy,
                        cut.state,
                        cut.source,
                        prepared,
                    ));
                }
                let ghost handed = prepared;
                if let Some(archive) = prepared {
                    self.hand_over(archive, persist);
                }
                proof {
                    assert(keeps_archive(*persist, *old(self), handed, *self));
                    assert(is_cut(before, *live, cut));
                }
                Ok(true)
            },
        }
    }

    fn hand_over<P: Fn(&PreparedHistoryArchive) -> Result<(), String>>(
        &mut self,
        archive: PreparedHistoryArchive,
        persist: &P,
    )
        requires
            forall|any: PreparedHistoryArchive| #[trigger] call_requires(*persist, (&any,)),
        ensures
            hands_over(*persist, *old(self), archive, *final(self)),
            final(self).pending_archives@.len() <= old(self).pending_archives@.len() + 1,
    {
        let ghost handed = archive;
        let outcome = persist(&archive);
        assert(call_ensures(*persist, (&handed,), outcome));
        match outcome {
            Ok(_) => {
                self.revision = advance_generation(self.revision);
            },
            Err(_) => {
                self.pending_archives.push(archive);
            },
        }
    }

    /// Cuts the current round at the user's word. A replay is not cut.
    pub fn archive_current_history_round<
        D: Fn(&CombatState) -> Option<HistoryCombatDetails>,
        R: Fn(&HistoryCombatDetails) -> CombatState,
        S: Fn(&CombatState, CaptureQualitySource, DpsTimeBasis, bool) -> Option<
            CombatSessionSummary,
        >,
        P: Fn(&PreparedHistoryArchive) -> Result<(), String>,
    >(
        &mut self,
        live: &mut LiveCaptureService,
        policy: SummaryPolicy,
        details_of: &D,
        restore: &R,
        summarize: &S,
        persist: &P,
    ) -> (result: Result<bool, String>)
        requires
            archives_all(*details_of, *restore, *summarize, *persist),
            old(self).wf(),
        ensures
            final(self).wf(),
            cuts_at_word(
                *details_of,
                *restore,
                *summarize,
                *persist,
                policy,
                *old(self),
                *old(live),
                *final(self),
                *final(live),
                result,
            ),
    {
        if live.replay_running() {
            return Err("History round cuts are unavailable during replay".to_owned());
        }
        self.archive_current_history_round_with(
            live,
            policy,
            details_of,
            restore,
            summarize,
            persist,
        )
    }
}

/// The archives that could not be saved, given what became of each.
pub open spec fn unsaved(
    archives: Seq<PreparedHistoryArchive>,
    outcomes: Seq<Result<(), String>>,
) -> Seq<PreparedHistoryArchive>
    decreases archives.len(),
{
    if archives.len() == 0 {
        Seq::empty()
    } else {
        let earlier = unsaved(archives.drop_last(), outcomes.drop_last());
        if outcomes.last() is Err {
            earlier.push(archives.last())
        } else {
            earlier
        }
    }
}

/// A marker after some archives were saved.
pub open spec fn moved_by(revision: u64, outcomes: Seq<Result<(), String>>) -> u64
    decreases outcomes.len(),
{
    if outcomes.len() == 0 {
        revision
    } else if outcomes.last() is Ok {
        next_generation(moved_by(revision, outcomes.drop_last()))
    } else {
        moved_by(revision, outcomes.drop_last())
    }
}

/// Whether the outcomes are those of saving the archives.
pub open spec fn are_outcomes<P: Fn(&PreparedHistoryArchive) -> Result<(), String>>(
    persist: P,
    archives: Seq<PreparedHistoryArchive>,
    outcomes: Seq<Result<(), String>>,
) -> bool {
    &&& outcomes.len() == archives.len()
    &&& forall|i: int|
        0 <= i < archives.len() ==> call_ensures(
            persist,
            (&archives[i],),
            #[trigger] outcomes[i],
        )
}

/// What a retry leads to.
pub open spec fn retries<P: Fn(&PreparedHistoryArchive) -> Result<(), String>>(
    persist: P,
    before: HistoryService,
    after: HistoryService,
) -> bool {
    exists|outcomes: Seq<Result<(), String>>|
        {
            &&& #[trigger] are_outcomes(persist, before.pending_archives@, outcomes)
            &&& after.pending_archives@ == unsaved(before.pending_archives@, outcomes)
            &&& after.revision == moved_by(before.revision, outcomes)
        }
}

proof fn unsaved_are_no_more(
    archives: Seq<PreparedHistoryArchive>,
    outcomes: Seq<Result<(), String>>,
)
    requires
        outcomes.len() == archives.len(),
    ensures
        unsaved(archives, outcomes).len() <= archives.len(),
    decreases archives.len(),
{
    if archives.len() > 0 {
        unsaved_are_no_more(archives.drop_last(), outcomes.drop_last());
    }
}

/// A retry drops no round that could not be saved and keeps the order.
pub proof fn retries_lose_no_round<P: Fn(&PreparedHistoryArchive) -> Result<(), String>>(
    persist: P,
    archives: Seq<PreparedHistoryArchive>,
    outcomes: Seq<Result<(), String>>,
    at: int,
)
    requires
        are_outcomes(persist, archives, outcomes),
        0 <= at < archives.len(),
        outcomes[at] is Err,
    ensures
        unsaved(archives, outcomes).contains(archives[at]),
        (forall|i: int| 0 <= i < outcomes.len() ==> (#[trigger] outcomes[i]) is Err) ==> unsaved(
            archives,
            outcomes,
        ) == archives,
    decreases archives.len(),
{
    let earlier = archives.drop_last();
    let before = outcomes.drop_last();
    let kept = unsaved(earlier, before);
    assert forall|i: int| 0 <= i < earlier.len() implies call_ensures(
        persist,
        (&earlier[i],),
        #[trigger] before[i],
    ) by {
        assert(before[i] == outcomes[i]);
    }
    if at < archives.len() - 1 {
        assert(before[at] == outcomes[at]);
        retries_lose_no_round(persist, earlier, before, at);
        assert(earlier[at] == archives[at]);
        let k = kept.index_of(archives[at]);
        assert(unsaved(archives, outcomes)[k] == archives[at]);
        assert forall|i: int| 0 <= i < before.len() implies #[trigger] before[i] == outcomes[i] by {}
    } else {
        assert(unsaved(archives, outcomes)[kept.len() as int] == archives[at]);
        if earlier.len() > 0 && forall|i: int|
            0 <= i < outcomes.len() ==> (#[trigger] outcomes[i]) is Err {
            assert(before[earlier.len() - 1] == outcomes[earlier.len() - 1]);
            retries_lose_no_round(persist, earlier, before, earlier.len() - 1);
            assert forall|i: int| 0 <= i < before.len() implies #[trigger] before[i]
                == outcomes[i] by {}
        }
    }
    if forall|i: int| 0 <= i < outcomes.len() ==> (#[trigger] outcomes[i]) is Err {
        assert(outcomes[outcomes.len() - 1] is Err);
        assert(kept =~= earlier);
        assert(earlier.push(archives.last()) =~= archives);
    }
}

impl HistoryService {
    /// Tries again to save the rounds that wait. Those that fail again wait
    /// on, in their order.
    pub fn retry_pending_history_archives<
        P: Fn(&PreparedHistoryArchive) -> Result<(), String>,
    >(&mut self, persist: &P)
        requires
            old(self).wf(),
            forall|any: PreparedHistoryArchive| #[trigger] call_requires(*persist, (&any,)),
        ensures
            final(self).wf(),
            retries(*persist, *old(self), *final(self)),
    {
        let ghost all = self.pending_archives@;
        let ghost started = self.revision;
        let mut rest: Vec<PreparedHistoryArchive> = Vec::new();
        std::mem::swap(&mut self.pending_archives, &mut rest);
        let mut kept: Vec<PreparedHistoryArchive> = Vec::new();
        let mut revision: u64 = self.revision;
        let ghost mut outcomes: Seq<Result<(), String>> = Seq::empty();
        let ghost mut done: int = 0;
        while rest.len() > 0
            invariant
                forall|any: PreparedHistoryArchive| #[trigger] call_requires(*persist, (&any,)),
                0 <= done <= all.len(),
                rest@ == all.skip(done),
                are_outcomes(*persist, all.take(done), outcomes),
                kept@ == unsaved(all.take(done), outcomes),
                revision == moved_by(started, outcomes),
            decreases rest.len(),
        {
            let archive = rest.remove(0);
            let ghost item = archive;
            let outcome = persist(&archive);
            proof {
                assert(item == all[done]);
                assert(rest@ =~= all.skip(done + 1));
                assert(all.take(done + 1).drop_last() =~= all.take(done));
                let earlier = outcomes;
                outcomes = outcomes.push(outcome);
                assert(outcomes.drop_last() =~= earlier);
                assert forall|i: int| 0 <= i < done + 1 implies call_ensures(
                    *persist,
                    (&all.take(done + 1)[i],),
                    #[trigger] outcomes[i],
                ) by {
                    if i < done {
                        assert(outcomes[i] == earlier[i]);
                        assert(all.take(done)[i] == all.take(done + 1)[i]);
                    }
                }
                done = done + 1;
            }
            match outcome {
                Ok(_) => {
                    revision = advance_generation(revision);
                },
                Err(_) => {
                    kept.push(archive);
                },
            }
        }
        proof {
            assert(all.take(done) =~= all);
            unsaved_are_no_more(all, outcomes);
        }
        self.revision = revision;
        self.pending_archives = kept;
        assert(retries(*persist, *old(self), *self));
    }
}

/// What can become of a challenge round that waits.
#[derive(Clone, Copy, Debug, PartialEq, Eq, Structural)]
pub enum RoundFate {
    /// There was nothing to archive.
    Empty,
    Saved,
    Failed,
}

/// Whether a round met a fate.
pub open spec fn meets<
    R: Fn(&HistoryCombatDetails) -> CombatState,
    S: Fn(&CombatState, CaptureQualitySource, DpsTimeBasis, bool) -> Option<CombatSessionSummary>,
    P: Fn(&PreparedHistoryArchive) -> Result<(), String>,
>(
    restore: R,
    summarize: S,
    persist: P,
    policy: SummaryPolicy,
    round: PendingHistoryArchive,
    fate: RoundFate,
) -> bool {
    exists|archive: Option<PreparedHistoryArchive>|
        {
            &&& #[trigger] is_round_archive(restore, summarize, policy, round, archive)
            &&& match archive {
                None => fate == RoundFate::Empty,
                Some(archive) => exists|outcome: Result<(), String>| #[trigger]
                    call_ensures(persist, (&archive,), outcome) && fate == (if outcome is Ok {
                        RoundFate::Saved
                    } else {
                        RoundFate::Failed
                    }),
            }
        }
}

/// The rounds that failed, in their order.
pub open spec fn failed_rounds(
    rounds: Seq<PendingHistoryArchive>,
    fates: Seq<RoundFate>,
) -> Seq<PendingHistoryArchive>
    decreases rounds.len(),
{
    if rounds.len() == 0 {
        Seq::empty()
    } else {
        let earlier = failed_rounds(rounds.drop_last(), fates.drop_last());
        if fates.last() == RoundFate::Failed {
            earlier.push(rounds.last())
        } else {
            earlier
        }
    }
}

/// A marker after some rounds were saved.
pub open spec fn moved_by_fates(revision: u64, fates: Seq<RoundFate>) -> u64
    decreases fates.len(),
{
    if fates.len() == 0 {
        revision
    } else if fates.last() == RoundFate::Saved {
        next_generation(moved_by_fates(revision, fates.drop_last()))
    } else {
        moved_by_fates(revision, fates.drop_last())
    }
}

/// Whether the fates are those of the rounds.
pub open spec fn are_fates<
    R: Fn(&HistoryCombatDetails) -> CombatState,
    S: Fn(&CombatState, CaptureQualitySource, DpsTimeBasis, bool) -> Option<CombatSessionSummary>,
    P: Fn(&PreparedHistoryArchive) -> Result<(), String>,
>(
    restore: R,
    summarize: S,
    persist: P,
    policy: SummaryPolicy,
    rounds: Seq<PendingHistoryArchive>,
    fates: Seq<RoundFate>,
) -> bool {
    &&& fates.len() == rounds.len()
    &&& forall|i: int|
        0 <= i < rounds.len() ==> meets(
            restore,
            summarize,
            persist,
            policy,
            rounds[i],
            #[trigger] fates[i],
        )
}

/// Prepares the archive of a challenge round.
pub fn prepare_history_details<
    R: Fn(&HistoryCombatDetails) -> CombatState,
    S: Fn(&CombatState, CaptureQualitySource, DpsTimeBasis, bool) -> Option<CombatSessionSummary>,
>(
    round: PendingHistoryArchive,
    policy: SummaryPolicy,
    restore: &R,
    summarize: &S,
) -> (archive: Option<PreparedHistoryArchive>)
    requires
        forall|details: HistoryCombatDetails| #[trigger] call_requires(*restore, (&details,)),
        forall|state: CombatState, source: CaptureQualitySource, basis: DpsTimeBasis, apart: bool|
            #[trigger] call_requires(*summarize, (&state, source, basis, apart)),
    ensures
        is_round_archive(*restore, *summarize, policy, round, archive),
{
    let ghost waiting = round;
    let state = restore(&round.details);
    proof {
        assert(call_ensures(*restore, (&waiting.details,), state));
    }
    let summary = summarize(
        &state,
        round.source,
        policy.dps_time_basis,
        policy.separate_reaction_damage,
    );
    match summary {
        Some(summary) => Some(PreparedHistoryArchive { summary, details: Some(round.details) }),
        None => None,
    }
}

impl HistoryService {
    /// Archives challenge rounds and returns those that failed.
    pub fn archive_rounds<
        R: Fn(&HistoryCombatDetails) -> CombatState,
        S: Fn(&CombatState, CaptureQualitySource, DpsTimeBasis, bool) -> Option<
            CombatSessionSummary,
        >,
        P: Fn(&PreparedHistoryArchive) -> Result<(), String>,
    >(
        &mut self,
        rounds: Vec<PendingHistoryArchive>,
        policy: SummaryPolicy,
        restore: &R,
        summarize: &S,
        persist: &P,
    ) -> (failed: Vec<PendingHistoryArchive>)
        requires
            forall|details: HistoryCombatDetails| #[trigger] call_requires(*restore, (&details,)),
            forall|state: CombatState, source: CaptureQualitySource, basis: DpsTimeBasis, apart: bool|
                #[trigger] call_requires(*summarize, (&state, source, basis, apart)),
            forall|any: PreparedHistoryArchive| #[trigger] call_requires(*persist, (&any,)),
        ensures
            final(self).pending_archives == old(self).pending_archives,
            exists|fates: Seq<RoundFate>|
                {
                    &&& #[trigger] are_fates(
                        *restore,
                        *summarize,
                        *persist,
                        policy,
                        rounds@,
                        fates,
                    )
                    &&& failed@ == failed_rounds(rounds@, fates)
                    &&& final(self).revision == moved_by_fates(old(self).revision, fates)
                },
    {
        let ghost all = rounds@;
        let ghost started = self.revision;
        let mut rest = rounds;
        let mut failed: Vec<PendingHistoryArchive> = Vec::new();
        let mut revision: u64 = self.revision;
        let ghost mut fates: Seq<RoundFate> = Seq::empty();
        let ghost mut done: int = 0;
        while rest.len() > 0
            invariant
                forall|details: HistoryCombatDetails| #[trigger]
                    call_requires(*restore, (&details,)),
                forall|state: CombatState, source: CaptureQualitySource, basis: DpsTimeBasis, apart: bool|
                    #[trigger] call_requires(*summarize, (&state, source, basis, apart)),
                forall|any: PreparedHistoryArchive| #[trigger] call_requires(*persist, (&any,)),
                0 <= done <= all.len(),
                rest@ == all.skip(done),
                are_fates(*restore, *summarize, *persist, policy, all.take(done), fates),
                failed@ == failed_rounds(all.take(done), fates),
                revision == moved_by_fates(started, fates),
            decreases rest.len(),
        {
            let round = rest.remove(0);
            let ghost waiting = round;
            let source = round.source;
            let prepared = prepare_history_details(round, policy, restore, summarize);
            let ghost handed = prepared;
            let mut fate = RoundFate::Empty;
            if let Some(archive) = prepared {
                let outcome = persist(&archive);
                proof {
                    assert(call_ensures(*persist, (&handed->0,), outcome));
                }
                match outcome {
                    Ok(_) => {
                        fate = RoundFate::Saved;
                        revision = advance_generation(revision);
                    },
                    Err(_) => {
                        fate = RoundFate::Failed;
                        if let Some(details) = archive.details {
                            failed.push(PendingHistoryArchive { details, source });
                        }
                    },
                }
            }
            proof {
                assert(waiting == all[done]);
                assert(rest@ =~= all.skip(done + 1));
                assert(all.take(done + 1).drop_last() =~= all.take(done));
                let earlier = fates;
                fates = fates.push(fate);
                assert(fates.drop_last() =~= earlier);
                assert(meets(*restore, *summarize, *persist, policy, waiting, fate));
                assert forall|i: int| 0 <= i < done + 1 implies meets(
                    *restore,
                    *summarize,
                    *persist,
                    policy,
                    all.take(done + 1)[i],
                    #[trigger] fates[i],
                ) by {
                    if i < done {
                        assert(fates[i] == earlier[i]);
                        assert(all.take(done)[i] == all.take(done + 1)[i]);
                    }
                }
                done = done + 1;
            }
        }
        proof {
            assert(all.take(done) =~= all);
        }
        self.revision = revision;
        failed
    }
}

/// Whether an idle fight is due to be cut.
pub open spec fn idle_cut_due(live: LiveCaptureService, now: u128, idle_seconds: u32) -> bool {
    &&& live.control.status.phase == LiveCapturePhase::Running
    &&& !live.control.replay_running
    &&& !live.state.battle.abyss.active
    &&& !live.state.battle.game_paused
    &&& live.state.battle.team.hits@.len() > 0
    &&& live.control.last_outgoing_hit_at matches Some(last)
    &&& (if now >= last {
        now - last
    } else {
        0
    }) >= idle_seconds * NANOS_PER_SECOND
}

/// What the idle policy leads to. Without it, and when nothing is due or
/// nothing can be cut, everything stays.
pub open spec fn cuts_when_idle<
    D: Fn(&CombatState) -> Option<HistoryCombatDetails>,
    R: Fn(&HistoryCombatDetails) -> CombatState,
    S: Fn(&CombatState, CaptureQualitySource, DpsTimeBasis, bool) -> Option<CombatSessionSummary>,
    P: Fn(&PreparedHistoryArchive) -> Result<(), String>,
>(
    details_of: D,
    restore: R,
    summarize: S,
    persist: P,
    policy: SummaryPolicy,
    due: bool,
    history_before: HistoryService,
    before: LiveCaptureService,
    history_after: HistoryService,
    after: LiveCaptureService,
) -> bool {
    if due && history_before.pending_archives@.len() < MAX_PENDING_HISTORY_ARCHIVES {
        cuts(
            details_of,
            restore,
            summarize,
            persist,
            policy,
            history_before,
            before,
            history_after,
            after,
        )
    } else {
        history_after == history_before && after == before
    }
}

/// `after` is `before` with other rounds waiting.
pub open spec fn waits_with(
    before: LiveCaptureService,
    rounds: Seq<PendingHistoryArchive>,
    after: LiveCaptureService,
) -> bool {
    &&& after.pending_abyss_archives@ == rounds
    &&& after == (LiveCaptureService {
        pending_abyss_archives: after.pending_abyss_archives,
        ..before
    })
}

/// What maintenance leads to: waiting rounds are tried again, then those of a
/// challenge; where one of these fails it waits on, and otherwise the idle
/// policy applies.
pub open spec fn maintains<
    D: Fn(&CombatState) -> Option<HistoryCombatDetails>,
    R: Fn(&HistoryCombatDetails) -> CombatState,
    S: Fn(&CombatState, CaptureQualitySource, DpsTimeBasis, bool) -> Option<CombatSessionSummary>,
    P: Fn(&PreparedHistoryArchive) -> Result<(), String>,
>(
    details_of: D,
    restore: R,
    summarize: S,
    persist: P,
    policy: SummaryPolicy,
    idle_seconds: Option<u32>,
    now: u128,
    history_before: HistoryService,
    before: LiveCaptureService,
    history_after: HistoryService,
    after: LiveCaptureService,
) -> bool {
    exists|retried: HistoryService, fates: Seq<RoundFate>, quiet: LiveCaptureService|
        {
            let failed = failed_rounds(before.pending_abyss_archives@, fates);
            let archived = HistoryService {
                revision: moved_by_fates(retried.revision, fates),
                ..retried
            };
            &&& #[trigger] retries(persist, history_before, retried)
            &&& #[trigger] are_fates(
                restore,
                summarize,
                persist,
                policy,
                before.pending_abyss_archives@,
                fates,
            )
            &&& #[trigger] waits_with(before, Seq::empty(), quiet)
            &&& if failed.len() > 0 {
                history_after == archived && waits_with(before, failed, after)
            } else {
                cuts_when_idle(
                    details_of,
                    restore,
                    summarize,
                    persist,
                    policy,
                    idle_seconds is Some && idle_cut_due(quiet, now, idle_seconds->0),
                    archived,
                    quiet,
                    history_after,
                    after,
                )
            }
        }
}

proof fn failed_are_no_more(rounds: Seq<PendingHistoryArchive>, fates: Seq<RoundFate>)
    requires
        fates.len() == rounds.len(),
    ensures
        failed_rounds(rounds, fates).len() <= rounds.len(),
    decreases rounds.len(),
{
    if rounds.len() > 0 {
        failed_are_no_more(rounds.drop_last(), fates.drop_last());
    }
}

impl HistoryService {
    /// Keeps the archive up to date. `idle_seconds` is how long a fight can be
    /// idle before it is cut, if it is cut at all.
    pub fn maintain_history_rounds<
        D: Fn(&CombatState) -> Option<HistoryCombatDetails>,
        R: Fn(&HistoryCombatDetails) -> CombatState,
        S: Fn(&CombatState, CaptureQualitySource, DpsTimeBasis, bool) -> Option<
            CombatSessionSummary,
        >,
        P: Fn(&PreparedHistoryArchive) -> Result<(), String>,
    >(
        &mut self,
        live: &mut LiveCaptureService,
        policy: SummaryPolicy,
        idle_seconds: Option<u32>,
        now: u128,
        details_of: &D,
        restore: &R,
        summarize: &S,
        persist: &P,
    )
        requires
            archives_all(*details_of, *restore, *summarize, *persist),
            old(self).wf(),
            old(live).wf(),
        ensures
            final(self).wf(),
            final(live).wf(),
            maintains(
                *details_of,
                *restore,
                *summarize,
                *persist,
                policy,
                idle_seconds,
                now,
                *old(self),
                *old(live),
                *final(self),
                *final(live),
            ),
    {
        let ghost before = *live;
        self.retry_pending_history_archives(persist);
        let ghost retried = *self;
        let pending = live.take_pending_abyss_archives();
        let ghost quiet = *live;
        let ghost rounds = pending@;
        let failed = self.archive_rounds(pending, policy, restore, summarize, persist);
        let ghost archived = *self;
        let ghost fates = choose|fates: Seq<RoundFate>|
            {
                &&& #[trigger] are_fates(*restore, *summarize, *persist, policy, rounds, fates)
                &&& failed@ == failed_rounds(rounds, fates)
                &&& archived.revision == moved_by_fates(retried.revision, fates)
            };
        proof {
            assert(quiet.pending_abyss_archives@ =~= Seq::empty());
            assert(waits_with(before, Seq::empty(), quiet));
            failed_are_no_more(rounds, fates);
        }
        if failed.len() > 0 {
            let ghost unsaved_rounds = failed@;
            live.restore_pending_abyss_archives(failed);
            proof {
                assert(unsaved_rounds + Seq::empty() =~= unsaved_rounds);
                assert(waits_with(before, unsaved_rounds, *live));
            }
            return;
        }
        if let Some(seconds) = idle_seconds {
            let due = auto_round_due(
                matches!(live.control.status.phase, LiveCapturePhase::Running)
                    && !live.control.replay_running,
                false,
                live.state.battle.abyss.is_active(),
                live.state.battle.game_paused,
                live.state.battle.team.hits.len() > 0,
                live.idle_elapsed(now),
                seconds,
            );
            assert(due == idle_cut_due(quiet, now, seconds));
            if due {
                let _ = self.archive_current_history_round(
                    live,
                    policy,
                    details_of,
                    restore,
                    summarize,
                    persist,
                );
            }
        }
    }
}

impl UiConfig {
    /// How the settings have a round summed up.
    pub open spec fn sums_up(self) -> SummaryPolicy {
        SummaryPolicy {
            dps_time_basis: if self.plain.capture.dps_time_mode == DpsTimeMode::TimeStopAdjusted {
                DpsTimeBasis::SubtractTimeStop
            } else {
                DpsTimeBasis::WallClock
            },
            separate_reaction_damage: self.plain.capture.separate_reaction_damage,
        }
    }

    /// How long a fight can be idle before it is cut, if it is cut at all.
    pub open spec fn idle_limit(self) -> Option<u32> {
        if self.plain.capture.auto_round_after_idle {
            Some(self.plain.capture.auto_round_idle_seconds)
        } else {
            None
        }
    }

    fn summary_policy(&self) -> (policy: SummaryPolicy)
        ensures
            policy == self.sums_up(),
    {
        SummaryPolicy {
            dps_time_basis: DpsTimeBasis::from_subtract_time_stop(
                self.plain.capture.dps_time_mode.subtracts_time_stop(),
            ),
            separate_reaction_damage: self.plain.capture.separate_reaction_damage,
        }
    }
}

impl AppState {
    /// Cuts the current round at the user's word, summed up as the settings
    /// say.
    pub fn archive_current_history_round<
        D: Fn(&CombatState) -> Option<HistoryCombatDetails>,
        R: Fn(&HistoryCombatDetails) -> CombatState,
        S: Fn(&CombatState, CaptureQualitySource, DpsTimeBasis, bool) -> Option<
            CombatSessionSummary,
        >,
        P: Fn(&PreparedHistoryArchive) -> Result<(), String>,
    >(&mut self, details_of: &D, restore: &R, summarize: &S, persist: &P) -> (result: Result<
        bool,
        String,
    >)
        requires
            archives_all(*details_of, *restore, *summarize, *persist),
            old(self).history.wf(),
        ensures
            final(self).history.wf(),
            *final(self) == (AppState {
                history: final(self).history,
                live: final(self).live,
                ..*old(self)
            }),
            cuts_at_word(
                *details_of,
                *restore,
                *summarize,
                *persist,
                old(self).settings.config.sums_up(),
                old(self).history,
                old(self).live,
                final(self).history,
                final(self).live,
                result,
            ),
    {
        let policy = self.settings.config.summary_policy();
        self.history.archive_current_history_round(
            &mut self.live,
            policy,
            details_of,
            restore,
            summarize,
            persist,
        )
    }

    /// Keeps the archive up to date, as the settings say.
    pub fn maintain_history_rounds<
        D: Fn(&CombatState) -> Option<HistoryCombatDetails>,
        R: Fn(&HistoryCombatDetails) -> CombatState,
        S: Fn(&CombatState, CaptureQualitySource, DpsTimeBasis, bool) -> Option<
            CombatSessionSummary,
        >,
        P: Fn(&PreparedHistoryArchive) -> Result<(), String>,
    >(&mut self, now: u128, details_of: &D, restore: &R, summarize: &S, persist: &P)
        requires
            archives_all(*details_of, *restore, *summarize, *persist),
            old(self).history.wf(),
            old(self).live.wf(),
        ensures
            final(self).history.wf(),
            final(self).live.wf(),
            *final(self) == (AppState {
                history: final(self).history,
                live: final(self).live,
                ..*old(self)
            }),
            maintains(
                *details_of,
                *restore,
                *summarize,
                *persist,
                old(self).settings.config.sums_up(),
                old(self).settings.config.idle_limit(),
                now,
                old(self).history,
                old(self).live,
                final(self).history,
                final(self).live,
            ),
    {
        let policy = self.settings.config.summary_policy();
        let capture = self.settings.config.plain.capture;
        let idle_seconds: Option<u32> = if capture.auto_round_after_idle {
            Some(capture.auto_round_idle_seconds)
        } else {
            None
        };
        self.history.maintain_history_rounds(
            &mut self.live,
            policy,
            idle_seconds,
            now,
            details_of,
            restore,
            summarize,
            persist,
        );
    }
}

} // verus!
