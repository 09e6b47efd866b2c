//! What the windows read of the session that they present.
use std::collections::HashMap;

use vstd::prelude::*;

use crate::desktop::AppState;
use crate::detail::{row_at, row_of};
use crate::double::{Arith, Double};
use crate::hud::{draws_hud, gets_row, HudCharacterSnapshot, HudConfig, HudProjectionOptions, HudSnapshot};
use crate::hud_laws::{fit, is_row_of, presented, ranking_of};
use crate::lifecycle_laws::moved;
use crate::model::{AbyssHalf, CharacterInfo, CombatState, DpsTimeBasis, Language, PartyCombatState};
use crate::readout::{
    colored, durations_of, policy_of, project_main_readout, reads_main, snapshots_hud,
    technical_snapshot, CharacterDuration, HudView, MainDpsReadout, ReadingPolicy,
    TechnicalSnapshot,
};
use crate::settings::DpsTimeMode;
use crate::single::Single;
use crate::text::{decimal, held};
use crate::timeline::{
    draws_bucket, BucketWidth, TimelineProjection, TimelineReadings, TimelineScope, TimelineSeries,
};
use crate::timeline_laws::fit_buckets;

verus! {

/// The time basis that stopped time is left out of, or not.
pub open spec fn basis(subtract_time_stop: bool) -> DpsTimeBasis {
    if subtract_time_stop {
        DpsTimeBasis::SubtractTimeStop
    } else {
        DpsTimeBasis::WallClock
    }
}

/// Some character of the party has this row.
pub open spec fn has_row(
    party: PartyCombatState,
    options: HudProjectionOptions,
    row: HudCharacterSnapshot,
) -> bool {
    exists|index: int|
        0 <= index < party.stats@.len() && #[trigger] is_row_of(party, index, options, row)
}

/// Some character of the party fought that long.
pub open spec fn has_fought(
    party: PartyCombatState,
    subtract_time_stop: bool,
    entry: CharacterDuration,
) -> bool {
    exists|index: int|
        0 <= index < party.stats@.len() && #[trigger] fought_for(
            party,
            index,
            subtract_time_stop,
            entry,
        )
}

/// Some character of the party is told by this row of the HUD window.
pub open spec fn is_told(party: PartyCombatState, view: HudView, row: HudCharacterSnapshot) -> bool {
    exists|index: int|
        0 <= index < party.stats@.len() && #[trigger] row_tells(party, index, view, row)
}

/// A live HUD shows the readings of this party: its totals, and rows of its
/// characters, each once.
pub open spec fn shows_party(
    party: PartyCombatState,
    subtract_time_stop: bool,
    options: HudProjectionOptions,
    hud: HudSnapshot,
) -> bool {
    let shown = hud.summary->0;
    &&& hud.summary is Some
    &&& subtract_time_stop && fit(party.dps.subtract_time_stop) ==> shown.team_dps
        == party.dps.subtract_time_stop
    &&& !subtract_time_stop && fit(party.dps.wall_clock) ==> shown.team_dps == party.dps.wall_clock
    &&& subtract_time_stop && fit(party.duration.subtract_time_stop) ==> shown.duration_seconds
        == party.duration.subtract_time_stop
    &&& !subtract_time_stop && fit(party.duration.wall_clock) ==> shown.duration_seconds
        == party.duration.wall_clock
    &&& fit(party.total_damage) ==> shown.total_damage == party.total_damage
    &&& fit(party.total_damage_taken) ==> shown.total_damage_taken == party.total_damage_taken
    &&& hud.characters@.len() <= 4
    &&& forall|k: int|
        0 <= k < hud.characters@.len() ==> has_row(
            party,
            options,
            #[trigger] hud.characters@[k],
        )
}

/// A live HUD without anyone hidden shows the presented party.
proof fn huds_show_the_party<
    F: Fn(Arith) -> Double,
    T: Fn(&CombatState, Option<AbyssHalf>, Double, bool) -> TimelineSeries,
    Z: Fn(&HudConfig) -> HudConfig,
>(
    ops: F,
    series_of: T,
    sanitize: Z,
    state: CombatState,
    config: HudConfig,
    options: HudProjectionOptions,
    hud: HudSnapshot,
)
    requires
        draws_hud(ops, series_of, sanitize, state, config, Set::empty(), options, hud),
        hud.data_state is Live,
    ensures
        shows_party(
            presented(state, options.selected_abyss_half),
            options.dps_time_basis is SubtractTimeStop,
            options,
            hud,
        ),
{
    let party = presented(state, options.selected_abyss_half);
    let rows = hud.characters@;
    let ranking = ranking_of(ops, party, Set::empty(), options, rows);
    assert forall|k: int| 0 <= k < rows.len() implies has_row(
            party,
            options,
            #[trigger] rows[k],
        ) by {
        assert(gets_row(
            party,
            Set::empty(),
            options.separate_reaction_damage,
            ranking[k] as int,
        ));
        assert(is_row_of(party, ranking[k] as int, options, rows[k]));
    }
}

/// What the first row of a character is.
proof fn first_row_is_theirs(party: PartyCombatState, id: u32, upto: int)
    requires
        0 <= upto <= party.stats@.len(),
    ensures
        row_at(party, id, upto) matches Some(at) ==> 0 <= at < upto && party.stats@[at].char_id
            == id,
        row_at(party, id, upto) is None ==> forall|at: int|
            0 <= at < upto ==> (#[trigger] party.stats@[at]).char_id != id,
    decreases upto,
{
    if upto > 0 {
        first_row_is_theirs(party, id, upto - 1);
    }
}

/// How long a character of the party fought, on a time basis.
pub open spec fn fought_for(
    party: PartyCombatState,
    index: int,
    subtract_time_stop: bool,
    entry: CharacterDuration,
) -> bool {
    let stats = party.stats@[index];
    &&& entry.character_id == stats.char_id
    &&& subtract_time_stop ==> entry.seconds == stats.combined.duration.subtract_time_stop
    &&& !subtract_time_stop ==> entry.seconds == stats.combined.duration.wall_clock
}

/// Durations are those of the rows' characters, and no row's character that
/// the party has is left out.
proof fn durations_are_the_characters_own(
    rows: Seq<HudCharacterSnapshot>,
    party: PartyCombatState,
    subtract_time_stop: bool,
)
    ensures
        ({
            let durations = durations_of(rows, party, subtract_time_stop);
            &&& durations.len() <= rows.len()
            &&& forall|k: int|
                0 <= k < durations.len() ==> has_fought(
            party,
            subtract_time_stop,
            #[trigger] durations[k],
        )
            &&& forall|j: int, index: int|
                0 <= j < rows.len() && 0 <= index < party.stats@.len() && (
                #[trigger] rows[j]).character_id == (#[trigger] party.stats@[index]).char_id
                    ==> exists|k: int|
                    0 <= k < durations.len() && (#[trigger] durations[k]).character_id
                        == rows[j].character_id
        }),
    decreases rows.len(),
{
    let durations = durations_of(rows, party, subtract_time_stop);
    if rows.len() > 0 {
        let fewer = rows.drop_last();
        let earlier = durations_of(fewer, party, subtract_time_stop);
        durations_are_the_characters_own(fewer, party, subtract_time_stop);
        let id = rows.last().character_id;
        first_row_is_theirs(party, id, party.stats@.len() as int);
        assert forall|k: int| 0 <= k < durations.len() implies has_fought(
            party,
            subtract_time_stop,
            #[trigger] durations[k],
        ) by {
            if k < earlier.len() {
                assert(durations[k] == earlier[k]);
            } else {
                let at = row_of(party, id)->0;
                assert(fought_for(party, at, subtract_time_stop, durations[k]));
            }
        }
        assert forall|j: int, index: int|
            0 <= j < rows.len() && 0 <= index < party.stats@.len() && (
            #[trigger] rows[j]).character_id == (#[trigger] party.stats@[index]).char_id implies
            exists|k: int|
            0 <= k < durations.len() && (#[trigger] durations[k]).character_id
                == rows[j].character_id by {
            if j < fewer.len() {
                assert(fewer[j] == rows[j]);
                let k = choose|k: int|
                    0 <= k < earlier.len() && (#[trigger] earlier[k]).character_id
                        == fewer[j].character_id;
                assert(durations[k] == earlier[k]);
            } else {
                assert(row_of(party, id) is Some);
                assert(durations[earlier.len() as int].character_id == id);
            }
        }
    }
}

/// A main readout says what the session holds, of the half that is looked at.
pub open spec fn tells_the_session(
    state: CombatState,
    selected: Option<AbyssHalf>,
    policy: ReadingPolicy,
    readout: MainDpsReadout,
) -> bool {
    let party = presented(state, selected);
    let options = HudProjectionOptions {
        dps_time_basis: basis(policy.subtract_time_stop),
        separate_reaction_damage: policy.separate_reaction_damage,
        selected_abyss_half: selected,
        preview_when_empty: false,
        timeline_bucket_seconds: policy.timeline_bucket_seconds,
    };
    &&& readout.has_hits <==> state.battle.team.hits@.len() > 0
    &&& readout.game_paused == state.battle.game_paused
    &&& readout.damage_attribution == party.attribution
    &&& readout.separate_reaction_damage == policy.separate_reaction_damage
    &&& readout.hud.data_state !is Preview
    &&& 0 < party.total_damage.bits && fit(party.total_damage) ==> readout.hud.data_state is Live
    &&& readout.hud.data_state is Live ==> shows_party(
        party,
        policy.subtract_time_stop,
        options,
        readout.hud,
    )
    &&& readout.hud.status.abyss_detected == state.battle.abyss.active
    &&& readout.hud.status.abyss_floor == state.battle.abyss.floor
    &&& forall|k: int|
        0 <= k < readout.character_durations@.len() ==> has_fought(
            party,
            policy.subtract_time_stop,
            #[trigger] readout.character_durations@[k],
        )
    &&& forall|j: int, index: int|
        0 <= j < readout.hud.characters@.len() && 0 <= index < party.stats@.len() && (
        #[trigger] readout.hud.characters@[j]).character_id == (
        #[trigger] party.stats@[index]).char_id ==> exists|k: int|
            0 <= k < readout.character_durations@.len() && (
            #[trigger] readout.character_durations@[k]).character_id
                == readout.hud.characters@[j].character_id
}

/// A readout that was read of a session tells it.
proof fn readouts_tell<
    F: Fn(Arith) -> Double,
    T: Fn(&CombatState, Option<AbyssHalf>, Double, bool) -> TimelineSeries,
    Z: Fn(&HudConfig) -> HudConfig,
>(
    ops: F,
    series_of: T,
    sanitize: Z,
    state: CombatState,
    selected: Option<AbyssHalf>,
    policy: ReadingPolicy,
    config: HudConfig,
    readout: MainDpsReadout,
)
    requires
        reads_main(ops, series_of, sanitize, state, selected, policy, config, readout),
    ensures
        tells_the_session(state, selected, policy, readout),
{
    let party = presented(state, selected);
    let options = HudProjectionOptions {
        dps_time_basis: basis(policy.subtract_time_stop),
        separate_reaction_damage: policy.separate_reaction_damage,
        selected_abyss_half: selected,
        preview_when_empty: false,
        timeline_bucket_seconds: policy.timeline_bucket_seconds,
    };
    assert(draws_hud(
        ops,
        series_of,
        sanitize,
        state,
        config,
        Set::empty(),
        options,
        readout.hud,
    ));
    if readout.hud.data_state is Live {
        huds_show_the_party(ops, series_of, sanitize, state, config, options, readout.hud);
    }
    durations_are_the_characters_own(
        readout.hud.characters@,
        party,
        policy.subtract_time_stop,
    );
}

/// The main window tells the session it is given, of the half that is looked
/// at and on the policy that was asked for. It never shows the preview.
pub proof fn main_readouts_tell_the_session<
    F: Fn(Arith) -> Double,
    T: Fn(&CombatState, Option<AbyssHalf>, Double, bool) -> TimelineSeries,
    Z: Fn(&HudConfig) -> HudConfig,
>(
    state: &CombatState,
    selected: Option<AbyssHalf>,
    policy: ReadingPolicy,
    config: &HudConfig,
    series_of: &T,
    sanitize: &Z,
    ops: &F,
    readout: MainDpsReadout,
)
    requires
        call_ensures(
            project_main_readout::<F, T, Z>,
            (state, selected, policy, config, series_of, sanitize, ops),
            readout,
        ),
    ensures
        tells_the_session(*state, selected, policy, readout),
{
    readouts_tell(
        *ops,
        *series_of,
        *sanitize,
        *state,
        selected,
        policy,
        *config,
        readout,
    );
}

/// The session that the program presents: a selected round until the next
/// outgoing hit, a frozen session while processing is paused, else the live
/// one.
pub open spec fn on_screen(app: AppState) -> CombatState {
    let shown = app.presentation;
    let over = !shown.control.processing_paused && app.live.control.outgoing_hit_revision
        != shown.control.selected_outgoing_revision;
    if shown.selected_round is Some && !over {
        shown.selected_round->0.state
    } else if shown.control.processing_paused && shown.paused is Some {
        shown.paused->0.state
    } else {
        app.live.state
    }
}

/// The main window tells the session that is presented, on the settings in
/// force. A half that was entered is followed while nothing is selected and
/// nothing is paused; else the chosen one is looked at.
pub proof fn the_main_window_tells_what_is_presented<
    F: Fn(Arith) -> Double,
    T: Fn(&CombatState, Option<AbyssHalf>, Double, bool) -> TimelineSeries,
    Z: Fn(&HudConfig) -> HudConfig,
    B: Fn(Single) -> BucketWidth,
>(
    app: &mut AppState,
    selected_round_id: Option<&str>,
    detailed: &HudConfig,
    series_of: &T,
    sanitize: &Z,
    width: &B,
    ops: &F,
    readout: MainDpsReadout,
)
    requires
        call_ensures(
            AppState::main_dps_readout::<F, T, Z, B>,
            (app, selected_round_id, detailed, series_of, sanitize, width, ops),
            readout,
        ),
    ensures
        ({
            let before = old(app).presentation.control;
            let half = final(app).presentation.control.selected_abyss_half;
            let active = on_screen(*old(app)).battle.abyss.active_half;
            let follows = selected_round_id is None && !before.processing_paused;
            &&& follows && active != before.observed_abyss_half ==> half == active
            &&& !follows || active == before.observed_abyss_half ==> half
                == before.selected_abyss_half
            &&& exists|policy: ReadingPolicy|
                {
                    &&& #[trigger] tells_the_session(on_screen(*old(app)), half, policy, readout)
                    &&& policy.subtract_time_stop <==> old(app).settings.config.plain.capture.dps_time_mode is TimeStopAdjusted
                    &&& policy.separate_reaction_damage == old(app).settings.config.plain.capture.separate_reaction_damage
                }
        }),
        final(app).live == old(app).live,
        final(app).settings == old(app).settings,
{
    let bucket = choose|bucket: BucketWidth|
        {
            &&& #[trigger] call_ensures(
                *width,
                (old(app).settings.config.measured.timeline_bucket_seconds,),
                bucket,
            )
            &&& reads_main(
                *ops,
                *series_of,
                *sanitize,
                old(app).presents(),
                final(app).presentation.control.selected_abyss_half,
                policy_of(old(app).settings.config, bucket),
                *detailed,
                readout,
            )
        };
    let policy = policy_of(old(app).settings.config, bucket);
    assert(old(app).presents() == on_screen(*old(app)));
    readouts_tell(
        *ops,
        *series_of,
        *sanitize,
        on_screen(*old(app)),
        final(app).presentation.control.selected_abyss_half,
        policy,
        *detailed,
        readout,
    );
}

/// A HUD window says what the session holds. Rows carry the colours of their
/// characters; the preview stands in for an empty session only while the HUD
/// is edited.
pub open spec fn hud_tells_the_session(
    state: CombatState,
    view: HudView,
    snapshot: TechnicalSnapshot,
) -> bool {
    let party = presented(state, view.selected_abyss_half);
    &&& snapshot.sequence@ == decimal(view.sequence as nat)
    &&& snapshot.stream_interval_ms == 100
    &&& snapshot.passthrough == view.passthrough
    &&& snapshot.always_on_top == view.always_on_top
    &&& snapshot.capture == view.capture
    &&& view.passthrough ==> snapshot.hud.data_state !is Preview
    &&& !view.passthrough ==> snapshot.hud.data_state !is Empty
    &&& 0 < party.total_damage.bits && fit(party.total_damage) ==> snapshot.hud.data_state is Live
    &&& snapshot.hud.status.abyss_detected == state.battle.abyss.active
    &&& snapshot.hud.data_state is Live ==> {
        let shown = snapshot.hud.summary->0;
        &&& snapshot.hud.summary is Some
        &&& view.policy.subtract_time_stop && fit(party.dps.subtract_time_stop) ==> shown.team_dps
            == party.dps.subtract_time_stop
        &&& !view.policy.subtract_time_stop && fit(party.dps.wall_clock) ==> shown.team_dps
            == party.dps.wall_clock
        &&& fit(party.total_damage) ==> shown.total_damage == party.total_damage
        &&& forall|k: int|
            0 <= k < snapshot.hud.characters@.len() ==> is_told(
            party,
            view,
            #[trigger] snapshot.hud.characters@[k],
        )
    }
    &&& forall|k: int|
        0 <= k < snapshot.hud.characters@.len() ==> {
            let row = #[trigger] snapshot.hud.characters@[k];
            &&& view.characters@.dom().contains(row.character_id) ==> held(row.color) == held(
                view.characters@[row.character_id].color,
            )
            &&& !view.characters@.dom().contains(row.character_id) ==> row.color is None
        }
}

/// A row of the HUD window tells the totals of a character.
pub open spec fn row_tells(
    party: PartyCombatState,
    index: int,
    view: HudView,
    row: HudCharacterSnapshot,
) -> bool {
    let stats = party.stats@[index];
    let totals = if view.policy.separate_reaction_damage {
        stats.separated
    } else {
        stats.combined
    };
    &&& row.character_id == stats.char_id
    &&& row.name@ == stats.name@
    &&& row.hits@ == decimal(totals.hits as nat)
    &&& fit(totals.damage) ==> row.damage == totals.damage
    &&& fit(totals.damage_taken) ==> row.damage_taken == totals.damage_taken
    &&& view.policy.subtract_time_stop && fit(totals.dps.subtract_time_stop) ==> row.dps
        == totals.dps.subtract_time_stop
    &&& !view.policy.subtract_time_stop && fit(totals.dps.wall_clock) ==> row.dps
        == totals.dps.wall_clock
}

/// A snapshot that was drawn of a session tells it.
proof fn snapshots_tell<
    F: Fn(Arith) -> Double,
    T: Fn(&CombatState, Option<AbyssHalf>, Double, bool) -> TimelineSeries,
    Z: Fn(&HudConfig) -> HudConfig,
>(
    ops: F,
    series_of: T,
    sanitize: Z,
    state: CombatState,
    view: HudView,
    snapshot: TechnicalSnapshot,
)
    requires
        snapshots_hud(ops, series_of, sanitize, state, view, snapshot),
    ensures
        hud_tells_the_session(state, view, snapshot),
{
    let options = crate::readout::window_options(view);
    let plain = choose|plain: HudSnapshot|
        {
            &&& #[trigger] draws_hud(
                ops,
                series_of,
                sanitize,
                state,
                *view.config,
                Set::empty(),
                options,
                plain,
            )
            &&& crate::readout::colors_hud(plain, view.characters@, snapshot.hud)
        };
    let party = presented(state, view.selected_abyss_half);
    if plain.data_state is Live {
        huds_show_the_party(ops, series_of, sanitize, state, *view.config, options, plain);
        assert forall|k: int| 0 <= k < snapshot.hud.characters@.len() implies is_told(
            party,
            view,
            #[trigger] snapshot.hud.characters@[k],
        ) by {
            assert(colored(plain.characters@[k], view.characters@, snapshot.hud.characters@[k]));
            let index = choose|index: int|
                0 <= index < party.stats@.len() && #[trigger] is_row_of(
                    party,
                    index,
                    options,
                    plain.characters@[k],
                );
            assert(row_tells(party, index, view, snapshot.hud.characters@[k]));
        }
    }
    assert forall|k: int| 0 <= k < snapshot.hud.characters@.len() implies ({
        let row = #[trigger] snapshot.hud.characters@[k];
        &&& view.characters@.dom().contains(row.character_id) ==> held(row.color) == held(
            view.characters@[row.character_id].color,
        )
        &&& !view.characters@.dom().contains(row.character_id) ==> row.color is None
    }) by {
        assert(colored(plain.characters@[k], view.characters@, snapshot.hud.characters@[k]));
    }
}

/// The HUD window tells the session it is given, numbered as asked.
pub proof fn hud_windows_tell_the_session<
    F: Fn(Arith) -> Double,
    T: Fn(&CombatState, Option<AbyssHalf>, Double, bool) -> TimelineSeries,
    Z: Fn(&HudConfig) -> HudConfig,
>(
    state: &CombatState,
    view: &HudView<'_>,
    series_of: &T,
    sanitize: &Z,
    ops: &F,
    snapshot: TechnicalSnapshot,
)
    requires
        call_ensures(
            technical_snapshot::<F, T, Z>,
            (state, view, series_of, sanitize, ops),
            snapshot,
        ),
    ensures
        hud_tells_the_session(*state, *view, snapshot),
{
    snapshots_tell(*ops, *series_of, *sanitize, *state, *view, snapshot);
}

/// The HUD window of the program tells the session that is presented, under
/// the next number, with the settings, the status and the half in force.
pub proof fn the_hud_tells_what_is_presented<
    F: Fn(Arith) -> Double,
    T: Fn(&CombatState, Option<AbyssHalf>, Double, bool) -> TimelineSeries,
    Z: Fn(&HudConfig) -> HudConfig,
    B: Fn(Single) -> BucketWidth,
>(
    app: &mut AppState,
    series_of: &T,
    sanitize: &Z,
    width: &B,
    ops: &F,
    snapshot: TechnicalSnapshot,
)
    requires
        old(app).sequence < u64::MAX,
        call_ensures(
            AppState::snapshot::<F, T, Z, B>,
            (app, series_of, sanitize, width, ops),
            snapshot,
        ),
    ensures
        final(app).sequence == old(app).sequence + 1,
        snapshot.sequence@ == decimal((old(app).sequence + 1) as nat),
        snapshot.passthrough == old(app).passthrough,
        snapshot.always_on_top == old(app).settings.config.plain.on_top.hud,
        snapshot.capture == old(app).live.control.status,
        exists|view: HudView|
            {
                &&& #[trigger] hud_tells_the_session(on_screen(*old(app)), view, snapshot)
                &&& view.selected_abyss_half == old(app).presentation.control.selected_abyss_half
                &&& view.policy.subtract_time_stop <==> old(app).settings.config.plain.capture.dps_time_mode is TimeStopAdjusted
                &&& view.policy.separate_reaction_damage == old(app).settings.config.plain.capture.separate_reaction_damage
                &&& view.characters@ == old(app).live.resources.characters@
            },
        final(app).live == old(app).live,
        final(app).settings == old(app).settings,
{
    let bucket = choose|bucket: BucketWidth|
        {
            &&& #[trigger] call_ensures(
                *width,
                (old(app).settings.config.measured.timeline_bucket_seconds,),
                bucket,
            )
            &&& snapshots_hud(
                *ops,
                *series_of,
                *sanitize,
                old(app).presents(),
                crate::readout::hud_view(
                    &*final(app),
                    final(app).sequence,
                    policy_of(old(app).settings.config, bucket),
                ),
                snapshot,
            )
        };
    let view = crate::readout::hud_view(
        &*final(app),
        final(app).sequence,
        policy_of(old(app).settings.config, bucket),
    );
    assert(old(app).presents() == on_screen(*old(app)));
    snapshots_tell(*ops, *series_of, *sanitize, on_screen(*old(app)), view, snapshot);
}

/// The timeline of the program is drawn of the session that is presented, in
/// the scope that was asked for and on the settings in force.
pub proof fn the_timeline_tells_what_is_presented<
    F: Fn(Arith) -> Double,
    R: Fn(&CombatState, TimelineScope, Double, bool) -> TimelineReadings,
    B: Fn(Single) -> BucketWidth,
>(
    app: &mut AppState,
    scope: TimelineScope,
    read: &R,
    width: &B,
    ops: &F,
    chart: TimelineProjection,
    valid: BucketWidth,
    leaves_stops_out: bool,
    readings: TimelineReadings,
)
    requires
        leaves_stops_out == (old(app).settings.config.plain.capture.dps_time_mode
            == DpsTimeMode::TimeStopAdjusted),
        call_ensures(
            AppState::timeline_projection::<F, R, B>,
            (app, scope, read, width, ops),
            chart,
        ),
        forall|other: BucketWidth| #[trigger]
            call_ensures(
                *width,
                (old(app).settings.config.measured.timeline_bucket_seconds,),
                other,
            ) ==> other == valid,
        forall|other: TimelineReadings| #[trigger]
            call_ensures(
                *read,
                (
                    &on_screen(*old(app)),
                    scope,
                    valid.seconds,
                    leaves_stops_out,
                ),
                other,
            ) ==> other == readings,
        fit_buckets(readings.series.buckets@),
    ensures
        chart.bucket_seconds == valid.seconds,
        chart.buckets@.len() == readings.series.buckets@.len(),
        forall|k: int|
            0 <= k < chart.buckets@.len() ==> (#[trigger] chart.buckets@[k]).damage
                == readings.series.buckets@[k].damage,
        fit(readings.series.total_damage) ==> chart.total_damage == readings.series.total_damage,
        final(app).live == old(app).live,
        final(app).settings == old(app).settings,
{
    assert(old(app).presents() == on_screen(*old(app)));
    assert forall|k: int| 0 <= k < chart.buckets@.len() implies (
    #[trigger] chart.buckets@[k]).damage == readings.series.buckets@[k].damage by {
        assert(draws_bucket(readings.series.buckets@[k], chart.buckets@[k]));
        assert(fit(readings.series.buckets@[k].damage));
    }
}

/// What is drawn of the presented session is drawn of it, and a page of skills
/// with the characters that are known and in the user's language. A selection
/// that is over is left on the way, and the window is told.
pub proof fn pages_are_drawn_of_what_is_presented<
    S,
    V,
    W,
    P: Fn(&CombatState) -> V,
    Q: Fn(&CombatState, &HashMap<u32, CharacterInfo>, S, Language) -> W,
>(
    app: &mut AppState,
    project: &P,
    view: V,
    other: &mut AppState,
    scope: S,
    skills_of: &Q,
    skills: W,
)
    requires
        call_ensures(AppState::with_main_presented_state::<V, P>, (app, project), view),
        call_ensures(AppState::skills_projection::<S, W, Q>, (other, scope, skills_of), skills),
    ensures
        call_ensures(*project, (&on_screen(*old(app)),), view),
        call_ensures(
            *skills_of,
            (
                &on_screen(*old(other)),
                &old(other).live.resources.characters,
                scope,
                old(other).settings.config.plain.interface.language,
            ),
            skills,
        ),
        final(app).live == old(app).live,
        final(app).settings == old(app).settings,
        old(app).presentation.selected_round is Some && !old(app).presentation.control.processing_paused && old(app).live.control.outgoing_hit_revision
            != old(app).presentation.control.selected_outgoing_revision ==> final(app).presentation.selected_round is None && moved(
            old(app).presentation.control.main_revision,
            final(app).presentation.control.main_revision,
        ),
        old(app).presentation.selected_round is None ==> *final(app) == *old(app),
{
    assert(old(app).presents() == on_screen(*old(app)));
    assert(old(other).presents() == on_screen(*old(other)));
}

} // verus!
