//! What the program picks where there is something to pick: a name, a colour,
//! a row, a round, a team, and what becomes of the introduction.
use std::collections::HashMap;

use vstd::prelude::*;

use crate::battle::{half_hit_counts, key_of, HitCounts};
use crate::desktop::{equipped, introduced, reset_notice, stop_timed_out, AppState};
use crate::detail::{
    effect_catalog, find_row, row_at, EffectCatalogEntry, HitDirectionSummary,
    MainDpsDetailRequest, MainDpsDirectionSummary,
};
use crate::double::Double;
use crate::error::{CoreError, CoreErrorCode};
use crate::hud::HudConfig;
use crate::lifecycle_laws::moved;
use crate::live_capture::{LiveCaptureIssue, LiveCaptureService};
use crate::model::{
    BattleState, CaptureQualitySource, CharacterInfo, CombatState, Hit, HtItemNetId, Language,
    PartyCombatState,
};
use crate::notices::UndoSlot;
use crate::operations::{exports_presented, PredictionTeams, TeamExport};
use crate::presentation::{HistoryRoundIndex, MainRoundCache, PresentationState};
use crate::rpc::{item_net_id, ItemUidParam};
use crate::settings::{copies, UiConfig};
use crate::settings_laws::changes_settle;
use crate::text::{contains, decimal, holds, or_else, parse_hexadecimal};
use crate::timeline::{character_color, character_name};

verus! {

/// A character goes by its name in the language, else by the one at hand, else
/// by its number.
pub proof fn characters_go_by_their_name(
    id: u32,
    fallback: &str,
    characters: &HashMap<u32, CharacterInfo>,
    chinese: String,
    english: String,
    japanese: String,
)
    requires
        call_ensures(
            character_name,
            (id, fallback, characters, Language::SimplifiedChinese),
            chinese,
        ),
        call_ensures(character_name, (id, fallback, characters, Language::English), english),
        call_ensures(character_name, (id, fallback, characters, Language::Japanese), japanese),
    ensures
        japanese@ == english@,
        characters@.dom().contains(id) ==> {
            &&& characters@[id].name_zh@.len() > 0 ==> chinese@ == characters@[id].name_zh@
            &&& characters@[id].name_en@.len() > 0 ==> english@ == characters@[id].name_en@
            &&& characters@[id].name_zh@.len() == 0 && fallback@.len() > 0 ==> chinese@ == fallback@
            &&& characters@[id].name_en@.len() == 0 && fallback@.len() > 0 ==> english@ == fallback@
        },
        !characters@.dom().contains(id) && fallback@.len() > 0 ==> chinese@ == fallback@
            && english@ == fallback@,
        !characters@.dom().contains(id) && fallback@.len() == 0 ==> english@ == "#"@ + decimal(
            id as nat,
        ) && chinese@ == english@,
{
}

/// A character keeps its own colour if that is one; the others share eight in
/// turn, and unlike neighbours differ.
pub proof fn characters_keep_their_colors(
    id: u32,
    other: u32,
    characters: &HashMap<u32, CharacterInfo>,
    color: String,
    theirs: String,
    own: &str,
    valid: bool,
)
    requires
        call_ensures(character_color, (id, characters), color),
        call_ensures(character_color, (other, characters), theirs),
        characters@.dom().contains(id) && characters@[id].color is Some ==> own@
            == characters@[id].color->0@,
        call_ensures(crate::timeline::valid_css_hex_color, (own,), valid),
    ensures
        characters@.dom().contains(id) && characters@[id].color is Some && valid ==> color@ == own@,
        !characters@.dom().contains(id) && !characters@.dom().contains(other) ==> (color@
            == theirs@ <==> id % 8 == other % 8),
        !characters@.dom().contains(id) ==> color@.len() == 7 && color@[0] == '#',
{
    reveal_strlit("#ef4444");
    reveal_strlit("#f59e0b");
    reveal_strlit("#8b5cf6");
    reveal_strlit("#06b6d4");
    reveal_strlit("#22c55e");
    reveal_strlit("#ec4899");
    reveal_strlit("#3b82f6");
    reveal_strlit("#84cc16");
    if color@ == theirs@ {
        assert(color@[1] == theirs@[1] && color@[2] == theirs@[2] && color@[3] == theirs@[3]);
    }
}

/// An item goes by its slot and its serial number, each in its own place.
pub proof fn items_go_by_slot_and_serial(uid: ItemUidParam, id: HtItemNetId)
    requires
        call_ensures(item_net_id, (uid,), id),
    ensures
        id.solt == uid.slot,
        id.serial == uid.serial,
{
}

/// What the search for a row comes to.
proof fn rows_are_searched_from_the_front(party: PartyCombatState, id: u32, upto: int)
    requires
        upto <= party.stats@.len(),
    ensures
        match row_at(party, id, upto) {
            Some(at) => {
                &&& 0 <= at < upto
                &&& party.stats@[at].char_id == id
                &&& forall|earlier: int|
                    0 <= earlier < at ==> (#[trigger] party.stats@[earlier]).char_id != id
            },
            None => forall|at: int| 0 <= at < upto ==> (#[trigger] party.stats@[at]).char_id != id,
        },
    decreases upto,
{
    if upto > 0 {
        rows_are_searched_from_the_front(party, id, upto - 1);
    }
}

/// The row of a character is the first one with its number; where there is
/// none, no row has it.
pub proof fn rows_are_found_by_their_character(
    party: &PartyCombatState,
    id: u32,
    found: Option<usize>,
)
    requires
        call_ensures(find_row, (party, id), found),
    ensures
        found matches Some(at) ==> {
            &&& at < party.stats@.len()
            &&& party.stats@[at as int].char_id == id
            &&& forall|earlier: int|
                0 <= earlier < at ==> (#[trigger] party.stats@[earlier]).char_id != id
        },
        found is None ==> forall|at: int|
            0 <= at < party.stats@.len() ==> (#[trigger] party.stats@[at]).char_id != id,
{
    rows_are_searched_from_the_front(*party, id, party.stats@.len() as int);
}

/// A page about a character covers its hits and no others; one about the team
/// covers all. A page with no filter lists what it covers.
pub proof fn pages_cover_their_character(
    request: &MainDpsDetailRequest,
    hit: &Hit,
    covered: bool,
    kept: bool,
)
    requires
        call_ensures(MainDpsDetailRequest::character_matches, (request, hit), covered),
        call_ensures(MainDpsDetailRequest::matches_filters, (request, hit), kept),
    ensures
        request.character_id is None ==> covered,
        request.character_id matches Some(id) ==> (covered <==> hit.char_id == id),
        covered && request.filter is All && request.skill_filter is None ==> kept,
        covered && request.filter is Outgoing && kept ==> !(hit.direction is Incoming),
        covered && request.filter is Incoming && kept ==> hit.direction is Incoming,
        covered && kept && hit.damage_component is Some && request.skill_filter is Some
            ==> hit.damage_component->0@ == request.skill_filter->0@,
        covered && request.filter is All && hit.damage_component is Some && request.skill_filter
            is Some && hit.damage_component->0@ == request.skill_filter->0@ ==> kept,
{
}

/// The directions are shown each in its own place, with the share that the
/// engine gives.
pub proof fn directions_are_shown_apart<U: Fn(HitDirectionSummary) -> Double>(
    value: HitDirectionSummary,
    unknown_share: &U,
    shown: MainDpsDirectionSummary,
)
    requires
        call_ensures(MainDpsDirectionSummary::from_summary::<U>, (value, unknown_share), shown),
    ensures
        shown.confirmed_output == value.outgoing_damage,
        shown.confirmed_hits == value.outgoing_hits,
        shown.candidate_output == value.unknown_damage,
        shown.candidate_hits == value.unknown_hits,
        shown.incoming_output == value.incoming_damage,
        shown.incoming_hits == value.incoming_hits,
        call_ensures(*unknown_share, (value,), shown.candidate_share_percent),
{
}

/// An effect is found under its hash; of two with one hash the later counts,
/// and an entry with no hash adds nothing.
pub proof fn effects_are_found_by_their_hash(
    entries: Vec<EffectCatalogEntry>,
    fewer: Vec<EffectCatalogEntry>,
    catalog: HashMap<u64, String>,
    earlier: HashMap<u64, String>,
    text: &str,
    hash: Option<u64>,
)
    requires
        entries@.len() > 0,
        fewer@ == entries@.drop_last(),
        text@ == entries@.last().hash@,
        call_ensures(effect_catalog, (entries,), catalog),
        call_ensures(effect_catalog, (fewer,), earlier),
        call_ensures(parse_hexadecimal, (text,), hash),
    ensures
        fewer@.len() == 0 ==> earlier@.dom() =~= Set::<u64>::empty(),
        hash is None ==> catalog@ == earlier@,
        hash matches Some(key) ==> {
            &&& catalog@.dom().contains(key)
            &&& catalog@[key] == entries@.last().name
            &&& forall|other: u64|
                other != key ==> {
                    &&& #[trigger] catalog@.dom().contains(other) <==> earlier@.dom().contains(
                        other,
                    )
                    &&& earlier@.dom().contains(other) ==> catalog@[other] == earlier@[other]
                }
        },
{
}

/// A battle is kept once a hit or a row was seen, or a challenge is on.
pub proof fn battles_with_something_are_kept(battle: &BattleState, kept: bool)
    requires
        call_ensures(BattleState::is_archivable, (battle,), kept),
    ensures
        battle.team.hits@.len() > 0 ==> kept,
        battle.team.stats@.len() > 0 ==> kept,
        battle.abyss.active ==> kept,
        kept ==> battle.team.hits@.len() > 0 || battle.team.stats@.len() > 0
            || battle.abyss.active,
{
}

/// One more hit counts once more, for its own key only.
pub proof fn hits_are_counted_by_key(
    hits: &Vec<Hit>,
    fewer: &Vec<Hit>,
    counts: HitCounts,
    earlier: HitCounts,
)
    requires
        hits@.len() > 0,
        fewer@ == hits@.drop_last(),
        call_ensures(half_hit_counts, (hits,), counts),
        call_ensures(half_hit_counts, (fewer,), earlier),
    ensures
        counts.count(key_of(hits@.last())) == earlier.count(key_of(hits@.last())) + 1,
        forall|key: crate::battle::AxisHitKey|
            key != key_of(hits@.last()) ==> #[trigger] counts.count(key) == earlier.count(key),
        fewer@.len() == 0 ==> earlier.count(key_of(hits@.last())) == 0,
{
}

/// A text contains what it is made of, whatever stands before and behind it,
/// and nothing longer; of its own length it contains only itself.
pub proof fn texts_contain_their_parts(
    text: &str,
    part: &str,
    result: bool,
    start: Seq<char>,
    end: Seq<char>,
)
    requires
        call_ensures(contains, (text, part), result),
    ensures
        text@ == start + part@ + end ==> result,
        part@.len() > text@.len() ==> !result,
        part@.len() == text@.len() ==> (result <==> text@ == part@),
{
    if text@ == start + part@ + end {
        let at = start.len() as int;
        assert(text@.subrange(at, at + part@.len()) =~= part@);
        assert(crate::text::occurs_at(text@, part@, at));
    }
    if text@ == part@ {
        assert(text@.subrange(0, part@.len() as int) =~= part@);
        assert(crate::text::occurs_at(text@, part@, 0));
    }
    if result {
        let at = choose|at: int| #[trigger] crate::text::occurs_at(text@, part@, at);
        assert(at + part@.len() <= text@.len());
        if part@.len() == text@.len() {
            assert(text@.subrange(0, text@.len() as int) =~= text@);
        }
    }
}

/// Of two optional texts the first counts where there is one.
pub proof fn the_first_text_counts(
    first: Option<&str>,
    second: Option<&str>,
    picked: Option<&str>,
    value: &Option<String>,
    text: &str,
    same: bool,
)
    requires
        call_ensures(or_else, (first, second), picked),
        call_ensures(holds, (value, text), same),
    ensures
        first is Some ==> picked == first,
        first is None ==> picked == second,
        *value is None ==> !same,
        *value matches Some(kept) ==> (same <==> kept@ == text@),
{
}

/// A session that is remembered has a token of its own and five seconds.
pub proof fn sessions_are_remembered_for_a_while<T>(
    slot: &mut UndoSlot<T>,
    session: T,
    now: u128,
    token: String,
    again: &mut UndoSlot<T>,
    next: T,
    later: u128,
    second: String,
)
    requires
        old(slot).sequence < u64::MAX - 1,
        now <= u128::MAX - 5_000_000_000,
        call_ensures(UndoSlot::<T>::remember_session, (slot, session, now), token),
        *old(again) == *final(slot),
        call_ensures(UndoSlot::<T>::remember_session, (again, next, later), second),
    ensures
        final(slot).entry is Some,
        final(slot).entry->0.token == token,
        final(slot).entry->0.value == session,
        final(slot).entry->0.expires_at == now + 5_000_000_000,
        final(again).entry is Some,
        final(again).entry->0.value == next,
        token@ != second@,
{
    if token@ == second@ {
        crate::notices::session_tokens_are_told_apart(
            final(slot).sequence,
            final(again).sequence,
        );
    }
}

/// The list of rounds is loaded anew where the history moved and kept where it
/// did not; a selected round that is not in it, or that new hits outdate, is
/// not looked at any more.
pub proof fn lists_of_rounds_follow_the_history<L: Fn() -> Vec<HistoryRoundIndex>>(
    cache: &mut MainRoundCache,
    presentation: &mut PresentationState,
    revision: u64,
    outgoing: u64,
    load: &L,
    index: &Vec<HistoryRoundIndex>,
)
    requires
        call_ensures(
            MainRoundCache::main_round_index::<L>,
            (cache, presentation, revision, outgoing, load),
            index,
        ),
    ensures
        final(cache).revision == Some(revision),
        final(cache).index@ == index@,
        old(cache).revision == Some(revision) ==> index@ == old(cache).index@,
        old(cache).revision != Some(revision) ==> call_ensures(*load, (), final(cache).index),
        old(presentation).selected_round is None ==> *final(presentation) == *old(presentation),
        final(presentation).selected_round matches Some(round) ==> {
            &&& old(presentation).selected_round == Some(round)
            &&& exists|k: int|
                0 <= k < index@.len() && (#[trigger] index@[k]).id@ == round.record_id@
            &&& final(presentation).control == old(presentation).control
        },
        old(presentation).selected_round is Some && final(presentation).selected_round is None
            ==> moved(
            old(presentation).control.main_revision,
            final(presentation).control.main_revision,
        ),
        final(presentation).paused == old(presentation).paused,
{
}

/// A page that is to be drawn again gets the next marker, and keeps the rest.
pub proof fn pages_are_drawn_again_by_their_marker(presentation: &mut PresentationState, done: ())
    requires
        call_ensures(PresentationState::bump_main_dps_revision, (presentation,), done),
    ensures
        moved(
            old(presentation).control.main_revision,
            final(presentation).control.main_revision,
        ),
        final(presentation).selected_round == old(presentation).selected_round,
        final(presentation).paused == old(presentation).paused,
        final(presentation).control.processing_paused
            == old(presentation).control.processing_paused,
        final(presentation).control.selected_outgoing_revision
            == old(presentation).control.selected_outgoing_revision,
{
}

/// The settings that were tried: as before but for the introduction, which is
/// done or not, and taken where the change was saved.
pub open spec fn tries_introduction<Z: Fn(UiConfig) -> UiConfig>(
    sanitize: Z,
    before: UiConfig,
    done: bool,
    tried: UiConfig,
    result: Result<bool, String>,
    after: UiConfig,
) -> bool {
    &&& tried.plain.onboarding_done == done
    &&& tried.plain.capture == before.plain.capture
    &&& tried.plain.hud_window_position == before.plain.hud_window_position
    &&& tried.plain.interface == before.plain.interface
    &&& tried.plain.on_top == before.plain.on_top
    &&& tried.plain.hit_detail_columns == before.plain.hit_detail_columns
    &&& tried.hud.width == before.hud.width
    &&& match result {
        Ok(true) => call_ensures(sanitize, (tried,), after),
        _ => after == before,
    }
}

/// The introduction stands at the step that was asked for, at most the last;
/// the settings say whether it is done, and nothing else of them is touched
/// before they are checked. The session stays.
pub proof fn the_introduction_stands_where_it_was_put<
    Z: Fn(UiConfig) -> UiConfig,
    V: Fn(&UiConfig) -> Result<(), String>,
>(
    app: &mut AppState,
    step: usize,
    done: bool,
    sanitize: &Z,
    save: &V,
    result: Result<bool, String>,
)
    requires
        call_ensures(
            AppState::set_onboarding_progress::<Z, V>,
            (app, step, done, sanitize, save),
            result,
        ),
    ensures
        step < 3 ==> final(app).onboarding_step == step,
        step >= 3 ==> final(app).onboarding_step == 3,
        moved(
            old(app).presentation.control.main_revision,
            final(app).presentation.control.main_revision,
        ),
        final(app).live == old(app).live,
        exists|tried: UiConfig| #[trigger]
            tries_introduction(
                *sanitize,
                old(app).settings.config,
                done,
                tried,
                result,
                final(app).settings.config,
            ),
        result == Ok::<bool, String>(true) ==> moved(
            old(app).settings.settings_revision,
            final(app).settings.settings_revision,
        ),
        result != Ok::<bool, String>(true) ==> final(app).settings == old(app).settings,
{
    let tried = choose|tried: UiConfig|
        {
            &&& #[trigger] copies(tried, introduced(old(app).settings.config, done))
            &&& old(app).settings.changes(
                *sanitize,
                *save,
                tried,
                true,
                final(app).settings,
                result,
            )
        };
    changes_settle(
        *sanitize,
        *save,
        old(app).settings,
        tried,
        true,
        final(app).settings,
        result,
    );
    assert(tries_introduction(
        *sanitize,
        old(app).settings.config,
        done,
        tried,
        result,
        final(app).settings.config,
    ));
}

/// A HUD shows what another shows.
pub open spec fn shows_as(hud: HudConfig, preset: HudConfig) -> bool {
    &&& hud.show_title == preset.show_title
    &&& hud.show_team_dps == preset.show_team_dps
    &&& hud.show_duration == preset.show_duration
    &&& hud.show_total_damage == preset.show_total_damage
    &&& hud.show_character_rows == preset.show_character_rows
    &&& hud.show_damage_taken == preset.show_damage_taken
    &&& hud.show_abyss_half == preset.show_abyss_half
    &&& hud.show_passthrough_state == preset.show_passthrough_state
    &&& hud.show_mini_timeline == preset.show_mini_timeline
}

/// The introduction is over once its last choice was saved: the settings say
/// so, with the HUD that was chosen at the width it had. Where saving fails
/// nothing changes.
pub proof fn the_introduction_ends_with_the_hud_that_was_chosen<
    Z: Fn(UiConfig) -> UiConfig,
    V: Fn(&UiConfig) -> Result<(), String>,
>(
    app: &mut AppState,
    preset: &HudConfig,
    sanitize: &Z,
    save: &V,
    result: Result<bool, String>,
)
    requires
        call_ensures(
            AppState::finish_onboarding::<Z, V>,
            (app, preset, sanitize, save),
            result,
        ),
    ensures
        result is Err ==> *final(app) == *old(app),
        result is Ok ==> final(app).onboarding_step == 3 && final(app).live == old(app).live,
        exists|tried: UiConfig| #[trigger]
            tries_introduction(
                *sanitize,
                old(app).settings.config,
                true,
                tried,
                result,
                final(app).settings.config,
            ) && shows_as(tried.hud, *preset),
        result == Ok::<bool, String>(false) ==> final(app).settings == old(app).settings,
{
    let tried = choose|tried: UiConfig|
        {
            &&& #[trigger] copies(
                tried,
                equipped(introduced(old(app).settings.config, true), *preset),
            )
            &&& old(app).settings.changes(
                *sanitize,
                *save,
                tried,
                true,
                final(app).settings,
                result,
            )
        };
    changes_settle(
        *sanitize,
        *save,
        old(app).settings,
        tried,
        true,
        final(app).settings,
        result,
    );
    assert(tries_introduction(
        *sanitize,
        old(app).settings.config,
        true,
        tried,
        result,
        final(app).settings.config,
    ));
}

/// Teams are exported of what is presented, as the settings say; with no round
/// selected and nothing paused that is the live session. The teams at hand are
/// handed along line by line.
pub proof fn teams_are_exported_as_presented<
    T: Clone,
    X: Fn(&CombatState, bool, bool, Option<&T>, Option<&T>) -> Option<TeamExport<T>>,
>(
    app: &mut AppState,
    upper: T,
    lower: T,
    teams: &PredictionTeams<T>,
    export: &X,
    exported: Option<TeamExport<T>>,
)
    requires
        teams.upper == Some(upper),
        teams.lower == Some(lower),
        old(app).presentation.selected_round is None,
        !old(app).presentation.control.processing_paused,
        call_ensures(AppState::export_team_data::<T, X>, (app, teams, export), exported),
    ensures
        *final(app) == *old(app),
        call_ensures(
            *export,
            (
                &old(app).live.state,
                old(app).settings.config.plain.capture.dps_time_mode is TimeStopAdjusted,
                old(app).settings.config.plain.capture.separate_reaction_damage,
                Some(&upper),
                Some(&lower),
            ),
            exported,
        ),
{
}

/// What an export comes to for one line.
pub open spec fn picks_line<
    T,
    X: Fn(&CombatState, bool, bool, Option<&T>, Option<&T>) -> Option<TeamExport<T>>,
>(export: X, app: AppState, upper: bool, exported: Option<TeamExport<T>>, team: Option<T>) -> bool {
    &&& call_ensures(
        export,
        (
            &app.live.state,
            app.settings.config.plain.capture.dps_time_mode is TimeStopAdjusted,
            app.settings.config.plain.capture.separate_reaction_damage,
            None,
            None,
        ),
        exported,
    )
    &&& exported is None ==> team is None
    &&& exported matches Some(teams) ==> {
        &&& !app.live.state.battle.abyss.active ==> team == teams.single
        &&& app.live.state.battle.abyss.active && upper ==> team == teams.upper
        &&& app.live.state.battle.abyss.active && !upper ==> team == teams.lower
    }
}

/// The current team of a line is that of the challenge, or the one team where
/// there is no challenge.
pub proof fn the_current_team_is_that_of_the_line<
    T: Clone,
    X: Fn(&CombatState, bool, bool, Option<&T>, Option<&T>) -> Option<TeamExport<T>>,
>(app: &mut AppState, upper: bool, export: &X, team: Option<T>)
    requires
        old(app).presentation.selected_round is None,
        !old(app).presentation.control.processing_paused,
        call_ensures(AppState::current_abyss_team::<T, X>, (app, upper, export), team),
    ensures
        *final(app) == *old(app),
        exists|exported: Option<TeamExport<T>>| #[trigger]
            picks_line(*export, *old(app), upper, exported, team),
{
    let exported = choose|exported: Option<TeamExport<T>>| #[trigger]
        exports_presented(*export, *old(app), None, None, exported) && team
            == crate::operations::offered(
            exported,
            old(app).presents().battle.abyss.active,
            upper,
        );
    assert(picks_line(*export, *old(app), upper, exported, team));
}

/// The program is busy while a capture starts, runs or stops, or a replay runs.
pub proof fn captures_and_replays_keep_the_program_busy(app: &AppState, busy: bool)
    requires
        call_ensures(AppState::is_busy, (app,), busy),
    ensures
        app.live.control.replay_running ==> busy,
        app.live.control.status.phase is Starting || app.live.control.status.phase is Running
            || app.live.control.status.phase is Stopping ==> busy,
        app.live.control.status.phase is Idle && !app.live.control.replay_running ==> !busy,
{
}

/// Issues go by their names, and a failed start by its reason.
pub proof fn issues_go_by_their_names(
    warning: &'static str,
    error: &'static str,
    npcap: &'static str,
    game: &'static str,
    device: &'static str,
    probe: &'static str,
)
    requires
        call_ensures(LiveCaptureIssue::name, (LiveCaptureIssue::RuntimeWarning,), warning),
        call_ensures(LiveCaptureIssue::name, (LiveCaptureIssue::RuntimeError,), error),
        call_ensures(
            LiveCaptureIssue::name,
            (LiveCaptureIssue::Start(CoreErrorCode::NpcapNotFound),),
            npcap,
        ),
        call_ensures(
            LiveCaptureIssue::name,
            (LiveCaptureIssue::Start(CoreErrorCode::GameProcessNotFound),),
            game,
        ),
        call_ensures(
            LiveCaptureIssue::name,
            (LiveCaptureIssue::Start(CoreErrorCode::CaptureDeviceNotFound),),
            device,
        ),
        call_ensures(
            LiveCaptureIssue::name,
            (LiveCaptureIssue::Start(CoreErrorCode::SystemProbeFailed),),
            probe,
        ),
    ensures
        warning@ == "RuntimeWarning"@,
        error@ == "RuntimeError"@,
        npcap@ == "Start(NpcapNotFound)"@,
        game@ == "Start(GameProcessNotFound)"@,
        device@ == "Start(CaptureDeviceNotFound)"@,
        probe@ == "Start(SystemProbeFailed)"@,
{
}

/// A reset says whether it can be taken back, and a stop that takes too long is
/// a failure of the probe.
pub proof fn resets_say_whether_they_can_be_undone(
    undoable: &'static str,
    plain: &'static str,
    late: CoreError,
)
    requires
        call_ensures(reset_notice, (true,), undoable),
        call_ensures(reset_notice, (false,), plain),
        call_ensures(stop_timed_out, (), late),
    ensures
        plain@ == "Stats reset"@,
        undoable@ == "Session reset · use Undo within 5 seconds"@,
        late.code is SystemProbeFailed,
        late.message@ == "capture or replay did not stop before the replacement timeout"@,
{
}

/// Readers of a service are handed its session, its source and its markers as
/// they are.
pub proof fn readers_are_handed_the_session(
    service: &LiveCaptureService,
    replay: bool,
    source: CaptureQualitySource,
    revision: u64,
    outgoing: u64,
    dropped: u64,
)
    requires
        call_ensures(LiveCaptureService::replay_running, (service,), replay),
        call_ensures(LiveCaptureService::quality_source, (service,), source),
        call_ensures(LiveCaptureService::revision, (service,), revision),
        call_ensures(LiveCaptureService::outgoing_hit_revision, (service,), outgoing),
        call_ensures(LiveCaptureService::dropped_history_archives, (service,), dropped),
    ensures
        replay == service.control.replay_running,
        source == service.control.quality_source,
        revision == service.control.revision,
        outgoing == service.control.outgoing_hit_revision,
        dropped == service.control.dropped_history_archives,
{
}

} // verus!
