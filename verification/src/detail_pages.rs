//! The detail pages of the desktop program: drawn once, and then kept until
//! something on them can have changed.
use std::collections::HashMap;

use vstd::prelude::*;

use crate::desktop::AppState;
use crate::detail::{
    details, DetailView, HitDirectionSummary, MainDpsDetailActions, MainDpsDetailSnapshot,
};
use crate::detail_cache::{
    copy_request, kept_for, kept_pages_are_found, newest, others, MainDpsDetailCache,
    MainDpsDetailCacheEntry, MainDpsDetailCacheKey,
};
use crate::double::{lawful, Arith, Double};
use crate::hud::{half_shown, shown_half};
use crate::model::PartyCombatState;
use crate::names::DisplayNames;
use crate::settings::{DpsTimeMode, MainDpsDetailKind};

verus! {

/// The pages that are kept.
#[derive(Debug)]
pub struct DetailPages {
    pub cache: MainDpsDetailCache<MainDpsDetailSnapshot>,
}

/// The key of a page of the program.
pub open spec fn page_key(
    app: AppState,
    kind: MainDpsDetailKind,
    offset: usize,
    limit: usize,
) -> MainDpsDetailCacheKey {
    MainDpsDetailCacheKey {
        revision: app.presentation.main_markers(
            app.live.control.revision,
            app.live.control.packet_revision,
            app.settings.presentation_revision,
            app.history.revision,
        ),
        kind,
        request: app.presentation.detail_request(kind),
        offset,
        limit,
    }
}

/// What a page of the program is drawn with.
pub open spec fn page_view<'a>(
    app: &'a AppState,
    generation: u64,
    names: &'a DisplayNames,
    effect_catalog: &'a HashMap<u64, String>,
    view: DetailView<'a>,
) -> bool {
    let plain = app.settings.config.plain;
    let free = !app.live.control.status.phase.active() && !app.live.control.replay_running;
    view == (DetailView {
        generation,
        characters: &app.live.resources.characters,
        names,
        language: plain.interface.language,
        subtract_time_stop: plain.capture.dps_time_mode == DpsTimeMode::TimeStopAdjusted,
        separate_reaction_damage: plain.capture.separate_reaction_damage,
        columns: plain.hit_detail_columns,
        actions: MainDpsDetailActions { can_start_capture: free, can_import_replay: free },
        effect_catalog,
    })
}

/// `page` is what a page of the program says.
pub open spec fn shows_page<
    F: Fn(Arith) -> Double,
    A: Fn(&PartyCombatState, bool) -> Double,
    U: Fn(HitDirectionSummary) -> Double,
>(
    ops: F,
    absent_duration: A,
    unknown_share: U,
    app: AppState,
    kind: MainDpsDetailKind,
    offset: usize,
    limit: usize,
    generation: u64,
    names: DisplayNames,
    effect_catalog: HashMap<u64, String>,
    page: MainDpsDetailSnapshot,
) -> bool {
    let combat = app.presentation.presents(app.live.state);
    exists|view: DetailView|
        {
            &&& #[trigger] page_view(&app, generation, &names, &effect_catalog, view)
            &&& details(
                ops,
                absent_duration,
                unknown_share,
                combat,
                half_shown(combat.battle.abyss, app.presentation.control.selected_abyss_half),
                app.presentation.detail_request(kind),
                view,
                offset,
                limit,
                page,
            )
        }
}

fn draw_page<
    F: Fn(Arith) -> Double,
    A: Fn(&PartyCombatState, bool) -> Double,
    U: Fn(HitDirectionSummary) -> Double,
>(
    app: &AppState,
    kind: MainDpsDetailKind,
    offset: usize,
    limit: usize,
    generation: u64,
    names: &DisplayNames,
    effect_catalog: &HashMap<u64, String>,
    absent_duration: &A,
    unknown_share: &U,
    ops: &F,
) -> (page: MainDpsDetailSnapshot)
    requires
        lawful(*ops),
        forall|party: PartyCombatState, subtract_time_stop: bool| #[trigger]
            call_requires(*absent_duration, (&party, subtract_time_stop)),
        forall|value: HitDirectionSummary| #[trigger] call_requires(*unknown_share, (value,)),
    ensures
        shows_page(
            *ops,
            *absent_duration,
            *unknown_share,
            *app,
            kind,
            offset,
            limit,
            generation,
            *names,
            *effect_catalog,
            page,
        ),
{
    let combat = app.presentation.presented(&app.live.state);
    let half = shown_half(&combat.battle.abyss, app.presentation.control.selected_abyss_half);
    let config = &app.settings.config;
    let view = DetailView {
        generation,
        characters: &app.live.resources.characters,
        names,
        language: config.plain.interface.language,
        subtract_time_stop: config.plain.capture.dps_time_mode.subtracts_time_stop(),
        separate_reaction_damage: config.plain.capture.separate_reaction_damage,
        columns: config.plain.hit_detail_columns,
        actions: MainDpsDetailActions::from_state(
            app.live.status().phase,
            app.live.replay_running(),
        ),
        effect_catalog,
    };
    let request = app.presentation.main_dps_detail_request(kind);
    assert(page_view(app, generation, names, effect_catalog, view));
    MainDpsDetailSnapshot::from_state(
        combat,
        half,
        request,
        &view,
        offset,
        limit,
        absent_duration,
        unknown_share,
        ops,
    )
}

impl DetailPages {
    pub fn new() -> (result: Self)
        ensures
            result.cache.entries@.len() == 0,
    {
        DetailPages { cache: MainDpsDetailCache::new() }
    }

    /// The page for the current request. One that is kept is given again; any
    /// other is drawn, numbered in turn with the HUD, and kept.
    pub fn page<
        F: Fn(Arith) -> Double,
        A: Fn(&PartyCombatState, bool) -> Double,
        U: Fn(HitDirectionSummary) -> Double,
    >(
        &mut self,
        app: &mut AppState,
        kind: MainDpsDetailKind,
        offset: usize,
        limit: usize,
        names: &DisplayNames,
        effect_catalog: &HashMap<u64, String>,
        absent_duration: &A,
        unknown_share: &U,
        ops: &F,
    ) -> (page: &MainDpsDetailSnapshot)
        requires
            lawful(*ops),
            forall|party: PartyCombatState, subtract_time_stop: bool| #[trigger]
                call_requires(*absent_duration, (&party, subtract_time_stop)),
            forall|value: HitDirectionSummary| #[trigger] call_requires(*unknown_share, (value,)),
            old(app).sequence < u64::MAX,
        ensures
            ({
                let shown = AppState {
                    presentation: old(app).presentation.refreshed(
                        old(app).live.control.outgoing_hit_revision,
                    ),
                    ..*old(app)
                };
                let key = page_key(shown, kind, offset, limit);
                match kept_for(old(self).cache.entries@, key) {
                    Some(kept) => {
                        &&& *page == kept
                        &&& *final(self) == *old(self)
                        &&& *final(app) == shown
                    },
                    None => {
                        &&& *final(app) == (AppState {
                            sequence: (old(app).sequence + 1) as u64,
                            ..shown
                        })
                        &&& shows_page(
                            *ops,
                            *absent_duration,
                            *unknown_share,
                            *final(app),
                            kind,
                            offset,
                            limit,
                            final(app).sequence,
                            *names,
                            *effect_catalog,
                            *page,
                        )
                        &&& final(self).cache.entries@ == newest(
                            others(old(self).cache.entries@, key).push(
                                MainDpsDetailCacheEntry { key, snapshot: *page },
                            ),
                        )
                    },
                }
            }),
    {
        let outgoing: u64 = app.live.outgoing_hit_revision();
        let _ = app.presentation.main_selected_round_id(outgoing);
        let key = MainDpsDetailCacheKey {
            revision: app.presentation.main_dps_stream_revision(
                app.live.revision(),
                app.live.packet_stream_revision().generation,
                app.settings.presentation_revision,
                app.history.revision,
            ),
            kind,
            request: copy_request(app.presentation.main_dps_detail_request(kind)),
            offset,
            limit,
        };
        if self.cache.get(&key).is_none() {
            let sequence: u64 = app.next_sequence();
            let drawn = draw_page(
                app,
                kind,
                offset,
                limit,
                sequence,
                names,
                effect_catalog,
                absent_duration,
                unknown_share,
                ops,
            );
            proof {
                kept_pages_are_found(self.cache.entries@, key, drawn);
            }
            self.cache.store(key.copied(), drawn);
        }
        self.cache.get(&key).unwrap()
    }
}

} // verus!
