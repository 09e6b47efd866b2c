//! What holds of updates, windows, streams and pages that are kept.
use std::collections::HashMap;

use vstd::prelude::*;

use crate::desktop::AppState;
use crate::detail_cache::{
    copy_request, kept_pages_are_found, other_pages_stay, others, MainDpsDetailCache,
    MainDpsDetailCacheEntry, MainDpsDetailCacheKey,
};
use crate::detail::{
    details, DetailView, HitDirectionSummary, MainDpsDetailRequest, MainDpsDetailSnapshot,
};
use crate::detail_pages::{page_view, DetailPages};
use crate::double::{answer, Arith, Double};
use crate::lifecycle_laws::{moved, under_way};
use crate::hud::half_shown;
use crate::live_capture::LiveCapturePhase;
use crate::model::PartyCombatState;
use crate::names::DisplayNames;
use crate::settings::MainDpsDetailKind;
use crate::single::Pair;
use crate::streams::{map_has_the_entries, StreamRegistry};
use crate::text::{decimal, held};
use crate::updates::{
    announced, announced_updates_can_be_downloaded, first_of, install_blocked_message_key,
    update_is_busy, without, AvailableComponentUpdate, PreparedUpdate, UpdateActionError,
    UpdateComponent, UpdateRuntimeState, UpdateStatus,
};
use crate::windows::{
    first_seen, island_physical_position, island_physical_size, may_set_passthrough,
    migrate_legacy_default_size, native_window_event_may_reset_opacity, notice_monitor,
    notice_target, restorable_main_window_position, restored_geometry, should_persist_geometry,
    should_reveal_after_page_load, validate_window, MainWindowPlace, MonitorArea,
    NativeWindowEvent, NoticeTarget, PageLoadEvent, WindowSight,
};

verus! {

/// A step of an update is under way.
pub open spec fn step_under_way(status: UpdateStatus) -> bool {
    status is Checking || status is Downloading || status is Installing || status is Restarting
}

/// Only a step that is under way keeps others from beginning.
pub proof fn steps_are_under_way(status: UpdateStatus, busy: bool)
    requires
        call_ensures(update_is_busy, (status,), busy),
    ensures
        busy <==> step_under_way(status),
{
}

/// Every status has a name of its own.
pub proof fn update_statuses_have_names_of_their_own(
    left: UpdateStatus,
    right: UpdateStatus,
    ours: &'static str,
    theirs: &'static str,
)
    requires
        call_ensures(UpdateStatus::text, (left,), ours),
        call_ensures(UpdateStatus::text, (right,), theirs),
    ensures
        ours@ == theirs@ <==> left == right,
        left is Idle ==> ours@ == "idle"@,
        left is Checking ==> ours@ == "checking"@,
        left is UpToDate ==> ours@ == "up-to-date"@,
        left is Available ==> ours@ == "available"@,
        left is NotConfigured ==> ours@ == "not-configured"@,
        left is Downloading ==> ours@ == "downloading"@,
        left is Ready ==> ours@ == "ready"@,
        left is Installing ==> ours@ == "installing"@,
        left is Restarting ==> ours@ == "restarting"@,
        left is Error ==> ours@ == "error"@,
{
    reveal_strlit("idle");
    reveal_strlit("checking");
    reveal_strlit("up-to-date");
    reveal_strlit("available");
    reveal_strlit("not-configured");
    reveal_strlit("downloading");
    reveal_strlit("ready");
    reveal_strlit("installing");
    reveal_strlit("restarting");
    reveal_strlit("error");
    assert("idle"@[1] == 'd');
    assert("checking"@[0] == 'c');
    assert("up-to-date"@[0] == 'u');
    assert("available"@[0] == 'a');
    assert("not-configured"@[0] == 'n');
    assert("downloading"@[0] == 'd');
    assert("ready"@[2] == 'a');
    assert("installing"@[1] == 'n');
    assert("restarting"@[2] == 's');
    assert("error"@[0] == 'e');
    assert("idle"@[0] == 'i' && "installing"@[0] == 'i');
    assert("ready"@[0] == 'r' && "restarting"@[0] == 'r');
}

/// A check begins where nothing is under way and nothing waits to be
/// installed; what it finds is what is listed, and the application is
/// announced before anything else.
pub proof fn checks_list_what_they_find(
    state: &mut UpdateRuntimeState,
    marker: &mut u64,
    begun: Result<(), UpdateActionError>,
    finishing: &mut UpdateRuntimeState,
    found: Vec<AvailableComponentUpdate>,
    later: &mut u64,
)
    requires
        call_ensures(UpdateRuntimeState::begin_update_check, (state, marker), begun),
        call_ensures(
            UpdateRuntimeState::finish_update_check,
            (finishing, found, later),
            (),
        ),
    ensures
        begun is Ok <==> !step_under_way(old(state).progress.status) && old(state).prepared is None,
        begun is Err ==> begun->Err_0 is Busy && *final(state) == *old(state) && *final(marker)
            == *old(marker),
        begun is Ok ==> final(state).progress.status is Checking && final(state).available == old(state).available && moved(*old(marker), *final(marker)),
        final(finishing).available@ == found@,
        final(finishing).prepared is None,
        final(finishing).progress.active_component is None,
        final(finishing).progress.status is UpToDate <==> found@.len() == 0,
        final(finishing).progress.status is Available <==> found@.len() > 0,
        found@.len() > 0 ==> final(finishing).message_arguments@.len() == 1 && exists|at: int|
            {
                &&& 0 <= at < found@.len()
                &&& (#[trigger] found@[at]).version == final(finishing).message_arguments@[0]
                &&& found@[at].component is ModsPlugin ==> forall|other: int|
                    0 <= other < found@.len() ==> (#[trigger] found@[other]).component
                        is ModsPlugin
            },
        moved(*old(later), *final(later)),
{
    announced_updates_can_be_downloaded(found@, UpdateComponent::App);
    if found@.len() > 0 {
        let at = announced(found@);
        first_is_first(found@, UpdateComponent::App);
        let shown = found@[at];
        assert(final(finishing).message_arguments@[0] == shown.version);
        if shown.component is ModsPlugin {
            assert forall|other: int| 0 <= other < found@.len() implies (
            #[trigger] found@[other]).component is ModsPlugin by {
                if found@[other].component is App {
                    assert(first_of(found@, UpdateComponent::App) is Some);
                }
            }
        }
    }
}

/// What the first update of a component is.
proof fn first_is_first(available: Seq<AvailableComponentUpdate>, component: UpdateComponent)
    ensures
        match first_of(available, component) {
            Some(at) => {
                &&& 0 <= at < available.len()
                &&& available[at].component == component
                &&& forall|earlier: int|
                    0 <= earlier < at ==> (#[trigger] available[earlier]).component != component
            },
            None => forall|at: int|
                0 <= at < available.len() ==> (#[trigger] available[at]).component != component,
        },
    decreases available.len(),
{
    if available.len() > 0 {
        first_is_first(available.drop_last(), component);
        assert forall|at: int| 0 <= at < available.len() - 1 implies available.drop_last()[at]
            == #[trigger] available[at] by {}
    }
}

/// A failed check lists nothing. Only a missing channel is no error.
pub proof fn failed_checks_list_nothing(
    state: &mut UpdateRuntimeState,
    message: &'static str,
    marker: &mut u64,
)
    requires
        call_ensures(UpdateRuntimeState::fail_update_check, (state, message, marker), ()),
    ensures
        final(state).available@.len() == 0,
        final(state).prepared is None,
        final(state).message_key == message,
        final(state).progress.status is NotConfigured <==> message@
            == "The official update channel is not configured in this build"@,
        final(state).progress.status is Error <==> message@
            != "The official update channel is not configured in this build"@,
        moved(*old(marker), *final(marker)),
{
}

/// What is downloaded is the first listed update of the component that was
/// asked for, of the size that was listed; nothing is while another step is
/// under way or an update waits to be installed.
pub proof fn downloads_are_of_listed_updates(
    state: &mut UpdateRuntimeState,
    component: UpdateComponent,
    marker: &mut u64,
    result: Result<AvailableComponentUpdate, UpdateActionError>,
)
    requires
        call_ensures(
            UpdateRuntimeState::begin_update_download,
            (state, component, marker),
            result,
        ),
    ensures
        ({
            let free = !step_under_way(old(state).progress.status) && old(state).prepared is None;
            let listed = old(state).available@;
            &&& !free ==> result is Err && result->Err_0 is Busy
            &&& result is Ok <==> free && exists|at: int|
                0 <= at < listed.len() && (#[trigger] listed[at]).component == component
            &&& free && result is Err ==> result->Err_0 is Unavailable
            &&& result matches Ok(selected) ==> {
                &&& selected.component == component
                &&& exists|at: int|
                    {
                        &&& 0 <= at < listed.len()
                        &&& #[trigger] listed[at] == selected
                        &&& forall|earlier: int|
                            0 <= earlier < at ==> (#[trigger] listed[earlier]).component
                                != component
                    }
                &&& final(state).progress.status is Downloading
                &&& final(state).progress.active_component == Some(component)
                &&& final(state).progress.downloaded_bytes == 0
                &&& final(state).progress.total_bytes == selected.artifact_size
                &&& moved(*old(marker), *final(marker))
            }
            &&& result is Err ==> *final(state) == *old(state) && *final(marker) == *old(marker)
        }),
        final(state).available == old(state).available,
        final(state).prepared == old(state).prepared,
{
    first_is_first(old(state).available@, component);
    if let Some(at) = first_of(old(state).available@, component) {
        let listed = old(state).available@[at];
    }
}

/// Progress counts for the download under way alone, and never past its end.
pub proof fn progress_counts_for_its_download(
    state: &mut UpdateRuntimeState,
    component: UpdateComponent,
    downloaded: u64,
    total: u64,
    marker: &mut u64,
)
    requires
        call_ensures(
            UpdateRuntimeState::update_download_progress,
            (state, component, downloaded, total, marker),
            (),
        ),
    ensures
        ({
            let counts = old(state).progress.status is Downloading && old(state).progress.active_component == Some(component);
            &&& !counts ==> *final(state) == *old(state) && *final(marker) == *old(marker)
            &&& counts ==> {
                &&& final(state).progress.total_bytes == total
                &&& final(state).progress.downloaded_bytes <= total
                &&& downloaded <= total ==> final(state).progress.downloaded_bytes == downloaded
                &&& downloaded > total ==> final(state).progress.downloaded_bytes == total
                &&& final(state).progress.status is Downloading
                &&& moved(*old(marker), *final(marker))
            }
        }),
        final(state).available == old(state).available,
        final(state).prepared == old(state).prepared,
{
}

/// A finished download waits to be installed, named by its version; a step that
/// failed keeps what is listed and what waits.
pub proof fn finished_downloads_wait_to_be_installed(
    state: &mut UpdateRuntimeState,
    prepared: PreparedUpdate,
    marker: &mut u64,
    downloading: &mut UpdateRuntimeState,
    first: &mut u64,
    installing: &mut UpdateRuntimeState,
    second: &mut u64,
)
    requires
        call_ensures(UpdateRuntimeState::finish_update_download, (state, prepared, marker), ()),
        call_ensures(UpdateRuntimeState::fail_update_download, (downloading, first), ()),
        call_ensures(UpdateRuntimeState::fail_update_install, (installing, second), ()),
    ensures
        final(state).prepared == Some(prepared),
        final(state).progress.status is Ready,
        final(state).progress.active_component is None,
        final(state).progress.downloaded_bytes == old(state).progress.total_bytes,
        final(state).progress.total_bytes == old(state).progress.total_bytes,
        final(state).message_arguments@.len() == 1,
        final(state).message_arguments@[0] == prepared.version,
        final(state).available == old(state).available,
        moved(*old(marker), *final(marker)),
        final(downloading).progress.status is Error,
        final(downloading).available == old(downloading).available,
        final(downloading).prepared == old(downloading).prepared,
        final(installing).progress.status is Error,
        final(installing).available == old(installing).available,
        final(installing).prepared == old(installing).prepared,
        moved(*old(first), *final(first)),
        moved(*old(second), *final(second)),
{
}

/// What is installed is what waits: the application by a restart, the mod
/// loader in place. A mod loader that was installed is no longer listed.
pub proof fn what_waits_is_installed(
    state: &mut UpdateRuntimeState,
    marker: &mut u64,
    result: Result<PreparedUpdate, UpdateActionError>,
    finishing: &mut UpdateRuntimeState,
    version: String,
    later: &mut u64,
)
    requires
        call_ensures(UpdateRuntimeState::begin_update_install, (state, marker), result),
        call_ensures(
            UpdateRuntimeState::finish_plugin_update_install,
            (finishing, version, later),
            (),
        ),
    ensures
        step_under_way(old(state).progress.status) ==> result is Err && result->Err_0 is Busy,
        !step_under_way(old(state).progress.status) && old(state).prepared is None ==> result is Err
            && result->Err_0 is NotPrepared,
        result is Err ==> *final(state) == *old(state) && *final(marker) == *old(marker),
        result is Ok <==> !step_under_way(old(state).progress.status) && old(state).prepared
            is Some,
        result matches Ok(prepared) ==> {
            &&& old(state).prepared == Some(prepared)
            &&& final(state).progress.active_component == Some(prepared.component)
            &&& prepared.component is App ==> final(state).progress.status is Restarting
            &&& prepared.component is ModsPlugin ==> final(state).progress.status is Installing
            &&& moved(*old(marker), *final(marker))
        },
        final(state).prepared == old(state).prepared,
        final(finishing).prepared is None,
        forall|at: int|
            0 <= at < final(finishing).available@.len() ==> (#[trigger] final(finishing).available@[at]).component is App,
        forall|at: int|
            0 <= at < old(finishing).available@.len() && (#[trigger] old(finishing).available@[at]).component is App ==> final(finishing).available@.contains(
                old(finishing).available@[at],
            ),
        final(finishing).progress.status is UpToDate <==> final(finishing).available@.len() == 0,
        final(finishing).message_arguments@.len() == 1,
        final(finishing).message_arguments@[0] == version,
        moved(*old(later), *final(later)),
{
    broadcast use vstd::seq_lib::group_filter_ensures;

    let listed = old(finishing).available@;
    let wanted = |item: AvailableComponentUpdate| item.component != UpdateComponent::ModsPlugin;
    assert(final(finishing).available@ == listed.filter(wanted));
    assert forall|at: int| 0 <= at < final(finishing).available@.len() implies (#[trigger] final(finishing).available@[at]).component is App by {
        assert(wanted(final(finishing).available@[at]));
    }
    assert forall|at: int| 0 <= at < listed.len() && (#[trigger] listed[at]).component
        is App implies final(finishing).available@.contains(listed[at]) by {
        assert(wanted(listed[at]));
    }
}

/// The application is not installed while something is captured, the mod
/// loader not while the game runs or may run; nothing else is in the way.
pub proof fn installs_wait_for_what_they_replace(
    phase: LiveCapturePhase,
    game: Result<bool, ()>,
    app: Option<&'static str>,
    plugin: Option<&'static str>,
    nothing: Option<&'static str>,
)
    requires
        call_ensures(
            install_blocked_message_key,
            (Some(UpdateComponent::App), phase, game),
            app,
        ),
        call_ensures(
            install_blocked_message_key,
            (Some(UpdateComponent::ModsPlugin), phase, game),
            plugin,
        ),
        call_ensures(install_blocked_message_key, (None::<UpdateComponent>, phase, game), nothing),
    ensures
        app is Some <==> under_way(phase),
        plugin is None <==> game == Ok::<bool, ()>(false),
        game == Ok::<bool, ()>(true) ==> plugin->0@
            == "Close HTGame.exe before installing the Mod loader update"@,
        game is Err ==> plugin->0@ == "Game process state could not be checked."@,
        nothing is None,
{
}

/// Only the main window shows itself, and only once its page is there.
pub proof fn only_the_main_window_shows_itself(
    label: &str,
    started: bool,
    finished: bool,
    expected: &str,
    valid: bool,
)
    requires
        call_ensures(should_reveal_after_page_load, (label, PageLoadEvent::Started), started),
        call_ensures(should_reveal_after_page_load, (label, PageLoadEvent::Finished), finished),
        call_ensures(validate_window, (label, expected), valid),
    ensures
        !started,
        finished <==> label@ == "main-dps"@,
        valid <==> label@ == expected@,
{
}

/// Which events can lose the opacity, and when a geometry is kept.
pub proof fn windows_keep_what_they_should(
    event: NativeWindowEvent,
    resets: bool,
    minimized: bool,
    maximized: bool,
    kept: bool,
    enabled: bool,
    ready: bool,
    may: bool,
)
    requires
        call_ensures(native_window_event_may_reset_opacity, (event,), resets),
        call_ensures(should_persist_geometry, (minimized, maximized), kept),
        call_ensures(may_set_passthrough, (enabled, ready), may),
    ensures
        event is Moved || event is Resized || event is ScaleFactorChanged ==> resets,
        event matches NativeWindowEvent::Focused(gained) ==> resets == gained,
        event is CloseRequested || event is Destroyed || event is Other ==> !resets,
        kept <==> !minimized && !maximized,
        !may <==> enabled && !ready,
{
}

/// A window goes back to where it was unless the position is no number or that
/// of a minimized window; a size is never smaller than can be used, and only
/// the old default is replaced.
pub proof fn windows_go_back_to_where_they_were(
    size: Pair,
    position: Pair,
    place: MainWindowPlace,
    without_size: MainWindowPlace,
    restorable: Option<Pair>,
    migrated: Pair,
)
    requires
        call_ensures(restored_geometry, (Some(size), Some(position)), place),
        call_ensures(restored_geometry, (None::<Pair>, None::<Pair>), without_size),
        call_ensures(restorable_main_window_position, (Some(position),), restorable),
        call_ensures(migrate_legacy_default_size, (size,), migrated),
    ensures
        place.position == restorable,
        restorable matches Some(kept) ==> kept == position,
        !position.first.finite() || !position.second.finite() ==> restorable is None,
        position.first.finite() && position.second.finite() && (position.first.rank() >= 0
            || position.second.rank() >= 0) ==> restorable is Some,
        without_size.size is None,
        without_size.position is None,
        place.size is Some,
        migrated == size || migrated.first == size.first,
        migrated != size ==> size.first.bits == 0x4427_8000 && size.second.bits == 0x442d_0000
            && migrated.second.bits == 0x440c_0000,
        size.first.bits == 0x4427_8000 && size.second.bits == 0x442d_0000 ==> migrated != size,
        !place.size->0.first.nan() && !place.size->0.second.nan() ==> place.size->0.first.rank()
            >= 0x43d2_0000 && place.size->0.second.rank() >= 0x43b4_0000,
        migrated.first.finite() && migrated.first.rank() >= 0x43d2_0000 ==> place.size->0.first
            == migrated.first,
        migrated.second.finite() && migrated.second.rank() >= 0x43b4_0000 ==> place.size->0.second
            == migrated.second,
{
}

/// The island is as wide and as high as its design at the monitor's scale, and
/// stands below the top by its margin at that scale.
pub proof fn the_island_scales_with_the_monitor<F: Fn(Arith) -> Double>(
    monitor: MonitorArea,
    width: Double,
    scale: Double,
    offset: Double,
    ops: &F,
    size: (Double, Double),
    place: (Double, Double),
)
    requires
        call_ensures(island_physical_size::<F>, (scale, ops), size),
        call_ensures(island_physical_position::<F>, (monitor, width, scale, offset, ops), place),
    ensures
        size.0 == answer(
            *ops,
            Arith::Product(Double { bits: 0x407b_8000_0000_0000 }, scale),
        ),
        size.1 == answer(
            *ops,
            Arith::Product(Double { bits: 0x4053_0000_0000_0000 }, scale),
        ),
        place.1 == answer(
            *ops,
            Arith::Sum(
                monitor.y,
                answer(*ops, Arith::Product(Double { bits: 0x4024_0000_0000_0000 }, scale)),
            ),
        ),
{
}

/// The island stands between the monitor's margins, in the middle moved by the
/// user's offset where that is between them; without room for the margins it
/// stands at the monitor's edge.
pub proof fn the_island_stands_between_the_margins<F: Fn(Arith) -> Double>(
    monitor: MonitorArea,
    width: Double,
    scale: Double,
    offset: Double,
    ops: &F,
    place: (Double, Double),
    low: Double,
    high: Double,
    wanted: Double,
)
    requires
        ({
            let margin = answer(
                *ops,
                Arith::Product(Double { bits: 0x4028_0000_0000_0000 }, scale),
            );
            let edge = answer(*ops, Arith::Sum(monitor.x, monitor.width));
            let slack = answer(*ops, Arith::Difference(monitor.width, width));
            let half = answer(
                *ops,
                Arith::Product(slack, Double { bits: 0x3fe0_0000_0000_0000 }),
            );
            let middle = answer(*ops, Arith::Sum(monitor.x, half));
            &&& low == answer(*ops, Arith::Sum(monitor.x, margin))
            &&& high == answer(
                *ops,
                Arith::Difference(answer(*ops, Arith::Difference(edge, width)), margin),
            )
            &&& wanted == answer(
                *ops,
                Arith::Sum(middle, answer(*ops, Arith::Product(offset, scale))),
            )
        }),
        !low.nan(),
        !high.nan(),
        !wanted.nan(),
        call_ensures(island_physical_position::<F>, (monitor, width, scale, offset, ops), place),
    ensures
        high.rank() < low.rank() ==> place.0 == monitor.x,
        low.rank() <= high.rank() ==> low.rank() <= place.0.rank() <= high.rank(),
        low.rank() <= wanted.rank() <= high.rank() ==> place.0 == wanted,
        wanted.rank() < low.rank() <= high.rank() ==> place.0 == low,
        low.rank() <= high.rank() < wanted.rank() ==> place.0 == high,
{
}

/// What the first window seen in a way is.
proof fn the_first_seen_is_the_first(windows: Seq<WindowSight>, by_focus: bool)
    ensures
        match first_seen(windows, by_focus) {
            Some(monitor) => exists|at: int|
                {
                    &&& 0 <= at < windows.len()
                    &&& (#[trigger] windows[at]).monitor == Some(monitor)
                    &&& if by_focus {
                        windows[at].focused
                    } else {
                        windows[at].visible
                    }
                },
            None => forall|at: int|
                0 <= at < windows.len() && (if by_focus {
                    (#[trigger] windows[at]).focused
                } else {
                    windows[at].visible
                }) ==> windows[at].monitor is None,
        },
    decreases windows.len(),
{
    if windows.len() > 0 {
        let rest = windows.skip(1);
        the_first_seen_is_the_first(rest, by_focus);
        assert forall|at: int| 0 <= at < rest.len() implies #[trigger] rest[at]
            == windows[at + 1] by {}
        let seen = windows[0];
        let matching = if by_focus {
            seen.focused
        } else {
            seen.visible
        };
        if matching && seen.monitor is Some {
            assert(windows[0].monitor == first_seen(windows, by_focus));
        } else if first_seen(rest, by_focus) is Some {
            let at = choose|at: int|
                {
                    &&& 0 <= at < rest.len()
                    &&& (#[trigger] rest[at]).monitor == first_seen(rest, by_focus)
                    &&& if by_focus {
                        rest[at].focused
                    } else {
                        rest[at].visible
                    }
                };
            assert(windows[at + 1] == rest[at]);
        } else {
            assert forall|at: int|
                0 <= at < windows.len() && (if by_focus {
                    (#[trigger] windows[at]).focused
                } else {
                    windows[at].visible
                }) implies windows[at].monitor is None by {
                if at > 0 {
                    assert(rest[at - 1] == windows[at]);
                }
            }
        }
    }
}

/// A notice is shown where the user looks: on the monitor of a focused window,
/// else of a visible one, else on the primary one, else where the island is;
/// and not at all where notices are switched off.
pub proof fn notices_are_shown_where_the_user_looks(
    windows: &Vec<WindowSight>,
    primary: Option<u32>,
    current: Option<u32>,
    monitor: Option<u32>,
    shown: NoticeTarget,
    silent: NoticeTarget,
)
    requires
        call_ensures(notice_monitor, (windows, primary, current), monitor),
        call_ensures(notice_target, (true, windows, primary, current), shown),
        call_ensures(notice_target, (false, windows, primary, current), silent),
    ensures
        silent is Silent,
        shown == (NoticeTarget::Show { monitor }),
        (exists|at: int|
            0 <= at < windows@.len() && (#[trigger] windows@[at]).focused
                && windows@[at].monitor is Some) ==> exists|at: int|
            0 <= at < windows@.len() && (#[trigger] windows@[at]).focused && windows@[at].monitor
                == monitor && monitor is Some,
        (forall|at: int|
            0 <= at < windows@.len() && (#[trigger] windows@[at]).focused
                ==> windows@[at].monitor is None) && (exists|at: int|
            0 <= at < windows@.len() && (#[trigger] windows@[at]).visible
                && windows@[at].monitor is Some) ==> exists|at: int|
            0 <= at < windows@.len() && (#[trigger] windows@[at]).visible && windows@[at].monitor
                == monitor && monitor is Some,
        (forall|at: int|
            0 <= at < windows@.len() && ((#[trigger] windows@[at]).focused
                || windows@[at].visible) ==> windows@[at].monitor is None) ==> monitor == (
        if primary is Some {
            primary
        } else {
            current
        }),
{
    the_first_seen_is_the_first(windows@, true);
    the_first_seen_is_the_first(windows@, false);
}

/// Whether a registry runs this stream for this window.
pub open spec fn runs(
    registry: StreamRegistry,
    subscription: Seq<char>,
    owner: Seq<char>,
    token: u64,
) -> bool {
    exists|at: int|
        {
            &&& 0 <= at < registry.entries@.len()
            &&& (#[trigger] registry.entries@[at]).subscription_id@ == subscription
            &&& registry.entries@[at].owner_window@ == owner
            &&& registry.entries@[at].token == token
        }
}

/// A registry runs what its map says.
proof fn registries_run_their_map(registry: StreamRegistry, id: Seq<char>)
    requires
        registry.wf(),
    ensures
        registry.streams().dom().contains(id) ==> runs(
            registry,
            id,
            registry.streams()[id].owner,
            registry.streams()[id].token,
        ),
        forall|owner: Seq<char>, token: u64| #[trigger]
            runs(registry, id, owner, token) ==> registry.streams().dom().contains(id)
                && registry.streams()[id].owner == owner && registry.streams()[id].token == token,
{
    map_has_the_entries(registry.entries@);
    if registry.streams().dom().contains(id) {
        let at = choose|at: int|
            0 <= at < registry.entries@.len() && (#[trigger] registry.entries@[at]).subscription_id@
                == id;
        assert(registry.streams()[id].token == registry.entries@[at].token);
    }
}

/// A stream that was begun runs for its window, under a token that no other
/// stream has; it takes the place of the one that its subscription had, which
/// is handed back to be stopped; and every other stream runs on.
pub proof fn begun_streams_run(
    registry: &mut StreamRegistry,
    owner: String,
    subscription: String,
    result: (u64, Option<u64>),
    other: Seq<char>,
    holder: Seq<char>,
    token: u64,
)
    requires
        old(registry).wf(),
        other != subscription@,
        call_ensures(StreamRegistry::begin_stream, (registry, owner, subscription), result),
    ensures
        runs(*final(registry), subscription@, owner@, result.0),
        runs(*old(registry), other, holder, token) ==> token != result.0,
        runs(*old(registry), other, holder, token) <==> runs(
            *final(registry),
            other,
            holder,
            token,
        ),
        forall|held: Seq<char>, was: u64| #[trigger]
            runs(*old(registry), subscription@, held, was) ==> result.1 == Some(was),
        (forall|held: Seq<char>, was: u64|
            !#[trigger] runs(*old(registry), subscription@, held, was)) ==> result.1 is None,
{
    registries_run_their_map(*old(registry), subscription@);
    registries_run_their_map(*final(registry), subscription@);
    registries_run_their_map(*old(registry), other);
    registries_run_their_map(*final(registry), other);
}

/// A stream that is stopped no longer runs and its token is handed out; one
/// that ended goes only under its own token. No other stream is touched.
pub proof fn stopped_streams_are_gone(
    stopping: &mut StreamRegistry,
    subscription: &str,
    stopped: Option<u64>,
    ending: &mut StreamRegistry,
    ended: u64,
    other: Seq<char>,
    holder: Seq<char>,
    token: u64,
)
    requires
        old(stopping).wf(),
        old(ending).wf(),
        other != subscription@,
        call_ensures(StreamRegistry::stop_stream, (stopping, subscription), stopped),
        call_ensures(StreamRegistry::finish_stream, (ending, subscription, ended), ()),
    ensures
        forall|held: Seq<char>, was: u64|
            !#[trigger] runs(*final(stopping), subscription@, held, was),
        forall|held: Seq<char>, was: u64| #[trigger]
            runs(*old(stopping), subscription@, held, was) ==> stopped == Some(was),
        runs(*old(stopping), other, holder, token) <==> runs(
            *final(stopping),
            other,
            holder,
            token,
        ),
        forall|held: Seq<char>| !#[trigger] runs(*final(ending), subscription@, held, ended),
        forall|held: Seq<char>, was: u64|
            was != ended ==> (#[trigger] runs(*old(ending), subscription@, held, was) ==> runs(
                *final(ending),
                subscription@,
                held,
                was,
            )),
        runs(*old(ending), other, holder, token) <==> runs(*final(ending), other, holder, token),
{
    registries_run_their_map(*old(stopping), subscription@);
    registries_run_their_map(*final(stopping), subscription@);
    registries_run_their_map(*old(stopping), other);
    registries_run_their_map(*final(stopping), other);
    registries_run_their_map(*old(ending), subscription@);
    registries_run_their_map(*final(ending), subscription@);
    registries_run_their_map(*old(ending), other);
    registries_run_their_map(*final(ending), other);
}

/// Closing a window stops its streams, hands their tokens out, and leaves the
/// streams of every other window.
pub proof fn closed_windows_stop_their_streams(
    registry: &mut StreamRegistry,
    owner: &str,
    stopped: Vec<u64>,
    subscription: Seq<char>,
    holder: Seq<char>,
    token: u64,
)
    requires
        old(registry).wf(),
        call_ensures(StreamRegistry::stop_streams_for_window, (registry, owner), stopped),
    ensures
        !runs(*final(registry), subscription, owner@, token),
        runs(*old(registry), subscription, owner@, token) ==> stopped@.contains(token),
        holder != owner@ ==> (runs(*old(registry), subscription, holder, token) <==> runs(
            *final(registry),
            subscription,
            holder,
            token,
        )),
        stopped@.len() + final(registry).entries@.len() == old(registry).entries@.len(),
{
    registries_run_their_map(*old(registry), subscription);
    registries_run_their_map(*final(registry), subscription);
    let owned = crate::streams::owned_by(old(registry).streams(), owner@);
    if runs(*old(registry), subscription, owner@, token) {
        assert(owned.contains(subscription));
    }
    if runs(*final(registry), subscription, owner@, token) {
        assert(old(registry).streams().dom().contains(subscription));
        assert(owned.contains(subscription));
    }
}

/// A page that was kept is given for the same request, at the same markers and
/// the same place; keeping another one does not lose it while there is room.
pub proof fn kept_pages_are_given_again<T>(
    keeping: &mut MainDpsDetailCache<T>,
    key: MainDpsDetailCacheKey,
    snapshot: T,
    given: Option<&T>,
    other: &MainDpsDetailCacheKey,
    before: Option<&T>,
    after: Option<&T>,
)
    requires
        call_ensures(MainDpsDetailCache::<T>::store, (keeping, key, snapshot), ()),
        call_ensures(MainDpsDetailCache::<T>::get, (&*final(keeping), &key), given),
        call_ensures(MainDpsDetailCache::<T>::get, (&*old(keeping), other), before),
        call_ensures(MainDpsDetailCache::<T>::get, (&*final(keeping), other), after),
        other.revision != key.revision || other.kind != key.kind || other.offset != key.offset
            || other.limit != key.limit || other.request.character_id != key.request.character_id
            || held(other.request.skill_filter) != held(key.request.skill_filter),
        old(keeping).entries@.len() < 4,
    ensures
        given is Some,
        *given->0 == snapshot,
        before is Some <==> after is Some,
        before is Some ==> *after->0 == *before->0,
        final(keeping).entries@.len() <= 4,
{
    kept_pages_are_found(old(keeping).entries@, key, snapshot);
    others_are_no_more(old(keeping).entries@, key);
    other_pages_stay(old(keeping).entries@, key, snapshot, *other);
}

/// The pages for other keys are no more than all pages.
proof fn others_are_no_more<T>(
    entries: Seq<MainDpsDetailCacheEntry<T>>,
    key: MainDpsDetailCacheKey,
)
    ensures
        others(entries, key).len() <= entries.len(),
    decreases entries.len(),
{
    if entries.len() > 0 {
        others_are_no_more(entries.drop_last(), key);
    }
}

/// A fresh page shows for nothing that was not kept, and a request is copied
/// as it is.
pub proof fn empty_caches_give_nothing<T>(
    cache: MainDpsDetailCache<T>,
    key: &MainDpsDetailCacheKey,
    given: Option<&T>,
    request: &MainDpsDetailRequest,
    copy: MainDpsDetailRequest,
)
    requires
        call_ensures(MainDpsDetailCache::<T>::new, (), cache),
        call_ensures(MainDpsDetailCache::<T>::get, (&cache, key), given),
        call_ensures(copy_request, (request,), copy),
    ensures
        given is None,
        copy == *request,
{
}

/// A page that is not kept yet is drawn with the next number: its columns are
/// those of the settings, it can start a capture or import a replay while
/// neither is under way, and it is about the character that was asked for. The
/// capture and the settings stay.
pub proof fn new_pages_are_drawn_as_set<
    F: Fn(Arith) -> Double,
    A: Fn(&PartyCombatState, bool) -> Double,
    U: Fn(HitDirectionSummary) -> Double,
>(
    pages: &mut DetailPages,
    app: &mut AppState,
    kind: MainDpsDetailKind,
    offset: usize,
    limit: usize,
    names: &DisplayNames,
    effect_catalog: &HashMap<u64, String>,
    absent_duration: &A,
    unknown_share: &U,
    ops: &F,
    page: &MainDpsDetailSnapshot,
)
    requires
        old(app).sequence < u64::MAX,
        old(pages).cache.entries@.len() == 0,
        call_ensures(
            DetailPages::page::<F, A, U>,
            (
                pages,
                app,
                kind,
                offset,
                limit,
                names,
                effect_catalog,
                absent_duration,
                unknown_share,
                ops,
            ),
            page,
        ),
    ensures
        final(app).sequence == old(app).sequence + 1,
        page.generation@ == decimal((old(app).sequence + 1) as nat),
        page.offset == offset,
        page.actions.can_start_capture <==> !old(app).live.control.replay_running && !under_way(
            old(app).live.control.status.phase,
        ),
        page.actions.can_import_replay == page.actions.can_start_capture,
        ({
            let columns = old(app).settings.config.plain.hit_detail_columns;
            &&& page.columns.show_time == columns.show_time
            &&& page.columns.show_character == columns.show_character
            &&& page.columns.show_type == columns.show_type
            &&& page.columns.show_damage == columns.show_damage
            &&& page.columns.show_target == columns.show_target_hp
        }),
        kind is Character ==> page.character_id
            == old(app).presentation.character_detail_request.character_id,
        kind is Team ==> page.character_id
            == old(app).presentation.team_detail_request.character_id,
        final(app).live == old(app).live,
        final(app).settings == old(app).settings,
        final(app).history == old(app).history,
{
    let after = *final(app);
    let combat = after.presentation.presents(after.live.state);
    let view = choose|view: DetailView|
        {
            &&& #[trigger] page_view(&after, after.sequence, names, effect_catalog, view)
            &&& details(
                *ops,
                *absent_duration,
                *unknown_share,
                combat,
                half_shown(combat.battle.abyss, after.presentation.control.selected_abyss_half),
                after.presentation.detail_request(kind),
                view,
                offset,
                limit,
                *page,
            )
        };
    assert(page_view(&after, after.sequence, names, effect_catalog, view));
}

} // verus!
