//! Decisions about windows: what is shown when, and where.
use vstd::prelude::*;

use crate::double::{answer, evaluate, lawful, Arith, Double};
use crate::single::{Pair, Single};
use crate::text::same_text;

verus! {

/// The window that everything else belongs to.
pub open spec fn main_label() -> Seq<char> {
    "main-dps"@
}

#[derive(Clone, Copy, Debug, PartialEq, Eq, Structural)]
pub enum PageLoadEvent {
    Started,
    Finished,
}

/// What the window system reports of a window.
#[derive(Clone, Copy, Debug, PartialEq, Eq, Structural)]
pub enum NativeWindowEvent {
    Moved,
    Resized,
    Focused(bool),
    ScaleFactorChanged,
    CloseRequested,
    Destroyed,
    Other,
}

/// Only the main window shows itself once its page is there.
pub fn should_reveal_after_page_load(label: &str, event: PageLoadEvent) -> (result: bool)
    ensures
        result == (label@ == main_label() && event == PageLoadEvent::Finished),
{
    same_text(label, "main-dps") && event == PageLoadEvent::Finished
}

/// Whether a window is the one that a command is for.
pub fn validate_window(label: &str, expected: &str) -> (result: bool)
    ensures
        result == (label@ == expected@),
{
    same_text(label, expected)
}

/// Events after which the window system can have forgotten the opacity.
pub fn native_window_event_may_reset_opacity(event: NativeWindowEvent) -> (result: bool)
    ensures
        result == (event == NativeWindowEvent::Moved || event == NativeWindowEvent::Resized
            || event == NativeWindowEvent::Focused(true) || event
            == NativeWindowEvent::ScaleFactorChanged),
{
    matches!(
        event,
        NativeWindowEvent::Moved
            | NativeWindowEvent::Resized
            | NativeWindowEvent::Focused(true)
            | NativeWindowEvent::ScaleFactorChanged
    )
}

/// A window that passes clicks through needs the hotkey that ends it.
pub fn may_set_passthrough(enabled: bool, hotkey_ready: bool) -> (result: bool)
    ensures
        result == (enabled ==> hotkey_ready),
{
    !enabled || hotkey_ready
}

/// Neither a minimized nor a maximized window has a geometry worth keeping.
pub fn should_persist_geometry(minimized: bool, maximized: bool) -> (result: bool)
    ensures
        result == (!minimized && !maximized),
{
    !minimized && !maximized
}

/// Bit pattern of `-10000.0`. The window system moves minimized windows far
/// into the negative; how far depends on the scale.
pub const MINIMIZED_POSITION_LIMIT_BITS: u32 = 0xc61c_4000;

/// A position that a window can be put back to.
pub open spec fn restorable(position: Pair) -> bool {
    let limit = Single { bits: MINIMIZED_POSITION_LIMIT_BITS };
    position.first.finite() && position.second.finite() && !(position.first.at_most(limit)
        && position.second.at_most(limit))
}

pub fn restorable_main_window_position(position: Option<Pair>) -> (result: Option<Pair>)
    ensures
        result == (match position {
            Some(position) if restorable(position) => Some(position),
            _ => None,
        }),
{
    let limit = Single { bits: MINIMIZED_POSITION_LIMIT_BITS };
    match position {
        None => None,
        Some(position) => if position.first.is_finite() && position.second.is_finite() && !(
        position.first.is_at_most(limit) && position.second.is_at_most(limit)) {
            Some(position)
        } else {
            None
        },
    }
}

/// Bit patterns of `670.0`, `692.0` and `560.0`.
pub const DEFAULT_WIDTH_BITS: u32 = 0x4427_8000;

pub const LEGACY_HEIGHT_BITS: u32 = 0x442d_0000;

pub const COMPACT_HEIGHT_BITS: u32 = 0x440c_0000;

/// The size that windows had when they were never resized.
pub open spec fn legacy_default_size() -> Pair {
    Pair {
        first: Single { bits: DEFAULT_WIDTH_BITS },
        second: Single { bits: LEGACY_HEIGHT_BITS },
    }
}

/// The size that takes its place.
pub open spec fn compact_default_size() -> Pair {
    Pair {
        first: Single { bits: DEFAULT_WIDTH_BITS },
        second: Single { bits: COMPACT_HEIGHT_BITS },
    }
}

/// A window that still has the old default size gets the new one. No other
/// single-precision number is within rounding distance of the old sides.
pub fn migrate_legacy_default_size(size: Pair) -> (result: Pair)
    ensures
        result == (if size == legacy_default_size() {
            compact_default_size()
        } else {
            size
        }),
{
    if size.first.bits == DEFAULT_WIDTH_BITS && size.second.bits == LEGACY_HEIGHT_BITS {
        Pair {
            first: Single { bits: DEFAULT_WIDTH_BITS },
            second: Single { bits: COMPACT_HEIGHT_BITS },
        }
    } else {
        size
    }
}

/// A compact size is left as it is.
pub proof fn migration_happens_once(size: Pair)
    ensures
        ({
            let migrated = if size == legacy_default_size() {
                compact_default_size()
            } else {
                size
            };
            migrated != legacy_default_size()
        }),
{
}

/// A corner of a monitor or its extent, in device pixels.
#[derive(Clone, Copy, Debug, PartialEq, Eq, Structural)]
pub struct MonitorArea {
    pub x: Double,
    pub y: Double,
    pub width: Double,
}

/// Bit pattern of `440.0`.
pub const ISLAND_LOGICAL_WIDTH_BITS: u64 = 0x407b_8000_0000_0000;

/// Bit pattern of `76.0`.
pub const ISLAND_LOGICAL_HEIGHT_BITS: u64 = 0x4053_0000_0000_0000;

/// Bit pattern of `0.5`.
pub const HALF_BITS: u64 = 0x3fe0_0000_0000_0000;

/// Bit pattern of `12.0`.
pub const SCREEN_MARGIN_BITS: u64 = 0x4028_0000_0000_0000;

/// Bit pattern of `10.0`.
pub const TOP_MARGIN_BITS: u64 = 0x4024_0000_0000_0000;

/// The island's size in device pixels, before rounding.
pub fn island_physical_size<F: Fn(Arith) -> Double>(scale: Double, ops: &F) -> (result: (
    Double,
    Double,
))
    requires
        lawful(*ops),
    ensures
        result.0 == answer(
            *ops,
            Arith::Product(Double { bits: ISLAND_LOGICAL_WIDTH_BITS }, scale),
        ),
        result.1 == answer(
            *ops,
            Arith::Product(Double { bits: ISLAND_LOGICAL_HEIGHT_BITS }, scale),
        ),
{
    (
        evaluate(ops, Arith::Product(Double { bits: ISLAND_LOGICAL_WIDTH_BITS }, scale)),
        evaluate(ops, Arith::Product(Double { bits: ISLAND_LOGICAL_HEIGHT_BITS }, scale)),
    )
}

/// The middle of the monitor, moved by the configured offset.
pub open spec fn centered<F: Fn(Arith) -> Double>(
    ops: F,
    monitor: MonitorArea,
    window_width: Double,
    scale: Double,
    logical_offset: Double,
) -> Double {
    let slack = answer(ops, Arith::Difference(monitor.width, window_width));
    let half = answer(ops, Arith::Product(slack, Double { bits: HALF_BITS }));
    let middle = answer(ops, Arith::Sum(monitor.x, half));
    answer(ops, Arith::Sum(middle, answer(ops, Arith::Product(logical_offset, scale))))
}

/// The leftmost place that keeps the margin.
pub open spec fn leftmost<F: Fn(Arith) -> Double>(
    ops: F,
    monitor: MonitorArea,
    scale: Double,
) -> Double {
    let margin = answer(ops, Arith::Product(Double { bits: SCREEN_MARGIN_BITS }, scale));
    answer(ops, Arith::Sum(monitor.x, margin))
}

/// The rightmost place that keeps the margin.
pub open spec fn rightmost<F: Fn(Arith) -> Double>(
    ops: F,
    monitor: MonitorArea,
    window_width: Double,
    scale: Double,
) -> Double {
    let margin = answer(ops, Arith::Product(Double { bits: SCREEN_MARGIN_BITS }, scale));
    let edge = answer(ops, Arith::Sum(monitor.x, monitor.width));
    let free = answer(ops, Arith::Difference(edge, window_width));
    answer(ops, Arith::Difference(free, margin))
}

/// Where the island stands, before rounding: in the middle, but within the
/// margins; on a monitor too narrow for them, at its edge.
pub open spec fn island_place<F: Fn(Arith) -> Double>(
    ops: F,
    monitor: MonitorArea,
    window_width: Double,
    scale: Double,
    logical_offset: Double,
) -> (Double, Double) {
    let wanted = centered(ops, monitor, window_width, scale, logical_offset);
    let low = leftmost(ops, monitor, scale);
    let high = rightmost(ops, monitor, window_width, scale);
    let x = if low.nan() || high.nan() || high.below(low) {
        monitor.x
    } else if wanted.below(low) {
        low
    } else if high.below(wanted) {
        high
    } else {
        wanted
    };
    (
        x,
        answer(
            ops,
            Arith::Sum(
                monitor.y,
                answer(ops, Arith::Product(Double { bits: TOP_MARGIN_BITS }, scale)),
            ),
        ),
    )
}

pub fn island_physical_position<F: Fn(Arith) -> Double>(
    monitor: MonitorArea,
    window_width: Double,
    scale: Double,
    logical_offset: Double,
    ops: &F,
) -> (result: (Double, Double))
    requires
        lawful(*ops),
    ensures
        result == island_place(*ops, monitor, window_width, scale, logical_offset),
{
    let slack = evaluate(ops, Arith::Difference(monitor.width, window_width));
    let half = evaluate(ops, Arith::Product(slack, Double { bits: HALF_BITS }));
    let middle = evaluate(ops, Arith::Sum(monitor.x, half));
    let offset = evaluate(ops, Arith::Product(logical_offset, scale));
    let wanted = evaluate(ops, Arith::Sum(middle, offset));
    let margin = evaluate(ops, Arith::Product(Double { bits: SCREEN_MARGIN_BITS }, scale));
    let low = evaluate(ops, Arith::Sum(monitor.x, margin));
    let edge = evaluate(ops, Arith::Sum(monitor.x, monitor.width));
    let free = evaluate(ops, Arith::Difference(edge, window_width));
    let high = evaluate(ops, Arith::Difference(free, margin));
    let x = if low.is_nan() || high.is_nan() || high.is_below(low) {
        monitor.x
    } else if wanted.is_below(low) {
        low
    } else if high.is_below(wanted) {
        high
    } else {
        wanted
    };
    let drop = evaluate(ops, Arith::Product(Double { bits: TOP_MARGIN_BITS }, scale));
    let y = evaluate(ops, Arith::Sum(monitor.y, drop));
    (x, y)
}

/// The island keeps its margins wherever the monitor has room for them.
pub proof fn the_island_keeps_its_margins<F: Fn(Arith) -> Double>(
    ops: F,
    monitor: MonitorArea,
    window_width: Double,
    scale: Double,
    logical_offset: Double,
)
    requires
        ({
            let low = leftmost(ops, monitor, scale);
            let high = rightmost(ops, monitor, window_width, scale);
            !low.nan() && !high.nan() && !high.below(low)
        }),
        !centered(ops, monitor, window_width, scale, logical_offset).nan(),
    ensures
        ({
            let x = island_place(ops, monitor, window_width, scale, logical_offset).0;
            &&& !x.below(leftmost(ops, monitor, scale))
            &&& !rightmost(ops, monitor, window_width, scale).below(x)
        }),
{
}

/// Bit pattern of `420.0`.
pub const MAIN_MIN_WIDTH_BITS: u32 = 0x43d2_0000;

/// Bit pattern of `360.0`.
pub const MAIN_MIN_HEIGHT_BITS: u32 = 0x43b4_0000;

/// Where the main window is put when it opens. Without a size it keeps the one
/// it has; without a position it is centred.
#[derive(Clone, Copy, Debug, PartialEq, Eq, Structural)]
pub struct MainWindowPlace {
    pub size: Option<Pair>,
    pub position: Option<Pair>,
}

/// Puts the main window back to where it was, at a size that can be used.
pub fn restored_geometry(size: Option<Pair>, position: Option<Pair>) -> (place: MainWindowPlace)
    ensures
        place.size == (match size {
            None => None,
            Some(size) => {
                let size = if size == legacy_default_size() {
                    compact_default_size()
                } else {
                    size
                };
                Some(
                    Pair {
                        first: size.first.larger(Single { bits: MAIN_MIN_WIDTH_BITS }),
                        second: size.second.larger(Single { bits: MAIN_MIN_HEIGHT_BITS }),
                    },
                )
            },
        }),
        place.position == (match position {
            Some(position) if restorable(position) => Some(position),
            _ => None,
        }),
{
    let size = match size {
        None => None,
        Some(size) => {
            let size = migrate_legacy_default_size(size);
            Some(
                Pair {
                    first: size.first.max(Single { bits: MAIN_MIN_WIDTH_BITS }),
                    second: size.second.max(Single { bits: MAIN_MIN_HEIGHT_BITS }),
                },
            )
        },
    };
    MainWindowPlace { size, position: restorable_main_window_position(position) }
}

/// What is known of a window that can show where the user looks.
#[derive(Clone, Copy, Debug, PartialEq, Eq, Structural)]
pub struct WindowSight {
    pub focused: bool,
    pub visible: bool,
    /// The window's monitor, by its number, if it is known.
    pub monitor: Option<u32>,
}

/// The first window that is seen in a given way, and its monitor.
pub open spec fn first_seen(windows: Seq<WindowSight>, by_focus: bool) -> Option<u32>
    decreases windows.len(),
{
    if windows.len() == 0 {
        None
    } else {
        let seen = windows[0];
        if (if by_focus {
            seen.focused
        } else {
            seen.visible
        }) && seen.monitor is Some {
            seen.monitor
        } else {
            first_seen(windows.skip(1), by_focus)
        }
    }
}

fn find_seen(windows: &Vec<WindowSight>, by_focus: bool) -> (result: Option<u32>)
    ensures
        result == first_seen(windows@, by_focus),
{
    let mut i: usize = 0;
    assert(windows@.skip(0) =~= windows@);
    while i < windows.len()
        invariant
            i <= windows@.len(),
            first_seen(windows@.skip(i as int), by_focus) == first_seen(windows@, by_focus),
        decreases windows.len() - i,
    {
        let seen = windows[i];
        assert(windows@.skip(i as int)[0] == seen);
        assert(windows@.skip(i as int).skip(1) =~= windows@.skip(i + 1));
        let matching = if by_focus {
            seen.focused
        } else {
            seen.visible
        };
        if matching && seen.monitor.is_some() {
            return seen.monitor;
        }
        i = i + 1;
    }
    None
}

/// The monitor that a notice is shown on: that of the focused window, else of
/// the first visible one, else the primary monitor, else the island's own.
pub open spec fn looked_at(
    windows: Seq<WindowSight>,
    primary: Option<u32>,
    current: Option<u32>,
) -> Option<u32> {
    match (first_seen(windows, true), first_seen(windows, false)) {
        (Some(monitor), _) => Some(monitor),
        (None, Some(monitor)) => Some(monitor),
        (None, None) => if primary is Some {
            primary
        } else {
            current
        },
    }
}

/// Finds the monitor that a notice is shown on.
pub fn notice_monitor(
    windows: &Vec<WindowSight>,
    primary: Option<u32>,
    current: Option<u32>,
) -> (result: Option<u32>)
    ensures
        result == looked_at(windows@, primary, current),
{
    if let Some(monitor) = find_seen(windows, true) {
        return Some(monitor);
    }
    if let Some(monitor) = find_seen(windows, false) {
        return Some(monitor);
    }
    if primary.is_some() {
        primary
    } else {
        current
    }
}

/// What becomes of a notice.
#[derive(Clone, Copy, Debug, PartialEq, Eq, Structural)]
pub enum NoticeTarget {
    /// Notices are switched off.
    Silent,
    /// The island is shown; it is moved where the monitor is known.
    Show { monitor: Option<u32> },
}

/// Decides whether a notice is shown, and where.
pub fn notice_target(
    enabled: bool,
    windows: &Vec<WindowSight>,
    primary: Option<u32>,
    current: Option<u32>,
) -> (target: NoticeTarget)
    ensures
        target == (if enabled {
            NoticeTarget::Show { monitor: looked_at(windows@, primary, current) }
        } else {
            NoticeTarget::Silent
        }),
{
    if enabled {
        NoticeTarget::Show { monitor: notice_monitor(windows, primary, current) }
    } else {
        NoticeTarget::Silent
    }
}

} // verus!
