//! Window docking geometry for the four edges and the four corners of an
//! activity area, in physical screen pixels.

use vstd::prelude::*;

verus! {

/// `x` saturated into the range of `i32`.
pub open spec fn clamp_i32(x: int) -> int {
    if x > i32::MAX {
        i32::MAX as int
    } else if x < i32::MIN {
        i32::MIN as int
    } else {
        x
    }
}

/// An unsigned extent capped at `i32::MAX`, as used for window sizes.
pub open spec fn capped_extent(extent: u32) -> int {
    if extent > i32::MAX {
        i32::MAX as int
    } else {
        extent as int
    }
}

/// A negative tolerance counts as zero.
pub open spec fn nonnegative(tolerance: i32) -> int {
    if tolerance < 0 {
        0
    } else {
        tolerance as int
    }
}

/// Saturating `i32` addition.
pub fn saturating_add_i32(a: i32, b: i32) -> (r: i32)
    ensures
        r == clamp_i32(a + b),
{
    let sum: i64 = a as i64 + b as i64;
    if sum > i32::MAX as i64 {
        i32::MAX
    } else if sum < i32::MIN as i64 {
        i32::MIN
    } else {
        sum as i32
    }
}

/// Saturating `i32` subtraction.
pub fn saturating_sub_i32(a: i32, b: i32) -> (r: i32)
    ensures
        r == clamp_i32(a - b),
{
    let diff: i64 = a as i64 - b as i64;
    if diff > i32::MAX as i64 {
        i32::MAX
    } else if diff < i32::MIN as i64 {
        i32::MIN
    } else {
        diff as i32
    }
}

fn capped(extent: u32) -> (r: i32)
    ensures
        r == capped_extent(extent),
{
    if extent > i32::MAX as u32 {
        i32::MAX
    } else {
        extent as i32
    }
}

/// Which edges of the activity area a window touches.
#[derive(Clone, Copy, Debug, PartialEq, Eq, Structural)]
pub struct DockState {
    pub left: bool,
    pub right: bool,
    pub top: bool,
    pub bottom: bool,
}

impl DockState {
    /// The state of a window that touches no edge.
    pub fn free() -> (d: DockState)
        ensures
            !d.left && !d.right && !d.top && !d.bottom,
    {
        DockState { left: false, right: false, top: false, bottom: false }
    }
}

/// An axis-aligned rectangle given by its four edges.
#[derive(Clone, Copy, Debug, PartialEq, Eq, Structural)]
pub struct Rect {
    pub left: i32,
    pub top: i32,
    pub right: i32,
    pub bottom: i32,
}

impl Rect {
    /// The rectangle with the given top-left corner and size; the far edges
    /// saturate at `i32::MAX`, and a size above `i32::MAX` counts as
    /// `i32::MAX`.
    pub fn new(left: i32, top: i32, width: u32, height: u32) -> (r: Rect)
        ensures
            r.left == left,
            r.top == top,
            r.right == clamp_i32(left + capped_extent(width)),
            r.bottom == clamp_i32(top + capped_extent(height)),
    {
        Rect {
            left,
            top,
            right: saturating_add_i32(left, capped(width)),
            bottom: saturating_add_i32(top, capped(height)),
        }
    }
}

/// The rectangle that `Rect::new` builds.
pub open spec fn spec_rect(left: i32, top: i32, width: u32, height: u32) -> Rect {
    Rect {
        left,
        top,
        right: clamp_i32(left + capped_extent(width)) as i32,
        bottom: clamp_i32(top + capped_extent(height)) as i32,
    }
}

/// The edges that `window` touches within `tolerance` pixels of `area`.
pub open spec fn spec_dock_state(window: Rect, area: Rect, tolerance: i32) -> DockState {
    let t = nonnegative(tolerance);
    DockState {
        left: window.left <= clamp_i32(area.left + t),
        right: window.right >= clamp_i32(area.right - t),
        top: window.top <= clamp_i32(area.top + t),
        bottom: window.bottom >= clamp_i32(area.bottom - t),
    }
}

/// Reports which edges of `area` the window touches, allowing `tolerance`
/// pixels of slack (a negative tolerance counts as zero).
pub fn dock_state(window: Rect, area: Rect, tolerance: i32) -> (d: DockState)
    ensures
        d == spec_dock_state(window, area, tolerance),
{
    let tolerance = if tolerance < 0 { 0 } else { tolerance };
    DockState {
        left: window.left <= saturating_add_i32(area.left, tolerance),
        right: window.right >= saturating_sub_i32(area.right, tolerance),
        top: window.top <= saturating_add_i32(area.top, tolerance),
        bottom: window.bottom >= saturating_sub_i32(area.bottom, tolerance),
    }
}

/// Snapping along one axis: a window whose near edge lies within the
/// tolerance of the low edge moves onto it; otherwise one whose far edge lies
/// within the tolerance of the high edge moves flush against it; otherwise it
/// stays.
pub open spec fn snap_axis(position: i32, extent: u32, low: i32, high: i32, tolerance: i32) -> int {
    let t = nonnegative(tolerance);
    let w = capped_extent(extent);
    let far = clamp_i32(position + w);
    if position <= clamp_i32(low + t) {
        low as int
    } else if far >= clamp_i32(high - t) {
        clamp_i32(high - w)
    } else {
        position as int
    }
}

fn snap_axis_exec(position: i32, extent: u32, low: i32, high: i32, tolerance: i32) -> (r: i32)
    ensures
        r == snap_axis(position, extent, low, high, tolerance),
{
    let tolerance = if tolerance < 0 { 0 } else { tolerance };
    let w = capped(extent);
    let far = saturating_add_i32(position, w);
    if position <= saturating_add_i32(low, tolerance) {
        low
    } else if far >= saturating_sub_i32(high, tolerance) {
        saturating_sub_i32(high, w)
    } else {
        position
    }
}

/// Snaps a window of `size` at `position` to the edges of `area` that lie
/// within `tolerance`; each axis is decided on its own, and an axis that is
/// near no edge keeps its coordinate.
pub fn snap_position(position: [i32; 2], size: [u32; 2], area: Rect, tolerance: i32) -> (r: [i32; 2])
    ensures
        r[0] == snap_axis(position[0], size[0], area.left, area.right, tolerance),
        r[1] == snap_axis(position[1], size[1], area.top, area.bottom, tolerance),
{
    let x = snap_axis_exec(position[0], size[0], area.left, area.right, tolerance);
    let y = snap_axis_exec(position[1], size[1], area.top, area.bottom, tolerance);
    [x, y]
}

/// Snapping agrees with docking: along each axis, a window that
/// `dock_state` reports on the low edge is moved onto that edge, one that is
/// reported only on the high edge is moved flush against it, and one that is
/// reported on neither edge keeps its coordinate.
pub proof fn law_snap_follows_dock_state(position: [i32; 2], size: [u32; 2], area: Rect, tolerance: i32)
    ensures
        ({
            let d = spec_dock_state(spec_rect(position[0], position[1], size[0], size[1]), area, tolerance);
            let x = snap_axis(position[0], size[0], area.left, area.right, tolerance);
            let y = snap_axis(position[1], size[1], area.top, area.bottom, tolerance);
            &&& d.left ==> x == area.left
            &&& !d.left && d.right ==> x == clamp_i32(area.right - capped_extent(size[0]))
            &&& !d.left && !d.right ==> x == position[0]
            &&& d.top ==> y == area.top
            &&& !d.top && d.bottom ==> y == clamp_i32(area.bottom - capped_extent(size[1]))
            &&& !d.top && !d.bottom ==> y == position[1]
        }),
{
}

/// A snapped window is docked on the side it was snapped to: one reported on
/// the low edge stays docked there after snapping, and one moved flush
/// against the high edge is docked there whenever that move did not
/// saturate at `i32::MIN`.
pub proof fn law_snapped_window_docks(position: [i32; 2], size: [u32; 2], area: Rect, tolerance: i32)
    ensures
        ({
            let before = spec_dock_state(spec_rect(position[0], position[1], size[0], size[1]), area, tolerance);
            let x = snap_axis(position[0], size[0], area.left, area.right, tolerance);
            let y = snap_axis(position[1], size[1], area.top, area.bottom, tolerance);
            let after = spec_dock_state(spec_rect(x as i32, y as i32, size[0], size[1]), area, tolerance);
            &&& before.left ==> after.left
            &&& before.top ==> after.top
            &&& !before.left && before.right && area.right - capped_extent(size[0]) >= i32::MIN
                ==> after.right
            &&& !before.top && before.bottom && area.bottom - capped_extent(size[1]) >= i32::MIN
                ==> after.bottom
        }),
{
}

} // verus!
