//! Geometry of the pet window against the monitor's activity area: dock
//! detection, the strict snap-back after a drag, and the anchors of the pet's
//! speech bubble and context menu.
//!
//! Sizes are converted to `i32` by wrapping, exactly as an `as` cast does,
//! and the remaining arithmetic is plain `i32` arithmetic; each function
//! requires that none of it overflows.

use crate::dock::{spec_dock_state, spec_rect, DockState};
use vstd::prelude::*;

verus! {

/// Distance in pixels within which the pet window counts as touching an edge.
pub const DOCK_TOLERANCE: i32 = 16;

/// Width of the pet's speech bubble in physical pixels.
pub const BUBBLE_WIDTH: i32 = 180;

/// Height of the pet's speech bubble in physical pixels.
pub const BUBBLE_HEIGHT: i32 = 52;

/// Gap between the pet window and its speech bubble.
pub const BUBBLE_GAP: i32 = 12;

/// The usable area of a monitor: top-left corner and size.
#[derive(Clone, Copy, Debug)]
pub struct ActivityArea {
    pub position: [i32; 2],
    pub size: [u32; 2],
}

/// Whether `x` is a value of `i32`.
pub open spec fn fits(x: int) -> bool {
    i32::MIN <= x <= i32::MAX
}

/// The value of `extent as i32`.
pub open spec fn wrapped(extent: u32) -> int {
    if extent <= i32::MAX {
        extent as int
    } else {
        extent - 0x1_0000_0000
    }
}

/// Division by two rounding toward zero, as `i32` division does.
pub open spec fn half(x: int) -> int {
    if x >= 0 {
        x / 2
    } else {
        -((-x) / 2)
    }
}

fn wrap(extent: u32) -> (r: i32)
    ensures
        r == wrapped(extent),
{
    if extent <= i32::MAX as u32 {
        extent as i32
    } else {
        let v: i64 = extent as i64 - 0x1_0000_0000i64;
        v as i32
    }
}

fn halve(x: i32) -> (r: i32)
    ensures
        r == half(x as int),
{
    let v: i64 = x as i64;
    let h: i64 = if v >= 0 { v / 2 } else { -((-v) / 2) };
    h as i32
}

/// The far edges of the window and the area, each as it is computed.
pub open spec fn window_right(position: [i32; 2], size: [u32; 2]) -> int {
    position[0] + wrapped(size[0])
}

pub open spec fn window_bottom(position: [i32; 2], size: [u32; 2]) -> int {
    position[1] + wrapped(size[1])
}

pub open spec fn area_right(area: ActivityArea) -> int {
    area.position[0] + wrapped(area.size[0])
}

pub open spec fn area_bottom(area: ActivityArea) -> int {
    area.position[1] + wrapped(area.size[1])
}

/// The arithmetic of dock detection stays within `i32`.
pub open spec fn dock_defined(position: [i32; 2], size: [u32; 2], area: ActivityArea) -> bool {
    &&& fits(window_right(position, size))
    &&& fits(window_bottom(position, size))
    &&& fits(area.position[0] + DOCK_TOLERANCE)
    &&& fits(area.position[1] + DOCK_TOLERANCE)
    &&& fits(area_right(area))
    &&& fits(area_bottom(area))
    &&& fits(area_right(area) - DOCK_TOLERANCE)
    &&& fits(area_bottom(area) - DOCK_TOLERANCE)
}

/// The edges of `area` that the window touches within `DOCK_TOLERANCE`.
pub open spec fn spec_current_dock(position: [i32; 2], size: [u32; 2], area: ActivityArea) -> DockState {
    DockState {
        left: position[0] <= area.position[0] + DOCK_TOLERANCE,
        top: position[1] <= area.position[1] + DOCK_TOLERANCE,
        right: window_right(position, size) >= area_right(area) - DOCK_TOLERANCE,
        bottom: window_bottom(position, size) >= area_bottom(area) - DOCK_TOLERANCE,
    }
}

/// The dock state of the pet window: free when its position or the
/// activity area is unknown, otherwise the edges it touches.
pub fn current_dock(position: Option<[i32; 2]>, size: [u32; 2], area: Option<ActivityArea>) -> (d:
    DockState)
    requires
        position is Some && area is Some ==> dock_defined(position->0, size, area->0),
    ensures
        position is None || area is None ==> !d.left && !d.right && !d.top && !d.bottom,
        position is Some && area is Some ==> d == spec_current_dock(position->0, size, area->0),
{
    let Some(position) = position else {
        return DockState::free();
    };
    let Some(area) = area else {
        return DockState::free();
    };
    let right = position[0] + wrap(size[0]);
    let bottom = position[1] + wrap(size[1]);
    DockState {
        left: position[0] <= area.position[0] + DOCK_TOLERANCE,
        top: position[1] <= area.position[1] + DOCK_TOLERANCE,
        right: right >= area.position[0] + wrap(area.size[0]) - DOCK_TOLERANCE,
        bottom: bottom >= area.position[1] + wrap(area.size[1]) - DOCK_TOLERANCE,
    }
}

/// The arithmetic of snapping back along one axis stays within `i32`.
pub open spec fn snap_axis_defined(p: i32, w: u32, a: i32, aw: u32) -> bool {
    &&& fits(p + wrapped(w))
    &&& fits(a + wrapped(aw))
    &&& fits(a + DOCK_TOLERANCE)
    &&& !(p <= a + DOCK_TOLERANCE) ==> fits(a + wrapped(aw) - DOCK_TOLERANCE)
    &&& !(p <= a + DOCK_TOLERANCE) && p + wrapped(w) >= a + wrapped(aw) - DOCK_TOLERANCE
        ==> fits(a + wrapped(aw) - wrapped(w))
}

/// Snapping back along one axis: onto the low edge when within the
/// tolerance of it, else flush against the high edge when within the
/// tolerance of it, else unchanged.
pub open spec fn activity_snap_axis(p: i32, w: u32, a: i32, aw: u32) -> int {
    if p <= a + DOCK_TOLERANCE {
        a as int
    } else if p + wrapped(w) >= a + wrapped(aw) - DOCK_TOLERANCE {
        a + wrapped(aw) - wrapped(w)
    } else {
        p as int
    }
}

fn activity_snap_axis_exec(p: i32, w: u32, a: i32, aw: u32) -> (r: i32)
    requires
        snap_axis_defined(p, w, a, aw),
    ensures
        r == activity_snap_axis(p, w, a, aw),
{
    let far = p + wrap(w);
    let area_far = a + wrap(aw);
    if p <= a + DOCK_TOLERANCE {
        a
    } else if far >= area_far - DOCK_TOLERANCE {
        area_far - wrap(w)
    } else {
        p
    }
}

/// The position the pet window must be moved to after a drag, or `None`
/// when it stays where it is: when the area or the position is unknown, or
/// when snapping leaves both coordinates unchanged.
pub fn snap_to_activity_area(position: Option<[i32; 2]>, size: [u32; 2], area: Option<ActivityArea>) -> (r:
    Option<[i32; 2]>)
    requires
        position is Some && area is Some ==> {
            &&& snap_axis_defined(position->0[0], size[0], area->0.position[0], area->0.size[0])
            &&& snap_axis_defined(position->0[1], size[1], area->0.position[1], area->0.size[1])
        },
    ensures
        position is None || area is None ==> r is None,
        position is Some && area is Some ==> ({
            let p = position->0;
            let a = area->0;
            let x = activity_snap_axis(p[0], size[0], a.position[0], a.size[0]);
            let y = activity_snap_axis(p[1], size[1], a.position[1], a.size[1]);
            if x == p[0] && y == p[1] {
                r is None
            } else {
                r is Some && r->0[0] == x && r->0[1] == y
            }
        }),
{
    let Some(area) = area else {
        return None;
    };
    let Some(position) = position else {
        return None;
    };
    let x = activity_snap_axis_exec(position[0], size[0], area.position[0], area.size[0]);
    let y = activity_snap_axis_exec(position[1], size[1], area.position[1], area.size[1]);
    if x != position[0] || y != position[1] {
        Some([x, y])
    } else {
        None
    }
}

/// The arithmetic of the containment test stays within `i32`, following
/// the order in which the test evaluates it.
pub open spec fn outside_defined(position: [i32; 2], size: [u32; 2], area: ActivityArea) -> bool {
    !(position[0] < area.position[0]) && !(position[1] < area.position[1]) ==> {
        &&& fits(window_right(position, size))
        &&& fits(area_right(area))
        &&& !(window_right(position, size) > area_right(area)) ==> {
            &&& fits(window_bottom(position, size))
            &&& fits(area_bottom(area))
        }
    }
}

/// Whether a window reaches outside `area` on any side.
pub open spec fn spec_outside(position: [i32; 2], size: [u32; 2], area: ActivityArea) -> bool {
    ||| position[0] < area.position[0]
    ||| position[1] < area.position[1]
    ||| window_right(position, size) > area_right(area)
    ||| window_bottom(position, size) > area_bottom(area)
}

/// Whether the pet window reaches outside the activity area; `false` when
/// the area or the position is unknown.
pub fn is_outside_activity_area(position: Option<[i32; 2]>, size: [u32; 2], area: Option<ActivityArea>) -> (r:
    bool)
    requires
        position is Some && area is Some ==> outside_defined(position->0, size, area->0),
    ensures
        r == (position is Some && area is Some && spec_outside(position->0, size, area->0)),
{
    let Some(area) = area else {
        return false;
    };
    let Some(position) = position else {
        return false;
    };
    position[0] < area.position[0] || position[1] < area.position[1] || position[0] + wrap(size[0])
        > area.position[0] + wrap(area.size[0]) || position[1] + wrap(size[1]) > area.position[1]
        + wrap(area.size[1])
}

/// The centre of the pet window, around which its bubble is placed.
pub open spec fn spec_bubble_center(position: [i32; 2], size: [u32; 2]) -> (int, int) {
    (position[0] + half(wrapped(size[0])), position[1] + half(wrapped(size[1])))
}

/// The centre of the pet window; the activity area that holds this point
/// is the one the bubble is kept inside.
pub fn bubble_center(position: [i32; 2], size: [u32; 2]) -> (c: [i32; 2])
    requires
        fits(spec_bubble_center(position, size).0),
        fits(spec_bubble_center(position, size).1),
    ensures
        c[0] == spec_bubble_center(position, size).0,
        c[1] == spec_bubble_center(position, size).1,
{
    [position[0] + halve(wrap(size[0])), position[1] + halve(wrap(size[1]))]
}

/// Where the bubble's centre goes: horizontally at the window's centre kept
/// half a bubble inside the area, vertically above the window when the
/// bubble fits there, else below it, kept inside the area's bottom.
pub open spec fn spec_bubble_anchor(position: [i32; 2], size: [u32; 2], area: ActivityArea) -> (int, int) {
    let center = spec_bubble_center(position, size);
    let min_x = area.position[0] + BUBBLE_WIDTH / 2;
    let max_x = area_right(area) - BUBBLE_WIDTH / 2;
    let upper = if max_x >= min_x { max_x } else { min_x };
    let x = if center.0 < min_x { min_x } else if center.0 > upper { upper } else { center.0 };
    let above = position[1] - BUBBLE_HEIGHT - BUBBLE_GAP >= area.position[1];
    let below = window_bottom(position, size) + BUBBLE_HEIGHT / 2 + BUBBLE_GAP;
    let limit = area_bottom(area) - BUBBLE_HEIGHT / 2;
    let y = if above {
        position[1] - BUBBLE_HEIGHT / 2 - BUBBLE_GAP
    } else if below <= limit {
        below
    } else {
        limit
    };
    (x, y)
}

/// The arithmetic of placing the bubble stays within `i32`.
pub open spec fn bubble_defined(position: [i32; 2], size: [u32; 2], area: ActivityArea) -> bool {
    &&& fits(area.position[0] + BUBBLE_WIDTH / 2)
    &&& fits(area_right(area))
    &&& fits(area_right(area) - BUBBLE_WIDTH / 2)
    &&& fits(position[1] - BUBBLE_HEIGHT - BUBBLE_GAP)
    &&& position[1] - BUBBLE_HEIGHT - BUBBLE_GAP < area.position[1] ==> {
        &&& fits(window_bottom(position, size))
        &&& fits(window_bottom(position, size) + BUBBLE_HEIGHT / 2 + BUBBLE_GAP)
        &&& fits(area_bottom(area))
        &&& fits(area_bottom(area) - BUBBLE_HEIGHT / 2)
    }
}

/// The bubble's centre for a pet window at `position`: without a known
/// activity area, straight above the window's centre; with one, placed as
/// `spec_bubble_anchor` says.
pub fn bubble_anchor(position: [i32; 2], size: [u32; 2], area: Option<ActivityArea>) -> (r: [i32; 2])
    requires
        fits(spec_bubble_center(position, size).0),
        fits(spec_bubble_center(position, size).1),
        fits(position[1] - BUBBLE_HEIGHT / 2 - BUBBLE_GAP),
        area is Some ==> bubble_defined(position, size, area->0),
    ensures
        area is None ==> r[0] == spec_bubble_center(position, size).0 && r[1] == position[1]
            - BUBBLE_HEIGHT / 2 - BUBBLE_GAP,
        area is Some ==> r[0] == spec_bubble_anchor(position, size, area->0).0 && r[1]
            == spec_bubble_anchor(position, size, area->0).1,
{
    let center = bubble_center(position, size);
    let Some(area) = area else {
        return [center[0], position[1] - BUBBLE_HEIGHT / 2 - BUBBLE_GAP];
    };
    let min_x = area.position[0] + BUBBLE_WIDTH / 2;
    let max_x = area.position[0] + wrap(area.size[0]) - BUBBLE_WIDTH / 2;
    let upper = if max_x >= min_x { max_x } else { min_x };
    let x = if center[0] < min_x { min_x } else if center[0] > upper { upper } else { center[0] };
    let above = position[1] - BUBBLE_HEIGHT - BUBBLE_GAP >= area.position[1];
    let y = if above {
        position[1] - BUBBLE_HEIGHT / 2 - BUBBLE_GAP
    } else {
        let below = position[1] + wrap(size[1]) + BUBBLE_HEIGHT / 2 + BUBBLE_GAP;
        let limit = area.position[1] + wrap(area.size[1]) - BUBBLE_HEIGHT / 2;
        if below <= limit { below } else { limit }
    };
    [x, y]
}

/// Where the pet's context menu opens: at the cursor when its screen
/// position is known, else at the window's centre when the window's
/// position is known, else at the origin.
pub fn cursor_screen_position(cursor: Option<[i32; 2]>, window_position: Option<[i32; 2]>, size: [u32; 2]) -> (r:
    [i32; 2])
    requires
        cursor is None && window_position is Some ==> fits(window_position->0[0] + size[0] / 2)
            && fits(window_position->0[1] + size[1] / 2),
    ensures
        cursor is Some ==> r == cursor->0,
        cursor is None && window_position is Some ==> r[0] == window_position->0[0] + size[0] / 2
            && r[1] == window_position->0[1] + size[1] / 2,
        cursor is None && window_position is None ==> r[0] == 0 && r[1] == 0,
{
    if let Some(cursor) = cursor {
        return cursor;
    }
    if let Some(position) = window_position {
        let half_width: i32 = (size[0] / 2) as i32;
        let half_height: i32 = (size[1] / 2) as i32;
        return [position[0] + half_width, position[1] + half_height];
    }
    [0, 0]
}

/// Snapping back after a drag, along one axis of a window at `p` of
/// extent `w` in an area from `a` of extent `aw` (extents below 2^31): a
/// window whose near edge is at most 16 px past the area's low edge is
/// moved onto that edge; otherwise one whose far edge reaches within 16 px
/// of the area's high edge is moved flush against it; any other window
/// keeps its coordinate.
pub proof fn law_snap_back_moves_onto_near_edges(p: i32, w: u32, a: i32, aw: u32)
    requires
        w <= i32::MAX,
        aw <= i32::MAX,
    ensures
        DOCK_TOLERANCE == 16,
        p <= a + 16 ==> activity_snap_axis(p, w, a, aw) == a,
        p > a + 16 && p + w >= a + aw - 16 ==> activity_snap_axis(p, w, a, aw) == a + aw - w,
        p > a + 16 && p + w < a + aw - 16 ==> activity_snap_axis(p, w, a, aw) == p,
{
}

/// Docking: with extents below 2^31, the window at `position` of `size`
/// touches the left (top) edge of the area exactly when its left (top) edge
/// is at most 16 px past the area's, and the right (bottom) edge exactly
/// when its right (bottom) edge `position + size` is at least the area's
/// minus 16 px. This is what `dock_state` reports for the two rectangles.
pub proof fn law_current_dock_is_dock_state(position: [i32; 2], size: [u32; 2], area: ActivityArea)
    requires
        size[0] <= i32::MAX,
        size[1] <= i32::MAX,
        area.size[0] <= i32::MAX,
        area.size[1] <= i32::MAX,
        dock_defined(position, size, area),
    ensures
        ({
            let d = spec_current_dock(position, size, area);
            &&& d.left == (position[0] <= area.position[0] + 16)
            &&& d.top == (position[1] <= area.position[1] + 16)
            &&& d.right == (position[0] + size[0] >= area.position[0] + area.size[0] - 16)
            &&& d.bottom == (position[1] + size[1] >= area.position[1] + area.size[1] - 16)
            &&& d == spec_dock_state(
                spec_rect(position[0], position[1], size[0], size[1]),
                spec_rect(area.position[0], area.position[1], area.size[0], area.size[1]),
                DOCK_TOLERANCE,
            )
        }),
{
}

/// The bubble stays inside an area wide enough for it: its centre is at
/// least half a bubble (90 px) inside both side edges, and it sits right
/// above the window's centre whenever that is possible. Vertically it sits
/// above the window when there is room, else below the window but not past
/// the area's bottom.
pub proof fn law_bubble_stays_inside_the_area(position: [i32; 2], size: [u32; 2], area: ActivityArea)
    requires
        size[0] <= i32::MAX,
        size[1] <= i32::MAX,
        area.size[0] <= i32::MAX,
        area.size[1] <= i32::MAX,
        area.size[0] >= BUBBLE_WIDTH,
    ensures
        ({
            let r = spec_bubble_anchor(position, size, area);
            let cx = position[0] + size[0] / 2;
            &&& area.position[0] + 90 <= r.0 <= area.position[0] + area.size[0] - 90
            &&& area.position[0] + 90 <= cx <= area.position[0] + area.size[0] - 90 ==> r.0 == cx
            &&& position[1] - 64 >= area.position[1] ==> r.1 == position[1] - 38
            &&& position[1] - 64 < area.position[1] ==> r.1 <= area.position[1] + area.size[1] - 26
                && (r.1 == position[1] + size[1] + 38 || r.1 == area.position[1] + area.size[1] - 26)
        }),
{
}

} // verus!
