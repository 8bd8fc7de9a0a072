use deskhud_egui::activity::{
    bubble_anchor, bubble_center, current_dock, cursor_screen_position, is_outside_activity_area,
    snap_to_activity_area, ActivityArea,
};
use deskhud_egui::dock::{dock_state, snap_position, DockState, Rect};

const AREA: Rect = Rect {
    left: -100,
    top: 20,
    right: 900,
    bottom: 820,
};
const SIZE: [u32; 2] = [100, 80];

#[test]
fn detects_each_edge_and_all_four_corners() {
    let cases = [
        (
            [-100, 200],
            DockState {
                left: true,
                ..DockState::free()
            },
        ),
        (
            [800, 200],
            DockState {
                right: true,
                ..DockState::free()
            },
        ),
        (
            [200, 20],
            DockState {
                top: true,
                ..DockState::free()
            },
        ),
        (
            [200, 740],
            DockState {
                bottom: true,
                ..DockState::free()
            },
        ),
        (
            [-100, 20],
            DockState {
                left: true,
                top: true,
                ..DockState::free()
            },
        ),
        (
            [800, 20],
            DockState {
                right: true,
                top: true,
                ..DockState::free()
            },
        ),
        (
            [-100, 740],
            DockState {
                left: true,
                bottom: true,
                ..DockState::free()
            },
        ),
        (
            [800, 740],
            DockState {
                right: true,
                bottom: true,
                ..DockState::free()
            },
        ),
    ];
    for (position, expected) in cases {
        assert_eq!(
            dock_state(
                Rect::new(position[0], position[1], SIZE[0], SIZE[1]),
                AREA,
                16
            ),
            expected
        );
    }
}

#[test]
fn snaps_negative_coordinate_edges_without_touching_free_axis() {
    assert_eq!(snap_position([-115, 333], SIZE, AREA, 16), [-100, 333]);
    assert_eq!(snap_position([333, 4], SIZE, AREA, 16), [333, 20]);
    assert_eq!(snap_position([-115, 4], SIZE, AREA, 16), [-100, 20]);
    assert_eq!(snap_position([333, 333], SIZE, AREA, 16), [333, 333]);
}

#[test]
fn rect_new_saturates_far_edges() {
    let r = Rect::new(i32::MAX - 10, -5, 100, u32::MAX);
    assert_eq!(r.left, i32::MAX - 10);
    assert_eq!(r.right, i32::MAX);
    assert_eq!(r.top, -5);
    assert_eq!(r.bottom, i32::MAX - 5);
    let r = Rect::new(10, 20, 30, 40);
    assert_eq!(r, Rect { left: 10, top: 20, right: 40, bottom: 60 });
}

#[test]
fn negative_tolerance_counts_as_zero() {
    let window = Rect::new(-99, 200, 100, 80);
    assert_eq!(dock_state(window, AREA, -50), DockState::free());
    assert_eq!(dock_state(window, AREA, 1).left, true);
}

#[test]
fn snap_to_right_and_bottom_edges() {
    assert_eq!(snap_position([790, 730], SIZE, AREA, 16), [800, 740]);
    assert_eq!(snap_position([830, 760], SIZE, AREA, 16), [800, 740]);
}

#[test]
fn snapped_window_is_docked_on_the_snapped_side() {
    let snapped = snap_position([790, 5], SIZE, AREA, 16);
    let dock = dock_state(Rect::new(snapped[0], snapped[1], SIZE[0], SIZE[1]), AREA, 16);
    assert!(dock.right);
    assert!(dock.top);
    assert!(!dock.left);
}

const PET_AREA: ActivityArea = ActivityArea {
    position: [-100, 20],
    size: [1000, 800],
};

#[test]
fn pet_dock_uses_sixteen_pixels_of_slack() {
    assert_eq!(current_dock(None, SIZE, Some(PET_AREA)), DockState::free());
    assert_eq!(current_dock(Some([0, 0]), SIZE, None), DockState::free());
    assert_eq!(
        current_dock(Some([-84, 300]), SIZE, Some(PET_AREA)),
        DockState {
            left: true,
            ..DockState::free()
        }
    );
    assert_eq!(
        current_dock(Some([-83, 724]), SIZE, Some(PET_AREA)),
        DockState {
            bottom: true,
            ..DockState::free()
        }
    );
}

#[test]
fn pet_snap_back_reports_only_moves() {
    assert_eq!(snap_to_activity_area(Some([300, 300]), SIZE, Some(PET_AREA)), None);
    assert_eq!(
        snap_to_activity_area(Some([-120, 300]), SIZE, Some(PET_AREA)),
        Some([-100, 300])
    );
    assert_eq!(
        snap_to_activity_area(Some([810, 750]), SIZE, Some(PET_AREA)),
        Some([800, 740])
    );
    assert_eq!(snap_to_activity_area(Some([-100, 20]), SIZE, Some(PET_AREA)), None);
    assert_eq!(snap_to_activity_area(None, SIZE, Some(PET_AREA)), None);
    assert_eq!(snap_to_activity_area(Some([-120, 300]), SIZE, None), None);
}

#[test]
fn pet_outside_check_covers_every_side() {
    assert!(!is_outside_activity_area(Some([0, 100]), SIZE, Some(PET_AREA)));
    assert!(is_outside_activity_area(Some([-101, 100]), SIZE, Some(PET_AREA)));
    assert!(is_outside_activity_area(Some([0, 19]), SIZE, Some(PET_AREA)));
    assert!(is_outside_activity_area(Some([801, 100]), SIZE, Some(PET_AREA)));
    assert!(is_outside_activity_area(Some([0, 741]), SIZE, Some(PET_AREA)));
    assert!(!is_outside_activity_area(Some([800, 740]), SIZE, Some(PET_AREA)));
    assert!(!is_outside_activity_area(None, SIZE, Some(PET_AREA)));
    assert!(!is_outside_activity_area(Some([-500, 0]), SIZE, None));
}

#[test]
fn bubble_sits_above_or_below_inside_the_area() {
    assert_eq!(bubble_center([100, 300], [100, 80]), [150, 340]);
    assert_eq!(bubble_anchor([100, 300], [100, 80], None), [150, 262]);
    assert_eq!(bubble_anchor([100, 300], [100, 80], Some(PET_AREA)), [150, 262]);
    // Too close to the top: below the window.
    assert_eq!(bubble_anchor([100, 40], [100, 80], Some(PET_AREA)), [150, 158]);
    // Near the left edge: kept half a bubble inside.
    assert_eq!(bubble_anchor([-100, 300], [40, 80], Some(PET_AREA)), [-10, 262]);
    // Near the bottom: kept inside the bottom edge.
    let area = ActivityArea {
        position: [0, 0],
        size: [1000, 150],
    };
    assert_eq!(bubble_anchor([100, 40], [100, 80], Some(area)), [150, 124]);
}

#[test]
fn menu_anchor_prefers_cursor_then_window_centre() {
    assert_eq!(cursor_screen_position(Some([5, 6]), Some([100, 100]), SIZE), [5, 6]);
    assert_eq!(cursor_screen_position(None, Some([100, 100]), [101, 81]), [150, 140]);
    assert_eq!(cursor_screen_position(None, None, SIZE), [0, 0]);
}
