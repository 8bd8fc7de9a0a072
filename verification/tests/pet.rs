use deskhud_egui::dock::DockState;
use deskhud_egui::pet::{
    is_double_click, pet_button, GlobalButtons, PetFrameState, PetMouseButton, PointerButton,
    PointerEvent, PointerState,
};

#[test]
fn buttons_map_to_pet_buttons() {
    assert_eq!(pet_button(PointerButton::Left), Some(PetMouseButton::Primary));
    assert_eq!(pet_button(PointerButton::Right), Some(PetMouseButton::Secondary));
    assert_eq!(pet_button(PointerButton::Other(3)), Some(PetMouseButton::Secondary));
    assert_eq!(pet_button(PointerButton::Middle), Some(PetMouseButton::Middle));
    assert_eq!(pet_button(PointerButton::Back), None);
    assert_eq!(pet_button(PointerButton::Other(4)), None);
}

#[test]
fn double_clicks_need_the_same_button_within_half_a_second() {
    assert!(is_double_click(Some((PetMouseButton::Primary, 500)), PetMouseButton::Primary));
    assert!(!is_double_click(Some((PetMouseButton::Primary, 501)), PetMouseButton::Primary));
    assert!(!is_double_click(Some((PetMouseButton::Middle, 10)), PetMouseButton::Primary));
    assert!(!is_double_click(None, PetMouseButton::Primary));
}

#[test]
fn dock_changes_are_reported_once() {
    let mut state = PetFrameState::new();
    let left = DockState { left: true, ..DockState::free() };
    assert_eq!(state.dock_changed(left), Some((DockState::free(), left)));
    assert_eq!(state.dock_changed(left), None);
}

#[test]
fn a_finished_drag_settles_for_four_frames() {
    let mut state = PetFrameState::new();
    let actions = state.settle(true, true, false);
    assert!(!actions.settle_snap && !actions.sample_position && !actions.drag_ended);
    assert!(state.last_drag);

    let actions = state.settle(false, false, false);
    assert!(actions.settle_snap);
    assert!(actions.sample_position);
    assert_eq!(state.snap_frames, 3);
    for remaining in [2u8, 1, 0] {
        let actions = state.settle(false, false, false);
        assert!(actions.settle_snap);
        assert_eq!(state.snap_frames, remaining);
        assert_eq!(actions.sample_position, remaining > 0);
    }
    let actions = state.settle(false, false, true);
    assert!(!actions.settle_snap);
    assert!(actions.outside_snap);
    assert!(!actions.sample_position);
}

#[test]
fn a_missed_release_ends_the_drag() {
    let mut state = PetFrameState::new();
    state.settle(true, true, false);
    let actions = state.settle(true, false, true);
    assert!(actions.drag_ended);
    assert!(!actions.outside_snap);
    assert!(actions.sample_position);
    assert!(!state.last_drag);
    assert_eq!(state.snap_frames, 4);
}

#[test]
fn position_dirty_is_taken_once() {
    let mut state = PetFrameState::new();
    assert!(!state.take_position_dirty());
    state.mark_position_dirty();
    assert!(state.take_position_dirty());
    assert!(!state.take_position_dirty());
}

fn buttons(primary: bool, secondary: bool, middle: bool) -> GlobalButtons {
    GlobalButtons { primary_down: primary, secondary_down: secondary, middle_down: middle }
}

#[test]
fn pointer_changes_are_reported_once_in_order() {
    let mut state = PointerState::new();
    assert!(state.observe(buttons(false, false, false), false, false, false).is_empty());

    let events = state.observe(buttons(true, false, true), true, true, false);
    assert_eq!(
        events,
        vec![
            PointerEvent::GlobalPressed(PetMouseButton::Primary),
            PointerEvent::GlobalPressed(PetMouseButton::Middle),
            PointerEvent::Hover(true),
        ]
    );
    // Moving far enough while pressed over the pet starts a drag.
    assert_eq!(
        state.observe(buttons(true, false, true), true, true, true),
        vec![PointerEvent::DragStarted]
    );
    // The drag goes on outside the pet's shape while the button is held.
    assert_eq!(
        state.observe(buttons(true, false, false), false, true, false),
        vec![PointerEvent::GlobalReleased(PetMouseButton::Middle), PointerEvent::Hover(false)]
    );
    assert!(state.last_drag);
    assert_eq!(
        state.observe(buttons(false, false, false), false, false, false),
        vec![PointerEvent::GlobalReleased(PetMouseButton::Primary), PointerEvent::DragEnded]
    );
    assert!(state.observe(buttons(false, false, false), false, false, false).is_empty());
}

#[test]
fn a_press_outside_the_pet_does_not_drag_it() {
    let mut state = PointerState::new();
    let events = state.observe(buttons(true, false, false), false, true, true);
    assert_eq!(events, vec![PointerEvent::GlobalPressed(PetMouseButton::Primary)]);
    assert!(!state.last_drag);
}
