use deskhud_egui::bubble::{BubbleActions, BubbleState, ScreenPoint};

#[test]
fn bubble_moves_only_when_its_anchor_changes_while_showing() {
    let mut bubble = BubbleState::new();
    let anchor = ScreenPoint { x: 200, y: 100 };
    assert_eq!(
        bubble.update(true, anchor),
        BubbleActions {
            move_to: Some(ScreenPoint { x: 110, y: 74 }),
            set_visible: Some(true),
        }
    );
    assert!(bubble.is_visible());
    assert_eq!(
        bubble.update(true, anchor),
        BubbleActions {
            move_to: None,
            set_visible: None,
        }
    );
    assert_eq!(
        bubble.update(false, ScreenPoint { x: 0, y: 0 }),
        BubbleActions {
            move_to: None,
            set_visible: Some(false),
        }
    );
    assert_eq!(bubble.last_anchor, None);
    assert_eq!(bubble.update(true, anchor).move_to, Some(ScreenPoint { x: 110, y: 74 }));
    bubble.hide_bubble();
    assert!(!bubble.is_visible());
    assert_eq!(bubble.last_anchor, None);
}
