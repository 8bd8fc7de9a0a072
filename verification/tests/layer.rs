use deskhud_egui::layer::HudLayerSession;
use deskhud_egui::menu::WindowLayer;

#[test]
fn layout_mode_keeps_the_chosen_layer_for_later() {
    let mut session = HudLayerSession::new();
    assert_eq!(session.set_window_layer(WindowLayer::Normal), Some(WindowLayer::Normal));
    assert_eq!(
        session.enter_layout_mode(WindowLayer::Normal),
        Some(WindowLayer::AlwaysOnTop)
    );
    assert_eq!(session.enter_layout_mode(WindowLayer::AlwaysOnTop), None);
    assert_eq!(session.window_layer(WindowLayer::AlwaysOnTop), WindowLayer::Normal);
    assert_eq!(session.set_window_layer(WindowLayer::AlwaysOnBottom), None);
    assert_eq!(
        session.window_layer(WindowLayer::AlwaysOnTop),
        WindowLayer::AlwaysOnBottom
    );
    assert_eq!(session.leave_layout_mode(), Some(WindowLayer::AlwaysOnBottom));
    assert_eq!(session.leave_layout_mode(), None);
    assert_eq!(session.window_layer(WindowLayer::Normal), WindowLayer::Normal);
}
