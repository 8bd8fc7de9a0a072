use deskhud_egui::panels::{panel_slot, record_adjustment_open, PanelKind, TreePanels};

const EDITOR_PANEL_TOP: f32 = 32.0;
const EDITOR_PANEL_HEIGHT: f32 = 420.0;
const EDITOR_PANEL_GAP: f32 = 10.0;

/// The top edge of a panel in its column, as the editor places it when the
/// activity area is tall enough for a full panel.
fn panel_top(order: &Vec<PanelKind>, panel: PanelKind) -> f32 {
    EDITOR_PANEL_TOP + panel_slot(order, panel) as f32 * (EDITOR_PANEL_HEIGHT + EDITOR_PANEL_GAP)
}

#[test]
fn open_tree_panels_stack_from_the_shared_top_edge() {
    let mut layout = TreePanels {
        information_open: true,
        active_open: true,
        order: Vec::new(),
        revision: 0,
    };
    layout.sync_panel_order();

    assert_eq!(layout.order, [PanelKind::InformationTree, PanelKind::ActiveTree]);
    assert_eq!(panel_top(&layout.order, PanelKind::InformationTree), EDITOR_PANEL_TOP);
    assert_eq!(
        panel_top(&layout.order, PanelKind::ActiveTree),
        EDITOR_PANEL_TOP + EDITOR_PANEL_HEIGHT + EDITOR_PANEL_GAP
    );
}

#[test]
fn closing_reflows_and_reopening_appends_to_the_column() {
    let mut layout = TreePanels {
        information_open: true,
        active_open: true,
        order: vec![PanelKind::InformationTree, PanelKind::ActiveTree],
        revision: 0,
    };
    let initial_revision = layout.revision;

    layout.information_open = false;
    layout.sync_panel_order();
    assert_eq!(layout.order, [PanelKind::ActiveTree]);
    assert_eq!(panel_top(&layout.order, PanelKind::ActiveTree), EDITOR_PANEL_TOP);
    assert_ne!(layout.revision, initial_revision);

    layout.information_open = true;
    layout.sync_panel_order();
    assert_eq!(layout.order, [PanelKind::ActiveTree, PanelKind::InformationTree]);
    assert_eq!(
        panel_top(&layout.order, PanelKind::InformationTree),
        EDITOR_PANEL_TOP + EDITOR_PANEL_HEIGHT + EDITOR_PANEL_GAP
    );
}

#[test]
fn adjustment_panels_use_the_shared_editor_size_and_stack_step() {
    let order = vec![PanelKind::HudAdjust, PanelKind::GroupAdjust];

    assert_eq!(panel_top(&order, PanelKind::HudAdjust), EDITOR_PANEL_TOP);
    assert_eq!(
        panel_top(&order, PanelKind::GroupAdjust),
        EDITOR_PANEL_TOP + EDITOR_PANEL_HEIGHT + EDITOR_PANEL_GAP
    );
}

#[test]
fn syncing_an_unchanged_column_keeps_the_revision() {
    let mut layout = TreePanels {
        information_open: false,
        active_open: true,
        order: vec![PanelKind::ActiveTree],
        revision: u64::MAX,
    };
    layout.sync_panel_order();
    assert_eq!(layout.revision, u64::MAX);
    layout.active_open = false;
    layout.sync_panel_order();
    assert!(layout.order.is_empty());
    assert_eq!(layout.revision, 0);
}

#[test]
fn tree_column_drops_foreign_panels() {
    let mut layout = TreePanels {
        information_open: true,
        active_open: false,
        order: vec![PanelKind::HudAdjust, PanelKind::InformationTree],
        revision: 7,
    };
    layout.sync_panel_order();
    assert_eq!(layout.order, [PanelKind::InformationTree]);
    assert_eq!(layout.revision, 8);
}

#[test]
fn missing_panel_sits_below_the_column() {
    let order = vec![PanelKind::HudAdjust];
    assert_eq!(panel_slot(&order, PanelKind::GroupAdjust), 1);
    assert_eq!(panel_slot(&Vec::new(), PanelKind::GroupAdjust), 0);
}

#[test]
fn reopened_adjustment_panel_moves_to_the_bottom() {
    let mut order = vec![PanelKind::HudAdjust, PanelKind::GroupAdjust];
    let mut revision = 3;
    record_adjustment_open(&mut order, &mut revision, PanelKind::HudAdjust);
    assert_eq!(order, [PanelKind::GroupAdjust, PanelKind::HudAdjust]);
    assert_eq!(revision, 4);
    record_adjustment_open(&mut order, &mut revision, PanelKind::HudAdjust);
    assert_eq!(order, [PanelKind::GroupAdjust, PanelKind::HudAdjust]);
    assert_eq!(revision, 5);
}
