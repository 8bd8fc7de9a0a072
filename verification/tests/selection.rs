use deskhud_egui::hud::{active_hud_instances, HudGroupEntry, HudInstanceEntry, HudSource, HudSwitches};
use deskhud_egui::panels::PanelKind;
use deskhud_egui::selection::{disable_hud, find_group, find_instance, reset_record, ResetKind, group_key, instance_key, is_alignable_overlay, provides_alignment, AdjustmentTargets};

fn empty_targets() -> AdjustmentTargets {
    AdjustmentTargets {
        selected: None,
        adjustment_selection: None,
        adjust_open: false,
        hud_adjust_open: false,
        group_adjust_open: false,
        hud_adjust_key: None,
        group_adjust_key: None,
        shadow_open: false,
        order: Vec::new(),
        revision: 0,
    }
}

fn groups() -> Vec<HudGroupEntry> {
    vec![HudGroupEntry {
        id: "g1".to_string(),
        enabled: true,
        children: vec!["clock".to_string()],
    }]
}

#[test]
fn selecting_a_grouped_instance_opens_both_panels() {
    let mut targets = empty_targets();
    targets.select(instance_key("clock"));
    targets.sync_adjustment_targets(&groups());
    assert!(targets.adjust_open);
    assert!(targets.hud_adjust_open);
    assert!(targets.group_adjust_open);
    assert_eq!(targets.hud_adjust_key.as_deref(), Some("instance/clock"));
    assert_eq!(targets.group_adjust_key.as_deref(), Some("group/g1"));
    assert_eq!(targets.order, [PanelKind::HudAdjust, PanelKind::GroupAdjust]);
    assert_eq!(targets.revision, 2);
    assert_eq!(targets.adjustment_selection.as_deref(), Some("instance/clock"));

    // A second synchronisation changes nothing.
    targets.sync_adjustment_targets(&groups());
    assert_eq!(targets.revision, 2);
}

#[test]
fn selecting_a_group_opens_only_the_group_panel() {
    let mut targets = empty_targets();
    targets.select(group_key("g1"));
    targets.sync_adjustment_targets(&groups());
    assert!(!targets.hud_adjust_open);
    assert!(targets.group_adjust_open);
    assert_eq!(targets.group_adjust_key.as_deref(), Some("group/g1"));
    assert_eq!(targets.order, [PanelKind::GroupAdjust]);

    targets.select(instance_key("lonely"));
    targets.sync_adjustment_targets(&groups());
    assert!(targets.hud_adjust_open);
    assert_eq!(targets.group_adjust_key.as_deref(), Some("group/g1"));
    assert_eq!(targets.order, [PanelKind::GroupAdjust, PanelKind::HudAdjust]);
}

#[test]
fn disabling_the_selected_hud_clears_its_records() {
    let mut targets = empty_targets();
    targets.select(instance_key("clock"));
    targets.sync_adjustment_targets(&groups());
    targets.shadow_open = true;
    targets.forget_disabled_hud("instance/other");
    assert!(targets.selected.is_some());
    targets.forget_disabled_hud("instance/clock");
    assert!(targets.selected.is_none());
    assert!(targets.adjustment_selection.is_none());
    assert!(!targets.adjust_open);
    assert!(!targets.hud_adjust_open);
    assert!(targets.hud_adjust_key.is_none());
    assert!(!targets.shadow_open);
    assert!(targets.group_adjust_open);
}

#[test]
fn deleting_the_selected_group_clears_the_selection() {
    let mut targets = empty_targets();
    targets.select(group_key("g1"));
    targets.forget_deleted_group("group/g2");
    assert_eq!(targets.selected.as_deref(), Some("group/g1"));
    targets.forget_deleted_group("group/g1");
    assert!(targets.selected.is_none());
    assert!(!targets.adjust_open);
}

#[test]
fn a_new_session_starts_without_selection() {
    let mut targets = empty_targets();
    targets.select(instance_key("clock"));
    targets.sync_adjustment_targets(&groups());
    targets.begin_session();
    assert!(targets.selected.is_none());
    assert!(targets.order.is_empty());
    assert!(!targets.adjust_open && !targets.hud_adjust_open && !targets.group_adjust_open);
    assert_eq!(targets.revision, 2);
}

#[test]
fn only_instances_and_groups_are_alignable() {
    assert!(is_alignable_overlay("instance/clock"));
    assert!(is_alignable_overlay("group/g1"));
    assert!(!is_alignable_overlay("layout-root"));
    assert!(!is_alignable_overlay("instances/clock"));
}

#[test]
fn dragged_group_ignores_its_own_members_for_alignment() {
    let groups = groups();
    assert!(!provides_alignment(&groups, "instance/clock", "group/g1"));
    assert!(provides_alignment(&groups, "instance/weather", "group/g1"));
    assert!(provides_alignment(&groups, "instance/clock", "group/g2"));
    assert!(provides_alignment(&groups, "instance/clock", "instance/weather"));
    assert!(!provides_alignment(&groups, "instance/clock", "instance/clock"));
    assert!(!provides_alignment(&groups, "layout-preview", "instance/moving"));
    // A grouped instance may align to its own group.
    assert!(provides_alignment(&groups, "group/g1", "instance/clock"));
}

fn clock_switches() -> HudSwitches {
    HudSwitches {
        master_enabled: true,
        instances: vec![
            HudInstanceEntry {
                id: "clock".to_string(),
                plugin_id: "demo".to_string(),
                contribution_id: "clock".to_string(),
                enabled: true,
                plugin_enabled: true,
            },
            HudInstanceEntry {
                id: "tip".to_string(),
                plugin_id: "demo".to_string(),
                contribution_id: "tip".to_string(),
                enabled: true,
                plugin_enabled: true,
            },
        ],
        groups: groups(),
    }
}

#[test]
fn disabling_a_hud_from_the_editor_switches_it_off_once() {
    let sources = vec![
        HudSource { plugin_id: "demo".to_string(), contribution_id: "clock".to_string() },
        HudSource { plugin_id: "demo".to_string(), contribution_id: "tip".to_string() },
    ];
    let mut switches = clock_switches();
    let mut targets = empty_targets();
    targets.select(instance_key("clock"));
    targets.sync_adjustment_targets(&switches.groups);
    let mut window_revision: u64 = u64::MAX;

    assert!(!disable_hud(&mut switches, &mut targets, "missing", &mut window_revision));
    assert_eq!(window_revision, u64::MAX);
    assert!(targets.selected.is_some());

    assert!(disable_hud(&mut switches, &mut targets, "clock", &mut window_revision));
    assert!(!switches.instances[0].enabled);
    assert!(switches.instances[1].enabled);
    assert_eq!(window_revision, 0);
    assert!(targets.selected.is_none());
    assert!(!targets.hud_adjust_open);
    let active = active_hud_instances(&switches, &sources);
    assert_eq!(active.len(), 1);
    assert_eq!(active[0].index, 1);

    assert!(!disable_hud(&mut switches, &mut targets, "clock", &mut window_revision));
    assert_eq!(window_revision, 0);
}

#[test]
fn resets_advance_the_revision_only_when_their_record_exists() {
    let switches = clock_switches();
    let mut revision: u64 = 7;
    assert!(reset_record(ResetKind::HudSize, "tip", &switches, &mut revision));
    assert_eq!(revision, 8);
    assert!(reset_record(ResetKind::MemberPosition, "clock", &switches, &mut revision));
    assert_eq!(revision, 9);
    assert!(!reset_record(ResetKind::HudSize, "missing", &switches, &mut revision));
    assert_eq!(revision, 9);
    assert!(reset_record(ResetKind::GroupSize, "g1", &switches, &mut revision));
    assert_eq!(revision, 10);
    assert!(!reset_record(ResetKind::GroupSize, "clock", &switches, &mut revision));
    assert_eq!(revision, 10);
    let mut last: u64 = u64::MAX;
    assert!(reset_record(ResetKind::TopLevelPosition, "anything", &switches, &mut last));
    assert_eq!(last, 0);
    assert_eq!(find_instance(&switches.instances, "tip"), Some(1));
    assert_eq!(find_instance(&switches.instances, "g1"), None);
    assert_eq!(find_group(&switches.groups, "g1"), Some(0));
    assert_eq!(find_group(&switches.groups, "tip"), None);
}
