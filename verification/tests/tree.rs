use deskhud_egui::hud::{HudGroupEntry, HudInstanceEntry, HudSource, HudSwitches};
use deskhud_egui::tree::{active_tree, switched_on_count};

fn instance(id: &str, contribution: &str, enabled: bool) -> HudInstanceEntry {
    HudInstanceEntry {
        id: id.to_string(),
        plugin_id: "demo".to_string(),
        contribution_id: contribution.to_string(),
        enabled,
        plugin_enabled: true,
    }
}

fn sources() -> Vec<HudSource> {
    ["clock", "tip", "meter"]
        .iter()
        .map(|id| HudSource { plugin_id: "demo".to_string(), contribution_id: id.to_string() })
        .collect()
}

fn switches() -> HudSwitches {
    HudSwitches {
        master_enabled: true,
        instances: vec![
            instance("a", "clock", true),
            instance("b", "tip", false),
            instance("c", "meter", true),
            instance("d", "unknown", true),
        ],
        groups: vec![
            HudGroupEntry {
                id: "g".to_string(),
                enabled: true,
                children: vec!["c".to_string(), "b".to_string(), "a".to_string()],
            },
            HudGroupEntry { id: "off".to_string(), enabled: false, children: Vec::new() },
        ],
    }
}

#[test]
fn active_tree_lists_groups_with_their_members_that_are_on() {
    let switches = switches();
    let tree = active_tree(&switches, &sources());
    // "d" is ungrouped but its contribution is not registered.
    assert!(tree.ungrouped.is_empty());
    assert_eq!(tree.groups.len(), 1);
    assert_eq!(tree.groups[0].group, 0);
    assert_eq!(tree.groups[0].members, [2, 0]);
    assert_eq!(tree.shown, 3);
    assert_eq!(tree.total, 6);
}

#[test]
fn active_tree_is_empty_while_the_master_switch_is_off() {
    let mut switches = switches();
    switches.master_enabled = false;
    let tree = active_tree(&switches, &sources());
    assert!(tree.ungrouped.is_empty() && tree.groups.is_empty());
    assert_eq!(tree.shown, 0);
    assert_eq!(tree.total, 6);
}

#[test]
fn ungrouped_instances_that_are_on_come_first() {
    let mut switches = switches();
    switches.groups[0].children = vec!["c".to_string()];
    let tree = active_tree(&switches, &sources());
    assert_eq!(tree.ungrouped, [0]);
    assert_eq!(tree.groups[0].members, [2]);
    assert_eq!(tree.shown, 3);
}

#[test]
fn information_summary_counts_switched_on_instances() {
    assert_eq!(switched_on_count(&switches().instances), 3);
    assert_eq!(switched_on_count(&Vec::new()), 0);
}
