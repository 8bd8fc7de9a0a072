use deskhud_egui::hud::{
    active_hud_instances, HudGroupEntry, HudInstanceEntry, HudSource, HudSwitches,
};
use deskhud_egui::slots::{plan_hud_slots, ActiveFrame};

fn instance(id: &str, contribution: &str) -> HudInstanceEntry {
    HudInstanceEntry {
        id: id.to_string(),
        plugin_id: "demo".to_string(),
        contribution_id: contribution.to_string(),
        enabled: true,
        plugin_enabled: true,
    }
}

fn frames_of(switches: &HudSwitches, sources: &Vec<HudSource>) -> Vec<ActiveFrame> {
    active_hud_instances(switches, sources)
        .iter()
        .map(|active| ActiveFrame {
            instance_id: switches.instances[active.index].id.clone(),
            grouped: active.group.is_some(),
        })
        .collect()
}

fn sources() -> Vec<HudSource> {
    ["clock", "tip", "meter"]
        .iter()
        .map(|id| HudSource { plugin_id: "demo".to_string(), contribution_id: id.to_string() })
        .collect()
}

#[test]
fn empty_groups_only_produce_editor_slots() {
    let switches = HudSwitches {
        master_enabled: true,
        instances: Vec::new(),
        groups: vec![HudGroupEntry { id: "empty".to_string(), enabled: true, children: Vec::new() }],
    };
    let frames = frames_of(&switches, &sources());
    let plan = plan_hud_slots(&switches.instances, &frames, &switches.groups, false);
    assert!(plan.instances.is_empty() && plan.groups.is_empty());
    let plan = plan_hud_slots(&switches.instances, &frames, &switches.groups, true);
    assert_eq!(plan.instances.len() + plan.groups.len(), 1);
    assert_eq!(switches.groups[plan.groups[0].group].id, "empty");
    assert!(plan.groups[0].members.is_empty());
}

#[test]
fn a_group_is_one_slot_with_its_members_in_listed_order() {
    let instances = vec![instance("a", "clock"), instance("b", "tip"), instance("c", "meter")];
    let switches = HudSwitches {
        master_enabled: true,
        groups: vec![HudGroupEntry {
            id: "combined".to_string(),
            enabled: true,
            children: vec!["c".to_string(), "b".to_string(), "a".to_string()],
        }],
        instances,
    };
    let frames = frames_of(&switches, &sources());
    let plan = plan_hud_slots(&switches.instances, &frames, &switches.groups, false);
    assert!(plan.instances.is_empty());
    assert_eq!(plan.groups.len(), 1);
    assert_eq!(plan.groups[0].group, 0);
    let members: Vec<&str> =
        plan.groups[0].members.iter().map(|k| frames[*k].instance_id.as_str()).collect();
    assert_eq!(members, ["c", "b", "a"]);
}

#[test]
fn ungrouped_frames_come_first_and_a_frame_joins_one_group_only() {
    let switches = HudSwitches {
        master_enabled: true,
        instances: vec![instance("a", "clock"), instance("b", "tip"), instance("c", "meter")],
        groups: vec![
            HudGroupEntry { id: "off".to_string(), enabled: false, children: vec!["a".to_string()] },
            HudGroupEntry {
                id: "first".to_string(),
                enabled: true,
                children: vec!["b".to_string(), "b".to_string()],
            },
            HudGroupEntry { id: "second".to_string(), enabled: true, children: vec!["b".to_string()] },
        ],
    };
    let frames = frames_of(&switches, &sources());
    // "a" sits in a switched-off group and draws nothing; "b" is grouped;
    // "c" stands alone.
    assert_eq!(frames.len(), 2);
    let plan = plan_hud_slots(&switches.instances, &frames, &switches.groups, false);
    assert_eq!(plan.instances.len(), 1);
    assert_eq!(frames[plan.instances[0]].instance_id, "c");
    assert_eq!(plan.groups.len(), 1);
    assert_eq!(plan.groups[0].group, 1);
    assert_eq!(plan.groups[0].members.len(), 1);

    // The editor shows every group; "second" lists "b" but "first" took it.
    let plan = plan_hud_slots(&switches.instances, &frames, &switches.groups, true);
    let shown: Vec<(usize, usize)> =
        plan.groups.iter().map(|slot| (slot.group, slot.members.len())).collect();
    assert_eq!(shown, [(0, 0), (1, 1), (2, 0)]);
}
