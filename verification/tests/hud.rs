use deskhud_egui::hud::{
    active_hud_instances, group_of_instance, has_active_hud, source_names, ActiveInstance,
    ContributionName, HudGroupEntry, HudInstanceEntry, HudSource, HudSwitches, PluginName,
};

const DEMO: &str = "hud.deskhud.demo";

fn source(plugin: &str, contribution: &str) -> HudSource {
    HudSource {
        plugin_id: plugin.to_string(),
        contribution_id: contribution.to_string(),
    }
}

fn instance(id: &str, plugin: &str, contribution: &str, enabled: bool) -> HudInstanceEntry {
    HudInstanceEntry {
        id: id.to_string(),
        plugin_id: plugin.to_string(),
        contribution_id: contribution.to_string(),
        enabled,
        plugin_enabled: true,
    }
}

/// The built-in demo plugin contributes a clock (on by default) and a tip
/// (off by default).
fn demo_sources() -> Vec<HudSource> {
    vec![source(DEMO, "clock"), source(DEMO, "tip")]
}

fn demo_switches() -> HudSwitches {
    HudSwitches {
        master_enabled: true,
        instances: vec![
            instance("clock-1", DEMO, "clock", true),
            instance("tip-1", DEMO, "tip", false),
        ],
        groups: Vec::new(),
    }
}

fn demo_count(switches: &HudSwitches, sources: &Vec<HudSource>) -> usize {
    active_hud_instances(switches, sources)
        .iter()
        .filter(|active| switches.instances[active.index].plugin_id == DEMO)
        .count()
}

#[test]
fn registry_contributions_follow_all_three_enable_levels() {
    let sources = demo_sources();
    let mut switches = demo_switches();
    let initial = active_hud_instances(&switches, &sources);
    assert_eq!(initial.len(), 1);
    assert_eq!(switches.instances[initial[0].index].contribution_id, "clock");

    switches.instances[1].enabled = true;
    assert_eq!(demo_count(&switches, &sources), 2);

    for entry in switches.instances.iter_mut() {
        if entry.plugin_id == DEMO {
            entry.plugin_enabled = false;
        }
    }
    assert_eq!(demo_count(&switches, &sources), 0);
}

#[test]
fn group_switch_gates_members_without_making_them_ungrouped() {
    let sources = demo_sources();
    let mut switches = demo_switches();
    switches.instances[1].enabled = true;
    switches.groups.push(HudGroupEntry {
        id: "mixed".to_string(),
        enabled: true,
        children: switches.instances.iter().map(|i| i.id.clone()).collect(),
    });
    let active = active_hud_instances(&switches, &sources);
    assert!(!active.is_empty());
    assert!(active.iter().all(|a| a.group == Some(0)));
    switches.groups[0].enabled = false;
    assert!(active_hud_instances(&switches, &sources).is_empty());
    assert_eq!(group_of_instance(&switches.groups, &"clock-1".to_string()), Some(0));
}

#[test]
fn master_switch_and_registration_gate_everything() {
    let sources = demo_sources();
    let mut switches = demo_switches();
    assert!(has_active_hud(&switches, &sources));
    switches.master_enabled = false;
    assert!(active_hud_instances(&switches, &sources).is_empty());
    assert!(!has_active_hud(&switches, &sources));
    switches.master_enabled = true;
    let unregistered = vec![source(DEMO, "tip")];
    assert!(!has_active_hud(&switches, &unregistered));
    assert!(active_hud_instances(&switches, &unregistered).is_empty());
}

#[test]
fn last_group_listing_an_instance_owns_it() {
    let sources = demo_sources();
    let mut switches = demo_switches();
    switches.groups = vec![
        HudGroupEntry {
            id: "a".to_string(),
            enabled: false,
            children: vec!["clock-1".to_string()],
        },
        HudGroupEntry {
            id: "b".to_string(),
            enabled: true,
            children: vec!["other".to_string(), "clock-1".to_string()],
        },
    ];
    assert_eq!(
        active_hud_instances(&switches, &sources),
        vec![ActiveInstance {
            index: 0,
            group: Some(1)
        }]
    );
    assert_eq!(group_of_instance(&switches.groups, &"tip-1".to_string()), None);
}

#[test]
fn source_names_use_the_registry_names_or_fall_back_to_identifiers() {
    let plugins = vec![PluginName { id: DEMO.to_string(), display_name: "Demo".to_string() }];
    let contributions = vec![
        ContributionName { plugin_id: "other".to_string(), id: "clock".to_string(), label: "Other clock".to_string() },
        ContributionName { plugin_id: DEMO.to_string(), id: "clock".to_string(), label: "Clock".to_string() },
    ];
    let (plugin, contribution) = source_names(&plugins, &contributions, &DEMO.to_string(), &"clock".to_string());
    assert_eq!(plugin, "Demo");
    assert_eq!(contribution, "Clock");
    let (plugin, contribution) =
        source_names(&plugins, &contributions, &"missing".to_string(), &"tip".to_string());
    assert_eq!(plugin, "missing");
    assert_eq!(contribution, "tip");
}
