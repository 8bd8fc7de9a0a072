//! Which HUD instances contribute frames: an instance is drawn only while
//! the HUD master switch, its plugin's switch and its own switch are all on,
//! its contribution is registered, and the group it belongs to (if any) is
//! switched on. Group membership is kept while a group is switched off.

use vstd::prelude::*;

verus! {

broadcast use vstd::seq_lib::group_seq_properties;

/// A registered HUD contribution: its plugin and its identifier within the
/// plugin.
pub struct HudSource {
    pub plugin_id: String,
    pub contribution_id: String,
}

/// One configured HUD instance.
pub struct HudInstanceEntry {
    pub id: String,
    pub plugin_id: String,
    pub contribution_id: String,
    /// The instance's own switch.
    pub enabled: bool,
    /// The switch of the instance's plugin.
    pub plugin_enabled: bool,
}

/// One HUD group and the identifiers of its members.
pub struct HudGroupEntry {
    pub id: String,
    pub enabled: bool,
    pub children: Vec<String>,
}

/// The HUD preferences that decide which instances are drawn.
pub struct HudSwitches {
    /// The HUD master switch.
    pub master_enabled: bool,
    pub instances: Vec<HudInstanceEntry>,
    pub groups: Vec<HudGroupEntry>,
}

/// A plugin's identifier and the name it is shown under.
pub struct PluginName {
    pub id: String,
    pub display_name: String,
}

/// A HUD contribution's plugin, identifier and label.
pub struct ContributionName {
    pub plugin_id: String,
    pub id: String,
    pub label: String,
}

/// An instance that contributes a frame, and the group it is drawn in.
#[derive(Clone, Copy, Debug, PartialEq, Eq, Structural)]
pub struct ActiveInstance {
    /// Its position among the configured instances.
    pub index: usize,
    /// The position of its group among the groups, when it is grouped.
    pub group: Option<usize>,
}

/// Whether `group` lists `id` among its members.
pub open spec fn has_child(group: HudGroupEntry, id: Seq<char>) -> bool {
    exists|k: int| 0 <= k < group.children@.len() && (#[trigger] group.children@[k])@ == id
}

/// The group that instance `id` belongs to: the last group that lists it.
pub open spec fn group_of(groups: Seq<HudGroupEntry>, id: Seq<char>) -> Option<int>
    decreases groups.len(),
{
    if groups.len() == 0 {
        None
    } else if has_child(groups.last(), id) {
        Some(groups.len() - 1)
    } else {
        group_of(groups.drop_last(), id)
    }
}

/// Whether the contribution of `instance` is registered.
pub open spec fn is_registered(sources: Seq<HudSource>, instance: HudInstanceEntry) -> bool {
    exists|k: int|
        0 <= k < sources.len() && (#[trigger] sources[k]).plugin_id@ == instance.plugin_id@
            && sources[k].contribution_id@ == instance.contribution_id@
}

/// Whether instance `i` contributes a frame.
pub open spec fn is_active(switches: HudSwitches, sources: Seq<HudSource>, i: int) -> bool {
    let instance = switches.instances@[i];
    &&& switches.master_enabled
    &&& instance.enabled
    &&& instance.plugin_enabled
    &&& is_registered(sources, instance)
    &&& match group_of(switches.groups@, instance.id@) {
        Some(g) => switches.groups@[g].enabled,
        None => true,
    }
}

/// The contributing instances among the first `n`, in their order.
pub open spec fn active_prefix(switches: HudSwitches, sources: Seq<HudSource>, n: int) -> Seq<ActiveInstance>
    decreases n,
{
    if n <= 0 {
        seq![]
    } else {
        let rest = active_prefix(switches, sources, n - 1);
        if is_active(switches, sources, n - 1) {
            rest.push(
                ActiveInstance {
                    index: (n - 1) as usize,
                    group: match group_of(switches.groups@, switches.instances@[n - 1].id@) {
                        Some(g) => Some(g as usize),
                        None => None,
                    },
                },
            )
        } else {
            rest
        }
    }
}

pub(crate) fn group_lists(group: &HudGroupEntry, id: &String) -> (r: bool)
    ensures
        r == has_child(*group, id@),
{
    let mut k: usize = 0;
    while k < group.children.len()
        invariant
            0 <= k <= group.children@.len(),
            forall|j: int| 0 <= j < k ==> (#[trigger] group.children@[j])@ != id@,
        decreases group.children@.len() - k,
    {
        if group.children[k] == *id {
            assert(group.children@[k as int]@ == id@);
            return true;
        }
        k = k + 1;
    }
    false
}

/// The group that instance `id` belongs to: the last group listing it.
pub fn group_of_instance(groups: &Vec<HudGroupEntry>, id: &String) -> (r: Option<usize>)
    ensures
        match r {
            Some(g) => group_of(groups@, id@) == Some(g as int) && g < groups@.len(),
            None => group_of(groups@, id@) is None,
        },
{
    proof {
        lemma_group_of_bound(groups@, id@);
    }
    let mut k: usize = groups.len();
    assert(groups@.take(k as int) =~= groups@);
    while k > 0
        invariant
            0 <= k <= groups@.len(),
            group_of(groups@, id@) == group_of(groups@.take(k as int), id@),
        decreases k,
    {
        assert(groups@.take(k as int).last() == groups@[k - 1]);
        assert(groups@.take(k as int).drop_last() =~= groups@.take(k - 1));
        if group_lists(&groups[k - 1], id) {
            return Some(k - 1);
        }
        k = k - 1;
    }
    proof {
        assert(groups@.take(0).len() == 0);
    }
    None
}

proof fn lemma_group_of_bound(groups: Seq<HudGroupEntry>, id: Seq<char>)
    ensures
        group_of(groups, id) matches Some(g) ==> 0 <= g < groups.len(),
    decreases groups.len(),
{
    if groups.len() > 0 {
        lemma_group_of_bound(groups.drop_last(), id);
    }
}

pub(crate) fn is_registered_exec(sources: &Vec<HudSource>, instance: &HudInstanceEntry) -> (r: bool)
    ensures
        r == is_registered(sources@, *instance),
{
    let mut k: usize = 0;
    while k < sources.len()
        invariant
            0 <= k <= sources@.len(),
            forall|j: int|
                0 <= j < k ==> !((#[trigger] sources@[j]).plugin_id@ == instance.plugin_id@
                    && sources@[j].contribution_id@ == instance.contribution_id@),
        decreases sources@.len() - k,
    {
        if sources[k].plugin_id == instance.plugin_id && sources[k].contribution_id
            == instance.contribution_id {
            assert(sources@[k as int].plugin_id@ == instance.plugin_id@);
            return true;
        }
        k = k + 1;
    }
    false
}

fn instance_is_active(switches: &HudSwitches, sources: &Vec<HudSource>, i: usize) -> (r: (bool, Option<usize>))
    requires
        i < switches.instances@.len(),
    ensures
        r.0 == is_active(*switches, sources@, i as int),
        match group_of(switches.groups@, switches.instances@[i as int].id@) {
            Some(g) => r.1 == Some(g as usize),
            None => r.1 is None,
        },
{
    let instance = &switches.instances[i];
    proof {
        lemma_group_of_bound(switches.groups@, instance.id@);
    }
    let group = group_of_instance(&switches.groups, &instance.id);
    let group_on = match group {
        Some(g) => switches.groups[g].enabled,
        None => true,
    };
    let registered = is_registered_exec(sources, instance);
    let active = switches.master_enabled && instance.enabled && instance.plugin_enabled && registered
        && group_on;
    (active, group)
}

/// The name a plugin is shown under: the display name of the first plugin
/// with identifier `plugin_id`, or the identifier itself when none has it.
pub open spec fn plugin_label(plugins: Seq<PluginName>, plugin_id: Seq<char>) -> Seq<char>
    decreases plugins.len(),
{
    if plugins.len() == 0 {
        plugin_id
    } else if plugins[0].id@ == plugin_id {
        plugins[0].display_name@
    } else {
        plugin_label(plugins.drop_first(), plugin_id)
    }
}

/// The name a contribution is shown under: the label of the first
/// contribution of plugin `plugin_id` with identifier `contribution_id`, or
/// the identifier itself when none matches.
pub open spec fn contribution_label(
    contributions: Seq<ContributionName>,
    plugin_id: Seq<char>,
    contribution_id: Seq<char>,
) -> Seq<char>
    decreases contributions.len(),
{
    if contributions.len() == 0 {
        contribution_id
    } else if contributions[0].plugin_id@ == plugin_id && contributions[0].id@ == contribution_id {
        contributions[0].label@
    } else {
        contribution_label(contributions.drop_first(), plugin_id, contribution_id)
    }
}

fn plugin_label_exec(plugins: &Vec<PluginName>, plugin_id: &String) -> (r: String)
    ensures
        r@ == plugin_label(plugins@, plugin_id@),
{
    let mut k: usize = 0;
    assert(plugins@.skip(0) =~= plugins@);
    while k < plugins.len()
        invariant
            0 <= k <= plugins@.len(),
            plugin_label(plugins@, plugin_id@) == plugin_label(plugins@.skip(k as int), plugin_id@),
        decreases plugins@.len() - k,
    {
        assert(plugins@.skip(k as int).drop_first() =~= plugins@.skip(k + 1));
        assert(plugins@.skip(k as int)[0] == plugins@[k as int]);
        if plugins[k].id == *plugin_id {
            return plugins[k].display_name.clone();
        }
        k = k + 1;
    }
    assert(plugins@.skip(k as int).len() == 0);
    plugin_id.clone()
}

fn contribution_label_exec(
    contributions: &Vec<ContributionName>,
    plugin_id: &String,
    contribution_id: &String,
) -> (r: String)
    ensures
        r@ == contribution_label(contributions@, plugin_id@, contribution_id@),
{
    let mut c: usize = 0;
    assert(contributions@.skip(0) =~= contributions@);
    while c < contributions.len()
        invariant
            0 <= c <= contributions@.len(),
            contribution_label(contributions@, plugin_id@, contribution_id@) == contribution_label(
                contributions@.skip(c as int),
                plugin_id@,
                contribution_id@,
            ),
        decreases contributions@.len() - c,
    {
        assert(contributions@.skip(c as int).drop_first() =~= contributions@.skip(c + 1));
        assert(contributions@.skip(c as int)[0] == contributions@[c as int]);
        if contributions[c].plugin_id == *plugin_id && contributions[c].id == *contribution_id {
            return contributions[c].label.clone();
        }
        c = c + 1;
    }
    assert(contributions@.skip(c as int).len() == 0);
    contribution_id.clone()
}

/// The names under which a HUD source is shown: its plugin's display name
/// and its contribution's label, each falling back to the identifier.
pub fn source_names(
    plugins: &Vec<PluginName>,
    contributions: &Vec<ContributionName>,
    plugin_id: &String,
    contribution_id: &String,
) -> (r: (String, String))
    ensures
        r.0@ == plugin_label(plugins@, plugin_id@),
        r.1@ == contribution_label(contributions@, plugin_id@, contribution_id@),
{
    (plugin_label_exec(plugins, plugin_id), contribution_label_exec(contributions, plugin_id, contribution_id))
}

/// The instances that contribute frames, in their configured order, each
/// with the group it is drawn in.
pub fn active_hud_instances(switches: &HudSwitches, sources: &Vec<HudSource>) -> (r: Vec<ActiveInstance>)
    ensures
        r@ == active_prefix(*switches, sources@, switches.instances@.len() as int),
{
    let mut result: Vec<ActiveInstance> = Vec::new();
    if !switches.master_enabled {
        proof {
            lemma_master_off(*switches, sources@, switches.instances@.len() as int);
        }
        return result;
    }
    let mut i: usize = 0;
    while i < switches.instances.len()
        invariant
            0 <= i <= switches.instances@.len(),
            result@ == active_prefix(*switches, sources@, i as int),
        decreases switches.instances@.len() - i,
    {
        let (active, group) = instance_is_active(switches, sources, i);
        if active {
            result.push(ActiveInstance { index: i, group });
        }
        i = i + 1;
    }
    result
}

proof fn lemma_master_off(switches: HudSwitches, sources: Seq<HudSource>, n: int)
    requires
        !switches.master_enabled,
    ensures
        active_prefix(switches, sources, n) == Seq::<ActiveInstance>::empty(),
    decreases n,
{
    if n > 0 {
        lemma_master_off(switches, sources, n - 1);
    }
}

/// Whether any instance contributes, which decides whether the HUD window
/// is needed at all.
pub fn has_active_hud(switches: &HudSwitches, sources: &Vec<HudSource>) -> (r: bool)
    ensures
        r == exists|i: int| 0 <= i < switches.instances@.len() && is_active(*switches, sources@, i),
{
    if !switches.master_enabled {
        return false;
    }
    let mut i: usize = 0;
    while i < switches.instances.len()
        invariant
            0 <= i <= switches.instances@.len(),
            switches.master_enabled,
            forall|j: int| 0 <= j < i ==> !is_active(*switches, sources@, j),
        decreases switches.instances@.len() - i,
    {
        let (active, _) = instance_is_active(switches, sources, i);
        if active {
            return true;
        }
        i = i + 1;
    }
    false
}

/// The contributing instances are exactly the instances that pass every
/// switch, listed once each in their configured order, each with its group.
pub proof fn law_active_instances_are_exactly_those_switched_on(
    switches: HudSwitches,
    sources: Seq<HudSource>,
    n: int,
)
    requires
        0 <= n <= switches.instances@.len(),
    ensures
        ({
            let active = active_prefix(switches, sources, n);
            &&& forall|k: int|
                0 <= k < active.len() ==> {
                    let i = (#[trigger] active[k]).index as int;
                    &&& 0 <= i < n
                    &&& is_active(switches, sources, i)
                    &&& switches.master_enabled
                    &&& switches.instances@[i].enabled
                    &&& switches.instances@[i].plugin_enabled
                    &&& match group_of(switches.groups@, switches.instances@[i].id@) {
                        Some(g) => active[k].group == Some(g as usize) && switches.groups@[g].enabled,
                        None => active[k].group is None,
                    }
                }
            &&& forall|k1: int, k2: int| 0 <= k1 < k2 < active.len() ==> active[k1].index < active[k2].index
            &&& forall|i: int|
                0 <= i < n && is_active(switches, sources, i) ==> exists|k: int|
                    0 <= k < active.len() && (#[trigger] active[k]).index == i
        }),
    decreases n,
{
    broadcast use vstd::std_specs::vec::axiom_spec_len;

    assert(switches.instances.len() == switches.instances@.len());
    if n > 0 {
        law_active_instances_are_exactly_those_switched_on(switches, sources, n - 1);
        let rest = active_prefix(switches, sources, n - 1);
        let active = active_prefix(switches, sources, n);
        if is_active(switches, sources, n - 1) {
            lemma_group_of_bound(switches.groups@, switches.instances@[n - 1].id@);
            assert forall|k: int| 0 <= k < rest.len() implies active[k] == rest[k] by {}
            assert forall|i: int| 0 <= i < n && is_active(switches, sources, i) implies exists|k: int|
                0 <= k < active.len() && (#[trigger] active[k]).index == i by {
                if i == n - 1 {
                    assert(active[rest.len() as int].index == i);
                } else {
                    let k = choose|k: int| 0 <= k < rest.len() && (#[trigger] rest[k]).index == i;
                    assert(active[k].index == i);
                }
            }
        }
    }
}

/// The HUD is needed exactly when at least one instance contributes.
pub proof fn law_has_active_hud_iff_some_instance_contributes(switches: HudSwitches, sources: Seq<HudSource>)
    ensures
        (exists|i: int| 0 <= i < switches.instances@.len() && is_active(switches, sources, i)) <==> active_prefix(
            switches,
            sources,
            switches.instances@.len() as int,
        ).len() > 0,
{
    let n = switches.instances@.len() as int;
    law_active_instances_are_exactly_those_switched_on(switches, sources, n);
    let active = active_prefix(switches, sources, n);
    if active.len() > 0 {
        assert(is_active(switches, sources, active[0].index as int));
    }
}

/// Switching a group off or on does not change which group any instance
/// belongs to; while a group is off, none of its members contributes.
pub proof fn law_group_switch_keeps_membership(
    switches: HudSwitches,
    sources: Seq<HudSource>,
    g: int,
    enabled: bool,
    id: Seq<char>,
)
    requires
        0 <= g < switches.groups@.len(),
    ensures
        group_of(
            switches.groups@.update(g, HudGroupEntry { enabled, ..switches.groups@[g] }),
            id,
        ) == group_of(switches.groups@, id),
        forall|i: int|
            0 <= i < switches.instances@.len() && group_of(switches.groups@, switches.instances@[i].id@)
                == Some(g) && !switches.groups@[g].enabled ==> !is_active(switches, sources, i),
{
    lemma_group_of_ignores_switch(switches.groups@, g, enabled, id);
}

proof fn lemma_group_of_ignores_switch(groups: Seq<HudGroupEntry>, g: int, enabled: bool, id: Seq<char>)
    requires
        0 <= g < groups.len(),
    ensures
        group_of(groups.update(g, HudGroupEntry { enabled, ..groups[g] }), id) == group_of(groups, id),
    decreases groups.len(),
{
    let updated = groups.update(g, HudGroupEntry { enabled, ..groups[g] });
    assert(updated.last().children == groups.last().children);
    assert(has_child(updated.last(), id) == has_child(groups.last(), id));
    if g < groups.len() - 1 {
        assert(updated.drop_last() =~= groups.drop_last().update(g, HudGroupEntry { enabled, ..groups[g] }));
        lemma_group_of_ignores_switch(groups.drop_last(), g, enabled, id);
    } else {
        assert(updated.drop_last() =~= groups.drop_last());
    }
}

} // verus!
