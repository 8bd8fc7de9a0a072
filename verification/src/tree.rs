//! The layout editor's tree of active HUDs: the ungrouped instances that
//! are on, then every switched-on group with its members that are on, and
//! the count shown in the panel's summary.

use crate::hud::{group_lists, has_child, is_registered, is_registered_exec, HudGroupEntry, HudSource, HudSwitches};
use crate::selection::{first_instance, first_instance_exec};
use vstd::prelude::*;

verus! {

/// A switched-on group in the tree and the rows of its members.
pub struct TreeGroup {
    /// The group's position among the groups.
    pub group: usize,
    /// The instances shown under it (positions among the instances), in
    /// the order the group lists them.
    pub members: Vec<usize>,
}

/// The content of the active tree.
pub struct ActiveTree {
    /// Instances listed by no group and on, in their configured order.
    pub ungrouped: Vec<usize>,
    pub groups: Vec<TreeGroup>,
    /// Rows counted in the summary: instance rows and group rows.
    pub shown: usize,
    /// What the summary counts them against: all instances and groups.
    pub total: usize,
}

/// Whether the tree shows instance `id` as on: the master switch is on and
/// some instance with that identifier is switched on, its plugin too, and
/// its contribution is registered. Group switches are not consulted here.
pub open spec fn tree_active(switches: HudSwitches, sources: Seq<HudSource>, id: Seq<char>) -> bool {
    &&& switches.master_enabled
    &&& exists|i: int|
        0 <= i < switches.instances@.len() && (#[trigger] switches.instances@[i]).id@ == id
            && switches.instances@[i].enabled && switches.instances@[i].plugin_enabled && is_registered(
            sources,
            switches.instances@[i],
        )
}

/// Whether some group lists `id`.
pub open spec fn listed_anywhere(groups: Seq<HudGroupEntry>, id: Seq<char>) -> bool {
    exists|g: int| 0 <= g < groups.len() && has_child(#[trigger] groups[g], id)
}

/// The ungrouped rows among the first `n` instances.
pub open spec fn ungrouped_rows(switches: HudSwitches, sources: Seq<HudSource>, n: int) -> Seq<usize>
    decreases n,
{
    if n <= 0 {
        seq![]
    } else {
        let rest = ungrouped_rows(switches, sources, n - 1);
        let id = switches.instances@[n - 1].id@;
        if !listed_anywhere(switches.groups@, id) && tree_active(switches, sources, id) {
            rest.push((n - 1) as usize)
        } else {
            rest
        }
    }
}

/// The member rows of the first `n` children: each child that is on, as
/// the first instance with its identifier.
pub open spec fn member_rows(switches: HudSwitches, sources: Seq<HudSource>, children: Seq<String>, n: int) -> Seq<
    usize,
>
    decreases n,
{
    if n <= 0 {
        seq![]
    } else {
        let rest = member_rows(switches, sources, children, n - 1);
        if tree_active(switches, sources, children[n - 1]@) {
            rest.push(first_instance(switches.instances@, children[n - 1]@)->0 as usize)
        } else {
            rest
        }
    }
}

/// The group rows among the first `n` groups: the switched-on groups,
/// while the master switch is on, with their member rows.
pub open spec fn tree_groups(switches: HudSwitches, sources: Seq<HudSource>, n: int) -> Seq<(usize, Seq<usize>)>
    decreases n,
{
    if n <= 0 {
        seq![]
    } else {
        let rest = tree_groups(switches, sources, n - 1);
        let group = switches.groups@[n - 1];
        if switches.master_enabled && group.enabled {
            rest.push(
                ((n - 1) as usize, member_rows(switches, sources, group.children@, group.children@.len() as int)),
            )
        } else {
            rest
        }
    }
}

/// The number of member rows of the first `n` group rows.
pub open spec fn member_total(groups: Seq<(usize, Seq<usize>)>, n: int) -> nat
    decreases n,
{
    if n <= 0 {
        0
    } else {
        member_total(groups, n - 1) + groups[n - 1].1.len()
    }
}

/// The number of children of the first `n` groups.
pub open spec fn children_total(groups: Seq<HudGroupEntry>, n: int) -> nat
    decreases n,
{
    if n <= 0 {
        0
    } else {
        children_total(groups, n - 1) + groups[n - 1].children@.len()
    }
}

/// The group rows as plain values.
pub open spec fn tree_group_views(groups: Seq<TreeGroup>) -> Seq<(usize, Seq<usize>)> {
    groups.map_values(|group: TreeGroup| (group.group, group.members@))
}

fn tree_active_exec(switches: &HudSwitches, sources: &Vec<HudSource>, id: &String) -> (r: bool)
    ensures
        r == tree_active(*switches, sources@, id@),
{
    if !switches.master_enabled {
        return false;
    }
    let mut i: usize = 0;
    while i < switches.instances.len()
        invariant
            0 <= i <= switches.instances@.len(),
            switches.master_enabled,
            forall|j: int|
                0 <= j < i ==> !((#[trigger] switches.instances@[j]).id@ == id@ && switches.instances@[j].enabled
                    && switches.instances@[j].plugin_enabled && is_registered(sources@, switches.instances@[j])),
        decreases switches.instances@.len() - i,
    {
        let instance = &switches.instances[i];
        if instance.id == *id && instance.enabled && instance.plugin_enabled && is_registered_exec(sources, instance) {
            return true;
        }
        i = i + 1;
    }
    false
}

fn listed_anywhere_exec(groups: &Vec<HudGroupEntry>, id: &String) -> (r: bool)
    ensures
        r == listed_anywhere(groups@, id@),
{
    let mut g: usize = 0;
    while g < groups.len()
        invariant
            0 <= g <= groups@.len(),
            forall|j: int| 0 <= j < g ==> !has_child(#[trigger] groups@[j], id@),
        decreases groups@.len() - g,
    {
        if group_lists(&groups[g], id) {
            return true;
        }
        g = g + 1;
    }
    false
}

proof fn lemma_member_rows_len(switches: HudSwitches, sources: Seq<HudSource>, children: Seq<String>, n: int)
    requires
        0 <= n,
    ensures
        member_rows(switches, sources, children, n).len() <= n,
    decreases n,
{
    if n > 0 {
        lemma_member_rows_len(switches, sources, children, n - 1);
    }
}

proof fn lemma_ungrouped_rows_len(switches: HudSwitches, sources: Seq<HudSource>, n: int)
    requires
        0 <= n,
    ensures
        ungrouped_rows(switches, sources, n).len() <= n,
    decreases n,
{
    if n > 0 {
        lemma_ungrouped_rows_len(switches, sources, n - 1);
    }
}

proof fn lemma_tree_groups_bounds(switches: HudSwitches, sources: Seq<HudSource>, n: int)
    requires
        0 <= n <= switches.groups@.len(),
    ensures
        tree_groups(switches, sources, n).len() <= n,
        member_total(tree_groups(switches, sources, n), tree_groups(switches, sources, n).len() as int)
            <= children_total(switches.groups@, n),
    decreases n,
{
    if n > 0 {
        lemma_tree_groups_bounds(switches, sources, n - 1);
        let rest = tree_groups(switches, sources, n - 1);
        let all = tree_groups(switches, sources, n);
        let group = switches.groups@[n - 1];
        lemma_member_total_prefix(all, rest);
        if switches.master_enabled && group.enabled {
            lemma_member_rows_len(switches, sources, group.children@, group.children@.len() as int);
        }
    }
}

proof fn lemma_member_total_prefix(all: Seq<(usize, Seq<usize>)>, rest: Seq<(usize, Seq<usize>)>)
    requires
        rest.len() <= all.len(),
        forall|a: int| 0 <= a < rest.len() ==> all[a] == rest[a],
    ensures
        member_total(all, rest.len() as int) == member_total(rest, rest.len() as int),
    decreases rest.len(),
{
    if rest.len() > 0 {
        lemma_member_total_prefix(all, rest.drop_last());
        lemma_member_total_prefix(rest, rest.drop_last());
    }
}

/// The content of the active tree, and its summary count.
pub fn active_tree(switches: &HudSwitches, sources: &Vec<HudSource>) -> (tree: ActiveTree)
    requires
        switches.instances@.len() + switches.groups@.len() + children_total(
            switches.groups@,
            switches.groups@.len() as int,
        ) <= usize::MAX,
    ensures
        tree.ungrouped@ == ungrouped_rows(*switches, sources@, switches.instances@.len() as int),
        tree_group_views(tree.groups@) == tree_groups(*switches, sources@, switches.groups@.len() as int),
        tree.shown == tree.ungrouped@.len() + member_total(
            tree_group_views(tree.groups@),
            tree.groups@.len() as int,
        ) + tree.groups@.len(),
        tree.total == switches.instances@.len() + switches.groups@.len(),
{
    let mut ungrouped: Vec<usize> = Vec::new();
    let mut i: usize = 0;
    while i < switches.instances.len()
        invariant
            0 <= i <= switches.instances@.len(),
            ungrouped@ == ungrouped_rows(*switches, sources@, i as int),
        decreases switches.instances@.len() - i,
    {
        let id = &switches.instances[i].id;
        if !listed_anywhere_exec(&switches.groups, id) && tree_active_exec(switches, sources, id) {
            ungrouped.push(i);
        }
        i = i + 1;
    }
    proof {
        lemma_ungrouped_rows_len(*switches, sources@, switches.instances@.len() as int);
    }
    let mut groups: Vec<TreeGroup> = Vec::new();
    let mut members_shown: usize = 0;
    let mut g: usize = 0;
    while g < switches.groups.len()
        invariant
            0 <= g <= switches.groups@.len(),
            tree_group_views(groups@) == tree_groups(*switches, sources@, g as int),
            members_shown == member_total(tree_group_views(groups@), groups@.len() as int),
            switches.instances@.len() + switches.groups@.len() + children_total(
                switches.groups@,
                switches.groups@.len() as int,
            ) <= usize::MAX,
        decreases switches.groups@.len() - g,
    {
        let group = &switches.groups[g];
        if switches.master_enabled && group.enabled {
            let mut members: Vec<usize> = Vec::new();
            let mut c: usize = 0;
            while c < group.children.len()
                invariant
                    0 <= c <= group.children@.len(),
                    members@ == member_rows(*switches, sources@, group.children@, c as int),
                decreases group.children@.len() - c,
            {
                let child = &group.children[c];
                if tree_active_exec(switches, sources, child) {
                    match first_instance_exec(&switches.instances, child.as_str()) {
                        Some(k) => members.push(k),
                        None => {
                            proof {
                                lemma_active_has_first(*switches, sources@, child@);
                            }
                        },
                    }
                }
                c = c + 1;
            }
            proof {
                lemma_tree_groups_bounds(*switches, sources@, g + 1);
                lemma_children_total_mono(switches.groups@, g + 1, switches.groups@.len() as int);
                lemma_member_total_prefix(
                    tree_groups(*switches, sources@, g + 1),
                    tree_groups(*switches, sources@, g as int),
                );
            }
            let count = members.len();
            let ghost old_groups = groups@;
            groups.push(TreeGroup { group: g, members });
            assert(tree_group_views(groups@) =~= tree_group_views(old_groups).push(
                (g, member_rows(*switches, sources@, group.children@, group.children@.len() as int)),
            ));
            members_shown = members_shown + count;
        }
        g = g + 1;
    }
    proof {
        lemma_tree_groups_bounds(*switches, sources@, switches.groups@.len() as int);
    }
    let shown = ungrouped.len() + members_shown + groups.len();
    let total = switches.instances.len() + switches.groups.len();
    ActiveTree { ungrouped, groups, shown, total }
}

proof fn lemma_active_has_first(switches: HudSwitches, sources: Seq<HudSource>, id: Seq<char>)
    requires
        tree_active(switches, sources, id),
    ensures
        first_instance(switches.instances@, id) is Some,
{
    let i = choose|i: int|
        0 <= i < switches.instances@.len() && (#[trigger] switches.instances@[i]).id@ == id
            && switches.instances@[i].enabled && switches.instances@[i].plugin_enabled && is_registered(
            sources,
            switches.instances@[i],
        );
    lemma_first_instance_found(switches.instances@, id, i);
}

proof fn lemma_first_instance_found(instances: Seq<crate::hud::HudInstanceEntry>, id: Seq<char>, i: int)
    requires
        0 <= i < instances.len(),
        instances[i].id@ == id,
    ensures
        first_instance(instances, id) is Some,
    decreases instances.len(),
{
    if instances[0].id@ != id {
        assert(instances.drop_first()[i - 1] == instances[i]);
        lemma_first_instance_found(instances.drop_first(), id, i - 1);
    }
}

proof fn lemma_children_total_mono(groups: Seq<HudGroupEntry>, a: int, b: int)
    requires
        0 <= a <= b,
    ensures
        children_total(groups, a) <= children_total(groups, b),
    decreases b - a,
{
    if a < b {
        lemma_children_total_mono(groups, a, b - 1);
    }
}

proof fn lemma_ungrouped_rows(switches: HudSwitches, sources: Seq<HudSource>, n: int)
    requires
        0 <= n <= switches.instances@.len(),
        switches.instances@.len() <= usize::MAX,
    ensures
        forall|p: int|
            0 <= p < ungrouped_rows(switches, sources, n).len() ==> {
                let i = #[trigger] ungrouped_rows(switches, sources, n)[p];
                &&& i < n
                &&& !listed_anywhere(switches.groups@, switches.instances@[i as int].id@)
                &&& tree_active(switches, sources, switches.instances@[i as int].id@)
            },
    decreases n,
{
    if n > 0 {
        lemma_ungrouped_rows(switches, sources, n - 1);
        let rest = ungrouped_rows(switches, sources, n - 1);
        let all = ungrouped_rows(switches, sources, n);
        assert forall|p: int| 0 <= p < all.len() implies {
            let i = #[trigger] all[p];
            &&& i < n
            &&& !listed_anywhere(switches.groups@, switches.instances@[i as int].id@)
            &&& tree_active(switches, sources, switches.instances@[i as int].id@)
        } by {
            if p < rest.len() {
                assert(all[p] == rest[p]);
            }
        }
    }
}

proof fn lemma_member_rows(switches: HudSwitches, sources: Seq<HudSource>, children: Seq<String>, n: int)
    requires
        0 <= n <= children.len(),
        switches.instances@.len() <= usize::MAX,
    ensures
        forall|p: int|
            0 <= p < member_rows(switches, sources, children, n).len() ==> {
                let m = #[trigger] member_rows(switches, sources, children, n)[p];
                &&& m < switches.instances@.len()
                &&& exists|c: int| 0 <= c < n && (#[trigger] children[c])@ == switches.instances@[m as int].id@
                &&& tree_active(switches, sources, switches.instances@[m as int].id@)
            },
    decreases n,
{
    if n > 0 {
        lemma_member_rows(switches, sources, children, n - 1);
        let rest = member_rows(switches, sources, children, n - 1);
        let all = member_rows(switches, sources, children, n);
        let id = children[n - 1]@;
        if tree_active(switches, sources, id) {
            lemma_active_has_first(switches, sources, id);
            lemma_first_instance_names(switches.instances@, id);
        }
        assert forall|p: int| 0 <= p < all.len() implies {
            let m = #[trigger] all[p];
            &&& m < switches.instances@.len()
            &&& exists|c: int| 0 <= c < n && (#[trigger] children[c])@ == switches.instances@[m as int].id@
            &&& tree_active(switches, sources, switches.instances@[m as int].id@)
        } by {
            if p < rest.len() {
                assert(all[p] == rest[p]);
            } else {
                assert(children[n - 1]@ == switches.instances@[all[p] as int].id@);
            }
        }
    }
}

proof fn lemma_first_instance_names(instances: Seq<crate::hud::HudInstanceEntry>, id: Seq<char>)
    ensures
        first_instance(instances, id) matches Some(i) ==> 0 <= i < instances.len() && instances[i].id@ == id,
    decreases instances.len(),
{
    if instances.len() > 0 && instances[0].id@ != id {
        lemma_first_instance_names(instances.drop_first(), id);
    }
}

/// Whether a group row stands for a switched-on group and each of its
/// member rows for an instance that is on and that the group lists.
pub open spec fn group_row_on(switches: HudSwitches, sources: Seq<HudSource>, row: (usize, Seq<usize>)) -> bool {
    let group = switches.groups@[row.0 as int];
    &&& row.0 < switches.groups@.len()
    &&& switches.master_enabled && group.enabled
    &&& forall|p: int|
        0 <= p < row.1.len() ==> {
            let m = #[trigger] row.1[p];
            &&& m < switches.instances@.len()
            &&& has_child(group, switches.instances@[m as int].id@)
            &&& tree_active(switches, sources, switches.instances@[m as int].id@)
        }
}

proof fn lemma_tree_groups(switches: HudSwitches, sources: Seq<HudSource>, n: int)
    requires
        0 <= n <= switches.groups@.len(),
        switches.instances@.len() <= usize::MAX,
        switches.groups@.len() <= usize::MAX,
    ensures
        forall|a: int|
            0 <= a < tree_groups(switches, sources, n).len() ==> group_row_on(
                switches,
                sources,
                #[trigger] tree_groups(switches, sources, n)[a],
            ),
    decreases n,
{
    if n > 0 {
        lemma_tree_groups(switches, sources, n - 1);
        let rest = tree_groups(switches, sources, n - 1);
        let all = tree_groups(switches, sources, n);
        let group = switches.groups@[n - 1];
        lemma_member_rows(switches, sources, group.children@, group.children@.len() as int);
        assert forall|a: int| 0 <= a < all.len() implies group_row_on(switches, sources, #[trigger] all[a]) by {
            if a < rest.len() {
                assert(all[a] == rest[a]);
            } else {
                let members = all[a].1;
                assert forall|p: int| 0 <= p < members.len() implies {
                    let m = #[trigger] members[p];
                    &&& m < switches.instances@.len()
                    &&& has_child(group, switches.instances@[m as int].id@)
                    &&& tree_active(switches, sources, switches.instances@[m as int].id@)
                } by {
                    let m = members[p];
                    let c = choose|c: int|
                        0 <= c < group.children@.len() && (#[trigger] group.children@[c])@
                            == switches.instances@[m as int].id@;
                    assert(group.children@[c]@ == switches.instances@[m as int].id@);
                }
            }
        }
    }
}

/// Every row of the active tree is an instance that is on: an ungrouped
/// row is listed by no group, and a member row is listed by the group it
/// stands under, which is switched on. With the master switch off the tree
/// is empty.
pub proof fn law_active_tree_rows_are_on(switches: HudSwitches, sources: Seq<HudSource>)
    requires
        switches.instances@.len() <= usize::MAX,
        switches.groups@.len() <= usize::MAX,
    ensures
        ({
            let own = ungrouped_rows(switches, sources, switches.instances@.len() as int);
            let groups = tree_groups(switches, sources, switches.groups@.len() as int);
            &&& forall|p: int|
                0 <= p < own.len() ==> {
                    let i = #[trigger] own[p];
                    &&& i < switches.instances@.len()
                    &&& !listed_anywhere(switches.groups@, switches.instances@[i as int].id@)
                    &&& tree_active(switches, sources, switches.instances@[i as int].id@)
                }
            &&& forall|a: int| 0 <= a < groups.len() ==> group_row_on(switches, sources, #[trigger] groups[a])
            &&& !switches.master_enabled ==> own.len() == 0 && groups.len() == 0
        }),
{
    lemma_ungrouped_rows(switches, sources, switches.instances@.len() as int);
    lemma_tree_groups(switches, sources, switches.groups@.len() as int);
    let own = ungrouped_rows(switches, sources, switches.instances@.len() as int);
    let groups = tree_groups(switches, sources, switches.groups@.len() as int);
    if !switches.master_enabled {
        if own.len() > 0 {
            assert(tree_active(switches, sources, switches.instances@[own[0] as int].id@));
        }
        if groups.len() > 0 {
            assert(group_row_on(switches, sources, groups[0]));
        }
    }
}

/// The number of instances among the first `n` whose own switch is on.
pub open spec fn switched_on(instances: Seq<crate::hud::HudInstanceEntry>, n: int) -> nat
    decreases n,
{
    if n <= 0 {
        0
    } else {
        switched_on(instances, n - 1) + if instances[n - 1].enabled {
            1nat
        } else {
            0nat
        }
    }
}

/// The count in the information tree's summary: the instances whose own
/// switch is on.
pub fn switched_on_count(instances: &Vec<crate::hud::HudInstanceEntry>) -> (count: usize)
    ensures
        count == switched_on(instances@, instances@.len() as int),
        count <= instances@.len(),
{
    let mut count: usize = 0;
    let mut i: usize = 0;
    while i < instances.len()
        invariant
            0 <= i <= instances@.len(),
            count == switched_on(instances@, i as int),
            count <= i,
        decreases instances@.len() - i,
    {
        if instances[i].enabled {
            count = count + 1;
        }
        i = i + 1;
    }
    count
}

} // verus!
