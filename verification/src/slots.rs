//! Which HUD slots are drawn: every frame of an ungrouped instance becomes a
//! slot of its own, in the order of the configured instances; every group
//! becomes one composed slot whose layers are its members' frames in the
//! order the group lists them. A frame is composed into the first group
//! that takes it. Switched-off and memberless groups get a slot only in the
//! layout editor.

use crate::hud::{group_of, has_child, HudGroupEntry, HudInstanceEntry};
use vstd::prelude::*;

verus! {

/// The frame an instance contributed in this frame, and whether the
/// instance belongs to a group.
pub struct ActiveFrame {
    pub instance_id: String,
    pub grouped: bool,
}

/// A composed group slot: the group's position among the groups and its
/// members' frames (positions among the frames) in layer order.
pub struct GroupSlot {
    pub group: usize,
    pub members: Vec<usize>,
}

/// The slots of one frame: ungrouped instances first, then groups.
pub struct SlotPlan {
    /// Frames drawn as slots of their own.
    pub instances: Vec<usize>,
    pub groups: Vec<GroupSlot>,
}

/// The frame looked up for instance `id`: the last frame with that
/// identifier.
pub open spec fn frame_of(frames: Seq<ActiveFrame>, id: Seq<char>) -> Option<int>
    decreases frames.len(),
{
    if frames.len() == 0 {
        None
    } else if frames.last().instance_id@ == id {
        Some(frames.len() - 1)
    } else {
        frame_of(frames.drop_last(), id)
    }
}

/// The slots of the first `n` instances that are drawn on their own.
pub open spec fn ungrouped_slots(instances: Seq<HudInstanceEntry>, frames: Seq<ActiveFrame>, n: int) -> Seq<usize>
    decreases n,
{
    if n <= 0 {
        seq![]
    } else {
        let rest = ungrouped_slots(instances, frames, n - 1);
        match frame_of(frames, instances[n - 1].id@) {
            Some(k) => if !frames[k].grouped {
                rest.push(k as usize)
            } else {
                rest
            },
            None => rest,
        }
    }
}

/// The members taken from the first `n` children of a group, and the
/// frames taken so far, starting from the frames `taken`.
pub open spec fn take_members(frames: Seq<ActiveFrame>, children: Seq<String>, taken: Set<int>, n: int) -> (
    Seq<usize>,
    Set<int>,
)
    decreases n,
{
    if n <= 0 {
        (seq![], taken)
    } else {
        let (members, now) = take_members(frames, children, taken, n - 1);
        match frame_of(frames, children[n - 1]@) {
            Some(k) => if !now.contains(k) {
                (members.push(k as usize), now.insert(k))
            } else {
                (members, now)
            },
            None => (members, now),
        }
    }
}

/// The slots of the first `n` groups, as (group, members), and the frames
/// they took. With `include_empty` (the layout editor) every group gets a
/// slot; otherwise only a switched-on group with at least one member frame.
pub open spec fn group_slots(frames: Seq<ActiveFrame>, groups: Seq<HudGroupEntry>, include_empty: bool, n: int) -> (
    Seq<(usize, Seq<usize>)>,
    Set<int>,
)
    decreases n,
{
    if n <= 0 {
        (seq![], Set::empty())
    } else {
        let (slots, taken) = group_slots(frames, groups, include_empty, n - 1);
        let group = groups[n - 1];
        if !group.enabled && !include_empty {
            (slots, taken)
        } else {
            let (members, now) = take_members(frames, group.children@, taken, group.children@.len() as int);
            if members.len() == 0 && !include_empty {
                (slots, now)
            } else {
                (slots.push(((n - 1) as usize, members)), now)
            }
        }
    }
}

/// The group slots as plain values.
pub open spec fn group_slot_views(slots: Seq<GroupSlot>) -> Seq<(usize, Seq<usize>)> {
    slots.map_values(|slot: GroupSlot| (slot.group, slot.members@))
}

proof fn lemma_frame_of_bound(frames: Seq<ActiveFrame>, id: Seq<char>)
    ensures
        frame_of(frames, id) matches Some(k) ==> 0 <= k < frames.len() && frames[k].instance_id@ == id,
    decreases frames.len(),
{
    if frames.len() > 0 && frames.last().instance_id@ != id {
        lemma_frame_of_bound(frames.drop_last(), id);
    }
}

fn frame_of_exec(frames: &Vec<ActiveFrame>, id: &String) -> (r: Option<usize>)
    ensures
        match r {
            Some(k) => frame_of(frames@, id@) == Some(k as int) && k < frames@.len(),
            None => frame_of(frames@, id@) is None,
        },
{
    let mut k: usize = frames.len();
    assert(frames@.take(k as int) =~= frames@);
    while k > 0
        invariant
            0 <= k <= frames@.len(),
            frame_of(frames@, id@) == frame_of(frames@.take(k as int), id@),
        decreases k,
    {
        assert(frames@.take(k as int).last() == frames@[k - 1]);
        assert(frames@.take(k as int).drop_last() =~= frames@.take(k - 1));
        if frames[k - 1].instance_id == *id {
            return Some(k - 1);
        }
        k = k - 1;
    }
    assert(frames@.take(0).len() == 0);
    None
}

/// Plans the slots of one frame from the configured instances, the frames
/// they contributed, and the groups. `include_empty_groups` is set in the
/// layout editor, where every group is shown.
pub fn plan_hud_slots(
    instances: &Vec<HudInstanceEntry>,
    frames: &Vec<ActiveFrame>,
    groups: &Vec<HudGroupEntry>,
    include_empty_groups: bool,
) -> (plan: SlotPlan)
    ensures
        plan.instances@ == ungrouped_slots(instances@, frames@, instances@.len() as int),
        group_slot_views(plan.groups@) == group_slots(frames@, groups@, include_empty_groups, groups@.len() as int).0,
{
    let mut own: Vec<usize> = Vec::new();
    let mut i: usize = 0;
    while i < instances.len()
        invariant
            0 <= i <= instances@.len(),
            own@ == ungrouped_slots(instances@, frames@, i as int),
        decreases instances@.len() - i,
    {
        match frame_of_exec(frames, &instances[i].id) {
            Some(k) => {
                if !frames[k].grouped {
                    own.push(k);
                }
            },
            None => {},
        }
        i = i + 1;
    }
    let mut taken: Vec<bool> = Vec::new();
    let mut f: usize = 0;
    while f < frames.len()
        invariant
            0 <= f <= frames@.len(),
            taken@.len() == f,
            forall|j: int| 0 <= j < f ==> !taken@[j],
        decreases frames@.len() - f,
    {
        taken.push(false);
        f = f + 1;
    }
    let mut slots: Vec<GroupSlot> = Vec::new();
    let mut g: usize = 0;
    while g < groups.len()
        invariant
            0 <= g <= groups@.len(),
            taken@.len() == frames@.len(),
            group_slot_views(slots@) == group_slots(frames@, groups@, include_empty_groups, g as int).0,
            forall|j: int|
                0 <= j < frames@.len() ==> taken@[j] == group_slots(frames@, groups@, include_empty_groups, g as int).1.contains(
                    j,
                ),
        decreases groups@.len() - g,
    {
        let group = &groups[g];
        let ghost before = group_slots(frames@, groups@, include_empty_groups, g as int);
        if group.enabled || include_empty_groups {
            let mut members: Vec<usize> = Vec::new();
            let mut c: usize = 0;
            while c < group.children.len()
                invariant
                    0 <= c <= group.children@.len(),
                    taken@.len() == frames@.len(),
                    members@ == take_members(frames@, group.children@, before.1, c as int).0,
                    forall|j: int|
                        0 <= j < frames@.len() ==> taken@[j] == take_members(
                            frames@,
                            group.children@,
                            before.1,
                            c as int,
                        ).1.contains(j),
                decreases group.children@.len() - c,
            {
                match frame_of_exec(frames, &group.children[c]) {
                    Some(k) => {
                        if !taken[k] {
                            members.push(k);
                            taken.set(k, true);
                        }
                    },
                    None => {},
                }
                c = c + 1;
            }
            if members.len() > 0 || include_empty_groups {
                let ghost old_slots = slots@;
                slots.push(GroupSlot { group: g, members });
                assert(group_slot_views(slots@) =~= group_slot_views(old_slots).push(
                    (g, take_members(frames@, group.children@, before.1, group.children@.len() as int).0),
                ));
            }
        }
        g = g + 1;
    }
    SlotPlan { instances: own, groups: slots }
}

proof fn lemma_ungrouped_is_unlisted(groups: Seq<HudGroupEntry>, id: Seq<char>)
    requires
        group_of(groups, id) is None,
    ensures
        forall|g: int| 0 <= g < groups.len() ==> !has_child(#[trigger] groups[g], id),
    decreases groups.len(),
{
    if groups.len() > 0 {
        lemma_ungrouped_is_unlisted(groups.drop_last(), id);
        assert forall|g: int| 0 <= g < groups.len() implies !has_child(#[trigger] groups[g], id) by {
            if g < groups.len() - 1 {
                assert(groups[g] == groups.drop_last()[g]);
            }
        }
    }
}

proof fn lemma_take_members(frames: Seq<ActiveFrame>, children: Seq<String>, taken: Set<int>, n: int)
    requires
        0 <= n <= children.len(),
        frames.len() <= usize::MAX,
    ensures
        ({
            let (members, now) = take_members(frames, children, taken, n);
            &&& forall|p: int|
                0 <= p < members.len() ==> {
                    let k = #[trigger] members[p];
                    &&& !taken.contains(k as int)
                    &&& now.contains(k as int)
                    &&& k < frames.len()
                    &&& exists|c: int| 0 <= c < n && (#[trigger] children[c])@ == frames[k as int].instance_id@
                }
            &&& forall|p: int, q: int| 0 <= p < q < members.len() ==> members[p] != members[q]
            &&& forall|x: int| taken.contains(x) ==> now.contains(x)
            &&& forall|x: int|
                #[trigger] now.contains(x) ==> taken.contains(x) || exists|p: int|
                    0 <= p < members.len() && members[p] == x
        }),
    decreases n,
{
    if n > 0 {
        lemma_take_members(frames, children, taken, n - 1);
        lemma_frame_of_bound(frames, children[n - 1]@);
        let (members, now) = take_members(frames, children, taken, n - 1);
        let (m2, now2) = take_members(frames, children, taken, n);
        match frame_of(frames, children[n - 1]@) {
            Some(k) => {
                if !now.contains(k) {
                    assert forall|p: int| 0 <= p < m2.len() implies {
                        let k2 = #[trigger] m2[p];
                        &&& !taken.contains(k2 as int)
                        &&& now2.contains(k2 as int)
                        &&& k2 < frames.len()
                        &&& exists|c: int| 0 <= c < n && (#[trigger] children[c])@ == frames[k2 as int].instance_id@
                    } by {
                        if p == members.len() {
                            assert(children[n - 1]@ == frames[k].instance_id@);
                        } else {
                            assert(m2[p] == members[p]);
                        }
                    }
                    assert forall|x: int| #[trigger] now2.contains(x) implies taken.contains(x) || exists|p: int|
                        0 <= p < m2.len() && m2[p] == x by {
                        if x == k {
                            assert(m2[members.len() as int] == x);
                        } else {
                            assert(now.contains(x));
                            if !taken.contains(x) {
                                let p = choose|p: int| 0 <= p < members.len() && members[p] == x;
                                assert(m2[p] == x);
                            }
                        }
                    }
                }
            },
            None => {},
        }
    }
}

proof fn lemma_group_slots(frames: Seq<ActiveFrame>, groups: Seq<HudGroupEntry>, include_empty: bool, n: int)
    requires
        0 <= n <= groups.len(),
        groups.len() <= usize::MAX,
        frames.len() <= usize::MAX,
    ensures
        ({
            let (slots, taken) = group_slots(frames, groups, include_empty, n);
            &&& slots.len() <= n
            &&& include_empty ==> slots.len() == n
            &&& forall|a: int|
                0 <= a < slots.len() ==> {
                    let slot = #[trigger] slots[a];
                    &&& slot.0 < n
                    &&& include_empty ==> slot.0 == a
                    &&& !include_empty ==> groups[slot.0 as int].enabled && slot.1.len() > 0
                    &&& forall|p: int|
                        0 <= p < slot.1.len() ==> {
                            let k = #[trigger] slot.1[p];
                            &&& taken.contains(k as int)
                            &&& k < frames.len()
                            &&& has_child(groups[slot.0 as int], frames[k as int].instance_id@)
                        }
                }
            &&& forall|a: int, b: int, p: int, q: int|
                0 <= a < slots.len() && 0 <= b < slots.len() && 0 <= p < slots[a].1.len() && 0 <= q
                    < slots[b].1.len() && (a != b || p != q) ==> #[trigger] slots[a].1[p] != #[trigger] slots[b].1[q]
            &&& forall|a: int, b: int| 0 <= a < b < slots.len() ==> slots[a].0 < slots[b].0
        }),
    decreases n,
{
    if n > 0 {
        lemma_group_slots(frames, groups, include_empty, n - 1);
        let (slots, taken) = group_slots(frames, groups, include_empty, n - 1);
        let group = groups[n - 1];
        if group.enabled || include_empty {
            let children = group.children@;
            lemma_take_members(frames, children, taken, children.len() as int);
            let (members, now) = take_members(frames, children, taken, children.len() as int);
            let (s2, t2) = group_slots(frames, groups, include_empty, n);
            assert(t2 == now);
            if members.len() == 0 && !include_empty {
                assert(s2 == slots);
            } else {
                assert(s2 == slots.push(((n - 1) as usize, members)));
            }
            assert forall|a: int, p: int| 0 <= a < s2.len() && 0 <= p < s2[a].1.len() implies {
                let k = #[trigger] s2[a].1[p];
                &&& t2.contains(k as int)
                &&& k < frames.len()
                &&& has_child(groups[s2[a].0 as int], frames[k as int].instance_id@)
            } by {
                if a < slots.len() {
                    assert(s2[a] == slots[a]);
                    let k = slots[a].1[p];
                    assert(taken.contains(k as int));
                } else {
                    let k = members[p];
                    let c = choose|c: int| 0 <= c < children.len() && (#[trigger] children[c])@ == frames[k as int].instance_id@;
                    assert(group.children@[c]@ == frames[k as int].instance_id@);
                }
            }
            assert forall|a: int, b: int, p: int, q: int|
                0 <= a < s2.len() && 0 <= b < s2.len() && 0 <= p < s2[a].1.len() && 0 <= q < s2[b].1.len() && (a
                    != b || p != q) implies #[trigger] s2[a].1[p] != #[trigger] s2[b].1[q] by {
                if a < slots.len() && b < slots.len() {
                    assert(s2[a] == slots[a] && s2[b] == slots[b]);
                } else if a < slots.len() {
                    assert(s2[a] == slots[a]);
                    assert(taken.contains(slots[a].1[p] as int));
                    assert(!taken.contains(members[q] as int));
                } else if b < slots.len() {
                    assert(s2[b] == slots[b]);
                    assert(taken.contains(slots[b].1[q] as int));
                    assert(!taken.contains(members[p] as int));
                } else {
                    if p < q {
                        assert(members[p] != members[q]);
                    } else {
                        assert(members[q] != members[p]);
                    }
                }
            }
            assert forall|a: int| 0 <= a < s2.len() implies {
                let slot = #[trigger] s2[a];
                &&& slot.0 < n
                &&& include_empty ==> slot.0 == a
                &&& !include_empty ==> groups[slot.0 as int].enabled && slot.1.len() > 0
            } by {
                if a < slots.len() {
                    assert(s2[a] == slots[a]);
                }
            }
        }
    }
}

/// In the layout editor every group gets a slot, in the order of the
/// groups, even when it is switched off or has no member frame.
pub proof fn law_editor_shows_every_group(frames: Seq<ActiveFrame>, groups: Seq<HudGroupEntry>)
    requires
        frames.len() <= usize::MAX,
        groups.len() <= usize::MAX,
    ensures
        ({
            let slots = group_slots(frames, groups, true, groups.len() as int).0;
            &&& slots.len() == groups.len()
            &&& forall|a: int| 0 <= a < slots.len() ==> (#[trigger] slots[a]).0 == a
        }),
{
    lemma_group_slots(frames, groups, true, groups.len() as int);
}

/// Outside the editor only switched-on groups with at least one member
/// frame are drawn.
pub proof fn law_drawn_groups_are_on_and_not_empty(frames: Seq<ActiveFrame>, groups: Seq<HudGroupEntry>)
    requires
        frames.len() <= usize::MAX,
        groups.len() <= usize::MAX,
    ensures
        ({
            let slots = group_slots(frames, groups, false, groups.len() as int).0;
            forall|a: int|
                0 <= a < slots.len() ==> {
                    let slot = #[trigger] slots[a];
                    &&& slot.0 < groups.len()
                    &&& groups[slot.0 as int].enabled
                    &&& slot.1.len() > 0
                }
        }),
{
    lemma_group_slots(frames, groups, false, groups.len() as int);
}

/// Every layer of a group slot is the frame of an instance the group
/// lists, and no frame is composed twice: not within one group, and not
/// into two groups.
pub proof fn law_frames_are_composed_once(frames: Seq<ActiveFrame>, groups: Seq<HudGroupEntry>, include_empty: bool)
    requires
        frames.len() <= usize::MAX,
        groups.len() <= usize::MAX,
    ensures
        ({
            let slots = group_slots(frames, groups, include_empty, groups.len() as int).0;
            &&& forall|a: int, p: int|
                0 <= a < slots.len() && 0 <= p < slots[a].1.len() ==> {
                    let k = #[trigger] slots[a].1[p];
                    &&& k < frames.len()
                    &&& slots[a].0 < groups.len()
                    &&& has_child(groups[slots[a].0 as int], frames[k as int].instance_id@)
                }
            &&& forall|a: int, b: int, p: int, q: int|
                0 <= a < slots.len() && 0 <= b < slots.len() && 0 <= p < slots[a].1.len() && 0 <= q
                    < slots[b].1.len() && (a != b || p != q) ==> #[trigger] slots[a].1[p] != #[trigger] slots[b].1[q]
        }),
{
    lemma_group_slots(frames, groups, include_empty, groups.len() as int);
    let slots = group_slots(frames, groups, include_empty, groups.len() as int).0;
    assert forall|a: int, p: int| 0 <= a < slots.len() && 0 <= p < slots[a].1.len() implies {
        let k = #[trigger] slots[a].1[p];
        &&& k < frames.len()
        &&& slots[a].0 < groups.len()
        &&& has_child(groups[slots[a].0 as int], frames[k as int].instance_id@)
    } by {
        let slot = slots[a];
        assert(slot.1[p] == slots[a].1[p]);
    }
}

proof fn lemma_ungrouped_slots(instances: Seq<HudInstanceEntry>, frames: Seq<ActiveFrame>, n: int)
    requires
        0 <= n <= instances.len(),
        frames.len() <= usize::MAX,
    ensures
        forall|p: int|
            0 <= p < ungrouped_slots(instances, frames, n).len() ==> {
                let k = #[trigger] ungrouped_slots(instances, frames, n)[p];
                &&& k < frames.len()
                &&& !frames[k as int].grouped
            },
    decreases n,
{
    if n > 0 {
        lemma_ungrouped_slots(instances, frames, n - 1);
        lemma_frame_of_bound(frames, instances[n - 1].id@);
        let rest = ungrouped_slots(instances, frames, n - 1);
        let all = ungrouped_slots(instances, frames, n);
        assert forall|p: int| 0 <= p < all.len() implies {
            let k = #[trigger] all[p];
            &&& k < frames.len()
            &&& !frames[k as int].grouped
        } by {
            if p < rest.len() {
                assert(all[p] == rest[p]);
            }
        }
    }
}

/// When the frames record their grouping as `group_of` decides it (a frame
/// marked ungrouped belongs to no group), a frame drawn on its own is never
/// also a layer of a group.
pub proof fn law_ungrouped_frames_stand_alone(
    instances: Seq<HudInstanceEntry>,
    frames: Seq<ActiveFrame>,
    groups: Seq<HudGroupEntry>,
    include_empty: bool,
)
    requires
        frames.len() <= usize::MAX,
        groups.len() <= usize::MAX,
        forall|k: int|
            0 <= k < frames.len() && !(#[trigger] frames[k]).grouped ==> group_of(groups, frames[k].instance_id@) is None,
    ensures
        ({
            let own = ungrouped_slots(instances, frames, instances.len() as int);
            let slots = group_slots(frames, groups, include_empty, groups.len() as int).0;
            forall|i: int, a: int, p: int|
                0 <= i < own.len() && 0 <= a < slots.len() && 0 <= p < slots[a].1.len() ==> #[trigger] own[i]
                    != #[trigger] slots[a].1[p]
        }),
{
    lemma_ungrouped_slots(instances, frames, instances.len() as int);
    lemma_group_slots(frames, groups, include_empty, groups.len() as int);
    let own = ungrouped_slots(instances, frames, instances.len() as int);
    let slots = group_slots(frames, groups, include_empty, groups.len() as int).0;
    assert forall|i: int, a: int, p: int|
        0 <= i < own.len() && 0 <= a < slots.len() && 0 <= p < slots[a].1.len() implies #[trigger] own[i]
            != #[trigger] slots[a].1[p] by {
        let k = slots[a].1[p];
        let slot = slots[a];
        assert(slot.1[p] == k);
        if own[i] == k {
            assert(!frames[k as int].grouped);
            lemma_ungrouped_is_unlisted(groups, frames[k as int].instance_id@);
            assert(has_child(groups[slot.0 as int], frames[k as int].instance_id@));
        }
    }
}

proof fn lemma_frame_of_is_last(frames: Seq<ActiveFrame>, id: Seq<char>, k: int)
    requires
        0 <= k < frames.len(),
        frames[k].instance_id@ == id,
        forall|j: int| k < j < frames.len() ==> (#[trigger] frames[j]).instance_id@ != id,
    ensures
        frame_of(frames, id) == Some(k),
    decreases frames.len(),
{
    if k < frames.len() - 1 {
        assert(frames.last() == frames[frames.len() - 1]);
        assert forall|j: int| k < j < frames.drop_last().len() implies (#[trigger] frames.drop_last()[j]).instance_id@
            != id by {
            assert(frames.drop_last()[j] == frames[j]);
        }
        lemma_frame_of_is_last(frames.drop_last(), id, k);
    }
}

proof fn lemma_ungrouped_slots_contain(instances: Seq<HudInstanceEntry>, frames: Seq<ActiveFrame>, n: int, i: int)
    requires
        0 <= i < n <= instances.len(),
        frames.len() <= usize::MAX,
        frame_of(frames, instances[i].id@) matches Some(k) && !frames[k].grouped,
    ensures
        exists|p: int|
            0 <= p < ungrouped_slots(instances, frames, n).len() && ungrouped_slots(instances, frames, n)[p] as int
                == frame_of(frames, instances[i].id@)->0,
    decreases n,
{
    lemma_frame_of_bound(frames, instances[i].id@);
    let rest = ungrouped_slots(instances, frames, n - 1);
    let all = ungrouped_slots(instances, frames, n);
    if i == n - 1 {
        assert(all[rest.len() as int] as int == frame_of(frames, instances[i].id@)->0);
    } else {
        lemma_ungrouped_slots_contain(instances, frames, n - 1, i);
        let p = choose|p: int| 0 <= p < rest.len() && rest[p] as int == frame_of(frames, instances[i].id@)->0;
        assert(all[p] == rest[p]);
    }
}

proof fn lemma_ungrouped_slots_come_from_instances(instances: Seq<HudInstanceEntry>, frames: Seq<ActiveFrame>, n: int)
    requires
        0 <= n <= instances.len(),
        frames.len() <= usize::MAX,
    ensures
        forall|p: int|
            0 <= p < ungrouped_slots(instances, frames, n).len() ==> exists|i: int|
                0 <= i < n && frame_of(frames, instances[i].id@) == Some(
                    #[trigger] ungrouped_slots(instances, frames, n)[p] as int,
                ),
    decreases n,
{
    if n > 0 {
        lemma_ungrouped_slots_come_from_instances(instances, frames, n - 1);
        lemma_frame_of_bound(frames, instances[n - 1].id@);
        let rest = ungrouped_slots(instances, frames, n - 1);
        let all = ungrouped_slots(instances, frames, n);
        assert forall|p: int| 0 <= p < all.len() implies exists|i: int|
            0 <= i < n && frame_of(frames, instances[i].id@) == Some(#[trigger] all[p] as int) by {
            if p < rest.len() {
                assert(all[p] == rest[p]);
                let i = choose|i: int| 0 <= i < n - 1 && frame_of(frames, instances[i].id@) == Some(rest[p] as int);
                assert(frame_of(frames, instances[i].id@) == Some(all[p] as int));
            } else {
                assert(frame_of(frames, instances[n - 1].id@) == Some(all[p] as int));
            }
        }
    }
}

/// Every ungrouped HUD is drawn on its own: for each instance whose last
/// frame `k` (the last frame with its identifier) is not grouped, `k` is
/// among the instance slots; and an instance slot is always such a frame,
/// the frame of some configured instance, and never grouped.
pub proof fn law_every_ungrouped_frame_gets_a_slot(
    instances: Seq<HudInstanceEntry>,
    frames: Seq<ActiveFrame>,
    i: int,
    k: int,
)
    requires
        frames.len() <= usize::MAX,
        0 <= i < instances.len(),
        0 <= k < frames.len(),
        frames[k].instance_id@ == instances[i].id@,
        forall|j: int| k < j < frames.len() ==> (#[trigger] frames[j]).instance_id@ != instances[i].id@,
        !frames[k].grouped,
    ensures
        ({
            let own = ungrouped_slots(instances, frames, instances.len() as int);
            &&& exists|p: int| 0 <= p < own.len() && own[p] as int == k
            &&& forall|p: int|
                0 <= p < own.len() ==> {
                    let f = #[trigger] own[p] as int;
                    &&& 0 <= f < frames.len()
                    &&& !frames[f].grouped
                    &&& exists|j: int| 0 <= j < instances.len() && frames[f].instance_id@ == instances[j].id@
                }
        }),
{
    lemma_frame_of_is_last(frames, instances[i].id@, k);
    lemma_ungrouped_slots_contain(instances, frames, instances.len() as int, i);
    lemma_ungrouped_slots(instances, frames, instances.len() as int);
    lemma_ungrouped_slots_come_from_instances(instances, frames, instances.len() as int);
    let own = ungrouped_slots(instances, frames, instances.len() as int);
    assert forall|p: int| 0 <= p < own.len() implies {
        let f = #[trigger] own[p] as int;
        &&& 0 <= f < frames.len()
        &&& !frames[f].grouped
        &&& exists|j: int| 0 <= j < instances.len() && frames[f].instance_id@ == instances[j].id@
    } by {
        let j = choose|j: int| 0 <= j < instances.len() && frame_of(frames, instances[j].id@) == Some(own[p] as int);
        lemma_frame_of_bound(frames, instances[j].id@);
    }
}

} // verus!
