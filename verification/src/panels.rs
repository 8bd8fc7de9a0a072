//! The stacks of side panels in the HUD layout editor. Panels open at the
//! bottom of their column, and closing one lets the panels below move up.

use vstd::prelude::*;

verus! {

broadcast use vstd::seq_lib::group_seq_properties;

/// The side panels of the layout editor.
#[derive(Clone, Copy, Debug, PartialEq, Eq, Structural)]
pub enum PanelKind {
    /// The plugin/HUD switch tree.
    InformationTree,
    /// The tree of enabled instances and groups.
    ActiveTree,
    /// The adjustment panel of the selected HUD.
    HudAdjust,
    /// The adjustment panel of the selected group.
    GroupAdjust,
}

/// `x + 1`, wrapping to zero after `u64::MAX`.
pub open spec fn next_revision(x: u64) -> u64 {
    if x == u64::MAX {
        0
    } else {
        (x + 1) as u64
    }
}

fn bump(x: u64) -> (r: u64)
    ensures
        r == next_revision(x),
{
    if x == u64::MAX {
        0
    } else {
        x + 1
    }
}

/// Whether a tree panel stays in the column given which trees are open;
/// panels that are not trees never do.
pub open spec fn tree_kept(panel: PanelKind, information_open: bool, active_open: bool) -> bool {
    match panel {
        PanelKind::InformationTree => information_open,
        PanelKind::ActiveTree => active_open,
        _ => false,
    }
}

/// The entries of `order` that stay, in their order.
pub open spec fn retain_trees(order: Seq<PanelKind>, information_open: bool, active_open: bool) -> Seq<PanelKind>
    decreases order.len(),
{
    if order.len() == 0 {
        seq![]
    } else {
        let rest = retain_trees(order.drop_last(), information_open, active_open);
        if tree_kept(order.last(), information_open, active_open) {
            rest.push(order.last())
        } else {
            rest
        }
    }
}

/// The entries of `order` other than `panel`, in their order.
pub open spec fn without(order: Seq<PanelKind>, panel: PanelKind) -> Seq<PanelKind>
    decreases order.len(),
{
    if order.len() == 0 {
        seq![]
    } else {
        let rest = without(order.drop_last(), panel);
        if order.last() != panel {
            rest.push(order.last())
        } else {
            rest
        }
    }
}

/// The tree column after synchronising it with the open flags: the trees
/// still open keep their places, and a newly opened tree is appended, the
/// information tree before the active tree.
pub open spec fn synced_tree_order(order: Seq<PanelKind>, information_open: bool, active_open: bool) -> Seq<
    PanelKind,
> {
    let kept = retain_trees(order, information_open, active_open);
    let with_information = if information_open && !kept.contains(PanelKind::InformationTree) {
        kept.push(PanelKind::InformationTree)
    } else {
        kept
    };
    if active_open && !with_information.contains(PanelKind::ActiveTree) {
        with_information.push(PanelKind::ActiveTree)
    } else {
        with_information
    }
}

/// Whether `v` holds `panel`.
pub fn contains_panel(v: &Vec<PanelKind>, panel: PanelKind) -> (r: bool)
    ensures
        r == v@.contains(panel),
{
    let mut i: usize = 0;
    while i < v.len()
        invariant
            0 <= i <= v@.len(),
            forall|j: int| 0 <= j < i ==> v@[j] != panel,
        decreases v@.len() - i,
    {
        if v[i] == panel {
            assert(v@[i as int] == panel);
            return true;
        }
        i = i + 1;
    }
    false
}

fn panels_equal(a: &Vec<PanelKind>, b: &Vec<PanelKind>) -> (r: bool)
    ensures
        r == (a@ == b@),
{
    if a.len() != b.len() {
        return false;
    }
    let mut i: usize = 0;
    while i < a.len()
        invariant
            a@.len() == b@.len(),
            0 <= i <= a@.len(),
            forall|j: int| 0 <= j < i ==> a@[j] == b@[j],
        decreases a@.len() - i,
    {
        if a[i] != b[i] {
            return false;
        }
        i = i + 1;
    }
    assert(a@ =~= b@);
    true
}

/// The position of `panel` in a column: the number of panels above it, or
/// the length of the column when it is not there.
pub open spec fn is_slot_of(order: Seq<PanelKind>, panel: PanelKind, slot: int) -> bool {
    &&& 0 <= slot <= order.len()
    &&& forall|j: int| 0 <= j < slot ==> order[j] != panel
    &&& slot < order.len() ==> order[slot] == panel
}

/// The number of panels stacked above `panel` in its column (all of them
/// when it is not in the column); the panel's top edge lies that many panel
/// steps below the column's top.
pub fn panel_slot(order: &Vec<PanelKind>, panel: PanelKind) -> (slot: usize)
    ensures
        is_slot_of(order@, panel, slot as int),
{
    let mut i: usize = 0;
    while i < order.len()
        invariant
            0 <= i <= order@.len(),
            forall|j: int| 0 <= j < i ==> order@[j] != panel,
        decreases order@.len() - i,
    {
        if order[i] == panel {
            return i;
        }
        i = i + 1;
    }
    i
}

/// The tree panels of one layout session.
pub struct TreePanels {
    /// Whether the plugin/HUD switch tree is shown.
    pub information_open: bool,
    /// Whether the enabled instance/group tree is shown.
    pub active_open: bool,
    /// The shown trees from top to bottom.
    pub order: Vec<PanelKind>,
    /// Bumped whenever the column changes, so that the tree windows are
    /// recreated at their new places.
    pub revision: u64,
}

impl TreePanels {
    /// Brings the column in line with the open flags (see
    /// `synced_tree_order`) and bumps the revision when the column changed.
    pub fn sync_panel_order(&mut self)
        ensures
            final(self).information_open == old(self).information_open,
            final(self).active_open == old(self).active_open,
            final(self).order@ == synced_tree_order(
                old(self).order@,
                old(self).information_open,
                old(self).active_open,
            ),
            final(self).revision == if final(self).order@ == old(self).order@ {
                old(self).revision
            } else {
                next_revision(old(self).revision)
            },
    {
        let ghost old_order = self.order@;
        let mut kept: Vec<PanelKind> = Vec::new();
        let mut i: usize = 0;
        while i < self.order.len()
            invariant
                self.order@ == old_order,
                0 <= i <= old_order.len(),
                kept@ == retain_trees(old_order.take(i as int), self.information_open, self.active_open),
            decreases old_order.len() - i,
        {
            let panel = self.order[i];
            let keep = match panel {
                PanelKind::InformationTree => self.information_open,
                PanelKind::ActiveTree => self.active_open,
                _ => false,
            };
            assert(old_order.take(i + 1).drop_last() =~= old_order.take(i as int));
            if keep {
                kept.push(panel);
            }
            i = i + 1;
        }
        assert(old_order.take(old_order.len() as int) =~= old_order);
        if self.information_open && !contains_panel(&kept, PanelKind::InformationTree) {
            kept.push(PanelKind::InformationTree);
        }
        if self.active_open && !contains_panel(&kept, PanelKind::ActiveTree) {
            kept.push(PanelKind::ActiveTree);
        }
        if !panels_equal(&kept, &self.order) {
            self.revision = bump(self.revision);
        }
        self.order = kept;
    }
}

/// Moves `panel` to the bottom of the adjustment column: it is removed
/// from where it was and appended, the others keeping their order; the
/// revision is bumped so that the panel windows are placed anew.
pub fn record_adjustment_open(order: &mut Vec<PanelKind>, revision: &mut u64, panel: PanelKind)
    ensures
        final(order)@ == without(old(order)@, panel).push(panel),
        *final(revision) == next_revision(*old(revision)),
{
    let ghost old_order = order@;
    let mut kept: Vec<PanelKind> = Vec::new();
    let mut i: usize = 0;
    while i < order.len()
        invariant
            order@ == old_order,
            0 <= i <= old_order.len(),
            kept@ == without(old_order.take(i as int), panel),
        decreases old_order.len() - i,
    {
        let current = order[i];
        assert(old_order.take(i + 1).drop_last() =~= old_order.take(i as int));
        if current != panel {
            kept.push(current);
        }
        i = i + 1;
    }
    assert(old_order.take(old_order.len() as int) =~= old_order);
    kept.push(panel);
    *order = kept;
    *revision = bump(*revision);
}

/// No panel appears twice in `order`.
pub open spec fn no_duplicates(order: Seq<PanelKind>) -> bool {
    forall|i: int, j: int| 0 <= i < j < order.len() ==> order[i] != order[j]
}

proof fn lemma_retain_trees(order: Seq<PanelKind>, information_open: bool, active_open: bool)
    ensures
        forall|p: PanelKind|
            #[trigger] retain_trees(order, information_open, active_open).contains(p) <==> (order.contains(p)
                && tree_kept(p, information_open, active_open)),
        no_duplicates(order) ==> no_duplicates(retain_trees(order, information_open, active_open)),
        (forall|i: int| 0 <= i < order.len() ==> tree_kept(#[trigger] order[i], information_open, active_open))
            ==> retain_trees(order, information_open, active_open) == order,
    decreases order.len(),
{
    if order.len() > 0 {
        let init = order.drop_last();
        let last = order.last();
        lemma_retain_trees(init, information_open, active_open);
        assert(order =~= init.push(last));
        let rest = retain_trees(init, information_open, active_open);
        assert forall|p: PanelKind|
            retain_trees(order, information_open, active_open).contains(p) <==> (order.contains(p)
                && tree_kept(p, information_open, active_open)) by {
            assert(order.contains(p) <==> (init.contains(p) || p == last));
            assert(rest.contains(p) <==> (init.contains(p) && tree_kept(p, information_open, active_open)));
            if tree_kept(last, information_open, active_open) {
                assert(retain_trees(order, information_open, active_open) == rest.push(last));
                assert(rest.push(last).contains(p) <==> (rest.contains(p) || p == last));
            } else {
                assert(retain_trees(order, information_open, active_open) == rest);
            }
        }
        if no_duplicates(order) {
            assert(no_duplicates(init));
            assert(!init.contains(last)) by {
                if init.contains(last) {
                    let k = choose|k: int| 0 <= k < init.len() && init[k] == last;
                    assert(order[k] == order[order.len() - 1]);
                }
            }
            if tree_kept(last, information_open, active_open) {
                lemma_push_contains(rest, last);
            }
        }
        if forall|i: int| 0 <= i < order.len() ==> tree_kept(#[trigger] order[i], information_open, active_open) {
            assert(tree_kept(order[order.len() - 1], information_open, active_open));
            assert forall|i: int| 0 <= i < init.len() implies tree_kept(#[trigger] init[i], information_open, active_open) by {
                assert(init[i] == order[i]);
            }
        }
    }
}

proof fn lemma_push_contains(s: Seq<PanelKind>, x: PanelKind)
    ensures
        forall|p: PanelKind| s.push(x).contains(p) <==> (s.contains(p) || p == x),
        no_duplicates(s) && !s.contains(x) ==> no_duplicates(s.push(x)),
{
    if no_duplicates(s) && !s.contains(x) {
        assert forall|i: int, j: int| 0 <= i < j < s.len() + 1 implies s.push(x)[i] != s.push(x)[j] by {
            if j == s.len() {
                assert(s.push(x)[i] == s[i]);
                assert(s.contains(s[i]));
            }
        }
    }
}

/// After synchronising, the tree column shows exactly the open trees and
/// nothing else, each once when it was shown at most once before.
pub proof fn law_tree_column_shows_open_trees(order: Seq<PanelKind>, information_open: bool, active_open: bool)
    ensures
        ({
            let synced = synced_tree_order(order, information_open, active_open);
            &&& forall|p: PanelKind| synced.contains(p) <==> tree_kept(p, information_open, active_open)
            &&& no_duplicates(order) ==> no_duplicates(synced)
        }),
{
    lemma_retain_trees(order, information_open, active_open);
    let kept = retain_trees(order, information_open, active_open);
    lemma_push_contains(kept, PanelKind::InformationTree);
    let with_information = if information_open && !kept.contains(PanelKind::InformationTree) {
        kept.push(PanelKind::InformationTree)
    } else {
        kept
    };
    lemma_push_contains(with_information, PanelKind::ActiveTree);
    let synced = synced_tree_order(order, information_open, active_open);
    assert forall|p: PanelKind| synced.contains(p) <==> tree_kept(p, information_open, active_open) by {
        if tree_kept(p, information_open, active_open) {
            match p {
                PanelKind::InformationTree => {
                    assert(with_information.contains(p));
                },
                PanelKind::ActiveTree => {},
                _ => {},
            }
        }
    }
}

/// Synchronising a column that is already in line with the open flags
/// changes nothing, so the revision stays.
pub proof fn law_tree_sync_is_idempotent(order: Seq<PanelKind>, information_open: bool, active_open: bool)
    ensures
        ({
            let synced = synced_tree_order(order, information_open, active_open);
            synced_tree_order(synced, information_open, active_open) == synced
        }),
{
    law_tree_column_shows_open_trees(order, information_open, active_open);
    let synced = synced_tree_order(order, information_open, active_open);
    assert forall|i: int| 0 <= i < synced.len() implies tree_kept(#[trigger] synced[i], information_open, active_open) by {
        assert(synced.contains(synced[i]));
    }
    lemma_retain_trees(synced, information_open, active_open);
    if information_open {
        assert(synced.contains(PanelKind::InformationTree));
    }
    if active_open {
        assert(synced.contains(PanelKind::ActiveTree));
    }
}

proof fn lemma_without(order: Seq<PanelKind>, panel: PanelKind)
    ensures
        !without(order, panel).contains(panel),
        without(without(order, panel), panel) == without(order, panel),
        no_duplicates(order) ==> no_duplicates(without(order, panel)),
    decreases order.len(),
{
    if order.len() > 0 {
        let init = order.drop_last();
        lemma_without(init, panel);
        let rest = without(init, panel);
        if order.last() != panel {
            lemma_push_contains(rest, order.last());
            assert(rest.push(order.last()).drop_last() =~= rest);
            if no_duplicates(order) {
                assert(no_duplicates(init));
                assert(!init.contains(order.last())) by {
                    if init.contains(order.last()) {
                        let k = choose|k: int| 0 <= k < init.len() && init[k] == order.last();
                        assert(order[k] == order[order.len() - 1]);
                    }
                }
                lemma_without_subset(init, panel, order.last());
            }
        } else {
            if no_duplicates(order) {
                assert(no_duplicates(init));
            }
        }
    }
}

proof fn lemma_without_subset(order: Seq<PanelKind>, panel: PanelKind, x: PanelKind)
    requires
        !order.contains(x),
    ensures
        !without(order, panel).contains(x),
    decreases order.len(),
{
    if order.len() > 0 {
        let init = order.drop_last();
        assert(!init.contains(x)) by {
            if init.contains(x) {
                let k = choose|k: int| 0 <= k < init.len() && init[k] == x;
                assert(order[k] == x);
            }
        }
        lemma_without_subset(init, panel, x);
        lemma_push_contains(without(init, panel), order.last());
        assert(order[order.len() - 1] != x);
    }
}

/// Opening an adjustment panel puts it at the bottom of its column exactly
/// once and leaves the other panels in their order.
pub proof fn law_recorded_panel_is_last_and_once(order: Seq<PanelKind>, panel: PanelKind)
    ensures
        ({
            let recorded = without(order, panel).push(panel);
            &&& recorded.last() == panel
            &&& forall|i: int| 0 <= i < recorded.len() - 1 ==> recorded[i] != panel
            &&& without(recorded, panel) == without(order, panel)
            &&& no_duplicates(order) ==> no_duplicates(recorded)
        }),
{
    lemma_without(order, panel);
    let rest = without(order, panel);
    let recorded = rest.push(panel);
    assert forall|i: int| 0 <= i < recorded.len() - 1 implies recorded[i] != panel by {
        assert(recorded[i] == rest[i]);
        if rest[i] == panel {
            assert(rest.contains(panel));
        }
    }
    assert(recorded.drop_last() =~= rest);
    lemma_push_contains(rest, panel);
}

} // verus!
