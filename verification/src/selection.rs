//! What the HUD layout editor has selected, and which adjustment panels
//! follow the selection. Selection keys are `instance/<id>` for a HUD
//! instance and `group/<id>` for a group.

use crate::hud::{has_child, is_active, HudGroupEntry, HudInstanceEntry, HudSource, HudSwitches};
use crate::panels::{next_revision, record_adjustment_open, without, PanelKind};
use crate::text::{concat, has_prefix, option_text_eq, same_text, starts_with, str_eq, strip_prefix};
use vstd::prelude::*;

verus! {

/// Key prefix of a HUD instance.
pub const INSTANCE_PREFIX: &'static str = "instance/";

/// Key prefix of a group.
pub const GROUP_PREFIX: &'static str = "group/";

/// The editor's selection and its adjustment panels.
pub struct AdjustmentTargets {
    /// The highlighted HUD or group.
    pub selected: Option<String>,
    /// The selection the adjustment panels were last synchronised to.
    pub adjustment_selection: Option<String>,
    /// Whether the adjustment panels are shown at all.
    pub adjust_open: bool,
    pub hud_adjust_open: bool,
    pub group_adjust_open: bool,
    /// The instance that the HUD panel edits.
    pub hud_adjust_key: Option<String>,
    /// The group that the group panel edits.
    pub group_adjust_key: Option<String>,
    /// Whether the shadow panel is shown.
    pub shadow_open: bool,
    /// The adjustment panels from top to bottom.
    pub order: Vec<PanelKind>,
    /// Bumped whenever a panel is (re)opened.
    pub revision: u64,
}

/// The first group that lists `id` among its members.
pub open spec fn first_group_listing(groups: Seq<HudGroupEntry>, id: Seq<char>) -> Option<int>
    decreases groups.len(),
{
    if groups.len() == 0 {
        None
    } else if has_child(groups[0], id) {
        Some(0)
    } else {
        match first_group_listing(groups.drop_first(), id) {
            Some(g) => Some(g + 1),
            None => None,
        }
    }
}

fn first_group_listing_exec(groups: &Vec<HudGroupEntry>, id: &str) -> (r: Option<usize>)
    ensures
        match r {
            Some(g) => first_group_listing(groups@, id@) == Some(g as int) && g < groups@.len(),
            None => first_group_listing(groups@, id@) is None,
        },
{
    let mut k: usize = 0;
    assert(groups@.skip(0) =~= groups@);
    while k < groups.len()
        invariant
            0 <= k <= groups@.len(),
            first_group_listing(groups@, id@) == match first_group_listing(groups@.skip(k as int), id@) {
                Some(g) => Some(g + k),
                None => None,
            },
        decreases groups@.len() - k,
    {
        assert(groups@.skip(k as int).drop_first() =~= groups@.skip(k + 1));
        let group = &groups[k];
        let mut c: usize = 0;
        let mut found = false;
        while c < group.children.len()
            invariant
                0 <= c <= group.children@.len(),
                found ==> has_child(*group, id@),
                !found ==> forall|j: int| 0 <= j < c ==> (#[trigger] group.children@[j])@ != id@,
            decreases group.children@.len() - c,
        {
            if str_eq(group.children[c].as_str(), id) {
                found = true;
                assert(group.children@[c as int]@ == id@);
            }
            c = c + 1;
        }
        assert(groups@.skip(k as int)[0] == groups@[k as int]);
        if found {
            return Some(k);
        }
        k = k + 1;
    }
    assert(groups@.skip(k as int).len() == 0);
    None
}

/// The panel column after `panel` is opened, unless it is open already.
pub open spec fn opened(order: Seq<PanelKind>, already: bool, panel: PanelKind) -> Seq<PanelKind> {
    if already {
        order
    } else {
        without(order, panel).push(panel)
    }
}

/// The revision after `panel` is opened, unless it is open already.
pub open spec fn opened_revision(revision: u64, already: bool) -> u64 {
    if already {
        revision
    } else {
        next_revision(revision)
    }
}

/// The text of `s`, when present.
pub open spec fn text_of(s: Option<String>) -> Option<Seq<char>> {
    match s {
        Some(x) => Some(x@),
        None => None,
    }
}

impl AdjustmentTargets {
    /// Whether the synchronisation has nothing to do: the panels already
    /// follow the selection and are not waiting to be reopened all at once.
    pub open spec fn in_sync(&self) -> bool {
        let unchanged = same_text(self.adjustment_selection, self.selected);
        let reopening_all = self.adjust_open && unchanged && !self.hud_adjust_open && !self.group_adjust_open;
        unchanged && !reopening_all
    }

    /// Makes the adjustment panels follow the selection. Selecting an
    /// instance opens the HUD panel on it and, when the instance belongs to a
    /// group (the first group listing it), the group panel on that group;
    /// selecting a group opens the group panel on it. A panel that was
    /// closed is appended to the bottom of the column.
    pub fn sync_adjustment_targets(&mut self, groups: &Vec<HudGroupEntry>)
        ensures
            old(self).in_sync() ==> *final(self) == *old(self),
            !old(self).in_sync() ==> ({
                let sel = text_of(old(self).selected);
                &&& text_of(final(self).adjustment_selection) == sel
                &&& text_of(final(self).selected) == sel
                &&& final(self).adjust_open == (sel is Some)
                &&& final(self).shadow_open == old(self).shadow_open
                &&& match sel {
                    Some(key) if has_prefix(key, INSTANCE_PREFIX@) => {
                        let id = key.subrange(INSTANCE_PREFIX@.len() as int, key.len() as int);
                        let hud_order = opened(old(self).order@, old(self).hud_adjust_open, PanelKind::HudAdjust);
                        let hud_revision = opened_revision(old(self).revision, old(self).hud_adjust_open);
                        &&& final(self).hud_adjust_open
                        &&& text_of(final(self).hud_adjust_key) == Some(key)
                        &&& match first_group_listing(groups@, id) {
                            Some(g) => {
                                &&& final(self).group_adjust_open
                                &&& text_of(final(self).group_adjust_key) == Some(GROUP_PREFIX@ + groups@[g].id@)
                                &&& final(self).order@ == opened(hud_order, old(self).group_adjust_open, PanelKind::GroupAdjust)
                                &&& final(self).revision == opened_revision(hud_revision, old(self).group_adjust_open)
                            },
                            None => {
                                &&& final(self).group_adjust_open == old(self).group_adjust_open
                                &&& text_of(final(self).group_adjust_key) == text_of(old(self).group_adjust_key)
                                &&& final(self).order@ == hud_order
                                &&& final(self).revision == hud_revision
                            },
                        }
                    },
                    Some(key) if has_prefix(key, GROUP_PREFIX@) => {
                        &&& final(self).hud_adjust_open == old(self).hud_adjust_open
                        &&& text_of(final(self).hud_adjust_key) == text_of(old(self).hud_adjust_key)
                        &&& final(self).group_adjust_open
                        &&& text_of(final(self).group_adjust_key) == Some(key)
                        &&& final(self).order@ == opened(old(self).order@, old(self).group_adjust_open, PanelKind::GroupAdjust)
                        &&& final(self).revision == opened_revision(old(self).revision, old(self).group_adjust_open)
                    },
                    _ => {
                        &&& final(self).hud_adjust_open == old(self).hud_adjust_open
                        &&& text_of(final(self).hud_adjust_key) == text_of(old(self).hud_adjust_key)
                        &&& final(self).group_adjust_open == old(self).group_adjust_open
                        &&& text_of(final(self).group_adjust_key) == text_of(old(self).group_adjust_key)
                        &&& final(self).order@ == old(self).order@
                        &&& final(self).revision == old(self).revision
                    },
                }
            }),
    {
        let unchanged = option_text_eq(&self.adjustment_selection, &self.selected);
        let reopening_all = self.adjust_open && unchanged && !self.hud_adjust_open && !self.group_adjust_open;
        if unchanged && !reopening_all {
            return;
        }
        self.adjustment_selection = self.selected.clone();
        self.adjust_open = self.selected.is_some();
        let selected = match &self.selected {
            Some(key) => key.clone(),
            None => {
                return;
            },
        };
        if starts_with(selected.as_str(), INSTANCE_PREFIX) {
            if !self.hud_adjust_open {
                record_adjustment_open(&mut self.order, &mut self.revision, PanelKind::HudAdjust);
            }
            self.hud_adjust_open = true;
            self.hud_adjust_key = Some(selected.clone());
            if let Some(instance_id) = strip_prefix(selected.as_str(), INSTANCE_PREFIX) {
                if let Some(g) = first_group_listing_exec(groups, instance_id) {
                    if !self.group_adjust_open {
                        record_adjustment_open(&mut self.order, &mut self.revision, PanelKind::GroupAdjust);
                    }
                    self.group_adjust_open = true;
                    self.group_adjust_key = Some(concat(GROUP_PREFIX, groups[g].id.as_str()));
                }
            }
        } else if starts_with(selected.as_str(), GROUP_PREFIX) {
            if !self.group_adjust_open {
                record_adjustment_open(&mut self.order, &mut self.revision, PanelKind::GroupAdjust);
            }
            self.group_adjust_open = true;
            self.group_adjust_key = Some(selected);
        }
    }

    /// The state at the start of a layout session: nothing selected, no
    /// adjustment panel open, an empty panel column.
    pub fn begin_session(&mut self)
        ensures
            final(self).selected is None,
            final(self).adjustment_selection is None,
            !final(self).adjust_open,
            !final(self).hud_adjust_open,
            !final(self).group_adjust_open,
            final(self).hud_adjust_key is None,
            final(self).group_adjust_key is None,
            final(self).shadow_open == old(self).shadow_open,
            final(self).order@.len() == 0,
            final(self).revision == old(self).revision,
    {
        self.selected = None;
        self.adjustment_selection = None;
        self.order = Vec::new();
        self.adjust_open = false;
        self.hud_adjust_open = false;
        self.group_adjust_open = false;
        self.hud_adjust_key = None;
        self.group_adjust_key = None;
    }

    /// Highlights `key` and shows the adjustment panels.
    pub fn select(&mut self, key: String)
        ensures
            text_of(final(self).selected) == Some(key@),
            final(self).adjust_open,
            final(self).adjustment_selection == old(self).adjustment_selection,
            final(self).hud_adjust_open == old(self).hud_adjust_open,
            final(self).group_adjust_open == old(self).group_adjust_open,
            final(self).hud_adjust_key == old(self).hud_adjust_key,
            final(self).group_adjust_key == old(self).group_adjust_key,
            final(self).shadow_open == old(self).shadow_open,
            final(self).order@ == old(self).order@,
            final(self).revision == old(self).revision,
    {
        self.selected = Some(key);
        self.adjust_open = true;
    }

    /// After the group with key `key` was deleted: when it was selected, the
    /// selection is cleared and the adjustment panels are hidden.
    pub fn forget_deleted_group(&mut self, key: &str)
        ensures
            text_of(old(self).selected) == Some(key@) ==> final(self).selected is None
                && !final(self).adjust_open,
            text_of(old(self).selected) != Some(key@) ==> final(self).selected == old(self).selected
                && final(self).adjust_open == old(self).adjust_open,
            final(self).adjustment_selection == old(self).adjustment_selection,
            final(self).hud_adjust_open == old(self).hud_adjust_open,
            final(self).group_adjust_open == old(self).group_adjust_open,
            final(self).hud_adjust_key == old(self).hud_adjust_key,
            final(self).group_adjust_key == old(self).group_adjust_key,
            final(self).shadow_open == old(self).shadow_open,
            final(self).order@ == old(self).order@,
            final(self).revision == old(self).revision,
    {
        let is_selected = match &self.selected {
            Some(current) => str_eq(current.as_str(), key),
            None => false,
        };
        if is_selected {
            self.selected = None;
            self.adjust_open = false;
        }
    }

    /// After the instance with key `key` was switched off: when it was
    /// selected, the selection, its HUD panel and the shadow panel are
    /// cleared and the adjustment panels are hidden.
    pub fn forget_disabled_hud(&mut self, key: &str)
        ensures
            text_of(old(self).selected) == Some(key@) ==> {
                &&& final(self).selected is None
                &&& final(self).adjustment_selection is None
                &&& !final(self).adjust_open
                &&& !final(self).hud_adjust_open
                &&& final(self).hud_adjust_key is None
                &&& !final(self).shadow_open
            },
            text_of(old(self).selected) != Some(key@) ==> {
                &&& final(self).selected == old(self).selected
                &&& final(self).adjustment_selection == old(self).adjustment_selection
                &&& final(self).adjust_open == old(self).adjust_open
                &&& final(self).hud_adjust_open == old(self).hud_adjust_open
                &&& final(self).hud_adjust_key == old(self).hud_adjust_key
                &&& final(self).shadow_open == old(self).shadow_open
            },
            final(self).group_adjust_open == old(self).group_adjust_open,
            final(self).group_adjust_key == old(self).group_adjust_key,
            final(self).order@ == old(self).order@,
            final(self).revision == old(self).revision,
    {
        let is_selected = match &self.selected {
            Some(current) => str_eq(current.as_str(), key),
            None => false,
        };
        if is_selected {
            self.selected = None;
            self.adjustment_selection = None;
            self.adjust_open = false;
            self.hud_adjust_open = false;
            self.hud_adjust_key = None;
            self.shadow_open = false;
        }
    }
}

/// The first configured instance with identifier `id`.
pub open spec fn first_instance(instances: Seq<HudInstanceEntry>, id: Seq<char>) -> Option<int>
    decreases instances.len(),
{
    if instances.len() == 0 {
        None
    } else if instances[0].id@ == id {
        Some(0)
    } else {
        match first_instance(instances.drop_first(), id) {
            Some(i) => Some(i + 1),
            None => None,
        }
    }
}

pub(crate) fn first_instance_exec(instances: &Vec<HudInstanceEntry>, id: &str) -> (r: Option<usize>)
    ensures
        match r {
            Some(i) => first_instance(instances@, id@) == Some(i as int) && i < instances@.len(),
            None => first_instance(instances@, id@) is None,
        },
{
    let mut k: usize = 0;
    assert(instances@.skip(0) =~= instances@);
    while k < instances.len()
        invariant
            0 <= k <= instances@.len(),
            first_instance(instances@, id@) == match first_instance(instances@.skip(k as int), id@) {
                Some(i) => Some(i + k),
                None => None,
            },
        decreases instances@.len() - k,
    {
        assert(instances@.skip(k as int).drop_first() =~= instances@.skip(k + 1));
        assert(instances@.skip(k as int)[0] == instances@[k as int]);
        if str_eq(instances[k].id.as_str(), id) {
            return Some(k);
        }
        k = k + 1;
    }
    assert(instances@.skip(k as int).len() == 0);
    None
}

/// Switches off the HUD instance `instance_id` from the layout editor. The
/// first instance with that identifier is switched off when it is on; the
/// editor then forgets it as a selection (see `forget_disabled_hud`) and
/// the editor windows' revision advances. Returns whether anything changed:
/// an unknown or already switched-off instance changes nothing.
pub fn disable_hud(
    switches: &mut HudSwitches,
    targets: &mut AdjustmentTargets,
    instance_id: &str,
    window_revision: &mut u64,
) -> (changed: bool)
    ensures
        changed == match first_instance(old(switches).instances@, instance_id@) {
            Some(i) => old(switches).instances@[i].enabled,
            None => false,
        },
        !changed ==> *final(switches) == *old(switches) && *final(targets) == *old(targets)
            && *final(window_revision) == *old(window_revision),
        changed ==> {
            let i = first_instance(old(switches).instances@, instance_id@)->0;
            let key = INSTANCE_PREFIX@ + instance_id@;
            &&& final(switches).master_enabled == old(switches).master_enabled
            &&& final(switches).groups@ == old(switches).groups@
            &&& final(switches).instances@ == old(switches).instances@.update(
                i,
                HudInstanceEntry { enabled: false, ..old(switches).instances@[i] },
            )
            &&& *final(window_revision) == next_revision(*old(window_revision))
            &&& text_of(old(targets).selected) == Some(key) ==> {
                &&& final(targets).selected is None
                &&& final(targets).adjustment_selection is None
                &&& !final(targets).adjust_open
                &&& !final(targets).hud_adjust_open
                &&& final(targets).hud_adjust_key is None
                &&& !final(targets).shadow_open
            }
            &&& text_of(old(targets).selected) != Some(key) ==> {
                &&& final(targets).selected == old(targets).selected
                &&& final(targets).adjustment_selection == old(targets).adjustment_selection
                &&& final(targets).adjust_open == old(targets).adjust_open
                &&& final(targets).hud_adjust_open == old(targets).hud_adjust_open
                &&& final(targets).hud_adjust_key == old(targets).hud_adjust_key
                &&& final(targets).shadow_open == old(targets).shadow_open
            }
            &&& final(targets).group_adjust_open == old(targets).group_adjust_open
            &&& final(targets).group_adjust_key == old(targets).group_adjust_key
            &&& final(targets).order@ == old(targets).order@
            &&& final(targets).revision == old(targets).revision
        },
{
    let i = match first_instance_exec(&switches.instances, instance_id) {
        Some(i) => i,
        None => return false,
    };
    if !switches.instances[i].enabled {
        return false;
    }
    switches.instances[i].enabled = false;
    let key = instance_key(instance_id);
    targets.forget_disabled_hud(key.as_str());
    *window_revision = window_revision.wrapping_add(1);
    true
}

/// The first group with identifier `id`.
pub open spec fn first_group(groups: Seq<HudGroupEntry>, id: Seq<char>) -> Option<int>
    decreases groups.len(),
{
    if groups.len() == 0 {
        None
    } else if groups[0].id@ == id {
        Some(0)
    } else {
        match first_group(groups.drop_first(), id) {
            Some(g) => Some(g + 1),
            None => None,
        }
    }
}

/// The position of the first instance with identifier `id`.
pub fn find_instance(instances: &Vec<HudInstanceEntry>, id: &str) -> (r: Option<usize>)
    ensures
        match r {
            Some(i) => first_instance(instances@, id@) == Some(i as int) && i < instances@.len(),
            None => first_instance(instances@, id@) is None,
        },
{
    first_instance_exec(instances, id)
}

/// The position of the first group with identifier `id`.
pub fn find_group(groups: &Vec<HudGroupEntry>, id: &str) -> (r: Option<usize>)
    ensures
        match r {
            Some(g) => first_group(groups@, id@) == Some(g as int) && g < groups@.len(),
            None => first_group(groups@, id@) is None,
        },
{
    let mut k: usize = 0;
    assert(groups@.skip(0) =~= groups@);
    while k < groups.len()
        invariant
            0 <= k <= groups@.len(),
            first_group(groups@, id@) == match first_group(groups@.skip(k as int), id@) {
                Some(g) => Some(g + k),
                None => None,
            },
        decreases groups@.len() - k,
    {
        assert(groups@.skip(k as int).drop_first() =~= groups@.skip(k + 1));
        assert(groups@.skip(k as int)[0] == groups@[k as int]);
        if str_eq(groups[k].id.as_str(), id) {
            return Some(k);
        }
        k = k + 1;
    }
    assert(groups@.skip(k as int).len() == 0);
    None
}

/// What an editor reset puts back to its default.
#[derive(Clone, Copy, Debug, PartialEq, Eq, Structural)]
pub enum ResetKind {
    /// The position of a top-level HUD or group on the canvas.
    TopLevelPosition,
    /// A grouped instance's position inside its group.
    MemberPosition,
    /// An instance's size.
    HudSize,
    /// A group's size (back to sizing by its content).
    GroupSize,
}

/// Whether the record that a reset of `kind` for `id` rewrites exists: a
/// top-level position always does; a member position or a HUD size needs
/// an instance with that identifier, a group size a group with it.
pub open spec fn reset_target_exists(kind: ResetKind, switches: HudSwitches, id: Seq<char>) -> bool {
    match kind {
        ResetKind::TopLevelPosition => true,
        ResetKind::MemberPosition | ResetKind::HudSize => first_instance(switches.instances@, id) is Some,
        ResetKind::GroupSize => first_group(switches.groups@, id) is Some,
    }
}

/// The bookkeeping of an editor reset: returns whether the reset applies,
/// and advances the editor windows' revision exactly when it does. The
/// caller then writes the default position or size into the first record
/// with identifier `id` (see `find_instance` and `find_group`).
pub fn reset_record(kind: ResetKind, id: &str, switches: &HudSwitches, window_revision: &mut u64) -> (found: bool)
    ensures
        found == reset_target_exists(kind, *switches, id@),
        found ==> *final(window_revision) == next_revision(*old(window_revision)),
        !found ==> *final(window_revision) == *old(window_revision),
{
    let found = match kind {
        ResetKind::TopLevelPosition => true,
        ResetKind::MemberPosition | ResetKind::HudSize => find_instance(&switches.instances, id).is_some(),
        ResetKind::GroupSize => find_group(&switches.groups, id).is_some(),
    };
    if found {
        *window_revision = window_revision.wrapping_add(1);
    }
    found
}

/// Switching an instance off from the editor, as `disable_hud` does, stops
/// exactly that instance from contributing a frame: every other instance
/// contributes as before.
pub proof fn law_disabled_hud_stops_contributing(
    before: HudSwitches,
    after: HudSwitches,
    sources: Seq<HudSource>,
    i: int,
)
    requires
        0 <= i < before.instances@.len(),
        after.master_enabled == before.master_enabled,
        after.groups@ == before.groups@,
        after.instances@ == before.instances@.update(i, HudInstanceEntry { enabled: false, ..before.instances@[i] }),
    ensures
        !is_active(after, sources, i),
        forall|j: int|
            0 <= j < before.instances@.len() && j != i ==> #[trigger] is_active(after, sources, j) == is_active(
                before,
                sources,
                j,
            ),
{
}

/// Whether `key` names a concrete HUD instance or group.
pub open spec fn alignable(key: Seq<char>) -> bool {
    has_prefix(key, INSTANCE_PREFIX@) || has_prefix(key, GROUP_PREFIX@)
}

/// Whether an editor overlay is a concrete instance or group, and so may
/// give alignment lines; the layout preview is not.
pub fn is_alignable_overlay(key: &str) -> (r: bool)
    ensures
        r == alignable(key@),
{
    starts_with(key, INSTANCE_PREFIX) || starts_with(key, GROUP_PREFIX)
}

/// Whether the group `group_id` lists the instance `instance_id`.
pub open spec fn lists_member(groups: Seq<HudGroupEntry>, group_id: Seq<char>, instance_id: Seq<char>) -> bool {
    exists|g: int| 0 <= g < groups.len() && (#[trigger] groups[g]).id@ == group_id && has_child(groups[g], instance_id)
}

/// Whether `overlay` is an instance inside the group that `moving` drags.
pub open spec fn inside_moving_group(groups: Seq<HudGroupEntry>, overlay: Seq<char>, moving: Seq<char>) -> bool {
    &&& has_prefix(moving, GROUP_PREFIX@)
    &&& has_prefix(overlay, INSTANCE_PREFIX@)
    &&& lists_member(
        groups,
        moving.subrange(GROUP_PREFIX@.len() as int, moving.len() as int),
        overlay.subrange(INSTANCE_PREFIX@.len() as int, overlay.len() as int),
    )
}

/// Whether `overlay` gives alignment lines to the overlay `moving` that is
/// being dragged: it must be a concrete instance or group, not the dragged
/// overlay itself, and not a member of the dragged group.
pub open spec fn gives_alignment(groups: Seq<HudGroupEntry>, overlay: Seq<char>, moving: Seq<char>) -> bool {
    alignable(overlay) && overlay != moving && !inside_moving_group(groups, overlay, moving)
}

fn group_lists_member(groups: &Vec<HudGroupEntry>, group_id: &str, instance_id: &str) -> (r: bool)
    ensures
        r == lists_member(groups@, group_id@, instance_id@),
{
    let mut k: usize = 0;
    while k < groups.len()
        invariant
            0 <= k <= groups@.len(),
            forall|j: int| 0 <= j < k ==> !((#[trigger] groups@[j]).id@ == group_id@ && has_child(groups@[j], instance_id@)),
        decreases groups@.len() - k,
    {
        let group = &groups[k];
        if str_eq(group.id.as_str(), group_id) {
            let mut c: usize = 0;
            while c < group.children.len()
                invariant
                    0 <= c <= group.children@.len(),
                    k < groups@.len(),
                    *group == groups@[k as int],
                    group.id@ == group_id@,
                    forall|j: int| 0 <= j < c ==> (#[trigger] group.children@[j])@ != instance_id@,
                decreases group.children@.len() - c,
            {
                if str_eq(group.children[c].as_str(), instance_id) {
                    assert(group.children@[c as int]@ == instance_id@);
                    return true;
                }
                c = c + 1;
            }
        }
        k = k + 1;
    }
    false
}

/// Whether the overlay `overlay_key` gives alignment lines while the overlay
/// `moving_key` is dragged (see `gives_alignment`).
pub fn provides_alignment(groups: &Vec<HudGroupEntry>, overlay_key: &str, moving_key: &str) -> (r: bool)
    ensures
        r == gives_alignment(groups@, overlay_key@, moving_key@),
{
    if !is_alignable_overlay(overlay_key) || str_eq(overlay_key, moving_key) {
        return false;
    }
    match strip_prefix(moving_key, GROUP_PREFIX) {
        Some(group_id) => match strip_prefix(overlay_key, INSTANCE_PREFIX) {
            Some(instance_id) => !group_lists_member(groups, group_id, instance_id),
            None => true,
        },
        None => true,
    }
}

/// The selection key of a HUD instance.
pub fn instance_key(id: &str) -> (key: String)
    ensures
        key@ == INSTANCE_PREFIX@ + id@,
{
    concat(INSTANCE_PREFIX, id)
}

/// The selection key of a group.
pub fn group_key(id: &str) -> (key: String)
    ensures
        key@ == GROUP_PREFIX@ + id@,
{
    concat(GROUP_PREFIX, id)
}

} // verus!
