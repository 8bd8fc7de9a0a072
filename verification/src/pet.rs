//! Per-frame decisions of the pet window: settling after a drag, dock
//! changes, clicks and double clicks, and the pointer changes the pet is
//! told about.

use crate::dock::DockState;
use vstd::prelude::*;

verus! {

/// Frames during which the pet window keeps snapping back after a drag.
pub const SNAP_SETTLE_FRAMES: u8 = 4;

/// Longest pause between two releases of one button that makes a double
/// click, in milliseconds.
pub const DOUBLE_CLICK_MS: u64 = 500;

/// A mouse button as the pet sees it.
#[derive(Clone, Copy, Debug, PartialEq, Eq, Structural)]
pub enum PetMouseButton {
    Primary,
    Secondary,
    Middle,
}

/// A physical mouse button as the windowing system reports it.
#[derive(Clone, Copy, Debug, PartialEq, Eq, Structural)]
pub enum PointerButton {
    Left,
    Right,
    Middle,
    Back,
    Forward,
    Other(u16),
}

/// The pet button of a physical button: left is primary, right (and the
/// extra button number 3) secondary, middle middle; others are ignored.
pub open spec fn spec_pet_button(button: PointerButton) -> Option<PetMouseButton> {
    match button {
        PointerButton::Left => Some(PetMouseButton::Primary),
        PointerButton::Right => Some(PetMouseButton::Secondary),
        PointerButton::Other(3) => Some(PetMouseButton::Secondary),
        PointerButton::Middle => Some(PetMouseButton::Middle),
        _ => None,
    }
}

/// Maps a physical button to the pet's buttons.
pub fn pet_button(button: PointerButton) -> (r: Option<PetMouseButton>)
    ensures
        r == spec_pet_button(button),
{
    match button {
        PointerButton::Left => Some(PetMouseButton::Primary),
        PointerButton::Right => Some(PetMouseButton::Secondary),
        PointerButton::Other(n) => {
            if n == 3 {
                Some(PetMouseButton::Secondary)
            } else {
                None
            }
        },
        PointerButton::Middle => Some(PetMouseButton::Middle),
        _ => None,
    }
}

/// Whether a release of `button` completes a double click: the previous
/// click was of the same button and at most `DOUBLE_CLICK_MS` ago.
pub fn is_double_click(last_click: Option<(PetMouseButton, u64)>, button: PetMouseButton) -> (r: bool)
    ensures
        r == (match last_click {
            Some((last, elapsed_ms)) => last == button && elapsed_ms <= DOUBLE_CLICK_MS,
            None => false,
        }),
{
    match last_click {
        Some((last, elapsed_ms)) => last == button && elapsed_ms <= DOUBLE_CLICK_MS,
        None => false,
    }
}

/// What the pet window has to do in one frame after its view ran.
#[derive(Clone, Copy, Debug, PartialEq, Eq, Structural)]
pub struct SettleActions {
    /// Snap back into the activity area as part of settling after a drag.
    pub settle_snap: bool,
    /// Snap back because the window was left outside the activity area.
    pub outside_snap: bool,
    /// Tell the pet that its drag ended (the release was missed).
    pub drag_ended: bool,
    /// Read the window's position and persist it when it moved.
    pub sample_position: bool,
}

/// The pet window's state across frames.
#[derive(Clone, Copy, Debug)]
pub struct PetFrameState {
    /// Whether the pet was being dragged at the end of the last frame.
    pub last_drag: bool,
    /// Frames of snapping left after a drag.
    pub snap_frames: u8,
    /// Whether a finished drag changed the persisted position.
    pub position_dirty: bool,
    /// The dock state last reported to the pet.
    pub last_dock: DockState,
}

impl PetFrameState {
    /// A pet that is not dragged, settled and free.
    pub fn new() -> (s: PetFrameState)
        ensures
            !s.last_drag,
            s.snap_frames == 0,
            !s.position_dirty,
            !s.last_dock.left && !s.last_dock.right && !s.last_dock.top && !s.last_dock.bottom,
    {
        PetFrameState { last_drag: false, snap_frames: 0, position_dirty: false, last_dock: DockState::free() }
    }

    /// Reports a change of dock state once: returns the previous and the
    /// new state when they differ, and remembers the new one.
    pub fn dock_changed(&mut self, dock: DockState) -> (r: Option<(DockState, DockState)>)
        ensures
            dock != old(self).last_dock ==> r == Some((old(self).last_dock, dock)),
            dock == old(self).last_dock ==> r is None,
            final(self).last_dock == dock,
            final(self).last_drag == old(self).last_drag,
            final(self).snap_frames == old(self).snap_frames,
            final(self).position_dirty == old(self).position_dirty,
    {
        if dock != self.last_dock {
            let previous = self.last_dock;
            self.last_dock = dock;
            Some((previous, dock))
        } else {
            None
        }
    }

    /// Settles the window after its view ran. `dragging` is whether the
    /// view still drags the pet, `primary_down` whether the primary button
    /// is held anywhere on screen, and `outside` whether the window reaches
    /// outside the activity area. A drag that ends starts `SNAP_SETTLE_FRAMES`
    /// frames of snapping back; a drag whose release was missed (the view
    /// still drags though the button is up) is ended and settled the same
    /// way; and the position is sampled while settling.
    pub fn settle(&mut self, dragging: bool, primary_down: bool, outside: bool) -> (r: SettleActions)
        ensures
            ({
                let was = old(self).last_drag;
                let started = if was && !dragging { SNAP_SETTLE_FRAMES } else { old(self).snap_frames };
                let after_snap = if !dragging && started > 0 { (started - 1) as u8 } else { started };
                let recovered = dragging && !primary_down;
                &&& r.settle_snap == (!dragging && started > 0)
                &&& r.outside_snap == (!dragging && !primary_down && outside)
                &&& r.drag_ended == recovered
                &&& final(self).last_drag == (dragging && primary_down)
                &&& final(self).snap_frames == if recovered { SNAP_SETTLE_FRAMES } else { after_snap }
                &&& r.sample_position == (!final(self).last_drag && (was || recovered
                    || final(self).snap_frames > 0))
                &&& final(self).position_dirty == old(self).position_dirty
                &&& final(self).last_dock == old(self).last_dock
            }),
            old(self).last_drag && !dragging ==> r.settle_snap && r.sample_position
                && final(self).snap_frames == SNAP_SETTLE_FRAMES - 1,
            !old(self).last_drag && !dragging ==> final(self).snap_frames == if old(self).snap_frames > 0 {
                old(self).snap_frames - 1
            } else {
                0
            },
            final(self).last_drag ==> !r.settle_snap && !r.outside_snap && !r.sample_position,
    {
        let was_dragging = self.last_drag;
        self.last_drag = dragging;
        if was_dragging && !self.last_drag {
            self.snap_frames = SNAP_SETTLE_FRAMES;
        }
        let settle_snap = !self.last_drag && self.snap_frames > 0;
        if settle_snap {
            self.snap_frames = self.snap_frames - 1;
        }
        let outside_snap = !self.last_drag && !primary_down && outside;
        let recovered = self.last_drag && !primary_down;
        if recovered {
            self.last_drag = false;
            self.snap_frames = SNAP_SETTLE_FRAMES;
        }
        let sample_position = !self.last_drag && (was_dragging || recovered || self.snap_frames > 0);
        SettleActions { settle_snap, outside_snap, drag_ended: recovered, sample_position }
    }

    /// Records that a sampled position differed from the persisted one and
    /// was persisted.
    pub fn mark_position_dirty(&mut self)
        ensures
            final(self).position_dirty,
            final(self).last_drag == old(self).last_drag,
            final(self).snap_frames == old(self).snap_frames,
            final(self).last_dock == old(self).last_dock,
    {
        self.position_dirty = true;
    }

    /// Returns whether a completed drag changed the persisted position, and
    /// clears the flag.
    pub fn take_position_dirty(&mut self) -> (dirty: bool)
        ensures
            dirty == old(self).position_dirty,
            !final(self).position_dirty,
            final(self).last_drag == old(self).last_drag,
            final(self).snap_frames == old(self).snap_frames,
            final(self).last_dock == old(self).last_dock,
    {
        let dirty = self.position_dirty;
        self.position_dirty = false;
        dirty
    }
}

/// Whether each mouse button is held anywhere on screen.
#[derive(Clone, Copy, Debug, PartialEq, Eq, Structural)]
pub struct GlobalButtons {
    pub primary_down: bool,
    pub secondary_down: bool,
    pub middle_down: bool,
}

/// A change of the pointer that the pet is told about.
#[derive(Clone, Copy, Debug, PartialEq, Eq, Structural)]
pub enum PointerEvent {
    /// A button went down anywhere on screen.
    GlobalPressed(PetMouseButton),
    /// A button went up anywhere on screen.
    GlobalReleased(PetMouseButton),
    /// The pointer entered (`true`) or left (`false`) the pet's shape.
    Hover(bool),
    DragStarted,
    DragEnded,
}

/// What the pet view remembers of the pointer between frames.
#[derive(Clone, Copy, Debug, PartialEq, Eq, Structural)]
pub struct PointerState {
    /// Whether the pointer was over the pet's shape.
    pub last_hit: bool,
    /// Whether the pet was being dragged.
    pub last_drag: bool,
    /// The buttons held anywhere on screen.
    pub last_global: GlobalButtons,
}

/// The event of one button's change, if it changed.
pub open spec fn button_edge(button: PetMouseButton, was_down: bool, is_down: bool) -> Seq<PointerEvent> {
    if !was_down && is_down {
        seq![PointerEvent::GlobalPressed(button)]
    } else if was_down && !is_down {
        seq![PointerEvent::GlobalReleased(button)]
    } else {
        seq![]
    }
}

/// Whether the pet is dragged this frame. A drag goes on while the primary
/// button stays down, even when the pointer has left the pet's shape; a new
/// one starts when the primary button is down over the pet and the pointer
/// has moved far enough from where it was pressed.
pub open spec fn drags(last_drag: bool, primary_down: bool, moved_far: bool, inside: bool) -> bool {
    if last_drag {
        primary_down
    } else {
        primary_down && moved_far && inside
    }
}

/// The events of one frame, in the order the pet is told: the global
/// buttons (primary, secondary, middle), then hovering, then dragging.
pub open spec fn pointer_events(
    state: PointerState,
    global: GlobalButtons,
    inside: bool,
    primary_down: bool,
    moved_far: bool,
) -> Seq<PointerEvent> {
    let dragging = drags(state.last_drag, primary_down, moved_far, inside);
    button_edge(PetMouseButton::Primary, state.last_global.primary_down, global.primary_down)
        + button_edge(PetMouseButton::Secondary, state.last_global.secondary_down, global.secondary_down)
        + button_edge(PetMouseButton::Middle, state.last_global.middle_down, global.middle_down)
        + (if inside != state.last_hit { seq![PointerEvent::Hover(inside)] } else { seq![] })
        + (if dragging != state.last_drag {
            seq![if dragging { PointerEvent::DragStarted } else { PointerEvent::DragEnded }]
        } else {
            seq![]
        })
}

fn push_button_edge(events: &mut Vec<PointerEvent>, button: PetMouseButton, was_down: bool, is_down: bool)
    ensures
        final(events)@ == old(events)@ + button_edge(button, was_down, is_down),
{
    if !was_down && is_down {
        events.push(PointerEvent::GlobalPressed(button));
    } else if was_down && !is_down {
        events.push(PointerEvent::GlobalReleased(button));
    }
    assert(final(events)@ =~= old(events)@ + button_edge(button, was_down, is_down));
}

impl PointerState {
    /// Nothing hovered, nothing dragged, no button held.
    pub fn new() -> (s: PointerState)
        ensures
            !s.last_hit,
            !s.last_drag,
            !s.last_global.primary_down && !s.last_global.secondary_down && !s.last_global.middle_down,
    {
        PointerState {
            last_hit: false,
            last_drag: false,
            last_global: GlobalButtons { primary_down: false, secondary_down: false, middle_down: false },
        }
    }

    /// Takes in one frame's pointer: the buttons held anywhere on screen,
    /// whether the pointer is over the pet's shape, whether the primary
    /// button is down in the pet window, and whether the pointer has moved
    /// far enough from where it was pressed to start a drag. Returns the
    /// changes the pet is told about and remembers the new state.
    pub fn observe(&mut self, global: GlobalButtons, inside: bool, primary_down: bool, moved_far: bool) -> (events: Vec<
        PointerEvent,
    >)
        ensures
            events@ == pointer_events(*old(self), global, inside, primary_down, moved_far),
            final(self).last_global == global,
            final(self).last_hit == inside,
            final(self).last_drag == drags(old(self).last_drag, primary_down, moved_far, inside),
    {
        let last = *self;
        let mut events: Vec<PointerEvent> = Vec::new();
        push_button_edge(&mut events, PetMouseButton::Primary, last.last_global.primary_down, global.primary_down);
        push_button_edge(
            &mut events,
            PetMouseButton::Secondary,
            last.last_global.secondary_down,
            global.secondary_down,
        );
        push_button_edge(&mut events, PetMouseButton::Middle, last.last_global.middle_down, global.middle_down);
        push_hover(&mut events, last.last_hit, inside);
        let dragging = if last.last_drag {
            primary_down
        } else {
            primary_down && moved_far && inside
        };
        push_drag(&mut events, last.last_drag, dragging);
        *self = PointerState { last_hit: inside, last_drag: dragging, last_global: global };
        proof {
            lemma_pointer_events_shape(last, global, inside, primary_down, moved_far);
        }
        events
    }
}

fn push_hover(events: &mut Vec<PointerEvent>, last_hit: bool, inside: bool)
    ensures
        final(events)@ == old(events)@ + (if inside != last_hit { seq![PointerEvent::Hover(inside)] } else { seq![] }),
{
    if inside != last_hit {
        events.push(PointerEvent::Hover(inside));
    }
    assert(final(events)@ =~= old(events)@ + (if inside != last_hit { seq![PointerEvent::Hover(inside)] } else { seq![] }));
}

fn push_drag(events: &mut Vec<PointerEvent>, last_drag: bool, dragging: bool)
    ensures
        final(events)@ == old(events)@ + (if dragging != last_drag {
            seq![if dragging { PointerEvent::DragStarted } else { PointerEvent::DragEnded }]
        } else {
            seq![]
        }),
{
    if dragging != last_drag {
        events.push(if dragging { PointerEvent::DragStarted } else { PointerEvent::DragEnded });
    }
    assert(final(events)@ =~= old(events)@ + (if dragging != last_drag {
        seq![if dragging { PointerEvent::DragStarted } else { PointerEvent::DragEnded }]
    } else {
        seq![]
    }));
}

proof fn lemma_pointer_events_shape(
    state: PointerState,
    global: GlobalButtons,
    inside: bool,
    primary_down: bool,
    moved_far: bool,
)
    ensures
        ({
            let dragging = drags(state.last_drag, primary_down, moved_far, inside);
            pointer_events(state, global, inside, primary_down, moved_far) =~= seq![] + button_edge(
                PetMouseButton::Primary,
                state.last_global.primary_down,
                global.primary_down,
            ) + button_edge(PetMouseButton::Secondary, state.last_global.secondary_down, global.secondary_down)
                + button_edge(PetMouseButton::Middle, state.last_global.middle_down, global.middle_down) + (if inside
                != state.last_hit {
                seq![PointerEvent::Hover(inside)]
            } else {
                seq![]
            }) + (if dragging != state.last_drag {
                seq![if dragging { PointerEvent::DragStarted } else { PointerEvent::DragEnded }]
            } else {
                seq![]
            })
        }),
{
}

/// The pet is told only of changes: observing the same pointer again right
/// after tells it nothing.
pub proof fn law_unchanged_pointer_is_quiet(
    state: PointerState,
    global: GlobalButtons,
    inside: bool,
    primary_down: bool,
    moved_far: bool,
)
    ensures
        ({
            let next = PointerState {
                last_hit: inside,
                last_drag: drags(state.last_drag, primary_down, moved_far, inside),
                last_global: global,
            };
            pointer_events(next, global, inside, primary_down, moved_far).len() == 0
        }),
{
}

} // verus!
