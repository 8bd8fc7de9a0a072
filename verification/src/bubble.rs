//! The pet's speech-bubble window: when it shows, hides and moves.

use crate::activity::fits;
use vstd::prelude::*;

verus! {

/// Offset from the bubble's anchor (its centre) to its window's top-left
/// corner: half the bubble's width and height.
pub const BUBBLE_HALF_WIDTH: i32 = 90;
pub const BUBBLE_HALF_HEIGHT: i32 = 26;

/// A point on the screen in physical pixels.
#[derive(Clone, Copy, Debug, PartialEq, Eq, Structural)]
pub struct ScreenPoint {
    pub x: i32,
    pub y: i32,
}

/// What the bubble window has to do after an update.
#[derive(Clone, Copy, Debug, PartialEq, Eq, Structural)]
pub struct BubbleActions {
    /// Move the window's top-left corner here.
    pub move_to: Option<ScreenPoint>,
    /// Show (`true`) or hide (`false`) the window.
    pub set_visible: Option<bool>,
}

/// Whether the bubble shows text and where it was last placed.
#[derive(Clone, Copy, Debug, PartialEq, Eq, Structural)]
pub struct BubbleState {
    pub showing: bool,
    pub last_anchor: Option<ScreenPoint>,
}

impl BubbleState {
    /// A hidden bubble that was never placed.
    pub fn new() -> (s: BubbleState)
        ensures
            !s.showing,
            s.last_anchor is None,
    {
        BubbleState { showing: false, last_anchor: None }
    }

    /// Takes whether the pet currently says something and where the
    /// bubble's centre belongs. A showing bubble whose anchor changed moves
    /// so that it is centred there; a hidden one forgets its anchor; the
    /// window is shown or hidden when that changes.
    pub fn update(&mut self, has_content: bool, anchor: ScreenPoint) -> (r: BubbleActions)
        requires
            has_content ==> fits(anchor.x - BUBBLE_HALF_WIDTH) && fits(anchor.y - BUBBLE_HALF_HEIGHT),
        ensures
            final(self).showing == has_content,
            has_content && old(self).last_anchor != Some(anchor) ==> r.move_to == Some(
                ScreenPoint { x: (anchor.x - BUBBLE_HALF_WIDTH) as i32, y: (anchor.y - BUBBLE_HALF_HEIGHT) as i32 },
            ) && final(self).last_anchor == Some(anchor),
            has_content && old(self).last_anchor == Some(anchor) ==> r.move_to is None
                && final(self).last_anchor == old(self).last_anchor,
            !has_content ==> r.move_to is None && final(self).last_anchor is None,
            r.set_visible == if old(self).showing != has_content {
                Some(has_content)
            } else {
                None
            },
    {
        let was_visible = self.showing;
        self.showing = has_content;
        let mut move_to: Option<ScreenPoint> = None;
        if has_content && self.last_anchor != Some(anchor) {
            move_to = Some(ScreenPoint { x: anchor.x - BUBBLE_HALF_WIDTH, y: anchor.y - BUBBLE_HALF_HEIGHT });
            self.last_anchor = Some(anchor);
        } else if !has_content {
            self.last_anchor = None;
        }
        let set_visible = if was_visible != has_content { Some(has_content) } else { None };
        BubbleActions { move_to, set_visible }
    }

    /// Whether the bubble shows text.
    pub fn is_visible(&self) -> (r: bool)
        ensures
            r == self.showing,
    {
        self.showing
    }

    /// Hides the bubble and forgets its anchor.
    pub fn hide_bubble(&mut self)
        ensures
            !final(self).showing,
            final(self).last_anchor is None,
    {
        self.showing = false;
        self.last_anchor = None;
    }
}

} // verus!
