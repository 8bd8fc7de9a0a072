//! The HUD window's layer across a layout session: the layout editor keeps
//! the window on top, and a layer chosen meanwhile takes effect when the
//! session ends.

use crate::menu::WindowLayer;
use vstd::prelude::*;

verus! {

/// The HUD window's layout mode and the layer to restore after it.
#[derive(Clone, Copy, Debug, PartialEq, Eq, Structural)]
pub struct HudLayerSession {
    pub layout_mode: bool,
    pub restore: Option<WindowLayer>,
}

/// The session after entering layout mode from a window on `native`, and
/// the layer to apply now.
pub open spec fn spec_enter(s: HudLayerSession, native: WindowLayer) -> (HudLayerSession, Option<WindowLayer>) {
    if s.layout_mode {
        (s, None)
    } else {
        (HudLayerSession { layout_mode: true, restore: Some(native) }, Some(WindowLayer::AlwaysOnTop))
    }
}

/// The session after the user chose `layer`, and the layer to apply now.
pub open spec fn spec_set(s: HudLayerSession, layer: WindowLayer) -> (HudLayerSession, Option<WindowLayer>) {
    if s.layout_mode {
        (HudLayerSession { restore: Some(layer), ..s }, None)
    } else {
        (s, Some(layer))
    }
}

/// The session after leaving layout mode, and the layer to apply now.
pub open spec fn spec_leave(s: HudLayerSession) -> (HudLayerSession, Option<WindowLayer>) {
    if !s.layout_mode {
        (s, None)
    } else {
        (HudLayerSession { layout_mode: false, restore: None }, s.restore)
    }
}

impl HudLayerSession {
    /// A window outside layout mode.
    pub fn new() -> (s: HudLayerSession)
        ensures
            !s.layout_mode,
            s.restore is None,
    {
        HudLayerSession { layout_mode: false, restore: None }
    }

    /// The layer the HUD window is on as far as the user is concerned: the
    /// layer to restore after layout mode, else the native window's layer.
    pub fn window_layer(&self, native: WindowLayer) -> (r: WindowLayer)
        ensures
            r == match self.restore {
                Some(layer) => layer,
                None => native,
            },
    {
        match self.restore {
            Some(layer) => layer,
            None => native,
        }
    }

    /// Chooses a layer: during layout mode it is kept for later, otherwise
    /// it is returned to be applied now.
    pub fn set_window_layer(&mut self, layer: WindowLayer) -> (apply: Option<WindowLayer>)
        ensures
            (*final(self), apply) == spec_set(*old(self), layer),
    {
        if self.layout_mode {
            self.restore = Some(layer);
            None
        } else {
            Some(layer)
        }
    }

    /// Enters layout mode from a window on `native`: that layer is kept for
    /// later and the window goes on top.
    pub fn enter_layout_mode(&mut self, native: WindowLayer) -> (apply: Option<WindowLayer>)
        ensures
            (*final(self), apply) == spec_enter(*old(self), native),
    {
        if self.layout_mode {
            return None;
        }
        self.restore = Some(native);
        self.layout_mode = true;
        Some(WindowLayer::AlwaysOnTop)
    }

    /// Leaves layout mode, returning the kept layer to apply.
    pub fn leave_layout_mode(&mut self) -> (apply: Option<WindowLayer>)
        ensures
            (*final(self), apply) == spec_leave(*old(self)),
    {
        if !self.layout_mode {
            return None;
        }
        self.layout_mode = false;
        let restore = self.restore;
        self.restore = None;
        restore
    }
}

/// A layout session returns the window to its layer: entering and leaving
/// without a choice restores the layer it had, and a layer chosen during the
/// session is the one applied when it ends and the one reported meanwhile.
pub proof fn law_layout_session_restores_chosen_layer(s: HudLayerSession, native: WindowLayer, chosen: WindowLayer)
    requires
        !s.layout_mode,
    ensures
        spec_leave(spec_enter(s, native).0).1 == Some(native),
        spec_set(spec_enter(s, native).0, chosen).1 is None,
        spec_set(spec_enter(s, native).0, chosen).0.restore == Some(chosen),
        spec_leave(spec_set(spec_enter(s, native).0, chosen).0).1 == Some(chosen),
        !spec_leave(spec_set(spec_enter(s, native).0, chosen).0).0.layout_mode,
{
}

} // verus!
