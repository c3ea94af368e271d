//! What a window keeps from one frame to the next.
//!
//! The caller stores one [`WindowState`] per window identity and hands it to
//! every frame. A window without a stored state starts from
//! [`WindowState::new`].

use vstd::prelude::*;
use crate::fade::Fade;
use crate::geometry::{Rect, Vec2};
use crate::interaction::Region;

verus! {

/// Whether the content of a window is shown, or only its title bar.
#[derive(Clone, Copy, Debug, PartialEq, Eq, Structural)]
pub struct CollapseState {
    pub open: bool,
}

impl CollapseState {
    pub open spec fn spec_is_open(&self) -> bool {
        self.open
    }

    #[verifier::when_used_as_spec(spec_is_open)]
    pub fn is_open(&self) -> (b: bool)
        ensures
            b == self.spec_is_open(),
    {
        self.open
    }

    /// Collapses an expanded window and expands a collapsed one.
    pub fn toggle(&mut self)
        ensures
            final(self).open == !old(self).open,
    {
        self.open = !self.open;
    }
}

/// The state of one window between frames.
#[derive(Clone, Copy, Debug, PartialEq, Eq, Structural)]
pub struct WindowState {
    /// The outer rectangle that the last frame committed.
    pub outer_rect: Rect,
    /// The outer rectangle at the start of the drag in progress, if any.
    pub drag_anchor: Option<Rect>,
    /// The hit region that the pointer holds, if any.
    pub grabbed: Option<Region>,
    /// The content size that a resize asked for and no frame has used yet.
    pub requested_size: Option<Vec2>,
    /// The size of the content when it was last laid out.
    pub content_size: Vec2,
    pub collapse: CollapseState,
    pub fade: Fade,
}

impl WindowState {
    pub open spec fn spec_new(outer_rect: Rect, content_size: Vec2, expanded: bool) -> WindowState {
        WindowState {
            outer_rect,
            drag_anchor: None,
            grabbed: None,
            requested_size: None,
            content_size,
            collapse: CollapseState { open: expanded },
            fade: Fade::spec_fresh(),
        }
    }

    /// The state of a window that was never shown: no gesture in progress,
    /// no resize pending, no fade under way.
    #[verifier::when_used_as_spec(spec_new)]
    pub fn new(outer_rect: Rect, content_size: Vec2, expanded: bool) -> (s: WindowState)
        ensures
            s == WindowState::spec_new(outer_rect, content_size, expanded),
    {
        WindowState {
            outer_rect,
            drag_anchor: None,
            grabbed: None,
            requested_size: None,
            content_size,
            collapse: CollapseState { open: expanded },
            fade: Fade::fresh(),
        }
    }
}

} // verus!
