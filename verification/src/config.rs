//! What a window is configured with: where it floats, how it may be resized
//! and whether its content scrolls.

use vstd::prelude::*;
use crate::align::{Align2, Vec2b};
use crate::geometry::{Pos2, Rect, Vec2};

verus! {

/// An extent that stands for "no limit".
pub const UNBOUNDED: i32 = 2147483647;

/// A key chosen by the caller to tell windows apart.
#[derive(Clone, Copy, Debug, PartialEq, Eq, Structural)]
pub struct Id {
    pub value: u64,
}

/// The layer a window is drawn in, from back to front.
#[derive(Clone, Copy, Debug, PartialEq, Eq, Structural)]
pub enum Order {
    Background,
    Middle,
    Foreground,
    Tooltip,
    Debug,
}

/// When the scroll bars of a window are shown.
#[derive(Clone, Copy, Debug, PartialEq, Eq, Structural)]
pub enum ScrollBarVisibility {
    AlwaysHidden,
    VisibleWhenNeeded,
    AlwaysVisible,
}

/// A window pinned to a place on the screen.
#[derive(Clone, Copy, Debug, PartialEq, Eq, Structural)]
pub struct Anchor {
    /// Which place of the screen, and which corner of the window goes there.
    pub align: Align2,
    /// How far from that place the window stands.
    pub offset: Vec2,
}

/// Where a window floats and how it may be moved.
#[derive(Clone, Copy, Debug, PartialEq, Eq, Structural)]
pub struct Area {
    pub movable: bool,
    pub interactable: bool,
    pub enabled: bool,
    /// Whether the window is kept inside `constrain_rect`.
    pub constrain: bool,
    /// The bounds to keep it in; the screen where there is none.
    pub constrain_rect: Option<Rect>,
    pub order: Order,
    /// Where a window that was never shown appears.
    pub default_pos: Option<Pos2>,
    /// The extent of a window that was never shown.
    pub default_size: Vec2,
    /// The corner that a position refers to.
    pub pivot: Align2,
    /// The alignment on the screen and the offset from it, when anchored.
    pub anchor: Option<Anchor>,
    /// A position that overrides the stored one.
    pub new_pos: Option<Pos2>,
    pub fade_in: bool,
}

impl Area {
    pub open spec fn spec_initial() -> Area {
        Area {
            movable: true,
            interactable: true,
            enabled: true,
            constrain: true,
            constrain_rect: None,
            order: Order::Middle,
            default_pos: None,
            default_size: Vec2 { x: UNBOUNDED, y: UNBOUNDED },
            pivot: Align2::spec_left_top(),
            anchor: None,
            new_pos: None,
            fade_in: true,
        }
    }

    /// A movable, enabled, constrained area in the middle layer.
    #[verifier::when_used_as_spec(spec_initial)]
    pub fn initial() -> (a: Area)
        ensures
            a == Area::spec_initial(),
    {
        Area {
            movable: true,
            interactable: true,
            enabled: true,
            constrain: true,
            constrain_rect: None,
            order: Order::Middle,
            default_pos: None,
            default_size: Vec2 { x: UNBOUNDED, y: UNBOUNDED },
            pivot: Align2::left_top(),
            anchor: None,
            new_pos: None,
            fade_in: true,
        }
    }

    pub open spec fn spec_is_enabled(&self) -> bool {
        self.enabled
    }

    #[verifier::when_used_as_spec(spec_is_enabled)]
    pub fn is_enabled(&self) -> (b: bool)
        ensures
            b == self.spec_is_enabled(),
    {
        self.enabled
    }

    /// A disabled area cannot be moved, whatever it was configured with.
    pub open spec fn spec_is_movable(&self) -> bool {
        self.movable && self.enabled
    }

    #[verifier::when_used_as_spec(spec_is_movable)]
    pub fn is_movable(&self) -> (b: bool)
        ensures
            b == self.spec_is_movable(),
    {
        self.movable && self.enabled
    }

    /// The corner that positions refer to: that of the anchor where the area
    /// is anchored, else the configured pivot.
    pub open spec fn spec_get_pivot(&self) -> Align2 {
        match self.anchor {
            Some(a) => a.align,
            None => self.pivot,
        }
    }

    #[verifier::when_used_as_spec(spec_get_pivot)]
    pub fn get_pivot(&self) -> (p: Align2)
        ensures
            p == self.spec_get_pivot(),
    {
        match self.anchor {
            Some(a) => a.align,
            None => self.pivot,
        }
    }

    pub open spec fn spec_is_pinned(&self) -> bool {
        self.anchor.is_some() || self.new_pos.is_some()
    }

    /// Whether the configuration decides where the window stands: it sets
    /// a position, or it anchors the window on the screen.
    #[verifier::when_used_as_spec(spec_is_pinned)]
    pub fn is_pinned(&self) -> (b: bool)
        ensures
            b == self.spec_is_pinned(),
    {
        self.anchor.is_some() || self.new_pos.is_some()
    }

    /// Where the configuration puts a window that stood at `last`.
    ///
    /// A position that is set puts the pivot corner there. An anchor aligns
    /// the window on the screen and moves it by its offset. Where both are
    /// set the anchor decides. A window with neither stays where it was.
    pub open spec fn spec_place(&self, last: Rect, screen: Rect) -> Rect {
        let size = last.spec_size();
        match self.anchor {
            Some(a) => a.align.spec_align_size_within_rect(size, screen).spec_translate(a.offset),
            None => match self.new_pos {
                Some(p) => self.pivot.spec_anchor_size(p, size),
                None => last,
            },
        }
    }

    #[verifier::when_used_as_spec(spec_place)]
    pub fn place(&self, last: Rect, screen: Rect) -> (r: Rect)
        ensures
            r == self.spec_place(last, screen),
    {
        let size = last.size();
        match self.anchor {
            Some(a) => a.align.align_size_within_rect(size, screen).translate(a.offset),
            None => match self.new_pos {
                Some(p) => self.pivot.anchor_size(p, size),
                None => last,
            },
        }
    }

    /// The bounds that the area is kept in when it is constrained.
    pub open spec fn spec_bounds(&self, screen: Rect) -> Rect {
        match self.constrain_rect {
            Some(r) => r,
            None => screen,
        }
    }

    #[verifier::when_used_as_spec(spec_bounds)]
    pub fn bounds(&self, screen: Rect) -> (r: Rect)
        ensures
            r == self.spec_bounds(screen),
    {
        match self.constrain_rect {
            Some(r) => r,
            None => screen,
        }
    }
}

/// How the content of a window may be sized.
///
/// All three sizes are sizes of the content, without frame and title bar.
#[derive(Clone, Copy, Debug, PartialEq, Eq, Structural)]
pub struct Resize {
    /// On which axes the user may drag the edges.
    pub resizable: Vec2b,
    pub min_size: Vec2,
    pub max_size: Vec2,
    pub default_size: Vec2,
    /// Whether the content gets a border of its own.
    pub with_stroke: bool,
}

impl Resize {
    pub open spec fn spec_initial() -> Resize {
        Resize {
            resizable: Vec2b::spec_splat(true),
            min_size: Vec2 { x: 16, y: 16 },
            max_size: Vec2 { x: UNBOUNDED, y: UNBOUNDED },
            default_size: Vec2 { x: 280, y: 400 },
            with_stroke: true,
        }
    }

    /// Resizable on both axes, at least 16 by 16, with no upper limit.
    #[verifier::when_used_as_spec(spec_initial)]
    pub fn initial() -> (r: Resize)
        ensures
            r == Resize::spec_initial(),
    {
        Resize {
            resizable: Vec2b::splat(true),
            min_size: Vec2 { x: 16, y: 16 },
            max_size: Vec2 { x: UNBOUNDED, y: UNBOUNDED },
            default_size: Vec2 { x: 280, y: 400 },
            with_stroke: true,
        }
    }

    pub open spec fn spec_is_resizable(&self) -> Vec2b {
        self.resizable
    }

    #[verifier::when_used_as_spec(spec_is_resizable)]
    pub fn is_resizable(&self) -> (r: Vec2b)
        ensures
            r == self.spec_is_resizable(),
    {
        self.resizable
    }

    /// One size as minimum, maximum and default, and no resizing by the user.
    pub open spec fn spec_fixed_size(self, size: Vec2) -> Resize {
        Resize {
            resizable: Vec2b::spec_splat(false),
            min_size: size,
            max_size: size,
            default_size: size,
            with_stroke: self.with_stroke,
        }
    }

    #[verifier::when_used_as_spec(spec_fixed_size)]
    pub fn fixed_size(self, size: Vec2) -> (r: Resize)
        ensures
            r == self.spec_fixed_size(size),
    {
        Resize {
            resizable: Vec2b::splat(false),
            min_size: size,
            max_size: size,
            default_size: size,
            with_stroke: self.with_stroke,
        }
    }

    /// As large as the content asks for: no minimum, an unbounded default,
    /// and no resizing by the user.
    pub open spec fn spec_auto_sized(self) -> Resize {
        Resize {
            resizable: Vec2b::spec_splat(false),
            min_size: Vec2 { x: 0, y: 0 },
            max_size: self.max_size,
            default_size: Vec2 { x: UNBOUNDED, y: UNBOUNDED },
            with_stroke: self.with_stroke,
        }
    }

    #[verifier::when_used_as_spec(spec_auto_sized)]
    pub fn auto_sized(self) -> (r: Resize)
        ensures
            r == self.spec_auto_sized(),
    {
        Resize {
            resizable: Vec2b::splat(false),
            min_size: Vec2 { x: 0, y: 0 },
            max_size: self.max_size,
            default_size: Vec2 { x: UNBOUNDED, y: UNBOUNDED },
            with_stroke: self.with_stroke,
        }
    }
}

/// Whether and how the content of a window scrolls.
#[derive(Clone, Copy, Debug, PartialEq, Eq, Structural)]
pub struct ScrollArea {
    /// On which axes the content scrolls.
    pub scroll_enabled: Vec2b,
    /// On which axes the scrolled region shrinks to its content.
    pub auto_shrink: Vec2b,
    /// Whether dragging the content scrolls it.
    pub drag_to_scroll: bool,
    pub scroll_bar_visibility: ScrollBarVisibility,
}

impl ScrollArea {
    pub open spec fn spec_neither() -> ScrollArea {
        ScrollArea {
            scroll_enabled: Vec2b::spec_splat(false),
            auto_shrink: Vec2b::spec_splat(true),
            drag_to_scroll: true,
            scroll_bar_visibility: ScrollBarVisibility::VisibleWhenNeeded,
        }
    }

    /// Scrolling on neither axis.
    #[verifier::when_used_as_spec(spec_neither)]
    pub fn neither() -> (s: ScrollArea)
        ensures
            s == ScrollArea::spec_neither(),
    {
        ScrollArea {
            scroll_enabled: Vec2b::splat(false),
            auto_shrink: Vec2b::splat(true),
            drag_to_scroll: true,
            scroll_bar_visibility: ScrollBarVisibility::VisibleWhenNeeded,
        }
    }

    pub open spec fn spec_is_any_scroll_enabled(&self) -> bool {
        self.scroll_enabled.x || self.scroll_enabled.y
    }

    #[verifier::when_used_as_spec(spec_is_any_scroll_enabled)]
    pub fn is_any_scroll_enabled(&self) -> (b: bool)
        ensures
            b == self.spec_is_any_scroll_enabled(),
    {
        self.scroll_enabled.x || self.scroll_enabled.y
    }
}

} // verus!
