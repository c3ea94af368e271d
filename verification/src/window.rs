//! The configuration of a floating window, put together step by step.

use vstd::prelude::*;
use crate::align::{Align2, Vec2b};
use crate::config::{Anchor, Area, Id, Order, Resize, ScrollArea, ScrollBarVisibility};
use crate::geometry::{Pos2, Rect, Vec2};
use crate::style::Frame;

verus! {

/// What tells one window from another.
///
/// Two windows with the same identity share everything that is stored from
/// frame to frame. A window goes by its title unless it was given a key.
pub enum Identity {
    Title(Seq<char>),
    Key(u64),
}

/// The identity of a window as a value to file its state under: the key of
/// the window if it has one, else its title.
#[derive(Debug, PartialEq, Eq, Hash)]
pub enum WindowKey {
    Title(String),
    Id(u64),
}

impl WindowKey {
    /// The identity that this key stands for.
    pub open spec fn identity(&self) -> Identity {
        match self {
            WindowKey::Title(title) => Identity::Title(title@),
            WindowKey::Id(value) => Identity::Key(*value),
        }
    }
}

/// A floating window that can be dragged, closed, collapsed, resized and
/// scrolled.
///
/// The value only describes the window. Showing it for one frame takes the
/// state that is stored for its identity and the input of that frame.
pub struct Window {
    pub title: String,
    /// A key that stands in for the title as the window's identity.
    pub id: Option<Id>,
    /// The flag behind the close button, if the window has one.
    pub open: Option<bool>,
    pub area: Area,
    /// The frame of the window; that of the style where there is none.
    pub frame: Option<Frame>,
    pub resize: Resize,
    pub scroll: ScrollArea,
    pub collapsible: bool,
    pub default_open: bool,
    pub with_title_bar: bool,
    pub fade_out: bool,
}

impl Window {
    /// How the content of a new window is sized: at least 96 by 32, 340 by
    /// 420 to begin with, and without a border of its own.
    pub open spec fn initial_resize() -> Resize {
        Resize {
            with_stroke: false,
            min_size: Vec2 { x: 96, y: 32 },
            default_size: Vec2 { x: 340, y: 420 },
            ..Resize::spec_initial()
        }
    }

    /// How the content of a new window scrolls: not at all, and without
    /// shrinking to what it holds.
    pub open spec fn initial_scroll() -> ScrollArea {
        ScrollArea { auto_shrink: Vec2b::spec_splat(false), ..ScrollArea::spec_neither() }
    }

    /// A window with the given title: movable, resizable and collapsible,
    /// with a title bar, without a close button, fading out when closed.
    ///
    /// The title is the identity of the window: it has to be unique among
    /// the windows that are shown and should not change. A window whose
    /// title changes, or is shared, needs a key: see [`Window::id`].
    pub fn new(title: &str) -> (w: Window)
        ensures
            w.title@ == title@,
            w.id == None::<Id>,
            w.open == None::<bool>,
            w.area == Area::spec_initial(),
            w.frame == None::<Frame>,
            w.resize == Window::initial_resize(),
            w.scroll == Window::initial_scroll(),
            w.collapsible,
            w.default_open,
            w.with_title_bar,
            w.fade_out,
            w.identity() == Identity::Title(title@),
    {
        Window {
            title: title.to_owned(),
            id: None,
            open: None,
            area: Area::initial(),
            frame: None,
            resize: Resize {
                with_stroke: false,
                min_size: Vec2 { x: 96, y: 32 },
                default_size: Vec2 { x: 340, y: 420 },
                ..Resize::initial()
            },
            scroll: ScrollArea { auto_shrink: Vec2b::splat(false), ..ScrollArea::neither() },
            collapsible: true,
            default_open: true,
            with_title_bar: true,
            fade_out: true,
        }
    }

    /// The identity of the window: its key if it has one, else its title.
    pub open spec fn identity(&self) -> Identity {
        match self.id {
            Some(id) => Identity::Key(id.value),
            None => Identity::Title(self.title@),
        }
    }

    /// The value to file the state of the window under: it stands for the
    /// identity of the window.
    pub fn key(&self) -> (k: WindowKey)
        ensures
            k.identity() == self.identity(),
    {
        match self.id {
            Some(id) => WindowKey::Id(id.value),
            None => WindowKey::Title(self.title.clone()),
        }
    }

    /// Whether two windows have the same identity, and so share their state.
    pub fn same_identity(&self, other: &Window) -> (b: bool)
        ensures
            b == (self.identity() == other.identity()),
    {
        match (self.id, other.id) {
            (Some(a), Some(b)) => a.value == b.value,
            (None, None) => self.title == other.title,
            _ => false,
        }
    }

    /// Gives the window a key as its identity. Needed where the title changes
    /// or is shared with another window.
    pub fn id(self, id: Id) -> (w: Window)
        ensures
            w == (Window { id: Some(id), ..self }),
    {
        Window { id: Some(id), ..self }
    }

    /// Gives the window a close button, and the flag behind it. While the
    /// flag is `false` the window is not shown; a click on the button sets it
    /// to `false`.
    pub fn open(self, open: bool) -> (w: Window)
        ensures
            w == (Window { open: Some(open), ..self }),
    {
        Window { open: Some(open), ..self }
    }

    /// A window that is not enabled is grayed out and answers nothing.
    pub fn enabled(self, enabled: bool) -> (w: Window)
        ensures
            w == (Window { area: Area { enabled, ..self.area }, ..self }),
    {
        Window { area: Area { enabled, ..self.area }, ..self }
    }

    /// A window that is not interactable lets clicks through to what is
    /// behind it, and cannot be moved.
    pub fn interactable(self, interactable: bool) -> (w: Window)
        ensures
            w == (
                Window {
                    area: Area {
                        interactable,
                        movable: self.area.movable && interactable,
                        ..self.area
                    },
                    ..self
                }
            ),
    {
        Window {
            area: Area {
                interactable,
                movable: self.area.movable && interactable,
                ..self.area
            },
            ..self
        }
    }

    /// Whether the user can move the window.
    pub fn movable(self, movable: bool) -> (w: Window)
        ensures
            w == (Window { area: Area { movable, ..self.area }, ..self }),
    {
        Window { area: Area { movable, ..self.area }, ..self }
    }

    /// Sets the layer that the window is drawn in.
    pub fn order(self, order: Order) -> (w: Window)
        ensures
            w == (Window { area: Area { order, ..self.area }, ..self }),
    {
        Window { area: Area { order, ..self.area }, ..self }
    }

    /// Whether the window fades in when it first appears.
    pub fn fade_in(self, fade_in: bool) -> (w: Window)
        ensures
            w == (Window { area: Area { fade_in, ..self.area }, ..self }),
    {
        Window { area: Area { fade_in, ..self.area }, ..self }
    }

    /// Whether the window fades out when it is closed.
    pub fn fade_out(self, fade_out: bool) -> (w: Window)
        ensures
            w == (Window { fade_out, ..self }),
    {
        Window { fade_out, ..self }
    }

    /// Sets margins, border, rounding and fill of the window.
    pub fn frame(self, frame: Frame) -> (w: Window)
        ensures
            w == (Window { frame: Some(frame), ..self }),
    {
        Window { frame: Some(frame), ..self }
    }

    /// Sets the least width of the content.
    pub fn min_width(self, min_width: i32) -> (w: Window)
        ensures
            w == (
                Window {
                    resize: Resize {
                        min_size: Vec2 {
                            x: min_width,
                            y: self.resize.min_size.y
                        },
                        ..self.resize
                    },
                    ..self
                }
            ),
    {
        Window {
            resize: Resize {
                min_size: Vec2 {
                    x: min_width,
                    y: self.resize.min_size.y
                },
                ..self.resize
            },
            ..self
        }
    }

    /// Sets the least height of the content.
    pub fn min_height(self, min_height: i32) -> (w: Window)
        ensures
            w == (
                Window {
                    resize: Resize {
                        min_size: Vec2 {
                            x: self.resize.min_size.x,
                            y: min_height
                        },
                        ..self.resize
                    },
                    ..self
                }
            ),
    {
        Window {
            resize: Resize {
                min_size: Vec2 {
                    x: self.resize.min_size.x,
                    y: min_height
                },
                ..self.resize
            },
            ..self
        }
    }

    /// Sets the least size of the content.
    pub fn min_size(self, min_size: Vec2) -> (w: Window)
        ensures
            w == (Window { resize: Resize { min_size, ..self.resize }, ..self }),
    {
        Window { resize: Resize { min_size, ..self.resize }, ..self }
    }

    /// Sets the greatest width of the content.
    pub fn max_width(self, max_width: i32) -> (w: Window)
        ensures
            w == (
                Window {
                    resize: Resize {
                        max_size: Vec2 {
                            x: max_width,
                            y: self.resize.max_size.y
                        },
                        ..self.resize
                    },
                    ..self
                }
            ),
    {
        Window {
            resize: Resize {
                max_size: Vec2 {
                    x: max_width,
                    y: self.resize.max_size.y
                },
                ..self.resize
            },
            ..self
        }
    }

    /// Sets the greatest height of the content.
    pub fn max_height(self, max_height: i32) -> (w: Window)
        ensures
            w == (
                Window {
                    resize: Resize {
                        max_size: Vec2 {
                            x: self.resize.max_size.x,
                            y: max_height
                        },
                        ..self.resize
                    },
                    ..self
                }
            ),
    {
        Window {
            resize: Resize {
                max_size: Vec2 {
                    x: self.resize.max_size.x,
                    y: max_height
                },
                ..self.resize
            },
            ..self
        }
    }

    /// Sets the greatest size of the content.
    pub fn max_size(self, max_size: Vec2) -> (w: Window)
        ensures
            w == (Window { resize: Resize { max_size, ..self.resize }, ..self }),
    {
        Window { resize: Resize { max_size, ..self.resize }, ..self }
    }

    /// Puts the window at a position in every frame. It is up to the caller
    /// to follow a window that the user moves.
    pub fn current_pos(self, current_pos: Pos2) -> (w: Window)
        ensures
            w == (Window { area: Area { new_pos: Some(current_pos), ..self.area }, ..self }),
    {
        Window { area: Area { new_pos: Some(current_pos), ..self.area }, ..self }
    }

    /// Sets where a window that was never shown appears.
    pub fn default_pos(self, default_pos: Pos2) -> (w: Window)
        ensures
            w == (Window { area: Area { default_pos: Some(default_pos), ..self.area }, ..self }),
    {
        Window { area: Area { default_pos: Some(default_pos), ..self.area }, ..self }
    }

    /// Puts the window at a position and keeps the user from moving it.
    pub fn fixed_pos(self, pos: Pos2) -> (w: Window)
        ensures
            w == (
                Window {
                    area: Area {
                        new_pos: Some(pos),
                        movable: false,
                        ..self.area
                    },
                    ..self
                }
            ),
    {
        Window { area: Area { new_pos: Some(pos), movable: false, ..self.area }, ..self }
    }

    /// Whether the window is kept inside its bounds: the screen, unless
    /// [`Window::constrain_to`] names others.
    pub fn constrain(self, constrain: bool) -> (w: Window)
        ensures
            w == (Window { area: Area { constrain, ..self.area }, ..self }),
    {
        Window { area: Area { constrain, ..self.area }, ..self }
    }

    /// Keeps the window inside the given rectangle.
    pub fn constrain_to(self, constrain_rect: Rect) -> (w: Window)
        ensures
            w == (
                Window {
                    area: Area {
                        constrain: true,
                        constrain_rect: Some(constrain_rect),
                        ..self.area
                    },
                    ..self
                }
            ),
    {
        Window {
            area: Area {
                constrain: true,
                constrain_rect: Some(constrain_rect),
                ..self.area
            },
            ..self
        }
    }

    /// Sets the corner of the window that a position refers to.
    pub fn pivot(self, pivot: Align2) -> (w: Window)
        ensures
            w == (Window { area: Area { pivot, ..self.area }, ..self }),
    {
        Window { area: Area { pivot, ..self.area }, ..self }
    }

    /// Pins the window to a place on the screen, `offset` away from it, and
    /// keeps the user from moving it. Where a position is set as well, the
    /// anchor decides.
    pub fn anchor(self, align: Align2, offset: Vec2) -> (w: Window)
        ensures
            w == (
                Window {
                    area: Area {
                        anchor: Some(Anchor { align, offset }),
                        movable: false,
                        ..self.area
                    },
                    ..self
                }
            ),
    {
        Window {
            area: Area {
                anchor: Some(Anchor { align, offset }),
                movable: false,
                ..self.area
            },
            ..self
        }
    }

    /// Whether a window that was never shown starts expanded.
    pub fn default_open(self, default_open: bool) -> (w: Window)
        ensures
            w == (Window { default_open, ..self }),
    {
        Window { default_open, ..self }
    }

    /// Sets the size of the content of a window that was never shown.
    pub fn default_size(self, default_size: Vec2) -> (w: Window)
        ensures
            w == (
                Window {
                    resize: Resize {
                        default_size,
                        ..self.resize
                    },
                    area: Area {
                        default_size,
                        ..self.area
                    },
                    ..self
                }
            ),
    {
        Window {
            resize: Resize {
                default_size,
                ..self.resize
            },
            area: Area {
                default_size,
                ..self.area
            },
            ..self
        }
    }

    /// Sets the width of the content of a window that was never shown.
    pub fn default_width(self, default_width: i32) -> (w: Window)
        ensures
            w == (
                Window {
                    resize: Resize {
                        default_size: Vec2 {
                            x: default_width,
                            y: self.resize.default_size.y
                        },
                        ..self.resize
                    },
                    area: Area {
                        default_size: Vec2 {
                            x: default_width,
                            y: self.area.default_size.y
                        },
                        ..self.area
                    },
                    ..self
                }
            ),
    {
        Window {
            resize: Resize {
                default_size: Vec2 {
                    x: default_width,
                    y: self.resize.default_size.y
                },
                ..self.resize
            },
            area: Area {
                default_size: Vec2 {
                    x: default_width,
                    y: self.area.default_size.y
                },
                ..self.area
            },
            ..self
        }
    }

    /// Sets the height of the content of a window that was never shown.
    pub fn default_height(self, default_height: i32) -> (w: Window)
        ensures
            w == (
                Window {
                    resize: Resize {
                        default_size: Vec2 {
                            x: self.resize.default_size.x,
                            y: default_height
                        },
                        ..self.resize
                    },
                    area: Area {
                        default_size: Vec2 {
                            x: self.area.default_size.x,
                            y: default_height
                        },
                        ..self.area
                    },
                    ..self
                }
            ),
    {
        Window {
            resize: Resize {
                default_size: Vec2 {
                    x: self.resize.default_size.x,
                    y: default_height
                },
                ..self.resize
            },
            area: Area {
                default_size: Vec2 {
                    x: self.area.default_size.x,
                    y: default_height
                },
                ..self.area
            },
            ..self
        }
    }

    /// Sets the size of the content and keeps the user from resizing it.
    pub fn fixed_size(self, size: Vec2) -> (w: Window)
        ensures
            w == (Window { resize: self.resize.spec_fixed_size(size), ..self }),
    {
        Window { resize: self.resize.fixed_size(size), ..self }
    }

    /// On which axes the user can resize the window by its edges. A window
    /// that is not resizable may still follow the size of its content.
    pub fn resizable(self, resizable: Vec2b) -> (w: Window)
        ensures
            w == (Window { resize: Resize { resizable, ..self.resize }, ..self }),
    {
        Window { resize: Resize { resizable, ..self.resize }, ..self }
    }

    /// Whether the window can be collapsed to its title bar.
    pub fn collapsible(self, collapsible: bool) -> (w: Window)
        ensures
            w == (Window { collapsible, ..self }),
    {
        Window { collapsible, ..self }
    }

    /// Whether the window has a title bar. Without one it cannot be collapsed
    /// and has no close button.
    pub fn title_bar(self, title_bar: bool) -> (w: Window)
        ensures
            w == (Window { with_title_bar: title_bar, ..self }),
    {
        Window { with_title_bar: title_bar, ..self }
    }

    /// Makes the window take the size of its content: not resizable, not
    /// scrolling.
    pub fn auto_sized(self) -> (w: Window)
        ensures
            w == (
                Window {
                    resize: self.resize.spec_auto_sized(),
                    scroll: ScrollArea::spec_neither(),
                    ..self
                }
            ),
    {
        Window { resize: self.resize.auto_sized(), scroll: ScrollArea::neither(), ..self }
    }

    /// On which axes the content scrolls.
    pub fn scroll(self, scroll: Vec2b) -> (w: Window)
        ensures
            w == (Window { scroll: ScrollArea { scroll_enabled: scroll, ..self.scroll }, ..self }),
    {
        Window { scroll: ScrollArea { scroll_enabled: scroll, ..self.scroll }, ..self }
    }

    /// Whether the content scrolls horizontally.
    pub fn hscroll(self, hscroll: bool) -> (w: Window)
        ensures
            w == (
                Window {
                    scroll: ScrollArea {
                        scroll_enabled: Vec2b {
                            x: hscroll,
                            y: self.scroll.scroll_enabled.y
                        },
                        ..self.scroll
                    },
                    ..self
                }
            ),
    {
        Window {
            scroll: ScrollArea {
                scroll_enabled: Vec2b {
                    x: hscroll,
                    y: self.scroll.scroll_enabled.y
                },
                ..self.scroll
            },
            ..self
        }
    }

    /// Whether the content scrolls vertically.
    pub fn vscroll(self, vscroll: bool) -> (w: Window)
        ensures
            w == (
                Window {
                    scroll: ScrollArea {
                        scroll_enabled: Vec2b {
                            x: self.scroll.scroll_enabled.x,
                            y: vscroll
                        },
                        ..self.scroll
                    },
                    ..self
                }
            ),
    {
        Window {
            scroll: ScrollArea {
                scroll_enabled: Vec2b {
                    x: self.scroll.scroll_enabled.x,
                    y: vscroll
                },
                ..self.scroll
            },
            ..self
        }
    }

    /// Whether dragging the content scrolls it.
    pub fn drag_to_scroll(self, drag_to_scroll: bool) -> (w: Window)
        ensures
            w == (Window { scroll: ScrollArea { drag_to_scroll, ..self.scroll }, ..self }),
    {
        Window { scroll: ScrollArea { drag_to_scroll, ..self.scroll }, ..self }
    }

    /// When the scroll bars are shown.
    pub fn scroll_bar_visibility(self, visibility: ScrollBarVisibility) -> (w: Window)
        ensures
            w == (
                Window {
                    scroll: ScrollArea {
                        scroll_bar_visibility: visibility,
                        ..self.scroll
                    },
                    ..self
                }
            ),
    {
        Window { scroll: ScrollArea { scroll_bar_visibility: visibility, ..self.scroll }, ..self }
    }

    /// Hands the window to `mutate` and takes what it gives back.
    pub fn mutate<F: Fn(Window) -> Window>(self, mutate: F) -> (w: Window)
        requires
            mutate.requires((self,)),
        ensures
            mutate.ensures((self,), w),
    {
        mutate(self)
    }

    /// Hands the sizing rules of the window to `mutate` and takes what it
    /// gives back.
    pub fn resize<F: Fn(Resize) -> Resize>(self, mutate: F) -> (w: Window)
        requires
            mutate.requires((self.resize,)),
        ensures
            mutate.ensures((self.resize,), w.resize),
            w == (Window { resize: w.resize, ..self }),
    {
        let resize = mutate(self.resize);
        Window { resize, ..self }
    }

    /// Sets where a window that was never shown appears, and how large.
    pub fn default_rect(self, rect: Rect) -> (w: Window)
        ensures
            w == (Window {
                area: Area {
                    default_pos: Some(rect.min),
                    default_size: rect.spec_size(),
                    ..self.area
                },
                resize: Resize { default_size: rect.spec_size(), ..self.resize },
                ..self
            }),
    {
        self.default_pos(rect.min).default_size(rect.size())
    }

    /// Sets position and size of the window, and keeps the user from
    /// changing either.
    pub fn fixed_rect(self, rect: Rect) -> (w: Window)
        ensures
            w == (Window {
                area: Area { new_pos: Some(rect.min), movable: false, ..self.area },
                resize: self.resize.spec_fixed_size(rect.spec_size()),
                ..self
            }),
    {
        self.fixed_pos(rect.min).fixed_size(rect.size())
    }
}

} // verus!
