//! Colours, strokes, margins, corner radii, the frame around a window and
//! the style values that the window rules read.

use vstd::prelude::*;
use crate::geometry::{clamp_coord, saturate, Vec2};
use crate::outside::{color_gamma_multiply_u8, corner_radius_sub, saturating_sub_u8, scale_channel};

verus! {

/// A colour with premultiplied alpha, one byte per channel.
#[derive(Clone, Copy, Debug, PartialEq, Eq, Structural)]
pub struct Color {
    pub r: u8,
    pub g: u8,
    pub b: u8,
    pub a: u8,
}

/// Opacity of a fully visible window.
pub const OPAQUE: u8 = 255;

impl Color {
    pub open spec fn spec_gray(l: u8) -> Color {
        Color { r: l, g: l, b: l, a: 255 }
    }

    /// An opaque gray of the given lightness.
    #[verifier::when_used_as_spec(spec_gray)]
    pub fn gray(l: u8) -> (c: Color)
        ensures
            c == Color::spec_gray(l),
    {
        Color { r: l, g: l, b: l, a: 255 }
    }

    /// This colour with every channel scaled by `opacity / 255`.
    pub open spec fn spec_faded(self, opacity: u8) -> Color {
        Color {
            r: scale_channel(self.r, opacity),
            g: scale_channel(self.g, opacity),
            b: scale_channel(self.b, opacity),
            a: scale_channel(self.a, opacity),
        }
    }

    #[verifier::when_used_as_spec(spec_faded)]
    pub fn faded(self, opacity: u8) -> (c: Color)
        ensures
            c == self.spec_faded(opacity),
    {
        let scaled = color_gamma_multiply_u8((self.r, self.g, self.b, self.a), opacity);
        Color { r: scaled.0, g: scaled.1, b: scaled.2, a: scaled.3 }
    }
}

/// Width and colour of a line.
#[derive(Clone, Copy, Debug, PartialEq, Eq, Structural)]
pub struct Stroke {
    pub width: u8,
    pub color: Color,
}

impl Stroke {
    /// This stroke with its colour faded by `opacity / 255`.
    pub open spec fn spec_faded(self, opacity: u8) -> Stroke {
        Stroke { width: self.width, color: self.color.spec_faded(opacity) }
    }

    #[verifier::when_used_as_spec(spec_faded)]
    pub fn faded(self, opacity: u8) -> (s: Stroke)
        ensures
            s == self.spec_faded(opacity),
    {
        Stroke { width: self.width, color: self.color.faded(opacity) }
    }

    /// Half of the width, rounded down.
    pub open spec fn spec_half_width(self) -> i32 {
        (self.width / 2) as i32
    }

    #[verifier::when_used_as_spec(spec_half_width)]
    pub fn half_width(self) -> (h: i32)
        ensures
            h == self.spec_half_width(),
    {
        (self.width / 2) as i32
    }
}

/// A distance for each of the four sides of a rectangle.
#[derive(Clone, Copy, Debug, PartialEq, Eq, Structural)]
pub struct Margin {
    pub left: i8,
    pub right: i8,
    pub top: i8,
    pub bottom: i8,
}

impl Margin {
    pub open spec fn spec_same(m: i8) -> Margin {
        Margin { left: m, right: m, top: m, bottom: m }
    }

    /// The same margin on every side.
    #[verifier::when_used_as_spec(spec_same)]
    pub fn same(m: i8) -> (r: Margin)
        ensures
            r == Margin::spec_same(m),
    {
        Margin { left: m, right: m, top: m, bottom: m }
    }

    /// The margins of opposite sides added up, per axis.
    pub open spec fn spec_sum(self) -> Vec2 {
        Vec2 { x: (self.left + self.right) as i32, y: (self.top + self.bottom) as i32 }
    }

    #[verifier::when_used_as_spec(spec_sum)]
    pub fn sum(self) -> (v: Vec2)
        ensures
            v == self.spec_sum(),
    {
        Vec2 {
            x: self.left as i32 + self.right as i32,
            y: self.top as i32 + self.bottom as i32,
        }
    }
}

/// A distance for each of the four sides, wide enough to add margins up.
#[derive(Clone, Copy, Debug, PartialEq, Eq, Structural)]
pub struct SideExtents {
    pub left: i32,
    pub right: i32,
    pub top: i32,
    pub bottom: i32,
}

impl SideExtents {
    /// The extents of opposite sides added up, per axis.
    pub open spec fn spec_sum(self) -> Vec2 {
        Vec2 {
            x: clamp_coord(self.left + self.right) as i32,
            y: clamp_coord(self.top + self.bottom) as i32,
        }
    }

    #[verifier::when_used_as_spec(spec_sum)]
    pub fn sum(self) -> (v: Vec2)
        ensures
            v == self.spec_sum(),
    {
        Vec2 {
            x: saturate(self.left as i64 + self.right as i64),
            y: saturate(self.top as i64 + self.bottom as i64),
        }
    }
}

/// How far each corner of a rectangle is rounded.
#[derive(Clone, Copy, Debug, PartialEq, Eq, Structural)]
pub struct CornerRadius {
    /// North-west: left top.
    pub nw: u8,
    /// North-east: right top.
    pub ne: u8,
    /// South-west: left bottom.
    pub sw: u8,
    /// South-east: right bottom.
    pub se: u8,
}

impl CornerRadius {
    pub open spec fn spec_same(r: u8) -> CornerRadius {
        CornerRadius { nw: r, ne: r, sw: r, se: r }
    }

    /// The same rounding on all four corners.
    #[verifier::when_used_as_spec(spec_same)]
    pub fn same(r: u8) -> (c: CornerRadius)
        ensures
            c == CornerRadius::spec_same(r),
    {
        CornerRadius { nw: r, ne: r, sw: r, se: r }
    }

    /// Every radius reduced by `by`, stopping at zero.
    pub open spec fn spec_minus(self, by: u8) -> CornerRadius {
        CornerRadius {
            nw: saturating_sub_u8(self.nw, by),
            ne: saturating_sub_u8(self.ne, by),
            sw: saturating_sub_u8(self.sw, by),
            se: saturating_sub_u8(self.se, by),
        }
    }

    #[verifier::when_used_as_spec(spec_minus)]
    pub fn minus(self, by: u8) -> (c: CornerRadius)
        ensures
            c == self.spec_minus(by),
    {
        let r = corner_radius_sub((self.nw, self.ne, self.sw, self.se), by);
        CornerRadius { nw: r.0, ne: r.1, sw: r.2, se: r.3 }
    }
}

/// The decoration around a window: margins, border stroke, rounding, fill.
#[derive(Clone, Copy, Debug, PartialEq, Eq, Structural)]
pub struct Frame {
    /// Between the border and the content.
    pub inner_margin: Margin,
    /// Outside the border.
    pub outer_margin: Margin,
    pub stroke: Stroke,
    pub corner_radius: CornerRadius,
    pub fill: Color,
}

impl Frame {
    /// Inner margin, stroke width and outer margin added up, per side.
    pub open spec fn spec_total_margin(self) -> SideExtents {
        SideExtents {
            left: (self.inner_margin.left + self.stroke.width + self.outer_margin.left) as i32,
            right: (self.inner_margin.right + self.stroke.width + self.outer_margin.right) as i32,
            top: (self.inner_margin.top + self.stroke.width + self.outer_margin.top) as i32,
            bottom: (self.inner_margin.bottom + self.stroke.width + self.outer_margin.bottom) as i32,
        }
    }

    #[verifier::when_used_as_spec(spec_total_margin)]
    pub fn total_margin(self) -> (m: SideExtents)
        ensures
            m == self.spec_total_margin(),
    {
        let w: i32 = self.stroke.width as i32;
        SideExtents {
            left: self.inner_margin.left as i32 + w + self.outer_margin.left as i32,
            right: self.inner_margin.right as i32 + w + self.outer_margin.right as i32,
            top: self.inner_margin.top as i32 + w + self.outer_margin.top as i32,
            bottom: self.inner_margin.bottom as i32 + w + self.outer_margin.bottom as i32,
        }
    }
}

/// How a widget looks in one state of interaction.
#[derive(Clone, Copy, Debug, PartialEq, Eq, Structural)]
pub struct WidgetVisuals {
    /// Stroke of the outline.
    pub bg_stroke: Stroke,
    /// Stroke of text and symbols.
    pub fg_stroke: Stroke,
    /// How much larger the widget is drawn.
    pub expansion: i32,
}

/// The style values that the window rules read.
#[derive(Clone, Copy, Debug, PartialEq, Eq, Structural)]
pub struct Style {
    /// Least height of anything that can be clicked.
    pub interact_height: i32,
    /// Side of the square of a title-bar button.
    pub icon_width: i32,
    /// Horizontal room between neighbouring items.
    pub item_spacing_x: i32,
    /// How far from an edge the pointer still grabs it.
    pub resize_grab_radius_side: i32,
    /// How far from a corner the pointer still grabs it.
    pub resize_grab_radius_corner: i32,
    /// Side of the square of the resize handle.
    pub resize_corner_size: i32,
    /// Whether the title bar of the topmost window is highlighted.
    pub window_highlight_topmost: bool,
    /// Rounding of the feedback border.
    pub window_corner_radius: CornerRadius,
    /// Frame of a window that brings none of its own.
    pub window_frame: Frame,
    /// Title-bar highlight of a window that brings no frame.
    pub header_fill: Color,
    /// Untouched widgets.
    pub inactive: WidgetVisuals,
    /// Widgets under the pointer.
    pub hovered: WidgetVisuals,
    /// Widgets that are pressed or dragged.
    pub active: WidgetVisuals,
    /// Length of the fade animation, in time steps.
    pub fade_duration: u16,
}

impl Style {
    pub open spec fn spec_standard() -> Style {
        Style {
            interact_height: 18,
            icon_width: 14,
            item_spacing_x: 8,
            resize_grab_radius_side: 5,
            resize_grab_radius_corner: 10,
            resize_corner_size: 12,
            window_highlight_topmost: true,
            window_corner_radius: CornerRadius::spec_same(6),
            window_frame: Frame {
                inner_margin: Margin::spec_same(6),
                outer_margin: Margin::spec_same(0),
                stroke: Stroke { width: 1, color: Color::spec_gray(60) },
                corner_radius: CornerRadius::spec_same(6),
                fill: Color::spec_gray(27),
            },
            header_fill: Color::spec_gray(45),
            inactive: WidgetVisuals {
                bg_stroke: Stroke { width: 0, color: Color::spec_gray(60) },
                fg_stroke: Stroke { width: 1, color: Color::spec_gray(180) },
                expansion: 0,
            },
            hovered: WidgetVisuals {
                bg_stroke: Stroke { width: 1, color: Color::spec_gray(150) },
                fg_stroke: Stroke { width: 2, color: Color::spec_gray(240) },
                expansion: 1,
            },
            active: WidgetVisuals {
                bg_stroke: Stroke { width: 1, color: Color::spec_gray(255) },
                fg_stroke: Stroke { width: 2, color: Color::spec_gray(255) },
                expansion: 1,
            },
            fade_duration: 83,
        }
    }

    /// A dark style with a one-unit border and six units of padding.
    #[verifier::when_used_as_spec(spec_standard)]
    pub fn standard() -> (s: Style)
        ensures
            s == Style::spec_standard(),
    {
        Style {
            interact_height: 18,
            icon_width: 14,
            item_spacing_x: 8,
            resize_grab_radius_side: 5,
            resize_grab_radius_corner: 10,
            resize_corner_size: 12,
            window_highlight_topmost: true,
            window_corner_radius: CornerRadius::same(6),
            window_frame: Frame {
                inner_margin: Margin::same(6),
                outer_margin: Margin::same(0),
                stroke: Stroke { width: 1, color: Color::gray(60) },
                corner_radius: CornerRadius::same(6),
                fill: Color::gray(27),
            },
            header_fill: Color::gray(45),
            inactive: WidgetVisuals {
                bg_stroke: Stroke { width: 0, color: Color::gray(60) },
                fg_stroke: Stroke { width: 1, color: Color::gray(180) },
                expansion: 0,
            },
            hovered: WidgetVisuals {
                bg_stroke: Stroke { width: 1, color: Color::gray(150) },
                fg_stroke: Stroke { width: 2, color: Color::gray(240) },
                expansion: 1,
            },
            active: WidgetVisuals {
                bg_stroke: Stroke { width: 1, color: Color::gray(255) },
                fg_stroke: Stroke { width: 2, color: Color::gray(255) },
                expansion: 1,
            },
            fade_duration: 83,
        }
    }
}

} // verus!
