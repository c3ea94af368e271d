//! The title bar of a window: its height, its two-phase rectangle, its
//! buttons, and what a click or a double click on it does.

use vstd::prelude::*;
use crate::align::Align2;
use crate::geometry::{clamp_between, clamp_coord, half, half_of, saturate, Pos2, Rect, Vec2};
use crate::state::CollapseState;
use crate::style::{Color, CornerRadius, Frame, Stroke, Style, WidgetVisuals};

verus! {

/// How wide the band at either end of the title bar is that a double click
/// does not reach, so that it never covers the buttons.
pub const DOUBLE_CLICK_INSET: i32 = 32;

/// How far the cross of the close button stays inside its rectangle.
pub const CLOSE_CROSS_INSET: i32 = 2;

/// What the layout of a window needs to know of its title bar.
#[derive(Clone, Copy, Debug, PartialEq, Eq, Structural)]
pub struct TitleBarMetrics {
    /// Height of the title bar, the inner margin of the frame included.
    pub height_with_margin: i32,
    /// Room between the title bar and the content.
    pub content_spacing: i32,
}

/// The height of a title bar for a title of the given font height: at least
/// the height of anything that can be clicked, plus the frame's inner margin
/// above and below.
pub open spec fn title_bar_height(style: Style, font_height: i32, frame: Frame) -> int {
    let inner = if font_height < style.interact_height {
        style.interact_height
    } else {
        font_height
    };
    clamp_coord(inner + frame.inner_margin.spec_sum().y)
}

/// Half of a height, rounded to the nearest, as a corner radius.
pub open spec fn half_height_radius(height: int) -> int {
    clamp_between(half(height + 1), 0, 255)
}

/// The frame with its two upper corners rounded by at most `limit`.
pub open spec fn with_top_rounding_at_most(frame: Frame, limit: int) -> Frame {
    Frame {
        corner_radius: CornerRadius {
            nw: if frame.corner_radius.nw > limit {
                limit as u8
            } else {
                frame.corner_radius.nw
            },
            ne: if frame.corner_radius.ne > limit {
                limit as u8
            } else {
                frame.corner_radius.ne
            },
            sw: frame.corner_radius.sw,
            se: frame.corner_radius.se,
        },
        ..frame
    }
}

/// The metrics of the title bar, before any content is laid out.
pub open spec fn spec_title_bar_metrics(
    style: Style,
    font_height: i32,
    frame: Frame,
    with_title_bar: bool,
    is_collapsed: bool,
) -> TitleBarMetrics {
    if !with_title_bar {
        TitleBarMetrics { height_with_margin: 0, content_spacing: 0 }
    } else {
        TitleBarMetrics {
            height_with_margin: title_bar_height(style, font_height, frame) as i32,
            content_spacing: if is_collapsed {
                0
            } else {
                frame.stroke.width as i32
            },
        }
    }
}

/// Computes the height of the title bar and the room below it, and keeps the
/// frame's upper corners from being rounded by more than half that height.
///
/// A collapsed window has no separator and so needs no room for one; an
/// expanded one needs the width of the border stroke. A window without a
/// title bar gets zero for both, and its frame is left alone.
pub fn title_bar_metrics(
    style: &Style,
    font_height: i32,
    window_frame: &mut Frame,
    with_title_bar: bool,
    is_collapsed: bool,
) -> (m: TitleBarMetrics)
    ensures
        m == spec_title_bar_metrics(
            *style,
            font_height,
            *old(window_frame),
            with_title_bar,
            is_collapsed,
        ),
        !with_title_bar ==> *final(window_frame) == *old(window_frame),
        with_title_bar ==> *final(window_frame) == with_top_rounding_at_most(
            *old(window_frame),
            half_height_radius(m.height_with_margin as int),
        ),
{
    if !with_title_bar {
        return TitleBarMetrics { height_with_margin: 0, content_spacing: 0 };
    }
    let inner: i32 = if font_height < style.interact_height {
        style.interact_height
    } else {
        font_height
    };
    let height: i32 = saturate(inner as i64 + window_frame.inner_margin.sum().y as i64);
    let rounded_half: i64 = half_of(height as i64 + 1);
    let limit: u8 = if rounded_half > 255 {
        255
    } else if rounded_half < 0 {
        0
    } else {
        rounded_half as u8
    };
    if window_frame.corner_radius.ne > limit {
        window_frame.corner_radius.ne = limit;
    }
    if window_frame.corner_radius.nw > limit {
        window_frame.corner_radius.nw = limit;
    }
    let content_spacing: i32 = if is_collapsed {
        0
    } else {
        window_frame.stroke.width as i32
    };
    TitleBarMetrics { height_with_margin: height, content_spacing }
}

/// A filled rectangle with rounded corners.
#[derive(Clone, Copy, Debug, PartialEq, Eq, Structural)]
pub struct RectShape {
    pub rect: Rect,
    pub corner_radius: CornerRadius,
    pub fill: Color,
}

impl RectShape {
    /// This shape with its fill faded by `opacity / 255`.
    pub open spec fn spec_faded(self, opacity: u8) -> RectShape {
        RectShape { fill: self.fill.spec_faded(opacity), ..self }
    }

    #[verifier::when_used_as_spec(spec_faded)]
    pub fn faded(self, opacity: u8) -> (r: RectShape)
        ensures
            r == self.spec_faded(opacity),
    {
        RectShape { fill: self.fill.faded(opacity), ..self }
    }
}

/// The rounding of the title-bar highlight: that of the inner side of the
/// border, which is the frame's less the width of the stroke, and square
/// below unless the window is collapsed.
///
/// The title bar reaches under the border on the left and on the right.
/// There the stroke covers the highlight, and what shows of the highlight
/// ends at the inner side of the border.
pub open spec fn header_rounding(frame: Frame, is_collapsed: bool) -> CornerRadius {
    let round = frame.corner_radius.spec_minus(frame.stroke.width);
    if is_collapsed {
        round
    } else {
        CornerRadius { sw: 0, se: 0, ..round }
    }
}

/// The highlight behind the title bar, if there is one.
pub open spec fn spec_paint_title_bar_background(
    style: Style,
    title_bar_rect: Rect,
    frame: Frame,
    header_color: Color,
    is_collapsed: bool,
    on_top: bool,
) -> Option<RectShape> {
    if on_top && style.window_highlight_topmost {
        Some(
            RectShape {
                rect: title_bar_rect,
                corner_radius: header_rounding(frame, is_collapsed),
                fill: header_color,
            },
        )
    } else {
        None
    }
}

/// The highlight behind the title bar of the topmost window.
///
/// It is painted only for the window on top, and only where the style asks
/// for it. The caller keeps a place for it beneath the content and fills
/// that place with what this returns.
#[verifier::when_used_as_spec(spec_paint_title_bar_background)]
pub fn paint_title_bar_background(
    style: Style,
    title_bar_rect: Rect,
    frame: Frame,
    header_color: Color,
    is_collapsed: bool,
    on_top: bool,
) -> (shape: Option<RectShape>)
    ensures
        shape == spec_paint_title_bar_background(
            style,
            title_bar_rect,
            frame,
            header_color,
            is_collapsed,
            on_top,
        ),
{
    if !(on_top && style.window_highlight_topmost) {
        return None;
    }
    let mut round = frame.corner_radius.minus(frame.stroke.width);
    if !is_collapsed {
        round.se = 0;
        round.sw = 0;
    }
    Some(RectShape { rect: title_bar_rect, corner_radius: round, fill: header_color })
}

/// The rectangles of the two buttons of a title bar.
#[derive(Clone, Copy, Debug, PartialEq, Eq, Structural)]
pub struct TitleBarButtonRects {
    pub collapse: Rect,
    pub close: Rect,
}

/// The rectangle of a title-bar button: a square of `icon_width` around the
/// middle of the square that fills the height of the bar at the given end.
pub open spec fn button_rect(align: Align2, icon_width: i32, title_bar_rect: Rect) -> Rect {
    let side = title_bar_rect.spec_size().y;
    let slot = align.spec_align_size_within_rect(Vec2 { x: side, y: side }, title_bar_rect);
    Rect::spec_from_center_size(slot.spec_center(), Vec2 { x: icon_width, y: icon_width })
}

fn button_rect_at(align: Align2, icon_width: i32, title_bar_rect: Rect) -> (r: Rect)
    ensures
        r == button_rect(align, icon_width, title_bar_rect),
{
    let side: i32 = title_bar_rect.size().y;
    let slot = align.align_size_within_rect(Vec2 { x: side, y: side }, title_bar_rect);
    Rect::from_center_size(slot.center(), Vec2 { x: icon_width, y: icon_width })
}

pub open spec fn spec_title_bar_button_rects(style: Style, title_bar_rect: Rect) -> TitleBarButtonRects {
    TitleBarButtonRects {
        collapse: button_rect(Align2::spec_left_center(), style.icon_width, title_bar_rect),
        close: button_rect(Align2::spec_right_center(), style.icon_width, title_bar_rect),
    }
}

/// Where the collapse button and the close button stand in a title bar: the
/// first at its left end, the second at its right end.
#[verifier::when_used_as_spec(spec_title_bar_button_rects)]
pub fn title_bar_button_rects(style: Style, title_bar_rect: Rect) -> (r: TitleBarButtonRects)
    ensures
        r == spec_title_bar_button_rects(style, title_bar_rect),
{
    TitleBarButtonRects {
        collapse: button_rect_at(Align2::left_center(), style.icon_width, title_bar_rect),
        close: button_rect_at(Align2::right_center(), style.icon_width, title_bar_rect),
    }
}

/// What the pointer does to a button in one frame.
#[derive(Clone, Copy, Debug, PartialEq, Eq, Structural)]
pub struct ClickInput {
    /// Where the pointer is.
    pub hover_pos: Option<Pos2>,
    /// Whether the button of the pointer is held.
    pub down: bool,
    /// Where a click was completed in this frame.
    pub click: Option<Pos2>,
    /// Where a double click was completed in this frame.
    pub double_click: Option<Pos2>,
}

/// Whether a position is given and lies in `rect`.
pub open spec fn spec_lands_in(pos: Option<Pos2>, rect: Rect) -> bool {
    match pos {
        Some(p) => rect.spec_contains(p),
        None => false,
    }
}

#[verifier::when_used_as_spec(spec_lands_in)]
pub fn lands_in(pos: Option<Pos2>, rect: Rect) -> (b: bool)
    ensures
        b == spec_lands_in(pos, rect),
{
    match pos {
        Some(p) => rect.contains(p),
        None => false,
    }
}

/// How a button answers the pointer.
#[derive(Clone, Copy, Debug, PartialEq, Eq, Structural)]
pub struct Response {
    pub rect: Rect,
    pub hovered: bool,
    /// Whether the pointer is held down on the button.
    pub pressed: bool,
    pub clicked: bool,
}

impl Response {
    pub open spec fn spec_of(rect: Rect, input: ClickInput) -> Response {
        Response {
            rect,
            hovered: spec_lands_in(input.hover_pos, rect),
            pressed: input.down && spec_lands_in(input.hover_pos, rect),
            clicked: spec_lands_in(input.click, rect),
        }
    }

    /// The answer of a button at `rect` to the pointer.
    #[verifier::when_used_as_spec(spec_of)]
    pub fn of(rect: Rect, input: ClickInput) -> (r: Response)
        ensures
            r == Response::spec_of(rect, input),
    {
        let hovered = lands_in(input.hover_pos, rect);
        Response { rect, hovered, pressed: input.down && hovered, clicked: lands_in(input.click, rect) }
    }

    /// The looks of the button: active while pressed or clicked, hovered
    /// while under the pointer, else inactive.
    pub open spec fn spec_visuals(&self, style: Style) -> WidgetVisuals {
        if self.pressed || self.clicked {
            style.active
        } else if self.hovered {
            style.hovered
        } else {
            style.inactive
        }
    }

    #[verifier::when_used_as_spec(spec_visuals)]
    pub fn visuals(&self, style: Style) -> (v: WidgetVisuals)
        ensures
            v == self.spec_visuals(style),
    {
        if self.pressed || self.clicked {
            style.active
        } else if self.hovered {
            style.hovered
        } else {
            style.inactive
        }
    }
}

/// A straight line between two points.
#[derive(Clone, Copy, Debug, PartialEq, Eq, Structural)]
pub struct LineSegment {
    pub from: Pos2,
    pub to: Pos2,
    pub stroke: Stroke,
}

impl LineSegment {
    /// This line with its colour faded by `opacity / 255`.
    pub open spec fn spec_faded(self, opacity: u8) -> LineSegment {
        LineSegment { stroke: self.stroke.spec_faded(opacity), ..self }
    }

    #[verifier::when_used_as_spec(spec_faded)]
    pub fn faded(self, opacity: u8) -> (r: LineSegment)
        ensures
            r == self.spec_faded(opacity),
    {
        LineSegment { stroke: self.stroke.faded(opacity), ..self }
    }
}

/// The close button of a window: how it answers, and the cross to paint.
#[derive(Clone, Copy, Debug, PartialEq, Eq, Structural)]
pub struct CloseButton {
    pub response: Response,
    /// The stroke from the upper left to the lower right.
    pub falling: LineSegment,
    /// The stroke from the upper right to the lower left.
    pub rising: LineSegment,
}

pub open spec fn spec_close_button(style: Style, rect: Rect, input: ClickInput) -> CloseButton {
    let response = Response::spec_of(rect, input);
    let visuals = response.spec_visuals(style);
    let cross = rect.spec_shrink(CLOSE_CROSS_INSET).spec_expand(visuals.expansion);
    CloseButton {
        response,
        falling: LineSegment {
            from: cross.spec_left_top(),
            to: cross.spec_right_bottom(),
            stroke: visuals.fg_stroke,
        },
        rising: LineSegment {
            from: cross.spec_right_top(),
            to: cross.spec_left_bottom(),
            stroke: visuals.fg_stroke,
        },
    }
}

/// The close button at `rect`: a cross of two strokes, drawn a little inside
/// the rectangle and a little larger while the pointer is on it.
#[verifier::when_used_as_spec(spec_close_button)]
pub fn close_button(style: Style, rect: Rect, input: ClickInput) -> (b: CloseButton)
    ensures
        b == spec_close_button(style, rect, input),
{
    let response = Response::of(rect, input);
    let visuals = response.visuals(style);
    let cross = rect.shrink(CLOSE_CROSS_INSET).expand(visuals.expansion);
    let stroke = visuals.fg_stroke;
    CloseButton {
        response,
        falling: LineSegment { from: cross.left_top(), to: cross.right_bottom(), stroke },
        rising: LineSegment { from: cross.right_top(), to: cross.left_bottom(), stroke },
    }
}

/// The close button of a window, as [`close_button`] makes it.
#[verifier::when_used_as_spec(spec_close_button)]
pub fn window_close_button(style: Style, rect: Rect, input: ClickInput) -> (b: CloseButton)
    ensures
        b == spec_close_button(style, rect, input),
{
    close_button(style, rect, input)
}

/// Which of its two rectangles a title bar holds.
#[derive(Clone, Copy, Debug, PartialEq, Eq, Structural)]
pub enum TitleBarPhase {
    /// The least room that title and buttons need, known before the content.
    Estimated,
    /// The rectangle across the laid-out window.
    Final,
}

/// The title bar of a window through the two phases of a frame.
///
/// It is made before the content is laid out, with an estimate that lets the
/// content leave room for it, and refined afterwards, when the width of the
/// window is known.
#[derive(Clone, Copy, Debug, PartialEq, Eq, Structural)]
pub struct TitleBar {
    pub window_frame: Frame,
    /// The extent of the title text as it was measured.
    pub title_size: Vec2,
    /// The rectangle of the title bar, without the separator below it: the
    /// estimate at first, and once refined the strip across the whole width
    /// of the window, below its upper border.
    pub inner_rect: Rect,
    pub phase: TitleBarPhase,
}

/// The height of the title bar without the frame's inner margin.
pub open spec fn title_inner_height(frame: Frame, height_with_margin: i32) -> int {
    clamp_coord(height_with_margin - frame.inner_margin.spec_sum().y)
}

/// The side of a title-bar button: the icon width, but no more than the
/// title bar is high.
pub open spec fn title_button_side(style: Style, inner_height: int) -> int {
    if style.icon_width > inner_height {
        inner_height
    } else {
        style.icon_width as int
    }
}

/// The least width of a title bar.
///
/// The title is padded on either side by half of what the height of the
/// bar leaves over a button, so that a button would stand on the diagonal
/// of its corner: by that spare height, the two sides taken together. With
/// a button on either side the bar makes room for one on both, so that the
/// title stands in the middle.
pub open spec fn title_minimum_width(
    style: Style,
    title_width: i32,
    inner_height: int,
    with_buttons: bool,
) -> int {
    let button = title_button_side(style, inner_height);
    let spare = inner_height - button;
    if with_buttons {
        spare + 2 * (button + style.item_spacing_x) + title_width
    } else {
        spare + title_width
    }
}

/// The least extent of a title bar: as wide as title and buttons need, as
/// high as the bar is without the frame's inner margin.
pub open spec fn spec_title_bar_minimum_size(
    style: Style,
    title_size: Vec2,
    show_close_button: bool,
    collapsible: bool,
    window_frame: Frame,
    title_bar_height_with_margin: i32,
) -> Vec2 {
    let inner_height = title_inner_height(window_frame, title_bar_height_with_margin);
    Vec2 {
        x: clamp_coord(
            title_minimum_width(style, title_size.x, inner_height, collapsible || show_close_button),
        ) as i32,
        y: inner_height as i32,
    }
}

#[verifier::when_used_as_spec(spec_title_bar_minimum_size)]
pub fn title_bar_minimum_size(
    style: Style,
    title_size: Vec2,
    show_close_button: bool,
    collapsible: bool,
    window_frame: Frame,
    title_bar_height_with_margin: i32,
) -> (v: Vec2)
    ensures
        v == spec_title_bar_minimum_size(
            style,
            title_size,
            show_close_button,
            collapsible,
            window_frame,
            title_bar_height_with_margin,
        ),
{
    let inner_height: i32 = saturate(
        title_bar_height_with_margin as i64 - window_frame.inner_margin.sum().y as i64,
    );
    let button: i64 = if style.icon_width > inner_height {
        inner_height as i64
    } else {
        style.icon_width as i64
    };
    // The padding of both sides together. Half of it on either side puts
    // the icon on the diagonal of the corner.
    let spare: i64 = inner_height as i64 - button;
    let minimum_width: i64 = if collapsible || show_close_button {
        // Room for both buttons as soon as there is one, to keep the title
        // in the middle.
        spare + 2 * (button + style.item_spacing_x as i64) + title_size.x as i64
    } else {
        spare + title_size.x as i64
    };
    Vec2 { x: saturate(minimum_width), y: inner_height }
}

impl TitleBar {
    pub open spec fn spec_new(
        min_pos: Pos2,
        title_size: Vec2,
        show_close_button: bool,
        collapsible: bool,
        window_frame: Frame,
        title_bar_height_with_margin: i32,
        style: Style,
    ) -> TitleBar {
        TitleBar {
            window_frame,
            title_size,
            inner_rect: Rect::spec_from_min_size(
                min_pos,
                spec_title_bar_minimum_size(
                    style,
                    title_size,
                    show_close_button,
                    collapsible,
                    window_frame,
                    title_bar_height_with_margin,
                ),
            ),
            phase: TitleBarPhase::Estimated,
        }
    }

    /// The title bar as far as it is known before the content: at `min_pos`,
    /// as high as the metrics say, and as wide as title and buttons need.
    #[verifier::when_used_as_spec(spec_new)]
    pub fn new(
        min_pos: Pos2,
        title_size: Vec2,
        show_close_button: bool,
        collapsible: bool,
        window_frame: Frame,
        title_bar_height_with_margin: i32,
        style: Style,
    ) -> (t: TitleBar)
        ensures
            t == TitleBar::spec_new(
                min_pos,
                title_size,
                show_close_button,
                collapsible,
                window_frame,
                title_bar_height_with_margin,
                style,
            ),
    {
        let min_inner_size = title_bar_minimum_size(
            style,
            title_size,
            show_close_button,
            collapsible,
            window_frame,
            title_bar_height_with_margin,
        );
        TitleBar {
            window_frame,
            title_size,
            inner_rect: Rect::from_min_size(min_pos, min_inner_size),
            phase: TitleBarPhase::Estimated,
        }
    }

    pub open spec fn spec_inner_rect(&self) -> Rect {
        self.inner_rect
    }

    /// The rectangle of the title bar, as far as it is known.
    #[verifier::when_used_as_spec(spec_inner_rect)]
    pub fn inner_rect(&self) -> (r: Rect)
        ensures
            r == self.spec_inner_rect(),
    {
        self.inner_rect
    }

    pub open spec fn spec_is_final(&self) -> bool {
        self.phase == TitleBarPhase::Final
    }

    /// Whether the rectangle has been refined from the laid-out window.
    #[verifier::when_used_as_spec(spec_is_final)]
    pub fn is_final(&self) -> (b: bool)
        ensures
            b == self.spec_is_final(),
    {
        match self.phase {
            TitleBarPhase::Final => true,
            TitleBarPhase::Estimated => false,
        }
    }

    /// The title bar of a window whose outer rectangle is `outer_rect`: from
    /// the left edge of that rectangle to its right edge, border included,
    /// beginning below the upper border, `height` high.
    pub open spec fn refined_rect(frame: Frame, outer_rect: Rect, height: i32) -> Rect {
        let top = clamp_coord(outer_rect.min.y + frame.stroke.width);
        Rect {
            min: Pos2 { x: outer_rect.min.x, y: top as i32 },
            max: Pos2 { x: outer_rect.max.x, y: clamp_coord(top + height) as i32 },
        }
    }

    /// Refines the title bar once the window is laid out.
    ///
    /// The estimate is overwritten in place: the title bar now spans the
    /// whole width of the outer rectangle, at the height that the metrics
    /// gave it. Frame and title are kept.
    pub fn set_outer_rect(&mut self, outer_rect: Rect, title_bar_height_with_margin: i32)
        ensures
            *final(self) == (TitleBar {
                inner_rect: TitleBar::refined_rect(
                    old(self).window_frame,
                    outer_rect,
                    title_bar_height_with_margin,
                ),
                phase: TitleBarPhase::Final,
                ..*old(self)
            }),
            final(self).inner_rect.min.x == outer_rect.min.x,
            final(self).inner_rect.max.x == outer_rect.max.x,
            final(self).inner_rect.spec_width() == outer_rect.spec_width(),
    {
        let top: i32 = saturate(outer_rect.min.y as i64 + self.window_frame.stroke.width as i64);
        self.inner_rect = Rect {
            min: Pos2 { x: outer_rect.min.x, y: top },
            max: Pos2 {
                x: outer_rect.max.x,
                y: saturate(top as i64 + title_bar_height_with_margin as i64),
            },
        };
        self.phase = TitleBarPhase::Final;
    }

    /// The rectangle of the close button, at the right end of the bar.
    pub open spec fn close_button_rect(&self, style: Style) -> Rect {
        button_rect(Align2::spec_right_center(), style.icon_width, self.inner_rect)
    }

    /// The rectangle of the collapse button, at the left end of the bar.
    pub open spec fn collapse_button_rect(&self, style: Style) -> Rect {
        button_rect(Align2::spec_left_center(), style.icon_width, self.inner_rect)
    }

    /// The close button at the right end of the title bar.
    pub fn close_button_ui(&self, style: Style, input: ClickInput) -> (b: CloseButton)
        ensures
            b == spec_close_button(style, self.close_button_rect(style), input),
    {
        let rect = button_rect_at(Align2::right_center(), style.icon_width, self.inner_rect);
        window_close_button(style, rect, input)
    }

    /// Where the title text starts so that it stands in the middle of the bar.
    pub open spec fn text_pos(&self) -> Pos2 {
        Align2::spec_center_center().spec_align_size_within_rect(self.title_size, self.inner_rect).min
    }

    /// The line between title bar and content: below the bar, in the middle
    /// of a stroke as wide as the border.
    pub open spec fn separator(&self) -> LineSegment {
        let y = clamp_coord(self.inner_rect.max.y + self.window_frame.stroke.spec_half_width()) as i32;
        LineSegment {
            from: Pos2 { x: self.inner_rect.min.x, y },
            to: Pos2 { x: self.inner_rect.max.x, y },
            stroke: self.window_frame.stroke,
        }
    }

    /// The part of the title bar in which a double click collapses or
    /// expands the window: all of it but a band at either end.
    pub open spec fn double_click_rect(&self) -> Rect {
        self.inner_rect.spec_shrink2(Vec2 { x: DOUBLE_CLICK_INSET, y: 0 })
    }

    /// Whether the frame's input asks to close the window: it has a close
    /// button and a click lands on it.
    pub open spec fn close_clicked(&self, style: Style, has_close_button: bool, input: ClickInput) -> bool {
        has_close_button && spec_lands_in(input.click, self.close_button_rect(style))
    }

    /// Whether the frame's input collapses or expands the window: it can be
    /// collapsed and a double click lands between the bands of the buttons.
    pub open spec fn toggles(&self, collapsible: bool, input: ClickInput) -> bool {
        collapsible && spec_lands_in(input.double_click, self.double_click_rect())
    }

    /// What `ui` hands back for a refined title bar.
    pub open spec fn spec_layout(
        &self,
        style: Style,
        has_content: bool,
        has_close_button: bool,
        collapsible: bool,
        input: ClickInput,
    ) -> TitleBarLayout {
        TitleBarLayout {
            collapse_button: if collapsible {
                Some(self.collapse_button_rect(style))
            } else {
                None
            },
            close_button: if has_close_button {
                Some(spec_close_button(style, self.close_button_rect(style), input))
            } else {
                None
            },
            text_pos: self.text_pos(),
            separator: if has_content {
                Some(self.separator())
            } else {
                None
            },
            double_click_rect: self.double_click_rect(),
            close_clicked: self.close_clicked(style, has_close_button, input),
            toggled: self.toggles(collapsible, input),
        }
    }

    /// Lays out the refined title bar and applies the pointer to it.
    ///
    /// `open` is the flag behind the close button, if the window has one: a
    /// click on the button sets it to `false`. A double click between the
    /// bands of the buttons collapses or expands a window that can be
    /// collapsed, once, and does nothing to one that cannot. `has_content`
    /// says whether content was laid out, that is, whether a separator is
    /// due.
    pub fn ui(
        self,
        style: Style,
        has_content: bool,
        open: &mut Option<bool>,
        collapsing: &mut CollapseState,
        collapsible: bool,
        input: ClickInput,
    ) -> (layout: TitleBarLayout)
        requires
            self.spec_is_final(),
        ensures
            layout == self.spec_layout(style, has_content, old(open).is_some(), collapsible, input),
            *final(open) == if layout.close_clicked {
                Some(false)
            } else {
                *old(open)
            },
            final(collapsing).open == if layout.toggled {
                !old(collapsing).open
            } else {
                old(collapsing).open
            },
    {
        let collapse_button = if collapsible {
            Some(button_rect_at(Align2::left_center(), style.icon_width, self.inner_rect))
        } else {
            None
        };

        let mut close_clicked = false;
        let close_button = if open.is_some() {
            let button = self.close_button_ui(style, input);
            if button.response.clicked {
                *open = Some(false);
                close_clicked = true;
            }
            Some(button)
        } else {
            None
        };

        let text_pos = Align2::center_center().align_size_within_rect(
            self.title_size,
            self.inner_rect,
        ).left_top();

        let separator = if has_content {
            let y: i32 = saturate(
                self.inner_rect.max.y as i64 + self.window_frame.stroke.half_width() as i64,
            );
            Some(
                LineSegment {
                    from: Pos2 { x: self.inner_rect.min.x, y },
                    to: Pos2 { x: self.inner_rect.max.x, y },
                    stroke: self.window_frame.stroke,
                },
            )
        } else {
            None
        };

        // Keep clear of the two buttons.
        let double_click_rect = self.inner_rect.shrink2(Vec2 { x: DOUBLE_CLICK_INSET, y: 0 });
        let toggled = lands_in(input.double_click, double_click_rect) && collapsible;
        if toggled {
            collapsing.toggle();
        }

        TitleBarLayout {
            collapse_button,
            close_button,
            text_pos,
            separator,
            double_click_rect,
            close_clicked,
            toggled,
        }
    }
}

/// The refined title bar, ready to paint, and what the pointer did to it.
#[derive(Clone, Copy, Debug, PartialEq, Eq, Structural)]
pub struct TitleBarLayout {
    /// Where the collapse button stands, if the window can be collapsed.
    pub collapse_button: Option<Rect>,
    /// The close button, if the window has one.
    pub close_button: Option<CloseButton>,
    /// Where the title text starts.
    pub text_pos: Pos2,
    /// The line between title bar and content, if content was laid out.
    pub separator: Option<LineSegment>,
    /// Where a double click collapses or expands the window.
    pub double_click_rect: Rect,
    /// Whether the close button was clicked.
    pub close_clicked: bool,
    /// Whether a double click collapsed or expanded the window.
    pub toggled: bool,
}

impl TitleBarLayout {
    /// This layout with every stroke faded by `opacity / 255`.
    pub open spec fn spec_faded(self, opacity: u8) -> TitleBarLayout {
        TitleBarLayout {
            close_button: match self.close_button {
                Some(b) => Some(
                    CloseButton {
                        falling: b.falling.spec_faded(opacity),
                        rising: b.rising.spec_faded(opacity),
                        ..b
                    },
                ),
                None => None,
            },
            separator: match self.separator {
                Some(l) => Some(l.spec_faded(opacity)),
                None => None,
            },
            ..self
        }
    }

    #[verifier::when_used_as_spec(spec_faded)]
    pub fn faded(self, opacity: u8) -> (r: TitleBarLayout)
        ensures
            r == self.spec_faded(opacity),
    {
        TitleBarLayout {
            close_button: match self.close_button {
                Some(b) => Some(
                    CloseButton {
                        falling: b.falling.faded(opacity),
                        rising: b.rising.faded(opacity),
                        ..b
                    },
                ),
                None => None,
            },
            separator: match self.separator {
                Some(l) => Some(l.faded(opacity)),
                None => None,
            },
            ..self
        }
    }
}

} // verus!
