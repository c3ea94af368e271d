//! One frame of a window, in two steps.
//!
//! [`Window::begin`] runs everything that has to happen before the content
//! is laid out: the fade, the edges under the pointer, the drag, the size
//! limits, the bounds, and a first estimate of the title bar. The caller
//! then lays out the content in the room it is offered. [`Prepared::end`]
//! takes the size that the content came to, settles the outer rectangle,
//! refines the title bar, and stores the rectangle for the next frame.
//! [`Window::show`] is both steps for content that fills its room.

use vstd::prelude::*;
use crate::chrome::{
    half_height_radius, paint_title_bar_background, spec_paint_title_bar_background,
    spec_title_bar_metrics, spec_title_bar_minimum_size, title_bar_height, title_bar_metrics,
    title_bar_minimum_size, with_top_rounding_at_most, ClickInput, RectShape, TitleBar,
    TitleBarLayout, TitleBarMetrics, TitleBarPhase,
};
use crate::config::{Area, Resize};
use crate::geometry::{clamp_coord, saturate, Pos2, Rect, Vec2};
use crate::interaction::{
    constrain_window_rect_to_area, resize_interaction, resize_response,
    spec_constrain_window_rect_to_area, spec_drag_applies, spec_grab_after,
    spec_resize_interaction, spec_resize_response, CursorIcon, PointerInput, PossibleInteractions,
    ResizeInteraction,
};
use crate::paint::{
    highlight_path, highlight_stroke, paint_frame_interaction, paint_resize_corner,
    spec_paint_resize_corner, FrameHighlight, ResizeCorner,
};
use crate::state::{CollapseState, WindowState};
use crate::style::{Color, Frame, Style, OPAQUE};
use crate::window::Window;

verus! {

/// What a frame brings from outside.
#[derive(Clone, Copy, Debug, PartialEq, Eq, Structural)]
pub struct FrameInput {
    pub style: Style,
    /// The whole of the screen.
    pub screen_rect: Rect,
    /// The extent of the title text as it was measured.
    pub title_size: Vec2,
    pub pointer: PointerInput,
    /// Where a click was completed in this frame.
    pub click: Option<Pos2>,
    /// Where a double click was completed in this frame.
    pub double_click: Option<Pos2>,
    /// Whether the window is the topmost one.
    pub on_top: bool,
    /// Whether closed windows are shown all the same.
    pub everything_is_visible: bool,
    /// Time steps since the last frame.
    pub dt: u16,
}

impl FrameInput {
    pub open spec fn spec_clicks(&self) -> ClickInput {
        ClickInput {
            hover_pos: self.pointer.pos,
            down: self.pointer.down,
            click: self.click,
            double_click: self.double_click,
        }
    }

    /// What the buttons of the title bar need of the input.
    #[verifier::when_used_as_spec(spec_clicks)]
    pub fn clicks(&self) -> (c: ClickInput)
        ensures
            c == self.spec_clicks(),
    {
        ClickInput {
            hover_pos: self.pointer.pos,
            down: self.pointer.down,
            click: self.click,
            double_click: self.double_click,
        }
    }
}

/// A window between the two steps of a frame.
#[derive(Clone, Copy, Debug, PartialEq, Eq, Structural)]
pub struct Prepared {
    /// The frame of the window, its upper corners fitted to the title bar.
    pub window_frame: Frame,
    /// The fill of the title-bar highlight.
    pub header_color: Color,
    /// What content and chrome are faded by: 255 unless the window is
    /// closing and fades out.
    pub opacity: u8,
    pub is_collapsed: bool,
    pub possible: PossibleInteractions,
    pub metrics: TitleBarMetrics,
    pub interaction: ResizeInteraction,
    pub cursor: Option<CursorIcon>,
    /// Whether the window is to be brought to the front.
    pub to_front: bool,
    /// What frame and title bar add to the size of the content.
    pub margins: Vec2,
    /// From the upper left corner of the window to that of the content.
    pub content_offset: Vec2,
    /// The limits that the size of the content is held to in this frame.
    pub limits: Resize,
    /// The bounds that the window is kept in, if it is constrained.
    pub bounds: Option<Rect>,
    /// Where the window floats: what pins or anchors it, if anything does.
    pub area: Area,
    /// The whole of the screen.
    pub screen_rect: Rect,
    /// The least extent of the title bar; nothing without a title bar.
    pub title_size: Vec2,
    /// The title bar as estimated, if the window has one.
    pub title_bar: Option<TitleBar>,
    /// The upper left corner of the window.
    pub position: Pos2,
    /// The room that the content is offered.
    pub content_size: Vec2,
    /// The flag behind the close button, if the window has one.
    pub open: Option<bool>,
    pub collapsible: bool,
}

/// What a frame made of a window.
#[derive(Debug)]
pub struct WindowResponse {
    /// The outer rectangle that was stored for the next frame.
    pub outer_rect: Rect,
    /// Where the content stands; `None` while the window is collapsed.
    pub content_rect: Option<Rect>,
    /// What the content is to be faded by.
    pub opacity: u8,
    pub cursor: Option<CursorIcon>,
    /// Whether the window is to be brought to the front.
    pub to_front: bool,
    pub title_bar: Option<TitleBarLayout>,
    /// What to put in the place kept for the title-bar highlight.
    pub title_background: Option<RectShape>,
    pub resize_corner: Option<ResizeCorner>,
    pub frame_highlight: Option<FrameHighlight>,
    /// The flag behind the close button after this frame.
    pub open: Option<bool>,
    /// Whether this frame asked to close the window.
    pub should_close: bool,
}

/// What showing a window made of it, and what the content made of its room.
#[derive(Debug)]
pub struct InnerResponse<R> {
    /// What the content handed back; `None` while the window is collapsed.
    pub inner: Option<R>,
    pub response: WindowResponse,
}

/// The smaller of two extents.
pub open spec fn spec_lesser(a: int, b: int) -> int {
    if a < b {
        a
    } else {
        b
    }
}

/// The frame after the title bar has fitted its upper corners.
pub open spec fn spec_rounded_frame(
    style: Style,
    font_height: i32,
    frame: Frame,
    with_title_bar: bool,
) -> Frame {
    if with_title_bar {
        with_top_rounding_at_most(
            frame,
            half_height_radius(title_bar_height(style, font_height, frame)),
        )
    } else {
        frame
    }
}

/// The sizing rules with the greatest size held to what the bounds leave
/// once the title bar is taken off.
pub open spec fn spec_limits_within(resize: Resize, bounds: Rect, metrics: TitleBarMetrics) -> Resize {
    Resize {
        max_size: Vec2 {
            x: spec_lesser(resize.max_size.x as int, clamp_coord(bounds.spec_width())) as i32,
            y: spec_lesser(
                resize.max_size.y as int,
                clamp_coord(
                    bounds.spec_height() - metrics.height_with_margin - metrics.content_spacing,
                ),
            ) as i32,
        },
        ..resize
    }
}

/// The sizing rules with the least width raised to that of the title bar,
/// so that a window is never narrower than its title bar.
pub open spec fn spec_limits_with_title(resize: Resize, title_size: Vec2) -> Resize {
    Resize {
        min_size: Vec2 {
            x: if resize.min_size.x < title_size.x {
                title_size.x
            } else {
                resize.min_size.x
            },
            y: resize.min_size.y,
        },
        ..resize
    }
}

/// What frame and title bar add to the size of the content.
pub open spec fn spec_margins(frame: Frame, metrics: TitleBarMetrics) -> Vec2 {
    frame.spec_total_margin().spec_sum().spec_plus(
        Vec2 {
            x: 0,
            y: clamp_coord(metrics.height_with_margin + metrics.content_spacing) as i32,
        },
    )
}

/// From the upper left corner of the window to that of the content.
pub open spec fn spec_content_offset(frame: Frame, metrics: TitleBarMetrics) -> Vec2 {
    Vec2 {
        x: frame.spec_total_margin().left,
        y: clamp_coord(
            frame.spec_total_margin().top + metrics.height_with_margin + metrics.content_spacing,
        ) as i32,
    }
}

/// What a frame settles of a window before it looks at the pointer.
#[derive(Clone, Copy, Debug, PartialEq, Eq, Structural)]
pub struct Setup {
    pub is_collapsed: bool,
    pub possible: PossibleInteractions,
    /// The frame of the window, its upper corners fitted to the title bar.
    pub window_frame: Frame,
    pub header_color: Color,
    pub metrics: TitleBarMetrics,
    /// The least extent of the title bar; nothing without a title bar.
    pub title_size: Vec2,
    /// The limits that the size of the content is held to in this frame:
    /// no wider or higher than the bounds leave room for, and no narrower
    /// than the title bar.
    pub limits: Resize,
    pub margins: Vec2,
    pub content_offset: Vec2,
    /// The bounds that the window is kept in, if it is constrained.
    pub bounds: Option<Rect>,
}

impl Window {
    /// Whether the window should be open: it is, unless its flag says
    /// `false` and closed windows are not shown all the same.
    pub open spec fn spec_is_open(&self, input: FrameInput) -> bool {
        self.open != Some(false) || input.everything_is_visible
    }

    /// The frame of the window: its own, or that of the style.
    pub open spec fn spec_window_frame(&self, style: Style) -> Frame {
        match self.frame {
            Some(f) => f,
            None => style.window_frame,
        }
    }

    /// The fill of the title-bar highlight: that of the window's own frame,
    /// or the one of the style.
    pub open spec fn spec_header_color(&self, style: Style) -> Color {
        match self.frame {
            Some(f) => f.fill,
            None => style.header_fill,
        }
    }

    /// The opacity of the window in this frame, from the fade as this frame
    /// advances it.
    pub open spec fn spec_opacity(&self, state: WindowState, input: FrameInput) -> u8 {
        state.fade.spec_step(self.spec_is_open(input), input.dt, input.style.fade_duration)
            .spec_opacity(self.spec_is_open(input), input.style.fade_duration)
    }

    /// What content and chrome are faded by: the opacity while the window
    /// is closing and fades out, else nothing.
    pub open spec fn spec_content_opacity(&self, state: WindowState, input: FrameInput) -> u8 {
        if !self.spec_is_open(input) && self.fade_out {
            self.spec_opacity(state, input)
        } else {
            OPAQUE
        }
    }

    /// Whether only the title bar of the window is shown.
    pub open spec fn spec_is_collapsed(&self, state: WindowState) -> bool {
        self.with_title_bar && !state.collapse.open
    }

    pub open spec fn spec_setup(&self, is_collapsed: bool, input: FrameInput) -> Setup {
        let style = input.style;
        let frame0 = self.spec_window_frame(style);
        let metrics = spec_title_bar_metrics(
            style,
            input.title_size.y,
            frame0,
            self.with_title_bar,
            is_collapsed,
        );
        let frame = spec_rounded_frame(style, input.title_size.y, frame0, self.with_title_bar);
        let area_bounds = self.area.spec_bounds(input.screen_rect);
        let title_size = if self.with_title_bar {
            spec_title_bar_minimum_size(
                style,
                input.title_size,
                self.open.is_some(),
                self.collapsible,
                frame,
                metrics.height_with_margin,
            )
        } else {
            Vec2 { x: 0, y: 0 }
        };
        Setup {
            is_collapsed,
            possible: PossibleInteractions::spec_new(self.area, self.resize, is_collapsed),
            window_frame: frame,
            header_color: self.spec_header_color(style),
            metrics,
            title_size,
            limits: spec_limits_with_title(
                spec_limits_within(self.resize, area_bounds, metrics),
                title_size,
            ),
            margins: spec_margins(frame, metrics),
            content_offset: spec_content_offset(frame, metrics),
            bounds: if self.area.constrain {
                Some(area_bounds)
            } else {
                None
            },
        }
    }

    /// Settles what does not depend on the pointer: which edges can be
    /// dragged, the frame, the height of the title bar, the size limits.
    ///
    /// The greatest size of the content is held to what the bounds leave
    /// once the title bar is taken off, so that the window cannot be made
    /// larger than the room it is kept in. The least width is raised to
    /// that of the title bar.
    #[verifier::when_used_as_spec(spec_setup)]
    pub fn setup(&self, is_collapsed: bool, input: FrameInput) -> (s: Setup)
        ensures
            s == self.spec_setup(is_collapsed, input),
    {
        let style = input.style;
        let header_color = match self.frame {
            Some(f) => f.fill,
            None => style.header_fill,
        };
        let mut window_frame = match self.frame {
            Some(f) => f,
            None => style.window_frame,
        };
        let possible = PossibleInteractions::new(&self.area, &self.resize, is_collapsed);
        let metrics = title_bar_metrics(
            &style,
            input.title_size.y,
            &mut window_frame,
            self.with_title_bar,
            is_collapsed,
        );

        let area_bounds = self.area.bounds(input.screen_rect);
        let mut limits = self.resize;
        let max_width: i32 = saturate(area_bounds.width());
        let max_height: i32 = saturate(
            area_bounds.height() - metrics.height_with_margin as i64
                - metrics.content_spacing as i64,
        );
        if max_width < limits.max_size.x {
            limits.max_size.x = max_width;
        }
        if max_height < limits.max_size.y {
            limits.max_size.y = max_height;
        }
        let title_size = if self.with_title_bar {
            title_bar_minimum_size(
                style,
                input.title_size,
                self.open.is_some(),
                self.collapsible,
                window_frame,
                metrics.height_with_margin,
            )
        } else {
            Vec2 { x: 0, y: 0 }
        };
        if limits.min_size.x < title_size.x {
            limits.min_size.x = title_size.x;
        }

        let total_margin = window_frame.total_margin();
        let title_room: i32 = saturate(
            metrics.height_with_margin as i64 + metrics.content_spacing as i64,
        );
        Setup {
            is_collapsed,
            possible,
            window_frame,
            header_color,
            metrics,
            title_size,
            limits,
            margins: total_margin.sum().plus(Vec2 { x: 0, y: title_room }),
            content_offset: Vec2 {
                x: total_margin.left,
                y: saturate(
                    total_margin.top as i64 + metrics.height_with_margin as i64
                        + metrics.content_spacing as i64,
                ),
            },
            bounds: if self.area.constrain {
                Some(area_bounds)
            } else {
                None
            },
        }
    }

    /// What the pointer does to the edges of the window in this frame.
    pub open spec fn spec_interaction(&self, setup: Setup, state: WindowState, input: FrameInput) -> ResizeInteraction {
        spec_resize_interaction(
            setup.possible,
            self.area.spec_place(state.outer_rect, input.screen_rect),
            setup.window_frame,
            input.style.resize_grab_radius_side,
            input.style.resize_grab_radius_corner,
            input.pointer,
            state.grabbed,
        )
    }

    /// The state once the drag of this frame is applied.
    pub open spec fn spec_interact(&self, setup: Setup, state: WindowState, input: FrameInput) -> WindowState {
        let placed = self.area.spec_place(state.outer_rect, input.screen_rect);
        spec_resize_response(
            self.spec_interaction(setup, state, input),
            input.pointer.total_drag_delta,
            setup.margins,
            setup.limits,
            setup.bounds,
            WindowState {
                outer_rect: placed,
                grabbed: spec_grab_after(
                    setup.possible,
                    placed,
                    setup.window_frame,
                    input.style.resize_grab_radius_side,
                    input.style.resize_grab_radius_corner,
                    input.pointer,
                    state.grabbed,
                ),
                ..state
            },
        )
    }

    /// Resolves the pointer against the rectangle that the last frame
    /// stored, and applies the drag: integrated from its anchor, held to
    /// the size limits, brought into the bounds, and stored at once.
    pub fn interact(&self, setup: Setup, state: &mut WindowState, input: FrameInput) -> (i:
        ResizeInteraction)
        ensures
            i == self.spec_interaction(setup, *old(state), input),
            *final(state) == self.spec_interact(setup, *old(state), input),
    {
        state.outer_rect = self.area.place(state.outer_rect, input.screen_rect);
        let mut grabbed = state.grabbed;
        let interaction = resize_interaction(
            setup.possible,
            state.outer_rect,
            setup.window_frame,
            input.style.resize_grab_radius_side,
            input.style.resize_grab_radius_corner,
            input.pointer,
            &mut grabbed,
        );
        state.grabbed = grabbed;
        resize_response(
            &interaction,
            input.pointer.total_drag_delta,
            setup.margins,
            &setup.limits,
            setup.bounds,
            state,
        );
        interaction
    }

    /// The title bar as it can be estimated before the content.
    pub open spec fn spec_estimate(&self, setup: Setup, position: Pos2, input: FrameInput) -> Option<TitleBar> {
        if self.with_title_bar {
            Some(
                TitleBar::spec_new(
                    position.spec_offset(
                        Vec2 {
                            x: setup.window_frame.spec_total_margin().left,
                            y: setup.window_frame.spec_total_margin().top,
                        },
                    ),
                    input.title_size,
                    self.open.is_some(),
                    self.collapsible,
                    setup.window_frame,
                    setup.metrics.height_with_margin,
                    input.style,
                ),
            )
        } else {
            None
        }
    }

    /// The first estimate of the title bar: where the content of the frame
    /// begins, as wide as title and buttons need.
    #[verifier::when_used_as_spec(spec_estimate)]
    pub fn estimate(&self, setup: Setup, position: Pos2, input: FrameInput) -> (t: Option<TitleBar>)
        ensures
            t == self.spec_estimate(setup, position, input),
    {
        if self.with_title_bar {
            let total_margin = setup.window_frame.total_margin();
            Some(
                TitleBar::new(
                    position.offset(Vec2 { x: total_margin.left, y: total_margin.top }),
                    input.title_size,
                    self.open.is_some(),
                    self.collapsible,
                    setup.window_frame,
                    setup.metrics.height_with_margin,
                    input.style,
                ),
            )
        } else {
            None
        }
    }

    /// The window before its content, and the state at that point, for a
    /// window that is visible.
    pub open spec fn spec_begin(&self, state: WindowState, input: FrameInput) -> (
        Prepared,
        WindowState,
    ) {
        let is_open = self.spec_is_open(input);
        let faded = WindowState {
            fade: state.fade.spec_step(is_open, input.dt, input.style.fade_duration),
            ..state
        };
        let setup = self.spec_setup(self.spec_is_collapsed(state), input);
        let interaction = self.spec_interaction(setup, faded, input);
        let s1 = self.spec_interact(setup, faded, input);
        let title_bar = self.spec_estimate(setup, s1.outer_rect.min, input);
        let limits = setup.limits;
        let wanted = match s1.requested_size {
            Some(v) => v,
            None => s1.content_size,
        };
        (
            Prepared {
                window_frame: setup.window_frame,
                header_color: setup.header_color,
                opacity: self.spec_content_opacity(state, input),
                is_collapsed: setup.is_collapsed,
                possible: setup.possible,
                metrics: setup.metrics,
                interaction,
                cursor: interaction.spec_cursor(),
                to_front: spec_drag_applies(interaction, input.pointer.total_drag_delta),
                margins: setup.margins,
                content_offset: setup.content_offset,
                limits,
                bounds: setup.bounds,
                area: self.area,
                screen_rect: input.screen_rect,
                title_size: setup.title_size,
                title_bar,
                position: s1.outer_rect.min,
                content_size: wanted.spec_at_least(limits.min_size).spec_at_most(limits.max_size),
                open: self.open,
                collapsible: self.collapsible,
            },
            WindowState { requested_size: None, ..s1 },
        )
    }

    /// The first step of a frame: everything before the content.
    ///
    /// The fade advances first. A window whose opacity has come down to 0
    /// is skipped for the frame: nothing else of its state is touched, no
    /// region is laid down, and there is nothing to lay out or to paint.
    /// Else the pointer is resolved against the rectangle that the last
    /// frame stored, a drag is applied, held to the size limits and brought
    /// into the bounds, and the new rectangle is stored at once. The title
    /// bar is estimated, and the content is offered the size that a resize
    /// asked for, or the one it had, within the limits.
    pub fn begin(&self, state: &mut WindowState, input: &FrameInput) -> (p: Option<Prepared>)
        ensures
            p.is_some() == (self.spec_opacity(*old(state), *input) != 0),
            p.is_none() ==> *final(state) == (WindowState {
                fade: old(state).fade.spec_step(
                    self.spec_is_open(*input),
                    input.dt,
                    input.style.fade_duration,
                ),
                ..*old(state)
            }),
            p.is_some() ==> p.unwrap() == self.spec_begin(*old(state), *input).0 && *final(state)
                == self.spec_begin(*old(state), *input).1,
    {
        let is_explicitly_closed = match self.open {
            Some(flag) => !flag,
            None => false,
        };
        let is_open = !is_explicitly_closed || input.everything_is_visible;
        let is_collapsed = self.with_title_bar && !state.collapse.is_open();
        state.fade = state.fade.step(is_open, input.dt, input.style.fade_duration);
        let opacity = state.fade.opacity(is_open, input.style.fade_duration);
        if opacity == 0 {
            return None;
        }
        let setup = self.setup(is_collapsed, *input);

        // Resolve the resize first, so that it takes effect in this frame.
        let interaction = self.interact(setup, state, *input);
        let mut cursor: Option<CursorIcon> = None;
        interaction.set_cursor(&mut cursor);
        let to_front = interaction.any_dragged() && input.pointer.total_drag_delta.is_some();

        // The area below fades a window in; only fading out is done here.
        let content_opacity: u8 = if is_open {
            OPAQUE
        } else if self.fade_out {
            opacity
        } else {
            OPAQUE
        };

        let position = state.outer_rect.min;
        let title_bar = self.estimate(setup, position, *input);
        let limits = setup.limits;

        let wanted = match state.requested_size {
            Some(v) => v,
            None => state.content_size,
        };
        state.requested_size = None;
        let content_size = wanted.at_least(limits.min_size).at_most(limits.max_size);

        Some(
            Prepared {
                window_frame: setup.window_frame,
                header_color: setup.header_color,
                opacity: content_opacity,
                is_collapsed,
                possible: setup.possible,
                metrics: setup.metrics,
                interaction,
                cursor,
                to_front,
                margins: setup.margins,
                content_offset: setup.content_offset,
                limits,
                bounds: setup.bounds,
                area: self.area,
                screen_rect: input.screen_rect,
                title_size: setup.title_size,
                title_bar,
                position,
                content_size,
                open: self.open,
                collapsible: self.collapsible,
            },
        )
    }
}

impl Prepared {
    /// The size of the content as the frame settles it: what the layout
    /// came to, held to the limits of this frame.
    pub open spec fn spec_settled_content(self, realized: Vec2) -> Vec2 {
        realized.spec_at_least(self.limits.min_size).spec_at_most(self.limits.max_size)
    }

    /// The size of the whole window: the content and what frame and title
    /// bar add to it, or, while collapsed, the title bar in its frame.
    pub open spec fn spec_outer_size(self, realized: Vec2) -> Vec2 {
        if self.is_collapsed {
            self.title_size.spec_plus(self.window_frame.spec_total_margin().spec_sum())
        } else {
            self.spec_settled_content(realized).spec_plus(self.margins)
        }
    }

    /// The window at its settled size, where its configuration puts it: at
    /// the position of this frame if nothing pins or anchors it, else where
    /// its pivot or its anchor puts a window of that size.
    pub open spec fn spec_placed_rect(self, realized: Vec2) -> Rect {
        self.area.spec_place(
            Rect::spec_from_min_size(self.position, self.spec_outer_size(realized)),
            self.screen_rect,
        )
    }

    /// The outer rectangle that the frame stores: the window at its settled
    /// size, where its configuration puts it, brought into the bounds if
    /// there are any.
    pub open spec fn spec_outer_rect(self, realized: Vec2) -> Rect {
        let rect = self.spec_placed_rect(realized);
        match self.bounds {
            Some(b) => spec_constrain_window_rect_to_area(rect, b),
            None => rect,
        }
    }

    /// Where the content stands; nowhere while the window is collapsed.
    pub open spec fn spec_content_rect(self, realized: Vec2) -> Option<Rect> {
        if self.is_collapsed {
            None
        } else {
            Some(
                Rect::spec_from_min_size(
                    self.spec_outer_rect(realized).min.spec_offset(self.content_offset),
                    self.spec_settled_content(realized),
                ),
            )
        }
    }

    /// The title bar across the settled window, if the window has one.
    pub open spec fn spec_refined_title_bar(self, realized: Vec2) -> Option<TitleBar> {
        match self.title_bar {
            Some(t) => Some(
                TitleBar {
                    inner_rect: TitleBar::refined_rect(
                        t.window_frame,
                        self.spec_outer_rect(realized),
                        self.metrics.height_with_margin,
                    ),
                    phase: TitleBarPhase::Final,
                    ..t
                },
            ),
            None => None,
        }
    }

    /// The layout of the title bar and what the pointer did to it, before
    /// any fading.
    pub open spec fn spec_title_layout(self, input: FrameInput, realized: Vec2) -> Option<
        TitleBarLayout,
    > {
        match self.spec_refined_title_bar(realized) {
            Some(t) => Some(
                t.spec_layout(
                    input.style,
                    !self.is_collapsed,
                    self.open.is_some(),
                    self.collapsible,
                    input.spec_clicks(),
                ),
            ),
            None => None,
        }
    }

    /// Whether the pointer closed the window in this frame.
    pub open spec fn spec_close_clicked(self, input: FrameInput, realized: Vec2) -> bool {
        match self.spec_title_layout(input, realized) {
            Some(l) => l.close_clicked,
            None => false,
        }
    }

    /// Whether the pointer collapsed or expanded the window in this frame.
    pub open spec fn spec_toggled(self, input: FrameInput, realized: Vec2) -> bool {
        match self.spec_title_layout(input, realized) {
            Some(l) => l.toggled,
            None => false,
        }
    }

    /// The state that the frame leaves behind.
    pub open spec fn spec_end_state(self, state: WindowState, input: FrameInput, realized: Vec2) -> WindowState {
        WindowState {
            outer_rect: self.spec_outer_rect(realized),
            content_size: if self.is_collapsed {
                state.content_size
            } else {
                self.spec_settled_content(realized)
            },
            collapse: CollapseState {
                open: if self.spec_toggled(input, realized) {
                    !state.collapse.open
                } else {
                    state.collapse.open
                },
            },
            ..state
        }
    }

    /// Whether `r` is what the second step of the frame hands back for
    /// content that came to `realized`.
    pub open spec fn spec_ends_in(self, input: FrameInput, realized: Vec2, r: WindowResponse) -> bool {
        let outer = self.spec_outer_rect(realized);
        &&& r.outer_rect == outer
        &&& r.content_rect == self.spec_content_rect(realized)
        &&& r.opacity == self.opacity
        &&& r.cursor == self.cursor
        &&& r.to_front == self.to_front
        &&& r.title_bar == match self.spec_title_layout(input, realized) {
            Some(l) => Some(l.spec_faded(self.opacity)),
            None => None,
        }
        &&& r.title_background == match self.spec_refined_title_bar(realized) {
            Some(t) => match spec_paint_title_bar_background(
                input.style,
                t.inner_rect,
                self.window_frame,
                self.header_color,
                self.is_collapsed,
                input.on_top,
            ) {
                Some(shape) => Some(shape.spec_faded(self.opacity)),
                None => None,
            },
            None => None,
        }
        &&& r.resize_corner == match spec_paint_resize_corner(
            input.style,
            self.possible,
            outer,
            self.window_frame,
            self.interaction,
        ) {
            Some(c) => Some(c.spec_faded(self.opacity)),
            None => None,
        }
        &&& r.frame_highlight.is_some() == highlight_stroke(input.style, self.interaction).is_some()
        &&& r.frame_highlight.is_some() ==> {
            &&& r.frame_highlight.unwrap().stroke == highlight_stroke(
                input.style,
                self.interaction,
            ).unwrap().spec_faded(self.opacity)
            &&& r.frame_highlight.unwrap().path@ == highlight_path(
                input.style,
                outer,
                self.interaction,
            )
        }
        &&& r.should_close == self.spec_close_clicked(input, realized)
        &&& r.open == if self.spec_close_clicked(input, realized) {
            Some(false)
        } else {
            self.open
        }
    }

    /// The second step of a frame: everything after the content.
    ///
    /// `realized` is the size that the content came to. It is held to the
    /// limits of the frame; a collapsed window takes the size of its title
    /// bar instead. A window that is pinned or anchored is put where a
    /// window of that size belongs. The outer rectangle is brought into the
    /// bounds, where the window is constrained, and stored for the next
    /// frame. The title bar is refined across the rectangle and takes
    /// clicks and double clicks. All chrome is faded with the window.
    pub fn end(self, state: &mut WindowState, input: &FrameInput, realized: Vec2) -> (r:
        WindowResponse)
        ensures
            self.spec_ends_in(*input, realized, r),
            *final(state) == self.spec_end_state(*old(state), *input, realized),
            self.bounds.is_some() && self.bounds.unwrap().spec_is_ordered()
                ==> r.outer_rect.spec_is_within(self.bounds.unwrap()),
    {
        let style = input.style;
        let content = realized.at_least(self.limits.min_size).at_most(self.limits.max_size);
        let outer_size = if self.is_collapsed {
            self.title_size.plus(self.window_frame.total_margin().sum())
        } else {
            content.plus(self.margins)
        };
        let mut outer_rect = self.area.place(
            Rect::from_min_size(self.position, outer_size),
            self.screen_rect,
        );
        match self.bounds {
            Some(b) => {
                outer_rect = constrain_window_rect_to_area(outer_rect, b);
            },
            None => {},
        }
        let content_rect = if self.is_collapsed {
            None
        } else {
            state.content_size = content;
            Some(Rect::from_min_size(outer_rect.min.offset(self.content_offset), content))
        };

        let resize_corner = match paint_resize_corner(
            style,
            self.possible,
            outer_rect,
            self.window_frame,
            self.interaction,
        ) {
            Some(c) => Some(c.faded(self.opacity)),
            None => None,
        };

        let mut open = self.open;
        let mut title_background: Option<RectShape> = None;
        let mut title_layout: Option<TitleBarLayout> = None;
        let mut should_close = false;
        match self.title_bar {
            Some(estimated) => {
                let mut bar = estimated;
                bar.set_outer_rect(outer_rect, self.metrics.height_with_margin);
                title_background = match paint_title_bar_background(
                    style,
                    bar.inner_rect(),
                    self.window_frame,
                    self.header_color,
                    self.is_collapsed,
                    input.on_top,
                ) {
                    Some(shape) => Some(shape.faded(self.opacity)),
                    None => None,
                };
                let mut collapse = state.collapse;
                let layout = bar.ui(
                    style,
                    !self.is_collapsed,
                    &mut open,
                    &mut collapse,
                    self.collapsible,
                    input.clicks(),
                );
                state.collapse = collapse;
                should_close = layout.close_clicked;
                title_layout = Some(layout.faded(self.opacity));
            },
            None => {},
        }

        let frame_highlight = match paint_frame_interaction(style, outer_rect, self.interaction) {
            Some(h) => Some(FrameHighlight { stroke: h.stroke.faded(self.opacity), path: h.path }),
            None => None,
        };

        state.outer_rect = outer_rect;
        WindowResponse {
            outer_rect,
            content_rect,
            opacity: self.opacity,
            cursor: self.cursor,
            to_front: self.to_front,
            title_bar: title_layout,
            title_background,
            resize_corner,
            frame_highlight,
            open,
            should_close,
        }
    }
}

impl Window {
    /// The state of a window that was never shown.
    ///
    /// It stands at its default position, or in the upper left corner of
    /// the screen where it has none, with its default content size held to
    /// its limits, expanded or collapsed as configured.
    pub open spec fn spec_initial_state(&self, screen_rect: Rect) -> WindowState {
        let size = self.resize.default_size.spec_at_least(self.resize.min_size).spec_at_most(
            self.resize.max_size,
        );
        let pos = match self.area.default_pos {
            Some(p) => p,
            None => screen_rect.min,
        };
        WindowState::spec_new(self.area.pivot.spec_anchor_size(pos, size), size, self.default_open)
    }

    pub fn initial_state(&self, screen_rect: Rect) -> (s: WindowState)
        ensures
            s == self.spec_initial_state(screen_rect),
    {
        let size = self.resize.default_size.at_least(self.resize.min_size).at_most(
            self.resize.max_size,
        );
        let pos = match self.area.default_pos {
            Some(p) => p,
            None => screen_rect.min,
        };
        WindowState::new(self.area.pivot.anchor_size(pos, size), size, self.default_open)
    }

    /// Shows the window for one frame, with content that fills the room it
    /// is offered.
    ///
    /// The result is `None` where the window is not shown: its flag says
    /// that it is closed, and it has faded out. Else it is what the two
    /// steps of the frame make of the window, and what `add_contents` made
    /// of the rectangle of the content. While the window is collapsed there
    /// is no such rectangle: `add_contents` is not called, and the result
    /// holds nothing from it.
    pub fn show<R, F: FnOnce(Rect) -> R>(
        self,
        state: &mut WindowState,
        input: &FrameInput,
        add_contents: F,
    ) -> (r: Option<InnerResponse<R>>)
        requires
            forall|rect: Rect| add_contents.requires((rect,)),
        ensures
            r.is_some() == (self.spec_opacity(*old(state), *input) != 0),
            r.is_none() ==> *final(state) == (WindowState {
                fade: old(state).fade.spec_step(
                    self.spec_is_open(*input),
                    input.dt,
                    input.style.fade_duration,
                ),
                ..*old(state)
            }),
            r.is_some() ==> {
                let begun = self.spec_begin(*old(state), *input);
                let shown = r.unwrap();
                &&& begun.0.spec_ends_in(*input, begun.0.content_size, shown.response)
                &&& *final(state) == begun.0.spec_end_state(begun.1, *input, begun.0.content_size)
                &&& begun.0.bounds.is_some() && begun.0.bounds.unwrap().spec_is_ordered()
                    ==> shown.response.outer_rect.spec_is_within(begun.0.bounds.unwrap())
                &&& shown.inner.is_some() == shown.response.content_rect.is_some()
                &&& shown.inner.is_some() ==> add_contents.ensures(
                    (shown.response.content_rect.unwrap(),),
                    shown.inner.unwrap(),
                )
            },
    {
        match self.begin(state, input) {
            Some(prepared) => {
                let response = prepared.end(state, input, prepared.content_size);
                let inner = match response.content_rect {
                    Some(rect) => Some(add_contents(rect)),
                    None => None,
                };
                Some(InnerResponse { inner, response })
            },
            None => None,
        }
    }
}

} // verus!
