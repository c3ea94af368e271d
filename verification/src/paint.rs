//! What to paint for the resize handle and for the border that answers a
//! hover or a drag. Nothing here draws: each function describes a shape.

use vstd::prelude::*;
use crate::align::Align2;
use crate::geometry::{clamp_coord, saturate, Pos2, Rect, Vec2};
use crate::interaction::{PossibleInteractions, ResizeInteraction, SideResponse};
use crate::style::{CornerRadius, Frame, Stroke, Style};

verus! {

/// The least distance of the resize handle from the corner it sits in.
pub const MIN_CORNER_INSET: i32 = 2;

/// The resize handle of a window.
#[derive(Clone, Copy, Debug, PartialEq, Eq, Structural)]
pub struct ResizeCorner {
    /// The corner of the window that the handle sits in.
    pub corner: Align2,
    /// The square to paint the handle in.
    pub rect: Rect,
    pub stroke: Stroke,
}

impl ResizeCorner {
    /// This handle with its stroke faded by `opacity / 255`.
    pub open spec fn spec_faded(self, opacity: u8) -> ResizeCorner {
        ResizeCorner { stroke: self.stroke.spec_faded(opacity), ..self }
    }

    #[verifier::when_used_as_spec(spec_faded)]
    pub fn faded(self, opacity: u8) -> (r: ResizeCorner)
        ensures
            r == self.spec_faded(opacity),
    {
        ResizeCorner { stroke: self.stroke.faded(opacity), ..self }
    }
}

/// The corner that shows the resize handle, with the response that colours
/// it, if any edge can be dragged.
///
/// A corner of which both edges can be dragged comes first: the lower right
/// one, then the lower left, the upper left, the upper right. A window with
/// no such corner still shows a handle, to tell the user that it resizes:
/// in the lower right corner if its right or its lower edge can be dragged,
/// else in the lower left for the left edge, else in the upper left.
pub open spec fn handle_corner(possible: PossibleInteractions) -> Option<Align2> {
    if possible.resize_right && possible.resize_bottom {
        Some(Align2::spec_right_bottom())
    } else if possible.resize_left && possible.resize_bottom {
        Some(Align2::spec_left_bottom())
    } else if possible.resize_left && possible.resize_top {
        Some(Align2::spec_left_top())
    } else if possible.resize_right && possible.resize_top {
        Some(Align2::spec_right_top())
    } else if possible.resize_right || possible.resize_bottom {
        Some(Align2::spec_right_bottom())
    } else if possible.resize_left {
        Some(Align2::spec_left_bottom())
    } else if possible.resize_top {
        Some(Align2::spec_left_top())
    } else {
        None
    }
}

/// The rounding of the frame at `corner`.
pub open spec fn radius_at(radii: CornerRadius, corner: Align2) -> u8 {
    if corner == Align2::spec_right_bottom() {
        radii.se
    } else if corner == Align2::spec_left_bottom() {
        radii.sw
    } else if corner == Align2::spec_left_top() {
        radii.nw
    } else {
        radii.ne
    }
}

/// What holds of both edges that meet in `corner`.
pub open spec fn response_at(i: ResizeInteraction, corner: Align2) -> SideResponse {
    if corner == Align2::spec_right_bottom() {
        i.right.spec_both(i.bottom)
    } else if corner == Align2::spec_left_bottom() {
        i.left.spec_both(i.bottom)
    } else if corner == Align2::spec_left_top() {
        i.left.spec_both(i.top)
    } else {
        i.right.spec_both(i.top)
    }
}

/// How far the handle stands off its corner so that it clears a rounding of
/// `radius`: one unit and 75/256 of the radius, but not less than two.
pub open spec fn spec_corner_inset(radius: u8) -> i32 {
    let inset = 1 + (radius as int * 75) / 256;
    if inset < MIN_CORNER_INSET {
        MIN_CORNER_INSET
    } else {
        inset as i32
    }
}

#[verifier::when_used_as_spec(spec_corner_inset)]
pub fn corner_inset(radius: u8) -> (o: i32)
    ensures
        o == spec_corner_inset(radius),
        2 <= o <= 75,
{
    let inset: i32 = 1 + (radius as i32 * 75) / 256;
    if inset < MIN_CORNER_INSET {
        MIN_CORNER_INSET
    } else {
        inset
    }
}

/// The stroke of the handle: that of an active widget while both edges of
/// its corner are dragged, that of a hovered one while both are hovered,
/// else that of the frame.
pub open spec fn handle_stroke(style: Style, frame: Frame, response: SideResponse) -> Stroke {
    if response.drag {
        style.active.fg_stroke
    } else if response.hover {
        style.hovered.fg_stroke
    } else {
        frame.stroke
    }
}

pub open spec fn spec_paint_resize_corner(
    style: Style,
    possible: PossibleInteractions,
    outer_rect: Rect,
    frame: Frame,
    i: ResizeInteraction,
) -> Option<ResizeCorner> {
    match handle_corner(possible) {
        None => None,
        Some(corner) => {
            let inset = spec_corner_inset(radius_at(frame.corner_radius, corner));
            let sign = corner.spec_to_sign();
            let fill_rect = outer_rect.spec_shrink(frame.stroke.width as i32);
            let size = Vec2 { x: style.resize_corner_size, y: style.resize_corner_size };
            Some(
                ResizeCorner {
                    corner,
                    rect: corner.spec_align_size_within_rect(size, fill_rect).spec_translate(
                        Vec2 { x: (-inset * sign.x) as i32, y: (-inset * sign.y) as i32 },
                    ),
                    stroke: handle_stroke(style, frame, response_at(i, corner)),
                },
            )
        },
    }
}

/// The resize handle of a window, if any of its edges can be dragged.
///
/// The handle is a square of the style's size in one corner of the window,
/// inside the border and moved towards the middle far enough to clear the
/// rounding of that corner.
#[verifier::when_used_as_spec(spec_paint_resize_corner)]
pub fn paint_resize_corner(
    style: Style,
    possible: PossibleInteractions,
    outer_rect: Rect,
    window_frame: Frame,
    i: ResizeInteraction,
) -> (handle: Option<ResizeCorner>)
    ensures
        handle == spec_paint_resize_corner(style, possible, outer_rect, window_frame, i),
{
    let cr = window_frame.corner_radius;
    let (corner, radius, corner_response) = if possible.resize_right && possible.resize_bottom {
        (Align2::right_bottom(), cr.se, i.right.both(i.bottom))
    } else if possible.resize_left && possible.resize_bottom {
        (Align2::left_bottom(), cr.sw, i.left.both(i.bottom))
    } else if possible.resize_left && possible.resize_top {
        (Align2::left_top(), cr.nw, i.left.both(i.top))
    } else if possible.resize_right && possible.resize_top {
        (Align2::right_top(), cr.ne, i.right.both(i.top))
    } else {
        // No two edges meet, but a handle in the usual place still tells
        // the user that the window resizes.
        if possible.resize_right || possible.resize_bottom {
            (Align2::right_bottom(), cr.se, i.right.both(i.bottom))
        } else if possible.resize_left || possible.resize_bottom {
            (Align2::left_bottom(), cr.sw, i.left.both(i.bottom))
        } else if possible.resize_left || possible.resize_top {
            (Align2::left_top(), cr.nw, i.left.both(i.top))
        } else if possible.resize_right || possible.resize_top {
            (Align2::right_top(), cr.ne, i.right.both(i.top))
        } else {
            return None;
        }
    };

    let inset: i32 = corner_inset(radius);
    let stroke = if corner_response.drag {
        style.active.fg_stroke
    } else if corner_response.hover {
        style.hovered.fg_stroke
    } else {
        window_frame.stroke
    };
    let fill_rect = outer_rect.shrink(window_frame.stroke.width as i32);
    let corner_size = Vec2::splat(style.resize_corner_size);
    let sign = corner.to_sign();
    let corner_rect = corner.align_size_within_rect(corner_size, fill_rect).translate(
        Vec2 { x: -inset * sign.x, y: -inset * sign.y },
    );
    Some(ResizeCorner { corner, rect: corner_rect, stroke })
}

/// One step of an outline.
#[derive(Clone, Copy, Debug, PartialEq, Eq, Structural)]
pub enum PathStep {
    /// A straight line to this point.
    Point(Pos2),
    /// A quarter of a circle. Quarter 0 is the lower right one, 1 the lower
    /// left, 2 the upper left, 3 the upper right.
    Quadrant { center: Pos2, radius: u8, quadrant: u8 },
}

/// The part of a window's border that answers a hover or a drag.
#[derive(Debug)]
pub struct FrameHighlight {
    pub stroke: Stroke,
    /// The outline, step by step.
    pub path: Vec<PathStep>,
}

/// The point `(x, y)`, each coordinate saturated.
pub open spec fn spec_point(x: int, y: int) -> PathStep {
    PathStep::Point(Pos2 { x: clamp_coord(x) as i32, y: clamp_coord(y) as i32 })
}

/// The quarter circle of `radius` around `(x, y)`.
pub open spec fn spec_quadrant(x: int, y: int, radius: u8, quadrant: u8) -> PathStep {
    PathStep::Quadrant {
        center: Pos2 { x: clamp_coord(x) as i32, y: clamp_coord(y) as i32 },
        radius,
        quadrant,
    }
}

fn point(x: i64, y: i64) -> (s: PathStep)
    ensures
        s == spec_point(x as int, y as int),
{
    PathStep::Point(Pos2 { x: saturate(x), y: saturate(y) })
}

fn quadrant(x: i64, y: i64, radius: u8, quarter: u8) -> (s: PathStep)
    ensures
        s == spec_quadrant(x as int, y as int, radius, quarter),
{
    PathStep::Quadrant { center: Pos2 { x: saturate(x), y: saturate(y) }, radius, quadrant: quarter }
}

/// The right edge, from the end of the upper rounding to the start of the
/// lower one.
pub open spec fn right_edge(r: Rect, cr: CornerRadius) -> Seq<PathStep> {
    seq![spec_point(r.max.x as int, r.min.y + cr.ne), spec_point(r.max.x as int, r.max.y - cr.se)]
}

/// The outline along the highlighted edges of `r`, clockwise on the screen
/// from the right edge: right, lower right corner, bottom, lower left
/// corner, left, upper left corner, top, upper right corner. A corner is
/// rounded where both of its edges are highlighted.
pub open spec fn frame_path(
    r: Rect,
    cr: CornerRadius,
    left: bool,
    right: bool,
    top: bool,
    bottom: bool,
) -> Seq<PathStep> {
    let p1 = if right && !bottom && !top {
        right_edge(r, cr)
    } else {
        Seq::empty()
    };
    let p2 = if right && bottom {
        right_edge(r, cr).push(spec_quadrant(r.max.x - cr.se, r.max.y - cr.se, cr.se, 0))
    } else {
        Seq::empty()
    };
    let p3 = if bottom {
        seq![spec_point(r.max.x - cr.se, r.max.y as int), spec_point(r.min.x + cr.sw, r.max.y as int)]
    } else {
        Seq::empty()
    };
    let p4 = if left && bottom {
        seq![spec_quadrant(r.min.x + cr.sw, r.max.y - cr.sw, cr.sw, 1)]
    } else {
        Seq::empty()
    };
    let p5 = if left {
        seq![spec_point(r.min.x as int, r.max.y - cr.sw), spec_point(r.min.x as int, r.min.y + cr.nw)]
    } else {
        Seq::empty()
    };
    let p6 = if left && top {
        seq![spec_quadrant(r.min.x + cr.nw, r.min.y + cr.nw, cr.nw, 2)]
    } else {
        Seq::empty()
    };
    let p7 = if top {
        seq![spec_point(r.min.x + cr.nw, r.min.y as int), spec_point(r.max.x - cr.ne, r.min.y as int)]
    } else {
        Seq::empty()
    };
    let p8 = if right && top {
        seq![spec_quadrant(r.max.x - cr.ne, r.min.y + cr.ne, cr.ne, 3)] + right_edge(r, cr)
    } else {
        Seq::empty()
    };
    p1 + p2 + p3 + p4 + p5 + p6 + p7 + p8
}

/// The stroke of the feedback border: that of an active widget while an
/// edge is dragged, that of a hovered one while one is hovered.
pub open spec fn highlight_stroke(style: Style, i: ResizeInteraction) -> Option<Stroke> {
    if i.spec_any_dragged() {
        Some(style.active.bg_stroke)
    } else if i.spec_any_hovered() {
        Some(style.hovered.bg_stroke)
    } else {
        None
    }
}

/// The outline of the feedback border of a window whose outer rectangle is
/// `rect`: along the dragged edges while any is dragged, else along the
/// hovered ones, in the middle of the window's border stroke.
pub open spec fn highlight_path(style: Style, rect: Rect, i: ResizeInteraction) -> Seq<PathStep> {
    let r = rect.spec_shrink(i.window_frame.stroke.spec_half_width());
    if i.spec_any_dragged() {
        frame_path(r, style.window_corner_radius, i.left.drag, i.right.drag, i.top.drag, i.bottom.drag)
    } else {
        frame_path(
            r,
            style.window_corner_radius,
            i.left.hover,
            i.right.hover,
            i.top.hover,
            i.bottom.hover,
        )
    }
}

/// The border that answers the pointer, if any edge is hovered or dragged.
pub fn paint_frame_interaction(style: Style, rect: Rect, interaction: ResizeInteraction) -> (h:
    Option<FrameHighlight>)
    ensures
        h.is_some() == highlight_stroke(style, interaction).is_some(),
        h.is_some() ==> h.unwrap().stroke == highlight_stroke(style, interaction).unwrap()
            && h.unwrap().path@ == highlight_path(style, rect, interaction),
{
    let stroke = if interaction.any_dragged() {
        style.active.bg_stroke
    } else if interaction.any_hovered() {
        style.hovered.bg_stroke
    } else {
        return None;
    };
    let (left, right, top, bottom) = if interaction.any_dragged() {
        (
            interaction.left.drag,
            interaction.right.drag,
            interaction.top.drag,
            interaction.bottom.drag,
        )
    } else {
        (
            interaction.left.hover,
            interaction.right.hover,
            interaction.top.hover,
            interaction.bottom.hover,
        )
    };
    let cr = style.window_corner_radius;

    // The highlight follows the middle of the window's border stroke.
    let r = rect.shrink(interaction.window_frame.stroke.half_width());
    let min_x: i64 = r.min.x as i64;
    let min_y: i64 = r.min.y as i64;
    let max_x: i64 = r.max.x as i64;
    let max_y: i64 = r.max.y as i64;
    let nw: i64 = cr.nw as i64;
    let ne: i64 = cr.ne as i64;
    let sw: i64 = cr.sw as i64;
    let se: i64 = cr.se as i64;

    let mut points: Vec<PathStep> = Vec::new();
    let ghost mut so_far: Seq<PathStep> = Seq::empty();
    assert(points@ =~= so_far);

    if right && !bottom && !top {
        points.push(point(max_x, min_y + ne));
        points.push(point(max_x, max_y - se));
        proof {
            so_far = so_far + right_edge(r, cr);
        }
    }
    assert(points@ =~= so_far);
    if right && bottom {
        points.push(point(max_x, min_y + ne));
        points.push(point(max_x, max_y - se));
        points.push(quadrant(max_x - se, max_y - se, cr.se, 0));
        proof {
            so_far = so_far + right_edge(r, cr).push(
                spec_quadrant(r.max.x - cr.se, r.max.y - cr.se, cr.se, 0),
            );
        }
    }
    assert(points@ =~= so_far);
    if bottom {
        points.push(point(max_x - se, max_y));
        points.push(point(min_x + sw, max_y));
        proof {
            so_far = so_far + seq![
                spec_point(r.max.x - cr.se, r.max.y as int),
                spec_point(r.min.x + cr.sw, r.max.y as int),
            ];
        }
    }
    assert(points@ =~= so_far);
    if left && bottom {
        points.push(quadrant(min_x + sw, max_y - sw, cr.sw, 1));
        proof {
            so_far = so_far + seq![spec_quadrant(r.min.x + cr.sw, r.max.y - cr.sw, cr.sw, 1)];
        }
    }
    assert(points@ =~= so_far);
    if left {
        points.push(point(min_x, max_y - sw));
        points.push(point(min_x, min_y + nw));
        proof {
            so_far = so_far + seq![
                spec_point(r.min.x as int, r.max.y - cr.sw),
                spec_point(r.min.x as int, r.min.y + cr.nw),
            ];
        }
    }
    assert(points@ =~= so_far);
    if left && top {
        points.push(quadrant(min_x + nw, min_y + nw, cr.nw, 2));
        proof {
            so_far = so_far + seq![spec_quadrant(r.min.x + cr.nw, r.min.y + cr.nw, cr.nw, 2)];
        }
    }
    assert(points@ =~= so_far);
    if top {
        points.push(point(min_x + nw, min_y));
        points.push(point(max_x - ne, min_y));
        proof {
            so_far = so_far + seq![
                spec_point(r.min.x + cr.nw, r.min.y as int),
                spec_point(r.max.x - cr.ne, r.min.y as int),
            ];
        }
    }
    assert(points@ =~= so_far);
    if right && top {
        points.push(quadrant(max_x - ne, min_y + ne, cr.ne, 3));
        points.push(point(max_x, min_y + ne));
        points.push(point(max_x, max_y - se));
        proof {
            so_far = so_far + (seq![spec_quadrant(r.max.x - cr.ne, r.min.y + cr.ne, cr.ne, 3)]
                + right_edge(r, cr));
        }
    }
    assert(points@ =~= so_far);
    assert(so_far =~= frame_path(r, cr, left, right, top, bottom));
    Some(FrameHighlight { stroke, path: points })
}

} // verus!
