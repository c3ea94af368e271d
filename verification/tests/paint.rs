use floating_window::align::Align2;
use floating_window::geometry::{Pos2, Rect};
use floating_window::interaction::{PossibleInteractions, ResizeInteraction, SideResponse};
use floating_window::paint::{
    corner_inset, paint_frame_interaction, paint_resize_corner, PathStep, ResizeCorner,
};
use floating_window::style::{Color, CornerRadius, Frame, Stroke, Style};

fn rect(x0: i32, y0: i32, x1: i32, y1: i32) -> Rect {
    Rect { min: Pos2 { x: x0, y: y0 }, max: Pos2 { x: x1, y: y1 } }
}

fn style() -> Style {
    Style::standard()
}

fn frame() -> Frame {
    style().window_frame
}

fn outer() -> Rect {
    rect(100, 100, 454, 567)
}

fn edges(left: bool, right: bool, top: bool, bottom: bool) -> PossibleInteractions {
    PossibleInteractions {
        resize_left: left,
        resize_right: right,
        resize_top: top,
        resize_bottom: bottom,
    }
}

const NONE: SideResponse = SideResponse { hover: false, drag: false };
const HOVER: SideResponse = SideResponse { hover: true, drag: false };
const DRAG: SideResponse = SideResponse { hover: true, drag: true };

fn interaction(left: SideResponse, right: SideResponse, top: SideResponse, bottom: SideResponse) -> ResizeInteraction {
    ResizeInteraction { outer_rect: outer(), window_frame: frame(), left, right, top, bottom }
}

fn idle() -> ResizeInteraction {
    interaction(NONE, NONE, NONE, NONE)
}

fn p(x: i32, y: i32) -> PathStep {
    PathStep::Point(Pos2::new(x, y))
}

fn q(x: i32, y: i32, radius: u8, quadrant: u8) -> PathStep {
    PathStep::Quadrant { center: Pos2::new(x, y), radius, quadrant }
}

#[test]
fn inset_clears_the_rounding() {
    assert_eq!(corner_inset(0), 2);
    assert_eq!(corner_inset(3), 2);
    assert_eq!(corner_inset(6), 2);
    assert_eq!(corner_inset(7), 3);
    assert_eq!(corner_inset(20), 6);
    assert_eq!(corner_inset(255), 75);
}

#[test]
fn handle_sits_in_the_lower_right_corner_of_a_free_window() {
    let handle = paint_resize_corner(style(), edges(true, true, true, true), outer(), frame(), idle());
    assert_eq!(
        handle,
        Some(ResizeCorner {
            corner: Align2::right_bottom(),
            rect: rect(439, 552, 451, 564),
            stroke: frame().stroke,
        })
    );
}

#[test]
fn handle_prefers_a_corner_with_two_draggable_edges() {
    let at = |possible: PossibleInteractions| {
        paint_resize_corner(style(), possible, outer(), frame(), idle()).unwrap().corner
    };
    assert_eq!(at(edges(true, false, false, true)), Align2::left_bottom());
    assert_eq!(at(edges(true, false, true, false)), Align2::left_top());
    assert_eq!(at(edges(false, true, true, false)), Align2::right_top());
    assert_eq!(at(edges(true, true, true, false)), Align2::left_top());
    assert_eq!(at(edges(true, false, true, true)), Align2::left_bottom());
}

#[test]
fn handle_of_a_window_that_resizes_by_one_edge() {
    let at = |possible: PossibleInteractions| {
        paint_resize_corner(style(), possible, outer(), frame(), idle()).unwrap()
    };
    assert_eq!(at(edges(false, true, false, false)).corner, Align2::right_bottom());
    assert_eq!(at(edges(false, false, false, true)).corner, Align2::right_bottom());
    assert_eq!(at(edges(true, true, false, false)).corner, Align2::right_bottom());
    assert_eq!(at(edges(false, false, true, true)).corner, Align2::right_bottom());
    let left = at(edges(true, false, false, false));
    assert_eq!(left.corner, Align2::left_bottom());
    assert_eq!(left.rect, rect(103, 552, 115, 564));
    let top = at(edges(false, false, true, false));
    assert_eq!(top.corner, Align2::left_top());
    assert_eq!(top.rect, rect(103, 103, 115, 115));
}

#[test]
fn window_that_cannot_be_resized_has_no_handle() {
    assert_eq!(
        paint_resize_corner(style(), edges(false, false, false, false), outer(), frame(), idle()),
        None
    );
}

#[test]
fn handle_moves_further_in_for_a_rounder_corner() {
    let mut round = frame();
    round.corner_radius = CornerRadius { nw: 0, ne: 0, sw: 0, se: 20 };
    let handle =
        paint_resize_corner(style(), edges(true, true, true, true), outer(), round, idle()).unwrap();
    assert_eq!(handle.rect, rect(435, 548, 447, 560));
}

#[test]
fn handle_answers_only_when_both_of_its_edges_do() {
    let all = edges(true, true, true, true);
    let stroke_of = |i: ResizeInteraction| {
        paint_resize_corner(style(), all, outer(), frame(), i).unwrap().stroke
    };
    assert_eq!(stroke_of(interaction(NONE, HOVER, NONE, NONE)), frame().stroke);
    assert_eq!(
        stroke_of(interaction(NONE, HOVER, NONE, HOVER)),
        Stroke { width: 2, color: Color::gray(240) }
    );
    assert_eq!(
        stroke_of(interaction(NONE, DRAG, NONE, DRAG)),
        Stroke { width: 2, color: Color::gray(255) }
    );
    assert_eq!(stroke_of(interaction(DRAG, NONE, DRAG, NONE)), frame().stroke);
    assert_eq!(
        paint_resize_corner(style(), all, outer(), frame(), interaction(NONE, HOVER, NONE, HOVER))
            .unwrap()
            .faded(128)
            .stroke,
        Stroke { width: 2, color: Color { r: 120, g: 120, b: 120, a: 128 } }
    );
}

#[test]
fn idle_border_is_not_highlighted() {
    assert!(paint_frame_interaction(style(), outer(), idle()).is_none());
}

#[test]
fn hovered_right_edge_is_a_straight_line() {
    let h = paint_frame_interaction(style(), outer(), interaction(NONE, HOVER, NONE, NONE)).unwrap();
    assert_eq!(h.stroke, Stroke { width: 1, color: Color::gray(150) });
    assert_eq!(h.path, vec![p(454, 106), p(454, 561)]);
}

#[test]
fn dragged_lower_right_corner_is_rounded() {
    let h = paint_frame_interaction(style(), outer(), interaction(NONE, DRAG, NONE, DRAG)).unwrap();
    assert_eq!(h.stroke, Stroke { width: 1, color: Color::gray(255) });
    assert_eq!(
        h.path,
        vec![p(454, 106), p(454, 561), q(448, 561, 6, 0), p(448, 567), p(106, 567)]
    );
}

#[test]
fn each_single_edge_has_its_line() {
    let path = |i: ResizeInteraction| paint_frame_interaction(style(), outer(), i).unwrap().path;
    assert_eq!(path(interaction(NONE, NONE, NONE, HOVER)), vec![p(448, 567), p(106, 567)]);
    assert_eq!(path(interaction(HOVER, NONE, NONE, NONE)), vec![p(100, 561), p(100, 106)]);
    assert_eq!(path(interaction(NONE, NONE, HOVER, NONE)), vec![p(106, 100), p(448, 100)]);
}

#[test]
fn each_corner_has_its_quadrant() {
    let path = |i: ResizeInteraction| paint_frame_interaction(style(), outer(), i).unwrap().path;
    assert_eq!(
        path(interaction(HOVER, NONE, NONE, HOVER)),
        vec![p(448, 567), p(106, 567), q(106, 561, 6, 1), p(100, 561), p(100, 106)]
    );
    assert_eq!(
        path(interaction(HOVER, NONE, HOVER, NONE)),
        vec![p(100, 561), p(100, 106), q(106, 106, 6, 2), p(106, 100), p(448, 100)]
    );
    assert_eq!(
        path(interaction(NONE, HOVER, HOVER, NONE)),
        vec![p(106, 100), p(448, 100), q(448, 106, 6, 3), p(454, 106), p(454, 561)]
    );
}

#[test]
fn dragged_edges_hide_hovered_ones() {
    let h = paint_frame_interaction(style(), outer(), interaction(HOVER, NONE, DRAG, NONE)).unwrap();
    assert_eq!(h.stroke, Stroke { width: 1, color: Color::gray(255) });
    assert_eq!(h.path, vec![p(106, 100), p(448, 100)]);
}

#[test]
fn highlight_follows_the_middle_of_a_wide_border() {
    let mut wide = interaction(NONE, HOVER, NONE, NONE);
    wide.window_frame.stroke.width = 4;
    let h = paint_frame_interaction(style(), outer(), wide).unwrap();
    assert_eq!(h.path, vec![p(452, 108), p(452, 559)]);
}

#[test]
fn highlight_uses_the_rounding_of_the_style() {
    let mut s = style();
    s.window_corner_radius = CornerRadius { nw: 1, ne: 2, sw: 3, se: 4 };
    let h = paint_frame_interaction(s, outer(), interaction(DRAG, DRAG, DRAG, DRAG)).unwrap();
    assert_eq!(
        h.path,
        vec![
            p(454, 102),
            p(454, 563),
            q(450, 563, 4, 0),
            p(450, 567),
            p(103, 567),
            q(103, 564, 3, 1),
            p(100, 564),
            p(100, 101),
            q(101, 101, 1, 2),
            p(101, 100),
            p(452, 100),
            q(452, 102, 2, 3),
            p(454, 102),
            p(454, 563),
        ]
    );
}
