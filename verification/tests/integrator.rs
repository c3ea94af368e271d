use floating_window::align::Vec2b;
use floating_window::config::Resize;
use floating_window::geometry::{Pos2, Rect, Vec2};
use floating_window::interaction::{
    constrain_window_rect_to_area, limit_size, move_and_resize_window, resize_response,
    ResizeInteraction, SideResponse,
};
use floating_window::state::WindowState;
use floating_window::style::{Frame, Style};

fn rect(x0: i32, y0: i32, x1: i32, y1: i32) -> Rect {
    Rect { min: Pos2 { x: x0, y: y0 }, max: Pos2 { x: x1, y: y1 } }
}

fn frame() -> Frame {
    Style::standard().window_frame
}

const NONE: SideResponse = SideResponse { hover: false, drag: false };
const DRAG: SideResponse = SideResponse { hover: true, drag: true };

fn dragging(outer: Rect, left: bool, right: bool, top: bool, bottom: bool) -> ResizeInteraction {
    let side = |on: bool| if on { DRAG } else { NONE };
    ResizeInteraction {
        outer_rect: outer,
        window_frame: frame(),
        left: side(left),
        right: side(right),
        top: side(top),
        bottom: side(bottom),
    }
}

fn limits(min: Vec2, max: Vec2) -> Resize {
    Resize {
        resizable: Vec2b::splat(true),
        min_size: min,
        max_size: max,
        default_size: min,
        with_stroke: false,
    }
}

#[test]
fn no_drag_drops_the_anchor() {
    let outer = rect(100, 100, 454, 567);
    let mut anchor = Some(rect(1, 2, 3, 4));
    let moved = move_and_resize_window(
        &mut anchor,
        &dragging(outer, false, false, false, false),
        Some(Vec2::new(50, 50)),
    );
    assert_eq!(moved, None);
    assert_eq!(anchor, None);
}

#[test]
fn drag_without_a_distance_changes_nothing() {
    let outer = rect(100, 100, 454, 567);
    let mut anchor = Some(rect(1, 2, 3, 4));
    let moved = move_and_resize_window(&mut anchor, &dragging(outer, false, true, false, false), None);
    assert_eq!(moved, None);
    assert_eq!(anchor, Some(rect(1, 2, 3, 4)));
}

#[test]
fn first_frame_of_a_drag_takes_the_anchor() {
    let outer = rect(100, 100, 454, 567);
    let mut anchor = None;
    let moved = move_and_resize_window(
        &mut anchor,
        &dragging(outer, false, true, false, false),
        Some(Vec2::new(20, 9)),
    );
    assert_eq!(anchor, Some(outer));
    assert_eq!(moved, Some(rect(100, 100, 474, 567)));
}

#[test]
fn right_edge_drag_moves_the_right_edge_only() {
    let outer = rect(100, 100, 454, 567);
    let mut anchor = None;
    let moved = move_and_resize_window(
        &mut anchor,
        &dragging(outer, false, true, false, false),
        Some(Vec2::new(50, 1234)),
    );
    assert_eq!(moved, Some(rect(100, 100, 504, 567)));
}

#[test]
fn drag_over_three_frames_does_not_drift() {
    let start = rect(100, 100, 454, 567);
    let mut anchor = None;
    let mut stored = start;
    let mut total = Vec2::new(0, 0);
    for step in [20, 15, 15] {
        total = Vec2::new(total.x + step, 0);
        let i = dragging(stored, false, true, false, false);
        stored = move_and_resize_window(&mut anchor, &i, Some(total)).unwrap();
    }
    assert_eq!(stored, rect(100, 100, 504, 567));
    assert_eq!(anchor, Some(start));
}

#[test]
fn result_does_not_depend_on_how_many_frames_the_drag_spans() {
    let start = rect(-40, 10, 300, 200);
    let once = {
        let mut anchor = None;
        move_and_resize_window(
            &mut anchor,
            &dragging(start, true, false, false, true),
            Some(Vec2::new(-77, 33)),
        )
        .unwrap()
    };
    let mut anchor = None;
    let mut stored = start;
    for total in [(-1, 1), (-500, 400), (3, -3), (-76, 32), (-77, 33)] {
        let i = dragging(stored, true, false, false, true);
        stored = move_and_resize_window(&mut anchor, &i, Some(Vec2::new(total.0, total.1))).unwrap();
    }
    assert_eq!(stored, once);
    assert_eq!(once, rect(-117, 10, 300, 233));
}

#[test]
fn corner_drag_moves_both_edges() {
    let outer = rect(100, 100, 454, 567);
    let mut anchor = None;
    let moved = move_and_resize_window(
        &mut anchor,
        &dragging(outer, true, false, true, false),
        Some(Vec2::new(-10, -20)),
    );
    assert_eq!(moved, Some(rect(90, 80, 454, 567)));
}

#[test]
fn near_edge_goes_first_where_both_edges_of_an_axis_are_dragged() {
    let outer = rect(100, 100, 454, 567);
    let mut anchor = None;
    let moved = move_and_resize_window(
        &mut anchor,
        &dragging(outer, true, true, true, true),
        Some(Vec2::new(5, 6)),
    );
    assert_eq!(moved, Some(rect(105, 106, 454, 567)));
}

#[test]
fn drag_saturates_at_the_end_of_the_coordinate_range() {
    let outer = rect(0, 0, i32::MAX - 10, 50);
    let mut anchor = None;
    let moved = move_and_resize_window(
        &mut anchor,
        &dragging(outer, false, true, false, false),
        Some(Vec2::new(100, 0)),
    );
    assert_eq!(moved, Some(rect(0, 0, i32::MAX, 50)));
}

#[test]
fn constrain_moves_a_window_that_fits() {
    let area = rect(0, 0, 200, 100);
    assert_eq!(constrain_window_rect_to_area(rect(-20, 10, 80, 60), area), rect(0, 10, 100, 60));
    assert_eq!(constrain_window_rect_to_area(rect(150, 10, 250, 60), area), rect(100, 10, 200, 60));
    assert_eq!(constrain_window_rect_to_area(rect(50, 80, 60, 130), area), rect(50, 50, 60, 100));
    assert_eq!(constrain_window_rect_to_area(rect(50, -80, 60, -30), area), rect(50, 0, 60, 50));
}

#[test]
fn constrain_leaves_a_window_inside_alone() {
    let area = rect(0, 0, 200, 100);
    assert_eq!(constrain_window_rect_to_area(rect(10, 10, 80, 60), area), rect(10, 10, 80, 60));
    assert_eq!(constrain_window_rect_to_area(area, area), area);
}

#[test]
fn constrain_cuts_a_window_that_is_too_large() {
    let area = rect(0, 0, 200, 100);
    assert_eq!(constrain_window_rect_to_area(rect(-50, -50, 500, 500), area), area);
    assert_eq!(constrain_window_rect_to_area(rect(10, 20, 300, 60), area), rect(0, 20, 200, 60));
}

#[test]
fn constrained_rect_lies_within_the_area() {
    let area = rect(-30, 40, 170, 260);
    for x in [-1000, -31, -30, 0, 169, 170, 171, 5000] {
        for w in [0, 1, 199, 200, 201, 4000] {
            for y in [-7, 40, 259, 1000] {
                for h in [0, 50, 220, 221] {
                    let r = constrain_window_rect_to_area(rect(x, y, x + w, y + h), area);
                    assert!(r.is_within(area));
                    assert!(r.is_ordered());
                }
            }
        }
    }
}

#[test]
fn left_drag_past_the_minimum_keeps_the_right_edge() {
    let dragged = rect(1100, 100, 440, 520);
    let i = dragging(rect(100, 100, 440, 520), true, false, false, false);
    let r = limit_size(dragged, i, Vec2::new(0, 0), Vec2::new(96, 32), Vec2::new(i32::MAX, i32::MAX));
    assert_eq!(r, rect(344, 100, 440, 520));
    assert_eq!(r.width(), 96);
}

#[test]
fn right_drag_past_the_maximum_keeps_the_left_edge() {
    let dragged = rect(100, 100, 5000, 520);
    let i = dragging(rect(100, 100, 440, 520), false, true, false, false);
    let r = limit_size(dragged, i, Vec2::new(14, 47), Vec2::new(96, 32), Vec2::new(600, 600));
    assert_eq!(r, rect(100, 100, 714, 520));
}

#[test]
fn limits_that_are_close_together_hold() {
    let min = Vec2::new(100, 100);
    let max = Vec2::new(101, 101);
    let margins = Vec2::new(14, 47);
    let i = dragging(rect(0, 0, 10, 10), false, true, false, true);
    assert_eq!(limit_size(rect(0, 0, 500, 500), i, margins, min, max), rect(0, 0, 115, 148));
    assert_eq!(limit_size(rect(0, 0, 10, 10), i, margins, min, max), rect(0, 0, 114, 147));
    assert_eq!(limit_size(rect(0, 0, 115, 147), i, margins, min, max), rect(0, 0, 115, 147));
    assert_eq!(limit_size(rect(0, 0, 115, 148), i, min, min, min), rect(0, 0, 200, 200));
}

#[test]
fn greatest_size_decides_where_it_lies_below_the_least() {
    let i = dragging(rect(0, 0, 10, 10), false, true, false, true);
    let r = limit_size(rect(0, 0, 70, 70), i, Vec2::new(0, 0), Vec2::new(100, 100), Vec2::new(50, 60));
    assert_eq!(r, rect(0, 0, 50, 60));
}

#[test]
fn axis_without_a_dragged_edge_is_left_alone() {
    let i = dragging(rect(0, 0, 10, 10), false, true, false, false);
    let r = limit_size(rect(0, 0, 5, 5), i, Vec2::new(0, 0), Vec2::new(100, 100), Vec2::new(200, 200));
    assert_eq!(r, rect(0, 0, 100, 5));
}

fn state_at(outer: Rect) -> WindowState {
    WindowState::new(outer, Vec2::new(340, 420), true)
}

#[test]
fn resize_response_stores_the_dragged_rect_at_once() {
    let outer = rect(100, 100, 454, 567);
    let mut state = state_at(outer);
    let to_front = resize_response(
        &dragging(outer, false, true, false, false),
        Some(Vec2::new(50, 0)),
        Vec2::new(14, 47),
        &limits(Vec2::new(96, 32), Vec2::new(2000, 1467)),
        Some(rect(0, 0, 2000, 1500)),
        &mut state,
    );
    assert!(to_front);
    assert_eq!(state.outer_rect, rect(100, 100, 504, 567));
    assert_eq!(state.drag_anchor, Some(outer));
    assert_eq!(state.requested_size, Some(Vec2::new(390, 420)));
    assert_eq!(state.content_size, Vec2::new(340, 420));
}

#[test]
fn resize_response_without_a_drag_only_drops_the_anchor() {
    let outer = rect(100, 100, 454, 567);
    let mut state = state_at(outer);
    state.drag_anchor = Some(rect(0, 0, 1, 1));
    let before = state;
    let to_front = resize_response(
        &dragging(outer, false, false, false, false),
        Some(Vec2::new(50, 0)),
        Vec2::new(14, 47),
        &limits(Vec2::new(96, 32), Vec2::new(2000, 1467)),
        None,
        &mut state,
    );
    assert!(!to_front);
    assert_eq!(state, WindowState { drag_anchor: None, ..before });
}

#[test]
fn resize_response_keeps_a_constrained_window_in_bounds() {
    let outer = rect(100, 100, 454, 567);
    let bounds = rect(0, 0, 600, 600);
    let mut state = state_at(outer);
    resize_response(
        &dragging(outer, false, true, false, true),
        Some(Vec2::new(5000, 5000)),
        Vec2::new(14, 47),
        &limits(Vec2::new(96, 32), Vec2::new(i32::MAX, i32::MAX)),
        Some(bounds),
        &mut state,
    );
    assert_eq!(state.outer_rect, bounds);
    assert_eq!(state.requested_size, Some(Vec2::new(586, 553)));
}

#[test]
fn resize_response_lets_a_free_window_leave_the_screen() {
    let outer = rect(100, 100, 454, 567);
    let mut state = state_at(outer);
    resize_response(
        &dragging(outer, true, false, false, false),
        Some(Vec2::new(-5000, 0)),
        Vec2::new(14, 47),
        &limits(Vec2::new(96, 32), Vec2::new(i32::MAX, i32::MAX)),
        None,
        &mut state,
    );
    assert_eq!(state.outer_rect, rect(-4900, 100, 454, 567));
}
