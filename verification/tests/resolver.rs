use floating_window::geometry::{Pos2, Rect, Vec2};
use floating_window::interaction::{
    hit_regions, hovered_region, next_grab, resize_interaction, resolve_regions, CursorIcon,
    HitRegion, HitRegions, PointerInput, PossibleInteractions, Region, ResizeInteraction,
    SideResponse,
};
use floating_window::style::{Frame, Style};

fn rect(x0: i32, y0: i32, x1: i32, y1: i32) -> Rect {
    Rect { min: Pos2 { x: x0, y: y0 }, max: Pos2 { x: x1, y: y1 } }
}

fn every_edge() -> PossibleInteractions {
    PossibleInteractions { resize_left: true, resize_right: true, resize_top: true, resize_bottom: true }
}

fn no_edge() -> PossibleInteractions {
    PossibleInteractions {
        resize_left: false,
        resize_right: false,
        resize_top: false,
        resize_bottom: false,
    }
}

fn frame() -> Frame {
    Style::standard().window_frame
}

fn regions() -> HitRegions {
    hit_regions(every_edge(), rect(100, 100, 300, 200), frame(), 5, 10)
}

fn pointer_at(x: i32, y: i32) -> PointerInput {
    PointerInput { pos: Some(Pos2::new(x, y)), pressed: false, down: false, total_drag_delta: None }
}

const NONE: SideResponse = SideResponse { hover: false, drag: false };
const HOVER: SideResponse = SideResponse { hover: true, drag: false };
const DRAG: SideResponse = SideResponse { hover: false, drag: true };
const BOTH: SideResponse = SideResponse { hover: true, drag: true };

#[test]
fn side_regions_are_trimmed_by_the_corner_radius() {
    let h = regions();
    assert_eq!(h.right, Some(rect(295, 110, 305, 190)));
    assert_eq!(h.left, Some(rect(95, 110, 105, 190)));
    assert_eq!(h.bottom, Some(rect(110, 195, 290, 205)));
    assert_eq!(h.top, Some(rect(110, 95, 290, 105)));
}

#[test]
fn corner_regions_are_squares_around_the_corners() {
    let h = regions();
    assert_eq!(h.right_bottom, Some(rect(290, 190, 310, 210)));
    assert_eq!(h.right_top, Some(rect(290, 90, 310, 110)));
    assert_eq!(h.left_bottom, Some(rect(90, 190, 110, 210)));
    assert_eq!(h.left_top, Some(rect(90, 90, 110, 110)));
    assert_eq!(h.rect_of(Region::LeftTop), h.left_top);
    assert_eq!(h.rect_of(Region::Bottom), h.bottom);
}

#[test]
fn regions_follow_the_middle_of_the_border_stroke() {
    let mut wide = frame();
    wide.stroke.width = 4;
    let h = hit_regions(every_edge(), rect(100, 100, 300, 200), wide, 5, 10);
    assert_eq!(h.right, Some(rect(293, 112, 303, 188)));
    assert_eq!(h.left_top, Some(rect(92, 92, 112, 112)));
}

#[test]
fn corner_is_laid_down_where_either_of_its_edges_is_draggable() {
    let only_right = PossibleInteractions { resize_right: true, ..no_edge() };
    let h = hit_regions(only_right, rect(100, 100, 300, 200), frame(), 5, 10);
    assert!(h.right.is_some());
    assert!(h.left.is_none() && h.top.is_none() && h.bottom.is_none());
    assert!(h.right_bottom.is_some() && h.right_top.is_some());
    assert!(h.left_bottom.is_none() && h.left_top.is_none());
}

#[test]
fn corner_wins_at_the_point_it_shares_with_a_side() {
    let h = regions();
    // The right strip ends at y = 190, where the corner square begins.
    assert!(h.right.unwrap().contains(Pos2::new(300, 190)));
    assert!(h.right_bottom.unwrap().contains(Pos2::new(300, 190)));
    assert_eq!(h.topmost_at(Pos2::new(300, 190)), Some(Region::RightBottom));
    assert_eq!(h.topmost_at(Pos2::new(300, 189)), Some(Region::Right));
    // The bottom strip ends at x = 290.
    assert_eq!(h.topmost_at(Pos2::new(290, 200)), Some(Region::RightBottom));
    assert_eq!(h.topmost_at(Pos2::new(289, 200)), Some(Region::Bottom));
    assert_eq!(h.topmost_at(Pos2::new(110, 100)), Some(Region::LeftTop));
    assert_eq!(h.topmost_at(Pos2::new(111, 100)), Some(Region::Top));
    assert_eq!(h.topmost_at(Pos2::new(100, 110)), Some(Region::LeftTop));
    assert_eq!(h.topmost_at(Pos2::new(100, 111)), Some(Region::Left));
    assert_eq!(h.topmost_at(Pos2::new(200, 150)), None);
}

#[test]
fn overlap_point_reports_the_state_of_the_corner() {
    let mut grabbed = None;
    let i = resize_interaction(
        every_edge(),
        rect(100, 100, 300, 200),
        frame(),
        5,
        10,
        pointer_at(300, 190),
        &mut grabbed,
    );
    assert_eq!(i.right, HOVER);
    assert_eq!(i.bottom, HOVER);
    assert_eq!(i.left, NONE);
    assert_eq!(i.top, NONE);
    assert_eq!(grabbed, None);
}

#[test]
fn corner_feeds_only_the_edges_that_can_be_dragged() {
    let only_right = PossibleInteractions { resize_right: true, ..no_edge() };
    let i = resolve_regions(
        only_right,
        rect(0, 0, 10, 10),
        frame(),
        Some(Region::RightBottom),
        Some(Region::RightTop),
    );
    assert_eq!(i.right, BOTH);
    assert_eq!(i.bottom, NONE);
    assert_eq!(i.top, NONE);
    assert_eq!(i.left, NONE);
}

#[test]
fn side_feeds_its_own_edge_only() {
    let i = resolve_regions(every_edge(), rect(0, 0, 10, 10), frame(), Some(Region::Top), None);
    assert_eq!(i.top, HOVER);
    assert_eq!(i.left, NONE);
    assert_eq!(i.right, NONE);
    assert_eq!(i.bottom, NONE);
    assert!(i.any_hovered());
    assert!(!i.any_dragged());
}

#[test]
fn press_takes_the_region_under_the_pointer() {
    let mut grabbed = None;
    let press = PointerInput {
        pos: Some(Pos2::new(300, 200)),
        pressed: true,
        down: true,
        total_drag_delta: Some(Vec2::new(0, 0)),
    };
    let i = resize_interaction(
        every_edge(),
        rect(100, 100, 300, 200),
        frame(),
        5,
        10,
        press,
        &mut grabbed,
    );
    assert_eq!(grabbed, Some(Region::RightBottom));
    assert_eq!(i.right, BOTH);
    assert_eq!(i.bottom, BOTH);
    assert!(i.any_dragged());
}

#[test]
fn held_region_stays_dragged_wherever_the_pointer_goes() {
    let mut grabbed = Some(Region::Left);
    let hold = PointerInput {
        pos: Some(Pos2::new(700, 700)),
        pressed: false,
        down: true,
        total_drag_delta: Some(Vec2::new(600, 550)),
    };
    let i = resize_interaction(
        every_edge(),
        rect(100, 100, 300, 200),
        frame(),
        5,
        10,
        hold,
        &mut grabbed,
    );
    assert_eq!(grabbed, Some(Region::Left));
    assert_eq!(i.left, DRAG);
    assert_eq!(i.right, NONE);
}

#[test]
fn release_lets_go() {
    let mut grabbed = Some(Region::Left);
    let i = resize_interaction(
        every_edge(),
        rect(100, 100, 300, 200),
        frame(),
        5,
        10,
        pointer_at(100, 150),
        &mut grabbed,
    );
    assert_eq!(grabbed, None);
    assert_eq!(i.left, HOVER);
}

#[test]
fn press_off_every_region_takes_nothing() {
    let h = regions();
    let press = PointerInput {
        pos: Some(Pos2::new(200, 150)),
        pressed: true,
        down: true,
        total_drag_delta: None,
    };
    assert_eq!(next_grab(h, press, Some(Region::Top)), None);
    assert_eq!(hovered_region(h, press), None);
}

#[test]
fn region_that_is_no_longer_laid_down_is_let_go() {
    let only_right = PossibleInteractions { resize_right: true, ..no_edge() };
    let h = hit_regions(only_right, rect(100, 100, 300, 200), frame(), 5, 10);
    let hold = PointerInput { pos: None, pressed: false, down: true, total_drag_delta: None };
    assert_eq!(next_grab(h, hold, Some(Region::Left)), None);
    assert_eq!(next_grab(h, hold, Some(Region::Right)), Some(Region::Right));
}

#[test]
fn window_without_draggable_edge_registers_nothing() {
    let mut grabbed = Some(Region::Right);
    let press = PointerInput {
        pos: Some(Pos2::new(300, 150)),
        pressed: true,
        down: true,
        total_drag_delta: None,
    };
    let i = resize_interaction(
        no_edge(),
        rect(100, 100, 300, 200),
        frame(),
        5,
        10,
        press,
        &mut grabbed,
    );
    assert_eq!(grabbed, None);
    assert_eq!(
        i,
        ResizeInteraction {
            outer_rect: rect(100, 100, 300, 200),
            window_frame: frame(),
            left: NONE,
            right: NONE,
            top: NONE,
            bottom: NONE,
        }
    );
}

fn with_sides(left: bool, right: bool, top: bool, bottom: bool) -> ResizeInteraction {
    let side = |on: bool| if on { HOVER } else { NONE };
    ResizeInteraction {
        outer_rect: rect(0, 0, 10, 10),
        window_frame: frame(),
        left: side(left),
        right: side(right),
        top: side(top),
        bottom: side(bottom),
    }
}

fn cursor_of(i: ResizeInteraction) -> Option<CursorIcon> {
    let mut cursor = None;
    i.set_cursor(&mut cursor);
    cursor
}

#[test]
fn cursor_follows_the_active_edges() {
    assert_eq!(cursor_of(with_sides(true, false, true, false)), Some(CursorIcon::ResizeNwSe));
    assert_eq!(cursor_of(with_sides(false, true, false, true)), Some(CursorIcon::ResizeNwSe));
    assert_eq!(cursor_of(with_sides(false, true, true, false)), Some(CursorIcon::ResizeNeSw));
    assert_eq!(cursor_of(with_sides(true, false, false, true)), Some(CursorIcon::ResizeNeSw));
    assert_eq!(cursor_of(with_sides(true, false, false, false)), Some(CursorIcon::ResizeHorizontal));
    assert_eq!(cursor_of(with_sides(false, true, false, false)), Some(CursorIcon::ResizeHorizontal));
    assert_eq!(cursor_of(with_sides(false, false, true, false)), Some(CursorIcon::ResizeVertical));
    assert_eq!(cursor_of(with_sides(false, false, false, true)), Some(CursorIcon::ResizeVertical));
    assert_eq!(cursor_of(with_sides(false, false, false, false)), None);
}

#[test]
fn cursor_is_left_alone_without_an_active_edge() {
    let mut cursor = Some(CursorIcon::ResizeVertical);
    with_sides(false, false, false, false).set_cursor(&mut cursor);
    assert_eq!(cursor, Some(CursorIcon::ResizeVertical));
    let mut dragged = with_sides(false, false, false, false);
    dragged.left = DRAG;
    dragged.set_cursor(&mut cursor);
    assert_eq!(cursor, Some(CursorIcon::ResizeHorizontal));
}

#[test]
fn side_responses_combine() {
    assert_eq!(HOVER.both(BOTH), HOVER);
    assert_eq!(HOVER.both(DRAG), NONE);
    assert_eq!(HOVER.either(DRAG), BOTH);
    assert_eq!(NONE.either(NONE), NONE);
    assert!(DRAG.any());
    assert!(!NONE.any());
    assert_eq!(SideResponse::none(), NONE);
    assert!(Region::LeftTop.is_corner());
    assert!(!Region::Left.is_corner());
}

#[test]
fn regions_are_laid_down_sides_first() {
    let order: Vec<Region> = regions().in_order().iter().map(|h| h.region).collect();
    assert_eq!(
        order,
        vec![
            Region::Right,
            Region::Left,
            Region::Bottom,
            Region::Top,
            Region::RightBottom,
            Region::RightTop,
            Region::LeftBottom,
            Region::LeftTop,
        ]
    );
    assert_eq!(
        regions().in_order()[4],
        HitRegion { region: Region::RightBottom, rect: rect(290, 190, 310, 210) }
    );
}

#[test]
fn only_the_regions_that_exist_are_laid_down() {
    let only_top = PossibleInteractions { resize_top: true, ..no_edge() };
    let h = hit_regions(only_top, rect(100, 100, 300, 200), frame(), 5, 10);
    assert_eq!(
        h.in_order(),
        vec![
            HitRegion { region: Region::Top, rect: rect(110, 95, 290, 105) },
            HitRegion { region: Region::RightTop, rect: rect(290, 90, 310, 110) },
            HitRegion { region: Region::LeftTop, rect: rect(90, 90, 110, 110) },
        ]
    );
    let nothing = hit_regions(no_edge(), rect(100, 100, 300, 200), frame(), 5, 10);
    assert!(nothing.in_order().is_empty());
}

#[test]
fn topmost_region_is_the_last_in_order_that_holds_the_position() {
    let h = regions();
    let order = h.in_order();
    for x in (80..=320).step_by(5) {
        for y in (80..=220).step_by(5) {
            let pos = Pos2::new(x, y);
            let last = order.iter().rev().find(|r| r.rect.contains(pos)).map(|r| r.region);
            assert_eq!(h.topmost_at(pos), last);
        }
    }
}
