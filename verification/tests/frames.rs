use floating_window::align::Align2;
use floating_window::chrome::RectShape;
use floating_window::fade::Fade;
use floating_window::geometry::{Pos2, Rect, Vec2};
use floating_window::interaction::{CursorIcon, PointerInput, Region};
use floating_window::paint::PathStep;
use floating_window::show::{FrameInput, WindowResponse};
use floating_window::state::WindowState;
use floating_window::style::{Color, CornerRadius, Frame, Margin, Stroke, Style};
use floating_window::window::Window;

fn rect(x0: i32, y0: i32, x1: i32, y1: i32) -> Rect {
    Rect { min: Pos2 { x: x0, y: y0 }, max: Pos2 { x: x1, y: y1 } }
}

fn screen() -> Rect {
    rect(0, 0, 2000, 1500)
}

fn idle() -> FrameInput {
    FrameInput {
        style: Style::standard(),
        screen_rect: screen(),
        title_size: Vec2::new(60, 20),
        pointer: PointerInput { pos: None, pressed: false, down: false, total_drag_delta: None },
        click: None,
        double_click: None,
        on_top: true,
        everything_is_visible: false,
        dt: 16,
    }
}

fn hover(x: i32, y: i32) -> FrameInput {
    FrameInput {
        pointer: PointerInput {
            pos: Some(Pos2::new(x, y)),
            pressed: false,
            down: false,
            total_drag_delta: None,
        },
        ..idle()
    }
}

fn press(x: i32, y: i32) -> FrameInput {
    FrameInput {
        pointer: PointerInput {
            pos: Some(Pos2::new(x, y)),
            pressed: true,
            down: true,
            total_drag_delta: Some(Vec2::new(0, 0)),
        },
        ..idle()
    }
}

fn hold(x: i32, y: i32, dx: i32, dy: i32) -> FrameInput {
    FrameInput {
        pointer: PointerInput {
            pos: Some(Pos2::new(x, y)),
            pressed: false,
            down: true,
            total_drag_delta: Some(Vec2::new(dx, dy)),
        },
        ..idle()
    }
}

fn demo() -> Window {
    Window::new("Demo").default_pos(Pos2::new(100, 100))
}

fn bare_frame() -> Frame {
    Frame {
        inner_margin: Margin::same(0),
        outer_margin: Margin::same(0),
        stroke: Stroke { width: 0, color: Color::gray(0) },
        corner_radius: CornerRadius::same(0),
        fill: Color::gray(27),
    }
}

/// A window whose outer rectangle is its content: no frame, no title bar.
fn bare() -> Window {
    Window::new("Bare").title_bar(false).frame(bare_frame()).default_pos(Pos2::new(100, 100))
}

fn shown(window: Window, state: &mut WindowState, input: FrameInput) -> WindowResponse {
    window.show(state, &input, |_| ()).unwrap().response
}

#[test]
fn first_frame_lays_the_window_out_around_its_default_content() {
    let mut state = demo().initial_state(screen());
    assert_eq!(state.outer_rect, rect(100, 100, 440, 520));
    let r = shown(demo(), &mut state, idle());
    assert_eq!(r.outer_rect, rect(100, 100, 454, 567));
    assert_eq!(r.content_rect, Some(rect(107, 140, 447, 560)));
    assert_eq!(r.opacity, 255);
    assert_eq!(r.cursor, None);
    assert!(!r.to_front);
    assert!(!r.should_close);
    assert_eq!(r.open, None);
    assert!(r.frame_highlight.is_none());
    assert_eq!(
        r.title_background,
        Some(RectShape {
            rect: rect(100, 101, 454, 133),
            corner_radius: CornerRadius { nw: 5, ne: 5, sw: 0, se: 0 },
            fill: Color::gray(45),
        })
    );
    let bar = r.title_bar.unwrap();
    assert_eq!(bar.collapse_button, Some(rect(109, 110, 123, 124)));
    assert_eq!(bar.close_button, None);
    assert_eq!(bar.text_pos, Pos2::new(247, 107));
    assert_eq!(bar.double_click_rect, rect(132, 101, 422, 133));
    let handle = r.resize_corner.unwrap();
    assert_eq!(handle.corner, Align2::right_bottom());
    assert_eq!(handle.rect, rect(439, 552, 451, 564));

    assert_eq!(state.outer_rect, rect(100, 100, 454, 567));
    assert_eq!(state.content_size, Vec2::new(340, 420));
    assert_eq!(state.fade, Fade { level: Some(83) });
    assert_eq!(state.requested_size, None);
    assert_eq!(state.drag_anchor, None);
}

#[test]
fn idle_frames_keep_the_rectangle() {
    let mut state = demo().initial_state(screen());
    let first = shown(demo(), &mut state, idle()).outer_rect;
    let after_first = state;
    let second = shown(demo(), &mut state, idle()).outer_rect;
    assert_eq!(second, first);
    assert_eq!(state, after_first);
    let third = shown(demo(), &mut state, hover(300, 300)).outer_rect;
    assert_eq!(third, first);
}

#[test]
fn idle_frames_keep_a_constrained_window_that_is_too_large() {
    let small = || demo().constrain_to(rect(0, 0, 300, 300));
    let mut state = small().initial_state(screen());
    let first = shown(small(), &mut state, idle()).outer_rect;
    assert_eq!(first, rect(0, 0, 300, 300));
    let second = shown(small(), &mut state, idle()).outer_rect;
    assert_eq!(second, first);
}

#[test]
fn hovered_edge_sets_the_cursor_and_the_highlight() {
    let mut state = demo().initial_state(screen());
    shown(demo(), &mut state, idle());
    let r = shown(demo(), &mut state, hover(454, 300));
    assert_eq!(r.cursor, Some(CursorIcon::ResizeHorizontal));
    let h = r.frame_highlight.unwrap();
    assert_eq!(h.stroke, Stroke { width: 1, color: Color::gray(150) });
    assert_eq!(
        h.path,
        vec![PathStep::Point(Pos2::new(454, 106)), PathStep::Point(Pos2::new(454, 561))]
    );
    assert!(!r.to_front);
    let r = shown(demo(), &mut state, hover(454, 567));
    assert_eq!(r.cursor, Some(CursorIcon::ResizeNwSe));
    let r = shown(demo(), &mut state, hover(100, 567));
    assert_eq!(r.cursor, Some(CursorIcon::ResizeNeSw));
    let r = shown(demo(), &mut state, hover(300, 100));
    assert_eq!(r.cursor, Some(CursorIcon::ResizeVertical));
}

#[test]
fn right_edge_drag_split_across_three_frames() {
    let mut state = demo().initial_state(screen());
    let before = shown(demo(), &mut state, idle());
    assert_eq!(before.content_rect.unwrap().width(), 340);
    assert_eq!(before.content_rect.unwrap().height(), 420);

    let r = shown(demo(), &mut state, press(454, 300));
    assert_eq!(state.grabbed, Some(Region::Right));
    assert_eq!(r.outer_rect, rect(100, 100, 454, 567));
    assert!(r.to_front);

    let mut total = 0;
    let mut last = r;
    for step in [20, 15, 15] {
        total += step;
        last = shown(demo(), &mut state, hold(454 + total, 300, total, 0));
        assert_eq!(last.outer_rect, rect(100, 100, 454 + total, 567));
    }
    assert_eq!(last.outer_rect, rect(100, 100, 504, 567));
    assert_eq!(last.content_rect, Some(rect(107, 140, 497, 560)));
    assert_eq!(last.content_rect.unwrap().width(), 390);
    assert_eq!(last.content_rect.unwrap().height(), 420);
    assert_eq!(last.outer_rect.min, before.outer_rect.min);
    assert_eq!(last.outer_rect.height(), before.outer_rect.height());
    assert_eq!(state.drag_anchor, Some(rect(100, 100, 454, 567)));

    // Letting go drops the anchor and keeps the size.
    let r = shown(demo(), &mut state, hover(504, 300));
    assert_eq!(r.outer_rect, rect(100, 100, 504, 567));
    assert_eq!(state.drag_anchor, None);
    assert_eq!(state.grabbed, None);
    assert_eq!(state.content_size, Vec2::new(390, 420));
}

#[test]
fn drag_of_a_bare_window_is_the_drag_of_its_content() {
    let mut state = bare().initial_state(screen());
    let r = shown(bare(), &mut state, idle());
    assert_eq!(r.outer_rect, rect(100, 100, 440, 520));
    assert_eq!(r.outer_rect.width(), 340);
    assert_eq!(r.outer_rect.height(), 420);
    assert_eq!(r.title_bar, None);
    assert_eq!(r.title_background, None);
    shown(bare(), &mut state, press(440, 300));
    for total in [20, 35, 50] {
        shown(bare(), &mut state, hold(440 + total, 300, total, 0));
    }
    assert_eq!(state.outer_rect, rect(100, 100, 490, 520));
    assert_eq!(state.outer_rect.width(), 390);
    assert_eq!(state.outer_rect.height(), 420);
}

#[test]
fn left_edge_drag_past_the_minimum_keeps_the_right_edge() {
    let window = || bare().min_size(Vec2::new(96, 32));
    let mut state = window().initial_state(screen());
    shown(window(), &mut state, idle());
    shown(window(), &mut state, press(100, 300));
    assert_eq!(state.grabbed, Some(Region::Left));
    let r = shown(window(), &mut state, hold(1100, 300, 1000, 0));
    assert_eq!(r.outer_rect, rect(344, 100, 440, 520));
    assert_eq!(r.outer_rect.width(), 96);
    assert_eq!(r.outer_rect.max.x, 440);
    // Dragging back restores the width from the anchor.
    let r = shown(window(), &mut state, hold(110, 300, 10, 0));
    assert_eq!(r.outer_rect, rect(110, 100, 440, 520));
}

#[test]
fn window_is_never_narrower_than_its_title_bar() {
    let mut state = demo().initial_state(screen());
    shown(demo(), &mut state, idle());
    shown(demo(), &mut state, press(100, 300));
    let r = shown(demo(), &mut state, hold(1100, 300, 1000, 0));
    // The title bar needs 110 units: 6 + 2 * (14 + 8) + 60.
    assert_eq!(r.content_rect.unwrap().width(), 110);
    assert_eq!(r.outer_rect, rect(330, 100, 454, 567));
}

#[test]
fn corner_drag_resizes_both_axes() {
    let mut state = demo().initial_state(screen());
    shown(demo(), &mut state, idle());
    shown(demo(), &mut state, press(454, 567));
    assert_eq!(state.grabbed, Some(Region::RightBottom));
    let r = shown(demo(), &mut state, hold(484, 527, 30, -40));
    assert_eq!(r.outer_rect, rect(100, 100, 484, 527));
    assert_eq!(r.cursor, Some(CursorIcon::ResizeNwSe));
    assert_eq!(r.resize_corner.unwrap().stroke, Stroke { width: 2, color: Color::gray(255) });
}

#[test]
fn resize_takes_effect_in_the_frame_of_the_drag() {
    let mut state = demo().initial_state(screen());
    shown(demo(), &mut state, idle());
    shown(demo(), &mut state, press(454, 300));
    let window = demo();
    let prepared = window.begin(&mut state, &hold(500, 300, 46, 0)).unwrap();
    assert_eq!(state.outer_rect, rect(100, 100, 500, 567));
    assert_eq!(prepared.position, Pos2::new(100, 100));
    assert_eq!(prepared.content_size, Vec2::new(386, 420));
    assert_eq!(prepared.title_bar.unwrap().inner_rect(), rect(107, 107, 217, 127));
    assert_eq!(state.requested_size, None);
}

#[test]
fn content_that_reports_its_size_is_held_to_the_limits() {
    let window = || demo().max_size(Vec2::new(500, 450));
    let mut state = window().initial_state(screen());
    let input = idle();
    let prepared = window().begin(&mut state, &input).unwrap();
    assert_eq!(prepared.content_size, Vec2::new(340, 420));
    assert_eq!(prepared.limits.min_size, Vec2::new(110, 32));
    assert_eq!(prepared.limits.max_size, Vec2::new(500, 450));
    let r = prepared.end(&mut state, &input, Vec2::new(9000, 10));
    assert_eq!(r.content_rect, Some(rect(107, 140, 607, 172)));
    assert_eq!(r.outer_rect, rect(100, 100, 614, 179));
    assert_eq!(state.content_size, Vec2::new(500, 32));
}

#[test]
fn greatest_size_is_held_to_the_bounds() {
    let window = || demo().constrain_to(rect(0, 0, 800, 600));
    let mut state = window().initial_state(screen());
    let input = idle();
    let prepared = window().begin(&mut state, &input).unwrap();
    // 600 less the title bar (32) and the separator (1).
    assert_eq!(prepared.limits.max_size, Vec2::new(800, 567));
    assert_eq!(prepared.bounds, Some(rect(0, 0, 800, 600)));
}

#[test]
fn constrained_window_is_stored_within_its_bounds() {
    let bounds = rect(50, 50, 900, 700);
    let window = || demo().constrain_to(bounds);
    let mut state = window().initial_state(screen());
    shown(window(), &mut state, idle());
    shown(window(), &mut state, press(454, 567));
    for (dx, dy) in [(100, 50), (5000, 5000), (-3000, 9000), (20, -20)] {
        let r = shown(window(), &mut state, hold(454 + dx, 567 + dy, dx, dy));
        assert!(r.outer_rect.is_within(bounds));
        assert!(state.outer_rect.is_within(bounds));
    }
    shown(window(), &mut state, hover(0, 0));
    shown(window(), &mut state, press(100, 100));
    for (dx, dy) in [(-400, -400), (-9000, 10), (9000, 9000)] {
        let r = shown(window(), &mut state, hold(100 + dx, 100 + dy, dx, dy));
        assert!(r.outer_rect.is_within(bounds));
    }
}

#[test]
fn drag_beyond_the_screen_stops_at_the_screen() {
    let mut state = demo().initial_state(screen());
    shown(demo(), &mut state, idle());
    shown(demo(), &mut state, press(454, 300));
    let r = shown(demo(), &mut state, hold(5454, 300, 5000, 0));
    assert_eq!(r.outer_rect, rect(0, 100, 2000, 567));
}

#[test]
fn unconstrained_window_may_leave_the_screen() {
    let window = || demo().constrain(false);
    let mut state = window().initial_state(screen());
    shown(window(), &mut state, idle());
    shown(window(), &mut state, press(100, 300));
    let r = shown(window(), &mut state, hold(-400, 300, -500, 0));
    assert_eq!(r.outer_rect, rect(-400, 100, 454, 567));
}

#[test]
fn unconstrained_window_is_still_no_larger_than_the_screen_allows() {
    let window = || demo().constrain(false);
    let mut state = window().initial_state(screen());
    shown(window(), &mut state, idle());
    shown(window(), &mut state, press(454, 300));
    let r = shown(window(), &mut state, hold(3454, 300, 3000, 0));
    // The content is at most as wide as the screen: 2000, plus 14 of frame.
    assert_eq!(r.outer_rect, rect(100, 100, 2114, 567));
}

#[test]
fn double_click_collapses_to_the_title_bar_and_back() {
    let mut state = demo().initial_state(screen());
    shown(demo(), &mut state, idle());
    let r = shown(demo(), &mut state, FrameInput { double_click: Some(Pos2::new(200, 110)), ..idle() });
    assert!(r.title_bar.unwrap().toggled);
    assert_eq!(r.outer_rect, rect(100, 100, 454, 567));
    assert!(!state.collapse.is_open());

    let r = shown(demo(), &mut state, idle());
    assert_eq!(r.outer_rect, rect(100, 100, 224, 134));
    assert_eq!(r.content_rect, None);
    assert_eq!(r.resize_corner, None);
    assert_eq!(r.title_bar.unwrap().separator, None);
    assert_eq!(r.title_bar.unwrap().double_click_rect, rect(132, 101, 192, 133));
    assert_eq!(r.title_background.unwrap().rect, rect(100, 101, 224, 133));
    assert_eq!(r.title_background.unwrap().corner_radius, CornerRadius::same(5));
    assert_eq!(state.content_size, Vec2::new(340, 420));

    // A collapsed window offers no edge to drag.
    let r = shown(demo(), &mut state, press(224, 117));
    assert_eq!(state.grabbed, None);
    assert_eq!(r.cursor, None);

    let r = shown(demo(), &mut state, FrameInput { double_click: Some(Pos2::new(150, 110)), ..idle() });
    assert!(r.title_bar.unwrap().toggled);
    assert!(state.collapse.is_open());
    let r = shown(demo(), &mut state, idle());
    assert_eq!(r.outer_rect, rect(100, 100, 454, 567));
}

#[test]
fn double_click_leaves_a_shown_window_that_cannot_collapse() {
    let window = || demo().collapsible(false);
    let mut state = window().initial_state(screen());
    shown(window(), &mut state, idle());
    let r = shown(window(), &mut state, FrameInput { double_click: Some(Pos2::new(200, 110)), ..idle() });
    assert!(!r.title_bar.unwrap().toggled);
    assert!(state.collapse.is_open());
    assert_eq!(r.title_bar.unwrap().collapse_button, None);
}

#[test]
fn window_that_starts_collapsed() {
    let window = || demo().default_open(false);
    let mut state = window().initial_state(screen());
    let r = shown(window(), &mut state, idle());
    assert_eq!(r.content_rect, None);
    assert_eq!(r.outer_rect, rect(100, 100, 224, 134));
}

#[test]
fn window_without_title_bar_is_never_collapsed() {
    let window = || demo().title_bar(false).default_open(false);
    let mut state = window().initial_state(screen());
    let r = shown(window(), &mut state, idle());
    assert_eq!(r.outer_rect, rect(100, 100, 454, 534));
    assert_eq!(r.content_rect, Some(rect(107, 107, 447, 527)));
    assert_eq!(r.title_bar, None);
}

#[test]
fn click_on_the_close_button_asks_to_close() {
    let window = || demo().open(true);
    let mut state = window().initial_state(screen());
    let r = shown(window(), &mut state, idle());
    assert_eq!(r.open, Some(true));
    assert!(!r.should_close);
    assert_eq!(r.title_bar.unwrap().close_button.unwrap().response.rect, rect(431, 110, 445, 124));
    let r = shown(window(), &mut state, FrameInput { click: Some(Pos2::new(438, 117)), ..idle() });
    assert!(r.should_close);
    assert_eq!(r.open, Some(false));
}

#[test]
fn closed_window_fades_out_and_is_then_skipped() {
    let mut state = demo().initial_state(screen());
    shown(demo().open(true), &mut state, idle());
    let committed = state.outer_rect;
    let mut opacities = Vec::new();
    let mut frames = 0;
    while let Some(r) = demo().open(false).show(&mut state, &idle(), |_| ()) {
        opacities.push(r.response.opacity);
        assert_eq!(r.response.outer_rect, committed);
        frames += 1;
        assert!(frames <= 83);
    }
    // Levels 67, 51, 35, 19, then 3, which rounds down to nothing.
    assert_eq!(opacities, vec![134, 59, 19, 3]);
    assert_eq!(state.fade, Fade { level: Some(3) });
    for _ in 0..10 {
        assert!(demo().open(false).show(&mut state, &press(454, 300), |_| ()).is_none());
    }
    assert_eq!(state.fade, Fade { level: Some(0) });
    assert_eq!(state.outer_rect, committed);
    assert_eq!(state.grabbed, None);
}

#[test]
fn chrome_fades_with_the_window() {
    let mut state = demo().initial_state(screen());
    shown(demo().open(true), &mut state, idle());
    let r = shown(demo().open(false), &mut state, hover(454, 300));
    assert_eq!(r.opacity, 134);
    // (45 * 134 + 127) / 255 = 24, (255 * 134 + 127) / 255 = 134.
    assert_eq!(r.title_background.unwrap().fill, Color { r: 24, g: 24, b: 24, a: 134 });
    // (150 * 134 + 127) / 255 = 79.
    assert_eq!(r.frame_highlight.unwrap().stroke.color, Color { r: 79, g: 79, b: 79, a: 134 });
    // (60 * 134 + 127) / 255 = 32.
    assert_eq!(r.resize_corner.unwrap().stroke.color, Color { r: 32, g: 32, b: 32, a: 134 });
    assert_eq!(r.title_bar.unwrap().separator.unwrap().stroke.color, Color { r: 32, g: 32, b: 32, a: 134 });
}

#[test]
fn window_that_does_not_fade_out_stays_opaque_while_it_closes() {
    let window = || demo().fade_out(false).open(false);
    let mut state = demo().initial_state(screen());
    shown(demo().open(true), &mut state, idle());
    let r = shown(window(), &mut state, idle());
    assert_eq!(r.opacity, 255);
    assert_eq!(r.title_background.unwrap().fill, Color::gray(45));
}

#[test]
fn window_that_is_closed_from_the_start_is_never_shown() {
    let mut state = demo().initial_state(screen());
    let before = state;
    assert!(demo().open(false).show(&mut state, &idle(), |_| ()).is_none());
    assert_eq!(state, WindowState { fade: Fade { level: Some(0) }, ..before });
}

#[test]
fn closed_window_is_shown_where_everything_is_visible() {
    let mut state = demo().initial_state(screen());
    let input = FrameInput { everything_is_visible: true, ..idle() };
    let r = shown(demo().open(false), &mut state, input);
    assert_eq!(r.opacity, 255);
    assert_eq!(r.open, Some(false));
}

#[test]
fn reopened_window_fades_back_in() {
    let mut state = demo().initial_state(screen());
    shown(demo().open(true), &mut state, idle());
    shown(demo().open(false), &mut state, idle());
    assert_eq!(state.fade, Fade { level: Some(67) });
    let r = shown(demo().open(true), &mut state, idle());
    assert_eq!(state.fade, Fade { level: Some(83) });
    assert_eq!(r.opacity, 255);
}

#[test]
fn fixed_position_puts_the_pivot_there_in_every_frame() {
    let window = || Window::new("Pinned").pivot(Align2::right_top()).fixed_pos(Pos2::new(1000, 10));
    let mut state = window().initial_state(screen());
    let first = shown(window(), &mut state, idle());
    assert_eq!(first.outer_rect, rect(646, 10, 1000, 477));
    let r = shown(window(), &mut state, idle());
    assert_eq!(r.outer_rect, rect(646, 10, 1000, 477));
    // The pivot holds the right and the upper edge; the others can move.
    shown(window(), &mut state, press(1000, 200));
    assert_eq!(state.grabbed, None);
    shown(window(), &mut state, hover(0, 0));
    shown(window(), &mut state, press(646, 200));
    assert_eq!(state.grabbed, Some(Region::Left));
}

#[test]
fn window_of_another_frame_takes_its_colours_from_it() {
    let mut own = Style::standard().window_frame;
    own.fill = Color::gray(99);
    own.stroke.width = 3;
    let window = || demo().frame(own);
    let mut state = window().initial_state(screen());
    let r = shown(window(), &mut state, idle());
    assert_eq!(r.title_background.unwrap().fill, Color::gray(99));
    assert_eq!(r.title_background.unwrap().corner_radius, CornerRadius { nw: 3, ne: 3, sw: 0, se: 0 });
    // Margins of 6 + 3 on every side, a separator of 3 below the title bar.
    assert_eq!(r.outer_rect, rect(100, 100, 458, 573));
    assert_eq!(r.content_rect, Some(rect(109, 144, 449, 564)));
}

#[test]
fn window_that_is_not_on_top_has_no_highlight() {
    let mut state = demo().initial_state(screen());
    let r = shown(demo(), &mut state, FrameInput { on_top: false, ..idle() });
    assert_eq!(r.title_background, None);
}

#[test]
fn content_gets_its_rectangle_and_its_output_is_handed_back() {
    let mut state = demo().initial_state(screen());
    let r = demo().show(&mut state, &idle(), |room| (room, "drawn")).unwrap();
    assert_eq!(r.inner, Some((rect(107, 140, 447, 560), "drawn")));
    assert_eq!(r.response.content_rect, Some(rect(107, 140, 447, 560)));
}

#[test]
fn content_of_a_collapsed_window_is_not_laid_out() {
    let window = || demo().default_open(false);
    let mut state = window().initial_state(screen());
    let mut calls = 0;
    let r = window().show(&mut state, &idle(), |_| calls += 1).unwrap();
    assert_eq!(r.inner, None);
    assert_eq!(r.response.content_rect, None);
    assert_eq!(calls, 0);
}

#[test]
fn content_of_a_window_that_is_not_shown_is_not_laid_out() {
    let mut state = demo().initial_state(screen());
    let mut calls = 0;
    assert!(demo().open(false).show(&mut state, &idle(), |_| calls += 1).is_none());
    assert_eq!(calls, 0);
}

#[test]
fn title_bar_spans_the_whole_width_of_the_window_that_was_laid_out() {
    let mut state = demo().initial_state(screen());
    shown(demo(), &mut state, idle());
    shown(demo(), &mut state, press(454, 300));
    let r = shown(demo(), &mut state, hold(504, 300, 50, 0));
    assert_eq!(r.outer_rect, rect(100, 100, 504, 567));
    assert_eq!(r.title_background.unwrap().rect, rect(100, 101, 504, 133));
    let bar = r.title_bar.unwrap();
    assert_eq!(bar.separator.unwrap().from, Pos2::new(100, 133));
    assert_eq!(bar.separator.unwrap().to, Pos2::new(504, 133));
    assert_eq!(bar.double_click_rect, rect(132, 101, 472, 133));
    assert_eq!(bar.text_pos, Pos2::new(272, 107));
}

#[test]
fn idle_frames_keep_a_pinned_window_from_the_first_frame_on() {
    let pivots = [
        Align2::left_top(),
        Align2::center_center(),
        Align2::right_center(),
        Align2::right_bottom(),
        Align2::left_bottom(),
    ];
    for pivot in pivots {
        let window = || Window::new("Pinned").pivot(pivot).current_pos(Pos2::new(1000, 800));
        let mut state = window().initial_state(screen());
        let first = shown(window(), &mut state, idle()).outer_rect;
        assert_eq!(first, pivot.anchor_size(Pos2::new(1000, 800), Vec2::new(354, 467)));
        for _ in 0..3 {
            assert_eq!(shown(window(), &mut state, idle()).outer_rect, first);
        }
    }
}

#[test]
fn idle_frames_keep_an_anchored_window() {
    let window = || Window::new("Anchored").anchor(Align2::right_bottom(), Vec2::new(-10, -10));
    let mut state = window().initial_state(screen());
    let first = shown(window(), &mut state, idle()).outer_rect;
    assert_eq!(first, rect(1636, 1023, 1990, 1490));
    assert_eq!(shown(window(), &mut state, idle()).outer_rect, first);
    assert_eq!(shown(window(), &mut state, hover(5, 5)).outer_rect, first);
}

#[test]
fn idle_frames_keep_a_window_whose_content_reports_its_size() {
    let mut state = demo().initial_state(screen());
    let input = idle();
    let first = demo().begin(&mut state, &input).unwrap().end(&mut state, &input, Vec2::new(200, 90));
    assert_eq!(first.outer_rect, rect(100, 100, 314, 237));
    let second = demo().begin(&mut state, &input).unwrap().end(&mut state, &input, Vec2::new(200, 90));
    assert_eq!(second.outer_rect, first.outer_rect);
}

#[test]
fn pinned_window_grows_away_from_its_pivot() {
    let window = || Window::new("Pinned").pivot(Align2::right_top()).fixed_pos(Pos2::new(1000, 10));
    let mut state = window().initial_state(screen());
    shown(window(), &mut state, idle());
    shown(window(), &mut state, press(646, 200));
    let r = shown(window(), &mut state, hold(596, 200, -50, 0));
    assert_eq!(r.outer_rect, rect(596, 10, 1000, 477));
    let r = shown(window(), &mut state, hover(0, 0));
    assert_eq!(r.outer_rect, rect(596, 10, 1000, 477));
}

#[test]
fn left_edge_drag_past_the_minimum_keeps_height_and_right_edge_of_a_framed_window() {
    // The title bar needs 110 units, so the least width is 120 here.
    let window = || demo().min_size(Vec2::new(120, 32));
    let mut state = window().initial_state(screen());
    let before = shown(window(), &mut state, idle());
    shown(window(), &mut state, press(100, 300));
    let r = shown(window(), &mut state, hold(1100, 300, 1000, 0));
    assert_eq!(r.content_rect.unwrap().width(), 120);
    assert_eq!(r.content_rect.unwrap().height(), 420);
    assert_eq!(r.outer_rect, rect(320, 100, 454, 567));
    assert_eq!(r.outer_rect.max, before.outer_rect.max);
    assert_eq!(r.outer_rect.height(), before.outer_rect.height());
    assert_eq!(state.content_size, Vec2::new(120, 420));
}
