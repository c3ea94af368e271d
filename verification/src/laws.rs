//! What holds of the window rules, for every input.
//!
//! Each law is proved of the `spec` functions that the contracts of the
//! library are written in.

use vstd::prelude::*;
use crate::chrome::{ClickInput, TitleBar, DOUBLE_CLICK_INSET};
use crate::config::{Area, Resize};
use crate::fade::{cube, eased_opacity, stepped_level, Fade};
use crate::geometry::{clamp_coord, Pos2, Rect, Vec2};
use crate::interaction::{
    spec_anchor_or, spec_constrain_window_rect_to_area, spec_dragged_rect, spec_hits,
    spec_laid_on, spec_last_hit, spec_limit_size, spec_resize_response, spec_resolve_regions,
    HitRegion, HitRegions, PossibleInteractions, Region, ResizeInteraction,
};
use crate::show::{FrameInput, Prepared};
use crate::state::WindowState;
use crate::style::Frame;
use crate::window::Window;

verus! {

/// A window that is disabled, or collapsed, offers no edge to drag,
/// whatever else it is configured with.
pub proof fn law_disabled_or_collapsed_offers_nothing(area: Area, resize: Resize, is_collapsed: bool)
    requires
        !area.enabled || is_collapsed,
    ensures
        PossibleInteractions::spec_new(area, resize, is_collapsed)
            == PossibleInteractions::spec_none(),
        !PossibleInteractions::spec_new(area, resize, is_collapsed).spec_resizable(),
{
}

/// The outer rectangle after a run of frames of one drag.
///
/// `totals` holds, frame by frame, how far the pointer has moved since the
/// drag began. Every frame reads the anchor, or takes it from the rectangle
/// it finds, and stores what the drag makes of the anchor.
pub open spec fn spec_drag_frames(
    anchor: Option<Rect>,
    rect: Rect,
    sides: ResizeInteraction,
    totals: Seq<Vec2>,
) -> Rect
    decreases totals.len(),
{
    if totals.len() == 0 {
        rect
    } else {
        let start = spec_anchor_or(anchor, rect);
        spec_drag_frames(
            Some(start),
            spec_dragged_rect(start, ResizeInteraction { outer_rect: rect, ..sides }, totals[0]),
            sides,
            totals.drop_first(),
        )
    }
}

proof fn lemma_drag_frames_from_anchor(
    start: Rect,
    rect: Rect,
    sides: ResizeInteraction,
    totals: Seq<Vec2>,
)
    requires
        totals.len() > 0,
    ensures
        spec_drag_frames(Some(start), rect, sides, totals) == spec_dragged_rect(
            start,
            sides,
            totals.last(),
        ),
    decreases totals.len(),
{
    let next = spec_dragged_rect(start, ResizeInteraction { outer_rect: rect, ..sides }, totals[0]);
    if totals.len() == 1 {
        assert(totals.drop_first().len() == 0);
        assert(spec_drag_frames(Some(start), next, sides, totals.drop_first()) == next);
    } else {
        lemma_drag_frames_from_anchor(start, next, sides, totals.drop_first());
        assert(totals.drop_first().last() == totals.last());
    }
}

/// A drag does not drift.
///
/// However many frames a drag spans, and whatever the pointer reported in
/// the frames before, the rectangle after the last frame is the rectangle
/// from which the drag began with the dragged edges moved by the distance
/// that the pointer reports in that last frame.
pub proof fn law_drag_does_not_drift(rect: Rect, sides: ResizeInteraction, totals: Seq<Vec2>)
    requires
        totals.len() > 0,
    ensures
        spec_drag_frames(None, rect, sides, totals) == spec_dragged_rect(
            rect,
            sides,
            totals.last(),
        ),
{
    let next = spec_dragged_rect(rect, ResizeInteraction { outer_rect: rect, ..sides }, totals[0]);
    if totals.len() == 1 {
        assert(totals.drop_first().len() == 0);
        assert(spec_drag_frames(Some(rect), next, sides, totals.drop_first()) == next);
    } else {
        lemma_drag_frames_from_anchor(rect, next, sides, totals.drop_first());
        assert(totals.drop_first().last() == totals.last());
    }
}

/// What a drag stores depends on the anchor alone.
///
/// Once a drag has its anchor, the rectangle that a frame stores is made of
/// the anchor and of the distance that the pointer has moved: the rectangle
/// that the frame before stored plays no part in it.
pub proof fn law_stored_rect_comes_from_the_anchor(
    anchor: Rect,
    sides: ResizeInteraction,
    delta: Vec2,
    margins: Vec2,
    resize: Resize,
    bounds: Option<Rect>,
    state: WindowState,
    other_rect: Rect,
)
    requires
        sides.spec_any_dragged(),
        state.drag_anchor == Some(anchor),
    ensures
        spec_resize_response(
            ResizeInteraction { outer_rect: other_rect, ..sides },
            Some(delta),
            margins,
            resize,
            bounds,
            WindowState { outer_rect: other_rect, ..state },
        ) == spec_resize_response(sides, Some(delta), margins, resize, bounds, state),
{
}

/// A drag of the right edge alone moves the right edge alone: by the
/// distance that the pointer has moved horizontally, as far as the
/// coordinates reach. The other three edges stay where the drag began.
pub proof fn law_right_edge_drag_moves_right_edge_only(
    rect: Rect,
    sides: ResizeInteraction,
    totals: Seq<Vec2>,
)
    requires
        totals.len() > 0,
        sides.right.drag,
        !sides.left.drag,
        !sides.top.drag,
        !sides.bottom.drag,
    ensures
        spec_drag_frames(None, rect, sides, totals) == (Rect {
            min: rect.min,
            max: Pos2 { x: clamp_coord(rect.max.x + totals.last().x) as i32, y: rect.max.y },
        }),
{
    law_drag_does_not_drift(rect, sides, totals);
}

proof fn lemma_last_hit_of_laid_on(
    order: Seq<HitRegion>,
    region: Region,
    rect: Option<Rect>,
    pos: Pos2,
)
    ensures
        spec_last_hit(spec_laid_on(order, region, rect), pos) == if spec_hits(rect, pos) {
            Some(region)
        } else {
            spec_last_hit(order, pos)
        },
{
    match rect {
        Some(r) => {
            let laid = order.push(HitRegion { region, rect: r });
            assert(laid.last() == HitRegion { region, rect: r });
            assert(laid.drop_last() =~= order);
        },
        None => {},
    }
}

/// The pointer gets the region that was laid down last.
///
/// Of all the regions that hold a position, the one that comes last in the
/// order in which the regions are laid down answers there.
pub proof fn law_topmost_is_laid_down_last(regions: HitRegions, pos: Pos2)
    ensures
        regions.spec_topmost_at(pos) == spec_last_hit(regions.spec_in_order(), pos),
{
    let o0 = Seq::<HitRegion>::empty();
    let o1 = spec_laid_on(o0, Region::Right, regions.right);
    let o2 = spec_laid_on(o1, Region::Left, regions.left);
    let o3 = spec_laid_on(o2, Region::Bottom, regions.bottom);
    let o4 = spec_laid_on(o3, Region::Top, regions.top);
    let o5 = spec_laid_on(o4, Region::RightBottom, regions.right_bottom);
    let o6 = spec_laid_on(o5, Region::RightTop, regions.right_top);
    let o7 = spec_laid_on(o6, Region::LeftBottom, regions.left_bottom);
    let o8 = spec_laid_on(o7, Region::LeftTop, regions.left_top);
    assert(spec_last_hit(o0, pos) == None::<Region>);
    lemma_last_hit_of_laid_on(o0, Region::Right, regions.right, pos);
    lemma_last_hit_of_laid_on(o1, Region::Left, regions.left, pos);
    lemma_last_hit_of_laid_on(o2, Region::Bottom, regions.bottom, pos);
    lemma_last_hit_of_laid_on(o3, Region::Top, regions.top, pos);
    lemma_last_hit_of_laid_on(o4, Region::RightBottom, regions.right_bottom, pos);
    lemma_last_hit_of_laid_on(o5, Region::RightTop, regions.right_top, pos);
    lemma_last_hit_of_laid_on(o6, Region::LeftBottom, regions.left_bottom, pos);
    lemma_last_hit_of_laid_on(o7, Region::LeftTop, regions.left_top, pos);
    assert(regions.spec_in_order() == o8);
}

/// Where the square of a corner holds the pointer, a corner answers: no
/// strip of an edge that holds the pointer too gets it.
pub proof fn law_corner_wins_over_edge(regions: HitRegions, pos: Pos2, corner: Region)
    requires
        corner.spec_is_corner(),
        spec_hits(regions.spec_rect_of(corner), pos),
    ensures
        regions.spec_topmost_at(pos).is_some(),
        regions.spec_topmost_at(pos).unwrap().spec_is_corner(),
{
}

/// A corner under the pointer makes exactly the edges hovered that meet in
/// it, as far as they can be dragged; a corner that the pointer holds makes
/// exactly those edges dragged.
pub proof fn law_corner_feeds_both_edges(
    possible: PossibleInteractions,
    outer_rect: Rect,
    frame: Frame,
    corner: Region,
)
    requires
        corner.spec_is_corner(),
    ensures
        ({
            let i = spec_resolve_regions(possible, outer_rect, frame, Some(corner), Some(corner));
            let at_left = corner == Region::LeftTop || corner == Region::LeftBottom;
            let at_top = corner == Region::LeftTop || corner == Region::RightTop;
            &&& i.left.hover == (possible.resize_left && at_left)
            &&& i.left.drag == (possible.resize_left && at_left)
            &&& i.right.hover == (possible.resize_right && !at_left)
            &&& i.right.drag == (possible.resize_right && !at_left)
            &&& i.top.hover == (possible.resize_top && at_top)
            &&& i.top.drag == (possible.resize_top && at_top)
            &&& i.bottom.hover == (possible.resize_bottom && !at_top)
            &&& i.bottom.drag == (possible.resize_bottom && !at_top)
        }),
{
}

/// A drag of a corner whose two edges can both be dragged moves both of
/// them, each by the distance that the pointer has moved along its axis, and
/// leaves the opposite corner where it was.
pub proof fn law_corner_drag_moves_both_edges(
    possible: PossibleInteractions,
    anchor: Rect,
    frame: Frame,
    hovered: Option<Region>,
    corner: Region,
    delta: Vec2,
)
    requires
        corner.spec_is_corner(),
        possible.resize_left && possible.resize_right && possible.resize_top
            && possible.resize_bottom,
    ensures
        ({
            let i = spec_resolve_regions(possible, anchor, frame, hovered, Some(corner));
            let moved = spec_dragged_rect(anchor, i, delta);
            let x = clamp_coord(
                (if corner == Region::LeftTop || corner == Region::LeftBottom {
                    anchor.min.x
                } else {
                    anchor.max.x
                }) + delta.x,
            );
            let y = clamp_coord(
                (if corner == Region::LeftTop || corner == Region::RightTop {
                    anchor.min.y
                } else {
                    anchor.max.y
                }) + delta.y,
            );
            &&& corner == Region::LeftTop ==> moved == Rect {
                min: Pos2 { x: x as i32, y: y as i32 },
                max: anchor.max,
            }
            &&& corner == Region::RightBottom ==> moved == Rect {
                min: anchor.min,
                max: Pos2 { x: x as i32, y: y as i32 },
            }
            &&& corner == Region::RightTop ==> moved == Rect {
                min: Pos2 { x: anchor.min.x, y: y as i32 },
                max: Pos2 { x: x as i32, y: anchor.max.y },
            }
            &&& corner == Region::LeftBottom ==> moved == Rect {
                min: Pos2 { x: x as i32, y: anchor.min.y },
                max: Pos2 { x: anchor.max.x, y: y as i32 },
            }
        }),
{
}

/// The range of coordinates and extents in which no sum of a few of them
/// leaves the coordinate type.
pub open spec fn is_moderate(v: int) -> bool {
    -0x1000_0000 <= v <= 0x1000_0000
}

/// Whether both coordinates of both corners are moderate.
pub open spec fn is_moderate_rect(r: Rect) -> bool {
    is_moderate(r.min.x as int) && is_moderate(r.min.y as int) && is_moderate(r.max.x as int)
        && is_moderate(r.max.y as int)
}

/// Whether both extents are moderate.
pub open spec fn is_moderate_vec(v: Vec2) -> bool {
    is_moderate(v.x as int) && is_moderate(v.y as int)
}

/// A resize never leaves the size limits.
///
/// On every axis with a dragged edge, the content of the resized window is
/// no smaller than the least size and no larger than the greatest, however
/// close the two are, as long as the least is not above the greatest. The
/// edge that is not dragged stays where it was.
pub proof fn law_resize_keeps_size_limits(
    rect: Rect,
    interaction: ResizeInteraction,
    margins: Vec2,
    min_size: Vec2,
    max_size: Vec2,
)
    requires
        is_moderate_rect(rect),
        is_moderate_vec(margins),
        is_moderate_vec(min_size),
        min_size.x <= max_size.x,
        min_size.y <= max_size.y,
    ensures
        ({
            let out = spec_limit_size(rect, interaction, margins, min_size, max_size);
            &&& interaction.left.drag || interaction.right.drag ==> min_size.x <= out.spec_width()
                - margins.x <= max_size.x
            &&& interaction.top.drag || interaction.bottom.drag ==> min_size.y <= out.spec_height()
                - margins.y <= max_size.y
            &&& interaction.left.drag ==> out.max.x == rect.max.x
            &&& !interaction.left.drag ==> out.min.x == rect.min.x
            &&& interaction.top.drag ==> out.max.y == rect.max.y
            &&& !interaction.top.drag ==> out.min.y == rect.min.y
        }),
{
}

/// The content of a window is never settled outside the limits of its
/// frame, as long as the least size is not above the greatest.
pub proof fn law_content_keeps_size_limits(prepared: Prepared, realized: Vec2)
    requires
        prepared.limits.min_size.x <= prepared.limits.max_size.x,
        prepared.limits.min_size.y <= prepared.limits.max_size.y,
    ensures
        ({
            let size = prepared.spec_settled_content(realized);
            &&& prepared.limits.min_size.x <= size.x <= prepared.limits.max_size.x
            &&& prepared.limits.min_size.y <= size.y <= prepared.limits.max_size.y
        }),
{
}

/// The limits of a frame lie within the configured ones: the least size is
/// never lowered and the greatest never raised.
pub proof fn law_frame_limits_lie_within_configured(
    window: Window,
    is_collapsed: bool,
    input: FrameInput,
)
    ensures
        ({
            let limits = window.spec_setup(is_collapsed, input).limits;
            &&& window.resize.min_size.x <= limits.min_size.x
            &&& window.resize.min_size.y == limits.min_size.y
            &&& limits.max_size.x <= window.resize.max_size.x
            &&& limits.max_size.y <= window.resize.max_size.y
        }),
{
}

/// The content of a window that is shown is never smaller than the
/// configured least size and never larger than the configured greatest
/// size, whatever size the layout came to.
///
/// This holds as long as the frame leaves room between its limits: the
/// bounds are not too small for the least size, and the title bar is not
/// wider than the greatest.
pub proof fn law_shown_content_keeps_configured_limits(
    window: Window,
    state: WindowState,
    input: FrameInput,
    realized: Vec2,
)
    requires
        ({
            let limits = window.spec_setup(window.spec_is_collapsed(state), input).limits;
            limits.min_size.x <= limits.max_size.x && limits.min_size.y <= limits.max_size.y
        }),
    ensures
        ({
            let size = window.spec_begin(state, input).0.spec_settled_content(realized);
            &&& window.resize.min_size.x <= size.x <= window.resize.max_size.x
            &&& window.resize.min_size.y <= size.y <= window.resize.max_size.y
        }),
{
    law_frame_limits_lie_within_configured(window, window.spec_is_collapsed(state), input);
    let prepared = window.spec_begin(state, input).0;
    assert(prepared.limits == window.spec_setup(window.spec_is_collapsed(state), input).limits);
    law_content_keeps_size_limits(prepared, realized);
}

/// A rectangle that is brought into an area lies within it; one that lay
/// within it before stays as it is.
pub proof fn law_constrained_rect_is_within(window: Rect, area: Rect)
    requires
        area.spec_is_ordered(),
    ensures
        spec_constrain_window_rect_to_area(window, area).spec_is_within(area),
        window.spec_is_ordered() ==> spec_constrain_window_rect_to_area(
            window,
            area,
        ).spec_is_ordered(),
        window.spec_is_ordered() && window.spec_is_within(area)
            ==> spec_constrain_window_rect_to_area(window, area) == window,
{
}

/// A drag leaves a constrained window within its bounds: the rectangle
/// that is stored when a drag moves the window, before the layout of the
/// frame, lies within them.
pub proof fn law_dragged_rect_is_within_bounds(
    interaction: ResizeInteraction,
    delta: Vec2,
    margins: Vec2,
    resize: Resize,
    bounds: Rect,
    state: WindowState,
)
    requires
        bounds.spec_is_ordered(),
        interaction.spec_any_dragged(),
    ensures
        spec_resize_response(
            interaction,
            Some(delta),
            margins,
            resize,
            Some(bounds),
            state,
        ).outer_rect.spec_is_within(bounds),
{
    let start = spec_anchor_or(state.drag_anchor, interaction.outer_rect);
    let limited = spec_limit_size(
        spec_dragged_rect(start, interaction, delta),
        interaction,
        margins,
        resize.min_size,
        resize.max_size,
    );
    law_constrained_rect_is_within(limited, bounds);
}

/// A frame leaves a constrained window within its bounds: whatever size
/// the content came to, the rectangle that is stored for the next frame
/// lies within them.
pub proof fn law_settled_rect_is_within_bounds(
    prepared: Prepared,
    state: WindowState,
    input: FrameInput,
    realized: Vec2,
)
    requires
        prepared.bounds.is_some(),
        prepared.bounds.unwrap().spec_is_ordered(),
    ensures
        prepared.spec_end_state(state, input, realized).outer_rect.spec_is_within(
            prepared.bounds.unwrap(),
        ),
{
    let rect = Rect::spec_from_min_size(prepared.position, prepared.spec_outer_size(realized));
    law_constrained_rect_is_within(rect, prepared.bounds.unwrap());
}

/// A constrained window is stored within its bounds.
///
/// Whatever state the window was in, whatever the pointer did and whatever
/// size the content came to: the rectangle that a frame stores for a window
/// that is kept in bounds lies within those bounds.
pub proof fn law_stored_rect_is_within_bounds(
    window: Window,
    state: WindowState,
    input: FrameInput,
    realized: Vec2,
)
    requires
        window.area.constrain,
        window.area.spec_bounds(input.screen_rect).spec_is_ordered(),
    ensures
        ({
            let begun = window.spec_begin(state, input);
            begun.0.spec_end_state(begun.1, input, realized).outer_rect.spec_is_within(
                window.area.spec_bounds(input.screen_rect),
            )
        }),
{
    let begun = window.spec_begin(state, input);
    assert(begun.0.bounds == Some(window.area.spec_bounds(input.screen_rect)));
    law_settled_rect_is_within_bounds(begun.0, begun.1, input, realized);
}

proof fn lemma_zero_level_is_invisible(duration: int)
    ensures
        eased_opacity(0, false, duration) == 0,
{
    if duration > 0 {
        let c = cube(duration);
        assert(cube(0) == 0);
        assert(c > 0) by (nonlinear_arith)
            requires
                c == duration * duration * duration,
                duration > 0,
        ;
        assert(0int / c == 0) by (nonlinear_arith)
            requires
                c > 0,
        ;
    }
}

/// The fade after a run of frames in which the window should be closed.
/// `steps` holds the time steps of each frame.
pub open spec fn spec_closing_frames(fade: Fade, steps: Seq<u16>, duration: u16) -> Fade
    decreases steps.len(),
{
    if steps.len() == 0 {
        fade
    } else {
        spec_closing_frames(fade.spec_step(false, steps[0], duration), steps.drop_first(), duration)
    }
}

proof fn lemma_closing_frames_reach_zero(level: u16, steps: Seq<u16>, duration: u16, bound: nat)
    requires
        level <= bound,
        steps.len() >= bound,
        forall|i: int| 0 <= i < steps.len() ==> steps[i] >= 1,
    ensures
        spec_closing_frames(Fade { level: Some(level) }, steps, duration).level == Some(0u16),
    decreases steps.len(),
{
    if steps.len() == 0 {
    } else {
        let next = stepped_level(level as int, false, steps[0] as int, duration as int);
        assert(next == 0 || next < level);
        assert forall|i: int| 0 <= i < steps.drop_first().len() implies steps.drop_first()[i]
            >= 1 by {
            assert(steps.drop_first()[i] == steps[i + 1]);
        }
        if next == 0 {
            lemma_closing_frames_reach_zero(0, steps.drop_first(), duration, 0);
        } else {
            lemma_closing_frames_reach_zero(
                next as u16,
                steps.drop_first(),
                duration,
                (bound - 1) as nat,
            );
        }
    }
}

/// A closed window fades out in a bounded number of frames.
///
/// From whatever level the fade stands at, once the window has been due to
/// be closed for as many frames as the fade is long, and for one at least,
/// each frame advancing time by a step or more, its opacity is exactly 0.
/// It is 0 in every later frame as well: such a window is skipped, frame
/// after frame, until its flag opens it again.
pub proof fn law_closed_window_fades_out(fade: Fade, steps: Seq<u16>, duration: u16)
    requires
        steps.len() >= 1,
        steps.len() >= duration,
        forall|i: int| 0 <= i < steps.len() ==> steps[i] >= 1,
    ensures
        spec_closing_frames(fade, steps, duration).level == Some(0u16),
        spec_closing_frames(fade, steps, duration).spec_opacity(false, duration) == 0,
{
    let first = fade.spec_step(false, steps[0], duration);
    assert(first.level.is_some() && first.level.unwrap() <= duration);
    assert forall|i: int| 0 <= i < steps.drop_first().len() implies steps.drop_first()[i] >= 1 by {
        assert(steps.drop_first()[i] == steps[i + 1]);
    }
    let l = first.level.unwrap();
    if l == 0 {
        lemma_closing_frames_reach_zero(0, steps.drop_first(), duration, 0);
    } else {
        assert(l <= duration - 1) by {
            if fade.level.is_some() {
                let from = fade.level.unwrap();
                assert(l == stepped_level(from as int, false, steps[0] as int, duration as int));
            }
        }
        lemma_closing_frames_reach_zero(l, steps.drop_first(), duration, (duration - 1) as nat);
    }
    assert(first == Fade { level: Some(l) });
    lemma_zero_level_is_invisible(duration as int);
}

/// A window that has faded out and is still due to be closed is not shown.
pub proof fn law_faded_window_is_skipped(window: Window, state: WindowState, input: FrameInput)
    requires
        state.fade.level == Some(0u16),
        !window.spec_is_open(input),
    ensures
        window.spec_opacity(state, input) == 0,
{
    let d = input.style.fade_duration as int;
    assert(stepped_level(0, false, input.dt as int, d) == 0);
    lemma_zero_level_is_invisible(d);
}

/// A double click collapses or expands a window exactly where the window
/// can be collapsed and the double click lands on the title bar, clear of
/// the band at either end of it. It does nothing to a window that cannot
/// be collapsed, and nothing from within a band or from off the title bar.
pub proof fn law_double_click_toggles_collapsible(
    bar: TitleBar,
    collapsible: bool,
    input: ClickInput,
    pos: Pos2,
)
    requires
        input.double_click == Some(pos),
    ensures
        bar.toggles(collapsible, input) <==> collapsible && bar.inner_rect.min.y <= pos.y
            <= bar.inner_rect.max.y && clamp_coord(bar.inner_rect.min.x + DOUBLE_CLICK_INSET)
            <= pos.x <= clamp_coord(bar.inner_rect.max.x - DOUBLE_CLICK_INSET),
        bar.inner_rect.spec_contains(pos) && bar.inner_rect.min.x + DOUBLE_CLICK_INSET <= pos.x
            <= bar.inner_rect.max.x - DOUBLE_CLICK_INSET ==> bar.toggles(collapsible, input)
            == collapsible,
{
}

/// Whether two frames see the same style, screen and title.
pub open spec fn same_surroundings(first: FrameInput, second: FrameInput) -> bool {
    second.style == first.style && second.screen_rect == first.screen_rect && second.title_size
        == first.title_size
}

/// Whether what pins or anchors a window, if anything does, is of moderate
/// coordinates: the position that is set, or the offset of the anchor and
/// the screen that it aligns the window on.
pub open spec fn is_moderate_pin(area: Area, screen: Rect) -> bool {
    &&& area.new_pos.is_some() ==> is_moderate(area.new_pos.unwrap().x as int) && is_moderate(
        area.new_pos.unwrap().y as int,
    )
    &&& area.anchor.is_some() ==> is_moderate_vec(area.anchor.unwrap().offset)
        && is_moderate_rect(screen)
}

/// A frame in which the pointer's button is up drags nothing: no edge is
/// dragged, the pointer holds no region and no anchor after it, and the
/// window stands where its configuration puts the rectangle of the last
/// frame.
pub proof fn law_quiet_frame_moves_nothing(window: Window, state: WindowState, input: FrameInput)
    requires
        !input.pointer.pressed,
        !input.pointer.down,
    ensures
        ({
            let setup = window.spec_setup(window.spec_is_collapsed(state), input);
            &&& !window.spec_interaction(setup, state, input).spec_any_dragged()
            &&& window.spec_interact(setup, state, input) == (WindowState {
                outer_rect: window.area.spec_place(state.outer_rect, input.screen_rect),
                grabbed: None,
                drag_anchor: None,
                ..state
            })
        }),
{
}

/// The refined title bar spans the whole width of the window: its left and
/// right edges are those of the outer rectangle, border included. It is as
/// high as the metrics say, as far as the coordinates reach.
pub proof fn law_refined_title_bar_spans_the_outer_width(
    frame: Frame,
    outer_rect: Rect,
    height: i32,
)
    ensures
        TitleBar::refined_rect(frame, outer_rect, height).min.x == outer_rect.min.x,
        TitleBar::refined_rect(frame, outer_rect, height).max.x == outer_rect.max.x,
        TitleBar::refined_rect(frame, outer_rect, height).spec_width() == outer_rect.spec_width(),
        is_moderate(outer_rect.min.y as int) && is_moderate(height as int) ==> TitleBar::refined_rect(
            frame,
            outer_rect,
            height,
        ).spec_height() == height,
{
}

/// The title bar of a frame spans the whole width of the rectangle that
/// the frame stores, whatever size the content came to.
pub proof fn law_title_bar_spans_the_stored_rect(prepared: Prepared, realized: Vec2)
    requires
        prepared.title_bar.is_some(),
    ensures
        ({
            let bar = prepared.spec_refined_title_bar(realized).unwrap().inner_rect;
            let outer = prepared.spec_outer_rect(realized);
            bar.min.x == outer.min.x && bar.max.x == outer.max.x
        }),
{
}

/// The position from which the next frame starts where nothing is dragged:
/// the upper left corner of the rectangle that this frame stores, put
/// where the configuration of the window puts it.
pub open spec fn spec_next_position(prepared: Prepared, realized: Vec2) -> Pos2 {
    prepared.area.spec_place(prepared.spec_outer_rect(realized), prepared.screen_rect).min
}

/// A range of coordinates that holds every sum of a moderate position, a
/// moderate offset and two moderate extents, and from which a moderate
/// extent can still be added without leaving the coordinate type.
spec fn is_ample(v: int) -> bool {
    -0x5000_0000 <= v <= 0x5000_0000
}

spec fn is_ample_pos(p: Pos2) -> bool {
    is_ample(p.x as int) && is_ample(p.y as int)
}

/// The extents of a rectangle between two moderate corners, at the most.
spec fn is_wide_vec(v: Vec2) -> bool {
    -0x2000_0000 <= v.x <= 0x2000_0000 && -0x2000_0000 <= v.y <= 0x2000_0000
}

proof fn lemma_sized(pos: Pos2, size: Vec2)
    requires
        is_ample_pos(pos),
        is_moderate_vec(size),
    ensures
        Rect::spec_from_min_size(pos, size).spec_size() == size,
        Rect::spec_from_min_size(pos, size).min == pos,
{
}

proof fn lemma_pinned_place(area: Area, rect: Rect, screen: Rect)
    requires
        area.spec_is_pinned(),
        is_moderate_pin(area, screen),
        is_wide_vec(rect.spec_size()),
    ensures
        area.spec_place(rect, screen).spec_size() == rect.spec_size(),
        is_ample_pos(area.spec_place(rect, screen).min),
{
}

proof fn lemma_place_sees_size_only(area: Area, a: Rect, b: Rect, screen: Rect)
    requires
        area.spec_is_pinned(),
        a.spec_size() == b.spec_size(),
    ensures
        area.spec_place(a, screen) == area.spec_place(b, screen),
{
}

proof fn lemma_constrained_stays_ample(rect: Rect, bounds: Rect)
    requires
        is_ample_pos(rect.min),
        is_moderate_vec(rect.spec_size()),
        rect.spec_width() == rect.spec_size().x,
        rect.spec_height() == rect.spec_size().y,
        is_moderate_rect(bounds),
    ensures
        is_wide_vec(spec_constrain_window_rect_to_area(rect, bounds).spec_size()),
        is_ample_pos(spec_constrain_window_rect_to_area(rect, bounds).min),
{
}

proof fn lemma_constrain_again(pos: Pos2, size: Vec2, bounds: Rect)
    requires
        is_ample_pos(pos),
        is_moderate_vec(size),
        is_moderate_rect(bounds),
    ensures
        ({
            let once = spec_constrain_window_rect_to_area(
                Rect::spec_from_min_size(pos, size),
                bounds,
            );
            spec_constrain_window_rect_to_area(Rect::spec_from_min_size(once.min, size), bounds)
                == once
        }),
{
}

/// Settling a window twice is settling it once: a window that starts the
/// next frame from where this frame stored it, with content of the same
/// size, is stored in the same rectangle again.
///
/// This holds of windows of moderate position and size, pinned by moderate
/// coordinates if they are pinned, and kept in bounds of moderate
/// coordinates if they are constrained.
#[verifier::rlimit(50)]
pub proof fn law_settling_is_idempotent(prepared: Prepared, realized: Vec2)
    requires
        is_moderate(prepared.position.x as int),
        is_moderate(prepared.position.y as int),
        is_moderate_vec(prepared.spec_outer_size(realized)),
        is_moderate_pin(prepared.area, prepared.screen_rect),
        prepared.bounds.is_some() ==> is_moderate_rect(prepared.bounds.unwrap()),
    ensures
        (Prepared {
            position: spec_next_position(prepared, realized),
            ..prepared
        }).spec_outer_rect(realized) == prepared.spec_outer_rect(realized),
{
    let area = prepared.area;
    let screen = prepared.screen_rect;
    let size = prepared.spec_outer_size(realized);
    let sized = Rect::spec_from_min_size(prepared.position, size);
    let placed = prepared.spec_placed_rect(realized);
    let settled = prepared.spec_outer_rect(realized);
    let next = spec_next_position(prepared, realized);
    let again = Prepared { position: next, ..prepared };
    let sized_again = Rect::spec_from_min_size(next, size);
    assert(again.spec_outer_size(realized) == size);
    assert(again.spec_placed_rect(realized) == area.spec_place(sized_again, screen));
    lemma_sized(prepared.position, size);
    if area.spec_is_pinned() {
        lemma_pinned_place(area, sized, screen);
        if prepared.bounds.is_some() {
            lemma_constrained_stays_ample(placed, prepared.bounds.unwrap());
        }
        lemma_pinned_place(area, settled, screen);
        lemma_sized(next, size);
        lemma_place_sees_size_only(area, sized, sized_again, screen);
    } else {
        assert(placed == sized);
        assert(next == settled.min);
        assert(area.spec_place(sized_again, screen) == sized_again);
        if prepared.bounds.is_some() {
            lemma_constrain_again(prepared.position, size, prepared.bounds.unwrap());
        }
    }
}

/// Whether the left edge, and no other, is dragged.
pub open spec fn only_left_dragged(interaction: ResizeInteraction) -> bool {
    interaction.left.drag && !interaction.top.drag && !interaction.bottom.drag
}

/// Whether a drag of the left edge by `delta` would leave the content of a
/// window that stood at `start`, and was no narrower than its least width,
/// narrower than that.
pub open spec fn drags_past_the_least_width(
    start: Rect,
    delta: Vec2,
    margins: Vec2,
    resize: Resize,
) -> bool {
    &&& resize.min_size.x <= start.spec_width() - margins.x
    &&& start.spec_width() - delta.x - margins.x <= resize.min_size.x
    &&& resize.min_size.x <= resize.max_size.x
}

/// A drag of the left edge past the least width stops at the least width.
///
/// Where the left edge of a window is dragged so far to the right that its
/// content would become narrower than the least width, the rectangle that
/// is stored has content of exactly the least width. Its right edge, its
/// upper edge and its lower edge are where they were when the drag began.
/// This holds of a window of moderate coordinates that lay within its
/// bounds, if it has any, when the drag began.
pub proof fn law_left_drag_stops_at_the_least_width(
    interaction: ResizeInteraction,
    delta: Vec2,
    margins: Vec2,
    resize: Resize,
    bounds: Option<Rect>,
    state: WindowState,
)
    requires
        only_left_dragged(interaction),
        drags_past_the_least_width(
            spec_anchor_or(state.drag_anchor, interaction.outer_rect),
            delta,
            margins,
            resize,
        ),
        spec_anchor_or(state.drag_anchor, interaction.outer_rect).spec_is_ordered(),
        is_moderate_rect(spec_anchor_or(state.drag_anchor, interaction.outer_rect)),
        is_moderate_vec(margins),
        is_moderate_vec(resize.min_size),
        is_moderate_vec(delta),
        bounds.is_some() ==> bounds.unwrap().spec_is_ordered() && spec_anchor_or(
            state.drag_anchor,
            interaction.outer_rect,
        ).spec_is_within(bounds.unwrap()),
    ensures
        ({
            let start = spec_anchor_or(state.drag_anchor, interaction.outer_rect);
            let stored = spec_resize_response(
                interaction,
                Some(delta),
                margins,
                resize,
                bounds,
                state,
            );
            &&& stored.outer_rect.spec_width() - margins.x == resize.min_size.x
            &&& stored.outer_rect.max == start.max
            &&& stored.outer_rect.min.y == start.min.y
            &&& stored.requested_size == Some(
                Vec2 { x: resize.min_size.x, y: (start.spec_height() - margins.y) as i32 },
            )
            &&& bounds.is_some() ==> spec_constrain_window_rect_to_area(
                stored.outer_rect,
                bounds.unwrap(),
            ) == stored.outer_rect
        }),
{
    let start = spec_anchor_or(state.drag_anchor, interaction.outer_rect);
    let dragged = spec_dragged_rect(start, interaction, delta);
    let limited = spec_limit_size(dragged, interaction, margins, resize.min_size, resize.max_size);
    assert(limited.max == start.max);
    assert(limited.min.y == start.min.y);
    assert(limited.min.x == start.max.x - (resize.min_size.x + margins.x));
    if bounds.is_some() {
        assert(spec_constrain_window_rect_to_area(limited, bounds.unwrap()) == limited);
    }
}

proof fn lemma_begin_unfolds(window: Window, state: WindowState, input: FrameInput)
    ensures
        ({
            let begun = window.spec_begin(state, input);
            let setup = window.spec_setup(window.spec_is_collapsed(state), input);
            let faded = WindowState {
                fade: state.fade.spec_step(
                    window.spec_is_open(input),
                    input.dt,
                    input.style.fade_duration,
                ),
                ..state
            };
            let after = window.spec_interact(setup, faded, input);
            let wanted = match after.requested_size {
                Some(v) => v,
                None => after.content_size,
            };
            &&& begun.0.interaction == window.spec_interaction(setup, faded, input)
            &&& begun.0.position == after.outer_rect.min
            &&& begun.0.is_collapsed == window.spec_is_collapsed(state)
            &&& begun.0.possible == setup.possible
            &&& begun.0.limits == setup.limits
            &&& begun.0.margins == setup.margins
            &&& begun.0.bounds == setup.bounds
            &&& begun.0.area == window.area
            &&& begun.0.content_size == wanted.spec_at_least(setup.limits.min_size).spec_at_most(
                setup.limits.max_size,
            )
            &&& begun.1 == WindowState { requested_size: None, ..after }
        }),
{
    let faded = WindowState {
        fade: state.fade.spec_step(
            window.spec_is_open(input),
            input.dt,
            input.style.fade_duration,
        ),
        ..state
    };
    assert(window.spec_is_collapsed(faded) == window.spec_is_collapsed(state));
}

proof fn lemma_left_drag_needs_an_expanded_window(
    window: Window,
    state: WindowState,
    input: FrameInput,
)
    requires
        window.spec_interaction(
            window.spec_setup(window.spec_is_collapsed(state), input),
            state,
            input,
        ).left.drag,
    ensures
        !window.spec_is_collapsed(state),
        window.spec_interaction(
            window.spec_setup(window.spec_is_collapsed(state), input),
            state,
            input,
        ).outer_rect == window.area.spec_place(state.outer_rect, input.screen_rect),
{
}

proof fn lemma_settles_on_the_stored_rect(prepared: Prepared, rect: Rect)
    requires
        !prepared.is_collapsed,
        !prepared.area.spec_is_pinned(),
        prepared.position == rect.min,
        is_ample_pos(rect.min),
        is_wide_vec(Vec2 { x: rect.spec_width() as i32, y: rect.spec_height() as i32 }),
        -0x2000_0000 <= rect.spec_width() <= 0x2000_0000,
        -0x2000_0000 <= rect.spec_height() <= 0x2000_0000,
        is_moderate_vec(prepared.margins),
        prepared.content_size == rect.spec_size().spec_minus(prepared.margins),
        prepared.limits.min_size.x <= prepared.content_size.x <= prepared.limits.max_size.x,
        prepared.limits.min_size.y <= prepared.content_size.y <= prepared.limits.max_size.y,
        prepared.bounds.is_some() ==> spec_constrain_window_rect_to_area(
            rect,
            prepared.bounds.unwrap(),
        ) == rect,
    ensures
        prepared.spec_settled_content(prepared.content_size) == prepared.content_size,
        prepared.spec_outer_rect(prepared.content_size) == rect,
{
    let room = prepared.content_size;
    assert(prepared.spec_settled_content(room) == room);
    assert(prepared.spec_outer_size(room) == rect.spec_size());
    assert(Rect::spec_from_min_size(rect.min, rect.spec_size()) == rect);
    assert(prepared.spec_placed_rect(room) == rect);
}

/// A drag of the left edge past the least width, through a whole frame.
///
/// Where the left edge of a window that nothing pins is dragged so far to
/// the right that its content would become narrower than the least width
/// of the frame, the frame settles the content at exactly that width and
/// at the height it had, and stores a rectangle whose right, upper and
/// lower edges are where they were when the drag began. The least width of
/// the frame is the configured one unless the title bar is wider.
///
/// This holds of a window of moderate coordinates that lay within its
/// bounds, if it has any, when the drag began, and whose content was within
/// the limits of its height.
#[verifier::rlimit(50)]
pub proof fn law_left_drag_past_the_least_width_through_a_frame(
    window: Window,
    state: WindowState,
    input: FrameInput,
    delta: Vec2,
)
    requires
        input.pointer.total_drag_delta == Some(delta),
        !window.area.spec_is_pinned(),
        only_left_dragged(window.spec_begin(state, input).0.interaction),
        ({
            let shown = window.spec_begin(state, input).0;
            let start = spec_anchor_or(state.drag_anchor, state.outer_rect);
            &&& drags_past_the_least_width(start, delta, shown.margins, shown.limits)
            &&& shown.limits.min_size.y <= start.spec_height() - shown.margins.y
                <= shown.limits.max_size.y
            &&& start.spec_is_ordered()
            &&& is_moderate_rect(start)
            &&& is_moderate_vec(shown.margins)
            &&& is_moderate_vec(shown.limits.min_size)
            &&& is_moderate_vec(delta)
            &&& shown.bounds.is_some() ==> shown.bounds.unwrap().spec_is_ordered()
                && start.spec_is_within(shown.bounds.unwrap())
        }),
    ensures
        ({
            let shown = window.spec_begin(state, input).0;
            let start = spec_anchor_or(state.drag_anchor, state.outer_rect);
            let stored = spec_shown_state(window, state, input);
            let setup = window.spec_setup(window.spec_is_collapsed(state), input);
            &&& shown.content_size.x == shown.limits.min_size.x
            &&& shown.content_size.y == start.spec_height() - shown.margins.y
            &&& stored.content_size == shown.content_size
            &&& stored.outer_rect.spec_width() - shown.margins.x == shown.limits.min_size.x
            &&& stored.outer_rect.max == start.max
            &&& stored.outer_rect.min.y == start.min.y
            &&& setup.title_size.x <= window.resize.min_size.x ==> shown.content_size.x
                == window.resize.min_size.x
        }),
{
    let begun = window.spec_begin(state, input);
    let shown = begun.0;
    let start = spec_anchor_or(state.drag_anchor, state.outer_rect);
    let setup = window.spec_setup(window.spec_is_collapsed(state), input);
    let faded = WindowState {
        fade: state.fade.spec_step(
            window.spec_is_open(input),
            input.dt,
            input.style.fade_duration,
        ),
        ..state
    };
    lemma_begin_unfolds(window, state, input);
    let interaction = window.spec_interaction(setup, faded, input);
    assert(window.spec_is_collapsed(faded) == window.spec_is_collapsed(state));
    lemma_left_drag_needs_an_expanded_window(window, faded, input);
    assert(interaction.outer_rect == state.outer_rect);
    let before = WindowState {
        outer_rect: state.outer_rect,
        grabbed: begun.1.grabbed,
        ..faded
    };
    let after = spec_resize_response(
        interaction,
        Some(delta),
        setup.margins,
        setup.limits,
        setup.bounds,
        before,
    );
    assert(window.spec_interact(setup, faded, input) == after);
    law_left_drag_stops_at_the_least_width(
        interaction,
        delta,
        setup.margins,
        setup.limits,
        setup.bounds,
        before,
    );
    let rect = after.outer_rect;
    assert(rect.max == start.max && rect.min.y == start.min.y);
    assert(rect.min.x == start.max.x - (setup.limits.min_size.x + setup.margins.x));
    assert(after.requested_size == Some(rect.spec_size().spec_minus(setup.margins)));
    assert(shown.content_size == rect.spec_size().spec_minus(setup.margins));
    assert(rect.spec_width() == setup.limits.min_size.x + setup.margins.x);
    assert(rect.spec_height() == start.spec_height());
    lemma_settles_on_the_stored_rect(shown, rect);
    law_frame_limits_lie_within_configured(window, window.spec_is_collapsed(state), input);
}

/// The state after a frame whose content came to `realized`.
pub open spec fn spec_frame_state(
    window: Window,
    state: WindowState,
    input: FrameInput,
    realized: Vec2,
) -> WindowState {
    let begun = window.spec_begin(state, input);
    begun.0.spec_end_state(begun.1, input, realized)
}

/// The state after a frame that shows the window with content that fills
/// the room it is offered.
pub open spec fn spec_shown_state(window: Window, state: WindowState, input: FrameInput) -> WindowState {
    let begun = window.spec_begin(state, input);
    begun.0.spec_end_state(begun.1, input, begun.0.content_size)
}

/// Whether the window of a frame is of moderate position and size, pinned
/// by moderate coordinates if it is pinned, and kept in bounds of moderate
/// coordinates if it is constrained.
pub open spec fn is_moderate_frame(prepared: Prepared, realized: Vec2) -> bool {
    &&& is_moderate(prepared.position.x as int)
    &&& is_moderate(prepared.position.y as int)
    &&& is_moderate_vec(prepared.spec_outer_size(realized))
    &&& is_moderate_pin(prepared.area, prepared.screen_rect)
    &&& prepared.bounds.is_some() ==> is_moderate_rect(prepared.bounds.unwrap())
}

proof fn lemma_undragged_begin(window: Window, state: WindowState, input: FrameInput)
    requires
        !window.spec_begin(state, input).0.to_front,
    ensures
        ({
            let begun = window.spec_begin(state, input);
            let setup = window.spec_setup(window.spec_is_collapsed(state), input);
            let wanted = match state.requested_size {
                Some(v) => v,
                None => state.content_size,
            };
            &&& begun.0.position == window.area.spec_place(
                state.outer_rect,
                input.screen_rect,
            ).min
            &&& begun.0.is_collapsed == window.spec_is_collapsed(state)
            &&& begun.0.limits == setup.limits
            &&& begun.0.margins == setup.margins
            &&& begun.0.title_size == setup.title_size
            &&& begun.0.window_frame == setup.window_frame
            &&& begun.0.bounds == setup.bounds
            &&& begun.0.area == window.area
            &&& begun.0.screen_rect == input.screen_rect
            &&& begun.0.content_size == wanted.spec_at_least(setup.limits.min_size).spec_at_most(
                setup.limits.max_size,
            )
            &&& begun.1.requested_size == None::<Vec2>
            &&& begun.1.content_size == state.content_size
            &&& begun.1.collapse == state.collapse
        }),
{
    let faded = WindowState {
        fade: state.fade.spec_step(
            window.spec_is_open(input),
            input.dt,
            input.style.fade_duration,
        ),
        ..state
    };
    assert(window.spec_is_collapsed(faded) == window.spec_is_collapsed(state));
}

proof fn lemma_setup_sees_surroundings_only(
    window: Window,
    is_collapsed: bool,
    first: FrameInput,
    second: FrameInput,
)
    requires
        same_surroundings(first, second),
    ensures
        window.spec_setup(is_collapsed, second) == window.spec_setup(is_collapsed, first),
{
}

proof fn lemma_outer_rect_of_equal_frames(first: Prepared, second: Prepared, a: Vec2, b: Vec2)
    requires
        second.position == first.position,
        second.is_collapsed == first.is_collapsed,
        second.limits == first.limits,
        second.margins == first.margins,
        second.title_size == first.title_size,
        second.window_frame == first.window_frame,
        second.bounds == first.bounds,
        second.area == first.area,
        second.screen_rect == first.screen_rect,
        first.is_collapsed || first.spec_settled_content(a) == second.spec_settled_content(b),
    ensures
        second.spec_outer_rect(b) == first.spec_outer_rect(a),
{
    assert(second.spec_outer_size(b) == first.spec_outer_size(a));
}

/// Showing a window twice stores the same rectangle twice.
///
/// Two frames in a row under the same style, screen and title, with content
/// that comes to the same size, in neither of which a drag moves the window
/// and in the first of which nothing collapses or expands it, leave the
/// window in the rectangle that the first of them stored. This holds of
/// every configuration, pinned and anchored windows included, as long as
/// the window is of moderate position and size.
#[verifier::rlimit(50)]
pub proof fn law_idle_frames_keep_the_rect(
    window: Window,
    state: WindowState,
    first: FrameInput,
    second: FrameInput,
    realized: Vec2,
)
    requires
        same_surroundings(first, second),
        !window.spec_begin(state, first).0.to_front,
        !window.spec_begin(state, first).0.spec_toggled(first, realized),
        !window.spec_begin(spec_frame_state(window, state, first, realized), second).0.to_front,
        is_moderate_frame(window.spec_begin(state, first).0, realized),
    ensures
        spec_frame_state(
            window,
            spec_frame_state(window, state, first, realized),
            second,
            realized,
        ).outer_rect == spec_frame_state(window, state, first, realized).outer_rect,
{
    let shown = window.spec_begin(state, first).0;
    let stored = spec_frame_state(window, state, first, realized);
    lemma_undragged_begin(window, state, first);
    assert(stored.collapse == state.collapse);
    assert(window.spec_is_collapsed(stored) == window.spec_is_collapsed(state));
    assert(stored.outer_rect == shown.spec_outer_rect(realized));

    let reshown = window.spec_begin(stored, second).0;
    lemma_undragged_begin(window, stored, second);
    lemma_setup_sees_surroundings_only(window, window.spec_is_collapsed(state), first, second);
    assert(reshown.position == spec_next_position(shown, realized));
    let again = Prepared { position: reshown.position, ..shown };
    lemma_outer_rect_of_equal_frames(again, reshown, realized, realized);
    law_settling_is_idempotent(shown, realized);
}

/// Showing a window twice with content that fills its room stores the same
/// rectangle twice.
///
/// This is the law above for content that takes the size it is offered, as
/// [`Window::show`] lays it out.
#[verifier::rlimit(50)]
pub proof fn law_idle_shows_keep_the_rect(
    window: Window,
    state: WindowState,
    first: FrameInput,
    second: FrameInput,
)
    requires
        same_surroundings(first, second),
        !window.spec_begin(state, first).0.to_front,
        !window.spec_begin(state, first).0.spec_toggled(
            first,
            window.spec_begin(state, first).0.content_size,
        ),
        !window.spec_begin(spec_shown_state(window, state, first), second).0.to_front,
        is_moderate_frame(
            window.spec_begin(state, first).0,
            window.spec_begin(state, first).0.content_size,
        ),
    ensures
        spec_shown_state(window, spec_shown_state(window, state, first), second).outer_rect
            == spec_shown_state(window, state, first).outer_rect,
{
    let shown = window.spec_begin(state, first).0;
    let room = shown.content_size;
    let stored = spec_shown_state(window, state, first);
    lemma_undragged_begin(window, state, first);
    assert(stored.collapse == state.collapse);
    assert(window.spec_is_collapsed(stored) == window.spec_is_collapsed(state));
    assert(stored.outer_rect == shown.spec_outer_rect(room));
    assert(shown.spec_settled_content(room) == room);

    let reshown = window.spec_begin(stored, second).0;
    lemma_undragged_begin(window, stored, second);
    lemma_setup_sees_surroundings_only(window, window.spec_is_collapsed(state), first, second);
    assert(reshown.position == spec_next_position(shown, room));
    if !shown.is_collapsed {
        assert(stored.content_size == room);
        assert(reshown.content_size == room);
    }
    let again = Prepared { position: reshown.position, ..shown };
    lemma_outer_rect_of_equal_frames(again, reshown, room, reshown.content_size);
    law_settling_is_idempotent(shown, room);
}

} // verus!
