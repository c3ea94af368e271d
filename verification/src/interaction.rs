//! Which edges of a window can be dragged, which of them the pointer hovers
//! or drags, and what a drag does to the outer rectangle.

use vstd::prelude::*;
use crate::align::Align;
use crate::config::{Area, Resize};
use crate::geometry::{clamp_between, clamp_coord, saturate, Pos2, Rect, Vec2};
use crate::state::WindowState;
use crate::style::Frame;

verus! {

/// Which edges of a window may be dragged this frame.
#[derive(Clone, Copy, Debug, PartialEq, Eq, Structural)]
pub struct PossibleInteractions {
    pub resize_left: bool,
    pub resize_right: bool,
    pub resize_top: bool,
    pub resize_bottom: bool,
}

impl PossibleInteractions {
    /// An edge can be dragged where the window is enabled and expanded, its
    /// axis is resizable, and the edge is free to move: the window is
    /// movable, or its pivot does not hold that edge in place.
    pub open spec fn spec_new(area: Area, resize: Resize, is_collapsed: bool) -> PossibleInteractions {
        let movable = area.enabled && area.movable;
        let on = area.enabled && !is_collapsed;
        let pivot = area.spec_get_pivot();
        PossibleInteractions {
            resize_left: resize.resizable.x && on && (movable || pivot.x != Align::Min),
            resize_right: resize.resizable.x && on && (movable || pivot.x != Align::Max),
            resize_top: resize.resizable.y && on && (movable || pivot.y != Align::Min),
            resize_bottom: resize.resizable.y && on && (movable || pivot.y != Align::Max),
        }
    }

    pub fn new(area: &Area, resize: &Resize, is_collapsed: bool) -> (p: PossibleInteractions)
        ensures
            p == PossibleInteractions::spec_new(*area, *resize, is_collapsed),
    {
        let movable = area.is_enabled() && area.is_movable();
        let resizable = resize.is_resizable().and(area.is_enabled() && !is_collapsed);
        let pivot = area.get_pivot();
        PossibleInteractions {
            resize_left: resizable.x && (movable || pivot.x() != Align::Min),
            resize_right: resizable.x && (movable || pivot.x() != Align::Max),
            resize_top: resizable.y && (movable || pivot.y() != Align::Min),
            resize_bottom: resizable.y && (movable || pivot.y() != Align::Max),
        }
    }

    pub open spec fn spec_none() -> PossibleInteractions {
        PossibleInteractions {
            resize_left: false,
            resize_right: false,
            resize_top: false,
            resize_bottom: false,
        }
    }

    pub open spec fn spec_resizable(&self) -> bool {
        self.resize_left || self.resize_right || self.resize_top || self.resize_bottom
    }

    /// Whether any edge can be dragged.
    #[verifier::when_used_as_spec(spec_resizable)]
    pub fn resizable(&self) -> (b: bool)
        ensures
            b == self.spec_resizable(),
    {
        self.resize_left || self.resize_right || self.resize_top || self.resize_bottom
    }
}

/// Whether the pointer hovers one edge of the window, and whether it drags it.
#[derive(Clone, Copy, Debug, PartialEq, Eq, Structural)]
pub struct SideResponse {
    pub hover: bool,
    pub drag: bool,
}

impl SideResponse {
    pub open spec fn spec_none() -> SideResponse {
        SideResponse { hover: false, drag: false }
    }

    /// Neither hovered nor dragged.
    #[verifier::when_used_as_spec(spec_none)]
    pub fn none() -> (r: SideResponse)
        ensures
            r == SideResponse::spec_none(),
    {
        SideResponse { hover: false, drag: false }
    }

    pub open spec fn spec_any(&self) -> bool {
        self.hover || self.drag
    }

    /// Whether the edge is hovered or dragged.
    #[verifier::when_used_as_spec(spec_any)]
    pub fn any(&self) -> (b: bool)
        ensures
            b == self.spec_any(),
    {
        self.hover || self.drag
    }

    /// What holds of both responses: the state of a corner that needs both
    /// of its edges.
    pub open spec fn spec_both(self, rhs: SideResponse) -> SideResponse {
        SideResponse { hover: self.hover && rhs.hover, drag: self.drag && rhs.drag }
    }

    #[verifier::when_used_as_spec(spec_both)]
    pub fn both(self, rhs: SideResponse) -> (r: SideResponse)
        ensures
            r == self.spec_both(rhs),
    {
        SideResponse { hover: self.hover && rhs.hover, drag: self.drag && rhs.drag }
    }

    /// What holds of either response: several hit regions that feed one edge.
    pub open spec fn spec_either(self, rhs: SideResponse) -> SideResponse {
        SideResponse { hover: self.hover || rhs.hover, drag: self.drag || rhs.drag }
    }

    #[verifier::when_used_as_spec(spec_either)]
    pub fn either(self, rhs: SideResponse) -> (r: SideResponse)
        ensures
            r == self.spec_either(rhs),
    {
        SideResponse { hover: self.hover || rhs.hover, drag: self.drag || rhs.drag }
    }
}

/// One of the eight regions around a window that the pointer can grab.
///
/// The variants stand in the order in which the regions are laid down: the
/// four sides first, the four corners on top of them.
#[derive(Clone, Copy, Debug, PartialEq, Eq, Structural)]
pub enum Region {
    Right,
    Left,
    Bottom,
    Top,
    RightBottom,
    RightTop,
    LeftBottom,
    LeftTop,
}

impl Region {
    pub open spec fn spec_is_corner(self) -> bool {
        self == Region::RightBottom || self == Region::RightTop || self == Region::LeftBottom
            || self == Region::LeftTop
    }

    /// Whether the region is one of the four corners.
    #[verifier::when_used_as_spec(spec_is_corner)]
    pub fn is_corner(self) -> (b: bool)
        ensures
            b == self.spec_is_corner(),
    {
        match self {
            Region::RightBottom | Region::RightTop | Region::LeftBottom | Region::LeftTop => true,
            _ => false,
        }
    }
}

/// The cursor that tells the user what a drag would resize.
#[derive(Clone, Copy, Debug, PartialEq, Eq, Structural)]
pub enum CursorIcon {
    /// From north-west to south-east.
    ResizeNwSe,
    /// From north-east to south-west.
    ResizeNeSw,
    ResizeHorizontal,
    ResizeVertical,
}

/// The hit rectangle of every region that is laid down this frame.
#[derive(Clone, Copy, Debug, PartialEq, Eq, Structural)]
pub struct HitRegions {
    pub right: Option<Rect>,
    pub left: Option<Rect>,
    pub bottom: Option<Rect>,
    pub top: Option<Rect>,
    pub right_bottom: Option<Rect>,
    pub right_top: Option<Rect>,
    pub left_bottom: Option<Rect>,
    pub left_top: Option<Rect>,
}

/// Whether a region is laid down and `pos` lies in it.
pub open spec fn spec_hits(rect: Option<Rect>, pos: Pos2) -> bool {
    match rect {
        Some(r) => r.spec_contains(pos),
        None => false,
    }
}

#[verifier::when_used_as_spec(spec_hits)]
pub fn hits(rect: Option<Rect>, pos: Pos2) -> (b: bool)
    ensures
        b == spec_hits(rect, pos),
{
    match rect {
        Some(r) => r.contains(pos),
        None => false,
    }
}

/// The rectangle in the middle of the border stroke.
pub open spec fn stroke_center(outer_rect: Rect, frame: Frame) -> Rect {
    outer_rect.spec_shrink(frame.stroke.spec_half_width())
}

/// The hit rectangle of a vertical edge from `a` down to `b`: `side` wide
/// to either hand, and cut short by `corner` at both ends.
pub open spec fn spec_vertical_rect(a: Pos2, b: Pos2, side: i32, corner: i32) -> Rect {
    Rect {
        min: Pos2 { x: clamp_coord(a.x - side) as i32, y: clamp_coord(a.y + corner) as i32 },
        max: Pos2 { x: clamp_coord(b.x + side) as i32, y: clamp_coord(b.y - corner) as i32 },
    }
}

#[verifier::when_used_as_spec(spec_vertical_rect)]
pub fn vertical_rect(a: Pos2, b: Pos2, side: i32, corner: i32) -> (r: Rect)
    ensures
        r == spec_vertical_rect(a, b, side, corner),
{
    Rect {
        min: Pos2 {
            x: saturate(a.x as i64 - side as i64),
            y: saturate(a.y as i64 + corner as i64),
        },
        max: Pos2 {
            x: saturate(b.x as i64 + side as i64),
            y: saturate(b.y as i64 - corner as i64),
        },
    }
}

/// The hit rectangle of a horizontal edge from `a` right to `b`: `side`
/// high to either hand, and cut short by `corner` at both ends.
pub open spec fn spec_horizontal_rect(a: Pos2, b: Pos2, side: i32, corner: i32) -> Rect {
    Rect {
        min: Pos2 { x: clamp_coord(a.x + corner) as i32, y: clamp_coord(a.y - side) as i32 },
        max: Pos2 { x: clamp_coord(b.x - corner) as i32, y: clamp_coord(b.y + side) as i32 },
    }
}

#[verifier::when_used_as_spec(spec_horizontal_rect)]
pub fn horizontal_rect(a: Pos2, b: Pos2, side: i32, corner: i32) -> (r: Rect)
    ensures
        r == spec_horizontal_rect(a, b, side, corner),
{
    Rect {
        min: Pos2 {
            x: saturate(a.x as i64 + corner as i64),
            y: saturate(a.y as i64 - side as i64),
        },
        max: Pos2 {
            x: saturate(b.x as i64 - corner as i64),
            y: saturate(b.y as i64 + side as i64),
        },
    }
}

/// The hit square of a corner: `corner` to every hand of `center`.
pub open spec fn spec_corner_rect(center: Pos2, corner: i32) -> Rect {
    Rect {
        min: Pos2 {
            x: clamp_coord(center.x - corner) as i32,
            y: clamp_coord(center.y - corner) as i32,
        },
        max: Pos2 {
            x: clamp_coord(center.x + corner) as i32,
            y: clamp_coord(center.y + corner) as i32,
        },
    }
}

#[verifier::when_used_as_spec(spec_corner_rect)]
pub fn corner_rect(center: Pos2, corner: i32) -> (r: Rect)
    ensures
        r == spec_corner_rect(center, corner),
{
    Rect {
        min: Pos2 {
            x: saturate(center.x as i64 - corner as i64),
            y: saturate(center.y as i64 - corner as i64),
        },
        max: Pos2 {
            x: saturate(center.x as i64 + corner as i64),
            y: saturate(center.y as i64 + corner as i64),
        },
    }
}

/// The hit regions of a window whose outer rectangle was `outer_rect`.
///
/// Every edge that can be dragged gets a long region along it. Every corner
/// with at least one such edge gets a square, so that a window that resizes
/// on one axis only can still be grabbed by its corners.
pub open spec fn spec_hit_regions(
    possible: PossibleInteractions,
    outer_rect: Rect,
    frame: Frame,
    side: i32,
    corner: i32,
) -> HitRegions {
    let rect = stroke_center(outer_rect, frame);
    HitRegions {
        right: if possible.resize_right {
            Some(spec_vertical_rect(rect.spec_right_top(), rect.spec_right_bottom(), side, corner))
        } else {
            None
        },
        left: if possible.resize_left {
            Some(spec_vertical_rect(rect.spec_left_top(), rect.spec_left_bottom(), side, corner))
        } else {
            None
        },
        bottom: if possible.resize_bottom {
            Some(
                spec_horizontal_rect(rect.spec_left_bottom(), rect.spec_right_bottom(), side, corner),
            )
        } else {
            None
        },
        top: if possible.resize_top {
            Some(spec_horizontal_rect(rect.spec_left_top(), rect.spec_right_top(), side, corner))
        } else {
            None
        },
        right_bottom: if possible.resize_right || possible.resize_bottom {
            Some(spec_corner_rect(rect.spec_right_bottom(), corner))
        } else {
            None
        },
        right_top: if possible.resize_right || possible.resize_top {
            Some(spec_corner_rect(rect.spec_right_top(), corner))
        } else {
            None
        },
        left_bottom: if possible.resize_left || possible.resize_bottom {
            Some(spec_corner_rect(rect.spec_left_bottom(), corner))
        } else {
            None
        },
        left_top: if possible.resize_left || possible.resize_top {
            Some(spec_corner_rect(rect.spec_left_top(), corner))
        } else {
            None
        },
    }
}

#[verifier::when_used_as_spec(spec_hit_regions)]
pub fn hit_regions(
    possible: PossibleInteractions,
    outer_rect: Rect,
    frame: Frame,
    side: i32,
    corner: i32,
) -> (h: HitRegions)
    ensures
        h == spec_hit_regions(possible, outer_rect, frame, side, corner),
{
    let rect = outer_rect.shrink(frame.stroke.half_width());
    let mut h = HitRegions {
        right: None,
        left: None,
        bottom: None,
        top: None,
        right_bottom: None,
        right_top: None,
        left_bottom: None,
        left_top: None,
    };
    if possible.resize_right {
        h.right = Some(vertical_rect(rect.right_top(), rect.right_bottom(), side, corner));
    }
    if possible.resize_left {
        h.left = Some(vertical_rect(rect.left_top(), rect.left_bottom(), side, corner));
    }
    if possible.resize_bottom {
        h.bottom = Some(horizontal_rect(rect.left_bottom(), rect.right_bottom(), side, corner));
    }
    if possible.resize_top {
        h.top = Some(horizontal_rect(rect.left_top(), rect.right_top(), side, corner));
    }
    if possible.resize_right || possible.resize_bottom {
        h.right_bottom = Some(corner_rect(rect.right_bottom(), corner));
    }
    if possible.resize_right || possible.resize_top {
        h.right_top = Some(corner_rect(rect.right_top(), corner));
    }
    if possible.resize_left || possible.resize_bottom {
        h.left_bottom = Some(corner_rect(rect.left_bottom(), corner));
    }
    if possible.resize_left || possible.resize_top {
        h.left_top = Some(corner_rect(rect.left_top(), corner));
    }
    h
}

/// One hit region as it is laid down.
#[derive(Clone, Copy, Debug, PartialEq, Eq, Structural)]
pub struct HitRegion {
    pub region: Region,
    pub rect: Rect,
}

/// `order` with `region` laid down on top, if it has a rectangle.
pub open spec fn spec_laid_on(order: Seq<HitRegion>, region: Region, rect: Option<Rect>) -> Seq<
    HitRegion,
> {
    match rect {
        Some(r) => order.push(HitRegion { region, rect: r }),
        None => order,
    }
}

/// The region that the pointer gets at `pos` among regions that were laid
/// down in the given order: the last one that holds `pos`.
pub open spec fn spec_last_hit(order: Seq<HitRegion>, pos: Pos2) -> Option<Region>
    decreases order.len(),
{
    if order.len() == 0 {
        None
    } else if order.last().rect.spec_contains(pos) {
        Some(order.last().region)
    } else {
        spec_last_hit(order.drop_last(), pos)
    }
}

impl HitRegions {
    /// The regions in the order in which they are laid down: the sides
    /// first, right, left, bottom, top; then the corners, lower right,
    /// upper right, lower left, upper left.
    pub open spec fn spec_in_order(&self) -> Seq<HitRegion> {
        let sides = spec_laid_on(
            spec_laid_on(
                spec_laid_on(
                    spec_laid_on(Seq::empty(), Region::Right, self.right),
                    Region::Left,
                    self.left,
                ),
                Region::Bottom,
                self.bottom,
            ),
            Region::Top,
            self.top,
        );
        spec_laid_on(
            spec_laid_on(
                spec_laid_on(
                    spec_laid_on(sides, Region::RightBottom, self.right_bottom),
                    Region::RightTop,
                    self.right_top,
                ),
                Region::LeftBottom,
                self.left_bottom,
            ),
            Region::LeftTop,
            self.left_top,
        )
    }

    /// The regions to hand to the host, in the order in which it is to lay
    /// them down, so that a later one covers an earlier one.
    pub fn in_order(&self) -> (order: Vec<HitRegion>)
        ensures
            order@ == self.spec_in_order(),
    {
        let mut order: Vec<HitRegion> = Vec::new();
        match self.right {
            Some(rect) => order.push(HitRegion { region: Region::Right, rect }),
            None => {},
        }
        match self.left {
            Some(rect) => order.push(HitRegion { region: Region::Left, rect }),
            None => {},
        }
        match self.bottom {
            Some(rect) => order.push(HitRegion { region: Region::Bottom, rect }),
            None => {},
        }
        match self.top {
            Some(rect) => order.push(HitRegion { region: Region::Top, rect }),
            None => {},
        }
        match self.right_bottom {
            Some(rect) => order.push(HitRegion { region: Region::RightBottom, rect }),
            None => {},
        }
        match self.right_top {
            Some(rect) => order.push(HitRegion { region: Region::RightTop, rect }),
            None => {},
        }
        match self.left_bottom {
            Some(rect) => order.push(HitRegion { region: Region::LeftBottom, rect }),
            None => {},
        }
        match self.left_top {
            Some(rect) => order.push(HitRegion { region: Region::LeftTop, rect }),
            None => {},
        }
        order
    }

    pub open spec fn spec_rect_of(&self, region: Region) -> Option<Rect> {
        match region {
            Region::Right => self.right,
            Region::Left => self.left,
            Region::Bottom => self.bottom,
            Region::Top => self.top,
            Region::RightBottom => self.right_bottom,
            Region::RightTop => self.right_top,
            Region::LeftBottom => self.left_bottom,
            Region::LeftTop => self.left_top,
        }
    }

    /// The hit rectangle of `region`, if it is laid down.
    #[verifier::when_used_as_spec(spec_rect_of)]
    pub fn rect_of(&self, region: Region) -> (r: Option<Rect>)
        ensures
            r == self.spec_rect_of(region),
    {
        match region {
            Region::Right => self.right,
            Region::Left => self.left,
            Region::Bottom => self.bottom,
            Region::Top => self.top,
            Region::RightBottom => self.right_bottom,
            Region::RightTop => self.right_top,
            Region::LeftBottom => self.left_bottom,
            Region::LeftTop => self.left_top,
        }
    }

    /// The region that the pointer gets at `pos`: of all the regions that
    /// hold `pos`, the one that was laid down last.
    pub open spec fn spec_topmost_at(&self, pos: Pos2) -> Option<Region> {
        if spec_hits(self.left_top, pos) {
            Some(Region::LeftTop)
        } else if spec_hits(self.left_bottom, pos) {
            Some(Region::LeftBottom)
        } else if spec_hits(self.right_top, pos) {
            Some(Region::RightTop)
        } else if spec_hits(self.right_bottom, pos) {
            Some(Region::RightBottom)
        } else if spec_hits(self.top, pos) {
            Some(Region::Top)
        } else if spec_hits(self.bottom, pos) {
            Some(Region::Bottom)
        } else if spec_hits(self.left, pos) {
            Some(Region::Left)
        } else if spec_hits(self.right, pos) {
            Some(Region::Right)
        } else {
            None
        }
    }

    #[verifier::when_used_as_spec(spec_topmost_at)]
    pub fn topmost_at(&self, pos: Pos2) -> (r: Option<Region>)
        ensures
            r == self.spec_topmost_at(pos),
    {
        if hits(self.left_top, pos) {
            Some(Region::LeftTop)
        } else if hits(self.left_bottom, pos) {
            Some(Region::LeftBottom)
        } else if hits(self.right_top, pos) {
            Some(Region::RightTop)
        } else if hits(self.right_bottom, pos) {
            Some(Region::RightBottom)
        } else if hits(self.top, pos) {
            Some(Region::Top)
        } else if hits(self.bottom, pos) {
            Some(Region::Bottom)
        } else if hits(self.left, pos) {
            Some(Region::Left)
        } else if hits(self.right, pos) {
            Some(Region::Right)
        } else {
            None
        }
    }
}

/// What the pointer does in one frame.
#[derive(Clone, Copy, Debug, PartialEq, Eq, Structural)]
pub struct PointerInput {
    /// Where the pointer is, if it is over the window's layer.
    pub pos: Option<Pos2>,
    /// Whether the button went down in this frame.
    pub pressed: bool,
    /// Whether the button is held.
    pub down: bool,
    /// How far the pointer has moved since the button went down.
    pub total_drag_delta: Option<Vec2>,
}

/// The region under the pointer, if any.
pub open spec fn spec_hovered_region(regions: HitRegions, pointer: PointerInput) -> Option<Region> {
    match pointer.pos {
        Some(p) => regions.spec_topmost_at(p),
        None => None,
    }
}

#[verifier::when_used_as_spec(spec_hovered_region)]
pub fn hovered_region(regions: HitRegions, pointer: PointerInput) -> (r: Option<Region>)
    ensures
        r == spec_hovered_region(regions, pointer),
{
    match pointer.pos {
        Some(p) => regions.topmost_at(p),
        None => None,
    }
}

/// The region that the pointer holds after this frame.
///
/// A press takes the region under the pointer. While the button stays down
/// the pointer keeps what it took, wherever it moves, as long as that region
/// is still laid down. A release lets go.
pub open spec fn spec_next_grab(
    regions: HitRegions,
    pointer: PointerInput,
    grabbed: Option<Region>,
) -> Option<Region> {
    if pointer.pressed {
        spec_hovered_region(regions, pointer)
    } else if pointer.down {
        match grabbed {
            Some(r) => if regions.spec_rect_of(r).is_some() {
                Some(r)
            } else {
                None
            },
            None => None,
        }
    } else {
        None
    }
}

#[verifier::when_used_as_spec(spec_next_grab)]
pub fn next_grab(regions: HitRegions, pointer: PointerInput, grabbed: Option<Region>) -> (r: Option<
    Region,
>)
    ensures
        r == spec_next_grab(regions, pointer, grabbed),
{
    if pointer.pressed {
        hovered_region(regions, pointer)
    } else if pointer.down {
        match grabbed {
            Some(r) => if regions.rect_of(r).is_some() {
                Some(r)
            } else {
                None
            },
            None => None,
        }
    } else {
        None
    }
}

/// The response of one region: hovered where it is the one under the
/// pointer, dragged where it is the one that the pointer holds.
pub open spec fn spec_region_response(
    region: Region,
    hovered: Option<Region>,
    grabbed: Option<Region>,
) -> SideResponse {
    SideResponse { hover: hovered == Some(region), drag: grabbed == Some(region) }
}

#[verifier::when_used_as_spec(spec_region_response)]
pub fn region_response(region: Region, hovered: Option<Region>, grabbed: Option<Region>) -> (r:
    SideResponse)
    ensures
        r == spec_region_response(region, hovered, grabbed),
{
    let hover = match hovered {
        Some(h) => h == region,
        None => false,
    };
    let drag = match grabbed {
        Some(g) => g == region,
        None => false,
    };
    SideResponse { hover, drag }
}

/// The response of one edge: that of its own region joined with those of
/// the two corners at its ends; nothing where the edge cannot be dragged.
pub open spec fn edge_response(
    allowed: bool,
    side: Region,
    first: Region,
    second: Region,
    hovered: Option<Region>,
    grabbed: Option<Region>,
) -> SideResponse {
    if allowed {
        spec_region_response(side, hovered, grabbed).spec_either(
            spec_region_response(first, hovered, grabbed),
        ).spec_either(spec_region_response(second, hovered, grabbed))
    } else {
        SideResponse::spec_none()
    }
}

/// The outcome of resolving the pointer against the edges of a window.
#[derive(Clone, Copy, Debug, PartialEq, Eq, Structural)]
pub struct ResizeInteraction {
    /// The outer rectangle, border included, that the regions were built on.
    pub outer_rect: Rect,
    pub window_frame: Frame,
    pub left: SideResponse,
    pub right: SideResponse,
    pub top: SideResponse,
    pub bottom: SideResponse,
}

impl ResizeInteraction {
    /// No edge hovered, none dragged.
    pub open spec fn spec_idle(outer_rect: Rect, window_frame: Frame) -> ResizeInteraction {
        ResizeInteraction {
            outer_rect,
            window_frame,
            left: SideResponse::spec_none(),
            right: SideResponse::spec_none(),
            top: SideResponse::spec_none(),
            bottom: SideResponse::spec_none(),
        }
    }

    /// The cursor for the edges that are hovered or dragged: a diagonal one
    /// for two edges that meet in a corner, else that of the one axis, and
    /// none where no edge is active.
    pub open spec fn spec_cursor(&self) -> Option<CursorIcon> {
        let left = self.left.spec_any();
        let right = self.right.spec_any();
        let top = self.top.spec_any();
        let bottom = self.bottom.spec_any();
        if (left && top) || (right && bottom) {
            Some(CursorIcon::ResizeNwSe)
        } else if (right && top) || (left && bottom) {
            Some(CursorIcon::ResizeNeSw)
        } else if left || right {
            Some(CursorIcon::ResizeHorizontal)
        } else if bottom || top {
            Some(CursorIcon::ResizeVertical)
        } else {
            None
        }
    }

    /// Sets the cursor for the active edges; leaves it alone where none is.
    pub fn set_cursor(&self, cursor: &mut Option<CursorIcon>)
        ensures
            *final(cursor) == match self.spec_cursor() {
                Some(c) => Some(c),
                None => *old(cursor),
            },
    {
        let left = self.left.any();
        let right = self.right.any();
        let top = self.top.any();
        let bottom = self.bottom.any();
        if (left && top) || (right && bottom) {
            *cursor = Some(CursorIcon::ResizeNwSe);
        } else if (right && top) || (left && bottom) {
            *cursor = Some(CursorIcon::ResizeNeSw);
        } else if left || right {
            *cursor = Some(CursorIcon::ResizeHorizontal);
        } else if bottom || top {
            *cursor = Some(CursorIcon::ResizeVertical);
        }
    }

    pub open spec fn spec_any_hovered(&self) -> bool {
        self.left.hover || self.right.hover || self.top.hover || self.bottom.hover
    }

    /// Whether any edge is hovered.
    #[verifier::when_used_as_spec(spec_any_hovered)]
    pub fn any_hovered(&self) -> (b: bool)
        ensures
            b == self.spec_any_hovered(),
    {
        self.left.hover || self.right.hover || self.top.hover || self.bottom.hover
    }

    pub open spec fn spec_any_dragged(&self) -> bool {
        self.left.drag || self.right.drag || self.top.drag || self.bottom.drag
    }

    /// Whether any edge is dragged.
    #[verifier::when_used_as_spec(spec_any_dragged)]
    pub fn any_dragged(&self) -> (b: bool)
        ensures
            b == self.spec_any_dragged(),
    {
        self.left.drag || self.right.drag || self.top.drag || self.bottom.drag
    }
}

/// The edges' responses for a hovered and a held region.
///
/// A corner feeds both edges that meet in it, as far as each can be dragged.
pub open spec fn spec_resolve_regions(
    possible: PossibleInteractions,
    outer_rect: Rect,
    window_frame: Frame,
    hovered: Option<Region>,
    grabbed: Option<Region>,
) -> ResizeInteraction {
    ResizeInteraction {
        outer_rect,
        window_frame,
        left: edge_response(
            possible.resize_left,
            Region::Left,
            Region::LeftBottom,
            Region::LeftTop,
            hovered,
            grabbed,
        ),
        right: edge_response(
            possible.resize_right,
            Region::Right,
            Region::RightBottom,
            Region::RightTop,
            hovered,
            grabbed,
        ),
        top: edge_response(
            possible.resize_top,
            Region::Top,
            Region::RightTop,
            Region::LeftTop,
            hovered,
            grabbed,
        ),
        bottom: edge_response(
            possible.resize_bottom,
            Region::Bottom,
            Region::RightBottom,
            Region::LeftBottom,
            hovered,
            grabbed,
        ),
    }
}

/// Reduces the hovered and the held region to one response per edge.
///
/// For a host that tests the pointer against the regions itself.
#[verifier::when_used_as_spec(spec_resolve_regions)]
pub fn resolve_regions(
    possible: PossibleInteractions,
    outer_rect: Rect,
    window_frame: Frame,
    hovered: Option<Region>,
    grabbed: Option<Region>,
) -> (i: ResizeInteraction)
    ensures
        i == spec_resolve_regions(possible, outer_rect, window_frame, hovered, grabbed),
{
    let mut left = SideResponse::none();
    let mut right = SideResponse::none();
    let mut top = SideResponse::none();
    let mut bottom = SideResponse::none();

    // The sides first, the corners after them.
    if possible.resize_right {
        right = right.either(region_response(Region::Right, hovered, grabbed));
    }
    if possible.resize_left {
        left = left.either(region_response(Region::Left, hovered, grabbed));
    }
    if possible.resize_bottom {
        bottom = bottom.either(region_response(Region::Bottom, hovered, grabbed));
    }
    if possible.resize_top {
        top = top.either(region_response(Region::Top, hovered, grabbed));
    }
    if possible.resize_right || possible.resize_bottom {
        let response = region_response(Region::RightBottom, hovered, grabbed);
        if possible.resize_right {
            right = right.either(response);
        }
        if possible.resize_bottom {
            bottom = bottom.either(response);
        }
    }
    if possible.resize_right || possible.resize_top {
        let response = region_response(Region::RightTop, hovered, grabbed);
        if possible.resize_right {
            right = right.either(response);
        }
        if possible.resize_top {
            top = top.either(response);
        }
    }
    if possible.resize_left || possible.resize_bottom {
        let response = region_response(Region::LeftBottom, hovered, grabbed);
        if possible.resize_left {
            left = left.either(response);
        }
        if possible.resize_bottom {
            bottom = bottom.either(response);
        }
    }
    if possible.resize_left || possible.resize_top {
        let response = region_response(Region::LeftTop, hovered, grabbed);
        if possible.resize_left {
            left = left.either(response);
        }
        if possible.resize_top {
            top = top.either(response);
        }
    }
    ResizeInteraction { outer_rect, window_frame, left, right, top, bottom }
}

/// The region that the pointer holds after a frame in which the edges in
/// `possible` were laid down around `outer_rect`.
pub open spec fn spec_grab_after(
    possible: PossibleInteractions,
    outer_rect: Rect,
    window_frame: Frame,
    side_grab_radius: i32,
    corner_grab_radius: i32,
    pointer: PointerInput,
    grabbed: Option<Region>,
) -> Option<Region> {
    if possible.spec_resizable() {
        spec_next_grab(
            spec_hit_regions(
                possible,
                outer_rect,
                window_frame,
                side_grab_radius,
                corner_grab_radius,
            ),
            pointer,
            grabbed,
        )
    } else {
        None
    }
}

/// What the pointer does to the edges of a window in one frame.
pub open spec fn spec_resize_interaction(
    possible: PossibleInteractions,
    outer_rect: Rect,
    window_frame: Frame,
    side_grab_radius: i32,
    corner_grab_radius: i32,
    pointer: PointerInput,
    grabbed: Option<Region>,
) -> ResizeInteraction {
    if possible.spec_resizable() {
        let regions = spec_hit_regions(
            possible,
            outer_rect,
            window_frame,
            side_grab_radius,
            corner_grab_radius,
        );
        spec_resolve_regions(
            possible,
            outer_rect,
            window_frame,
            spec_hovered_region(regions, pointer),
            spec_next_grab(regions, pointer, grabbed),
        )
    } else {
        ResizeInteraction::spec_idle(outer_rect, window_frame)
    }
}

/// Resolves the pointer against the edges of the window whose outer
/// rectangle was `outer_rect` in the last frame.
///
/// The regions of the sides are laid down first and those of the corners on
/// top of them, so that a corner wins wherever it meets a side. The region
/// under the pointer is hovered; the region that the pointer took when its
/// button went down is dragged until the button is let go. Where no edge
/// can be dragged nothing is laid down, nothing is hovered or dragged, and
/// the pointer lets go of what it held.
pub fn resize_interaction(
    possible: PossibleInteractions,
    outer_rect: Rect,
    window_frame: Frame,
    side_grab_radius: i32,
    corner_grab_radius: i32,
    pointer: PointerInput,
    grabbed: &mut Option<Region>,
) -> (i: ResizeInteraction)
    ensures
        i == spec_resize_interaction(
            possible,
            outer_rect,
            window_frame,
            side_grab_radius,
            corner_grab_radius,
            pointer,
            *old(grabbed),
        ),
        *final(grabbed) == spec_grab_after(
            possible,
            outer_rect,
            window_frame,
            side_grab_radius,
            corner_grab_radius,
            pointer,
            *old(grabbed),
        ),
{
    if !possible.resizable() {
        *grabbed = None;
        return ResizeInteraction {
            outer_rect,
            window_frame,
            left: SideResponse::none(),
            right: SideResponse::none(),
            top: SideResponse::none(),
            bottom: SideResponse::none(),
        };
    }
    let regions = hit_regions(
        possible,
        outer_rect,
        window_frame,
        side_grab_radius,
        corner_grab_radius,
    );
    let hovered = hovered_region(regions, pointer);
    let held = next_grab(regions, pointer, *grabbed);
    *grabbed = held;
    resolve_regions(possible, outer_rect, window_frame, hovered, held)
}

/// The rectangle `anchor` with the dragged edges moved by `delta`.
///
/// On each axis at most one edge moves: the near one if it is dragged, else
/// the far one if that is.
pub open spec fn spec_dragged_rect(anchor: Rect, interaction: ResizeInteraction, delta: Vec2) -> Rect {
    Rect {
        min: Pos2 {
            x: if interaction.left.drag {
                clamp_coord(anchor.min.x + delta.x) as i32
            } else {
                anchor.min.x
            },
            y: if interaction.top.drag {
                clamp_coord(anchor.min.y + delta.y) as i32
            } else {
                anchor.min.y
            },
        },
        max: Pos2 {
            x: if !interaction.left.drag && interaction.right.drag {
                clamp_coord(anchor.max.x + delta.x) as i32
            } else {
                anchor.max.x
            },
            y: if !interaction.top.drag && interaction.bottom.drag {
                clamp_coord(anchor.max.y + delta.y) as i32
            } else {
                anchor.max.y
            },
        },
    }
}

/// The anchor of a drag: the one that is stored, else the rectangle that the
/// drag starts from.
pub open spec fn spec_anchor_or(stored: Option<Rect>, outer_rect: Rect) -> Rect {
    match stored {
        Some(a) => a,
        None => outer_rect,
    }
}

/// Turns a drag in progress into a new outer rectangle.
///
/// The drag always starts from the rectangle that was captured when it
/// began, and applies the whole distance that the pointer has moved since:
/// what an earlier frame made of the drag plays no part. While no edge is
/// dragged the anchor is dropped and nothing changes. Without a distance from
/// the pointer nothing changes either.
pub fn move_and_resize_window(
    anchor: &mut Option<Rect>,
    interaction: &ResizeInteraction,
    total_drag_delta: Option<Vec2>,
) -> (moved: Option<Rect>)
    ensures
        !interaction.spec_any_dragged() ==> moved == None::<Rect> && *final(anchor) == None::<Rect>,
        interaction.spec_any_dragged() && total_drag_delta.is_none() ==> moved == None::<Rect>
            && *final(anchor) == *old(anchor),
        interaction.spec_any_dragged() && total_drag_delta.is_some() ==> {
            let start = spec_anchor_or(*old(anchor), interaction.outer_rect);
            &&& *final(anchor) == Some(start)
            &&& moved == Some(spec_dragged_rect(start, *interaction, total_drag_delta.unwrap()))
        },
{
    if !interaction.any_dragged() {
        *anchor = None;
        return None;
    }
    let delta = match total_drag_delta {
        Some(d) => d,
        None => {
            return None;
        },
    };
    let start = match *anchor {
        Some(a) => a,
        None => interaction.outer_rect,
    };
    *anchor = Some(start);

    // Work in the middle of the border stroke.
    let half: i64 = interaction.window_frame.stroke.half_width() as i64;
    let mut min_x: i64 = start.min.x as i64 + half;
    let mut min_y: i64 = start.min.y as i64 + half;
    let mut max_x: i64 = start.max.x as i64 - half;
    let mut max_y: i64 = start.max.y as i64 - half;

    if interaction.left.drag {
        min_x = min_x + delta.x as i64;
    } else if interaction.right.drag {
        max_x = max_x + delta.x as i64;
    }
    if interaction.top.drag {
        min_y = min_y + delta.y as i64;
    } else if interaction.bottom.drag {
        max_y = max_y + delta.y as i64;
    }

    // Back to the outside of the stroke.
    Some(
        Rect {
            min: Pos2 { x: saturate(min_x - half), y: saturate(min_y - half) },
            max: Pos2 { x: saturate(max_x + half), y: saturate(max_y + half) },
        },
    )
}

/// A span `lo..=hi` brought into `a..=b`: moved as little as needed where it
/// fits, and cut down to `a..=b` where it is too long.
pub open spec fn constrain_span(lo: int, hi: int, a: int, b: int) -> (int, int) {
    let w = hi - lo;
    if w >= b - a {
        (a, b)
    } else {
        let start = clamp_between(lo, a, b - w);
        (start, start + w)
    }
}

/// The window rectangle brought into `area`, axis by axis.
pub open spec fn spec_constrain_window_rect_to_area(window: Rect, area: Rect) -> Rect {
    let xs = constrain_span(
        window.min.x as int,
        window.max.x as int,
        area.min.x as int,
        area.max.x as int,
    );
    let ys = constrain_span(
        window.min.y as int,
        window.max.y as int,
        area.min.y as int,
        area.max.y as int,
    );
    Rect {
        min: Pos2 { x: clamp_coord(xs.0) as i32, y: clamp_coord(ys.0) as i32 },
        max: Pos2 { x: clamp_coord(xs.1) as i32, y: clamp_coord(ys.1) as i32 },
    }
}

fn constrain_axis(lo: i32, hi: i32, a: i32, b: i32) -> (r: (i32, i32))
    ensures
        r.0 == clamp_coord(constrain_span(lo as int, hi as int, a as int, b as int).0),
        r.1 == clamp_coord(constrain_span(lo as int, hi as int, a as int, b as int).1),
{
    let w: i64 = hi as i64 - lo as i64;
    if w >= b as i64 - a as i64 {
        (a, b)
    } else {
        let last: i64 = b as i64 - w;
        let start: i64 = if (lo as i64) > last || (a as i64) > last {
            last
        } else if lo < a {
            a as i64
        } else {
            lo as i64
        };
        (saturate(start), saturate(start + w))
    }
}

/// Brings a window rectangle into the area that it is constrained to.
///
/// A window that fits is moved by the least distance that brings it inside
/// and keeps its size. One that is too wide or too high for the area takes
/// the whole of the area on that axis. For an area whose corners are in
/// order, the result lies within it.
#[verifier::when_used_as_spec(spec_constrain_window_rect_to_area)]
pub fn constrain_window_rect_to_area(window: Rect, area: Rect) -> (r: Rect)
    ensures
        r == spec_constrain_window_rect_to_area(window, area),
        area.spec_is_ordered() ==> r.spec_is_within(area),
        area.spec_is_ordered() && window.spec_is_ordered() ==> r.spec_is_ordered(),
        area.spec_is_ordered() && window.spec_is_ordered() && window.spec_is_within(area) ==> r
            == window,
{
    let xs = constrain_axis(window.min.x, window.max.x, area.min.x, area.max.x);
    let ys = constrain_axis(window.min.y, window.max.y, area.min.y, area.max.y);
    Rect { min: Pos2 { x: xs.0, y: ys.0 }, max: Pos2 { x: xs.1, y: ys.1 } }
}

/// The outer extent whose content extent is the nearest to that of `extent`
/// between `min` and `max`. Where `min` lies above `max`, `max` decides.
pub open spec fn limited_extent(extent: int, margin: int, min: int, max: int) -> int {
    clamp_between(extent - margin, min, max) + margin
}

/// A span holding to its size limits. The edge that is dragged gives way:
/// the other one stays where it is. A span of which no edge is dragged is
/// left alone.
pub open spec fn limit_span(
    lo: int,
    hi: int,
    near_dragged: bool,
    far_dragged: bool,
    margin: int,
    min: int,
    max: int,
) -> (int, int) {
    let target = limited_extent(hi - lo, margin, min, max);
    if near_dragged {
        (hi - target, hi)
    } else if far_dragged {
        (lo, lo + target)
    } else {
        (lo, hi)
    }
}

/// The rectangle held to the limits of the content size, on every axis of
/// which an edge is dragged.
pub open spec fn spec_limit_size(
    rect: Rect,
    interaction: ResizeInteraction,
    margins: Vec2,
    min_size: Vec2,
    max_size: Vec2,
) -> Rect {
    let xs = limit_span(
        rect.min.x as int,
        rect.max.x as int,
        interaction.left.drag,
        interaction.right.drag,
        margins.x as int,
        min_size.x as int,
        max_size.x as int,
    );
    let ys = limit_span(
        rect.min.y as int,
        rect.max.y as int,
        interaction.top.drag,
        interaction.bottom.drag,
        margins.y as int,
        min_size.y as int,
        max_size.y as int,
    );
    Rect {
        min: Pos2 { x: clamp_coord(xs.0) as i32, y: clamp_coord(ys.0) as i32 },
        max: Pos2 { x: clamp_coord(xs.1) as i32, y: clamp_coord(ys.1) as i32 },
    }
}

fn limit_axis(
    lo: i32,
    hi: i32,
    near_dragged: bool,
    far_dragged: bool,
    margin: i32,
    min: i32,
    max: i32,
) -> (r: (i32, i32))
    ensures
        r.0 == clamp_coord(
            limit_span(
                lo as int,
                hi as int,
                near_dragged,
                far_dragged,
                margin as int,
                min as int,
                max as int,
            ).0,
        ),
        r.1 == clamp_coord(
            limit_span(
                lo as int,
                hi as int,
                near_dragged,
                far_dragged,
                margin as int,
                min as int,
                max as int,
            ).1,
        ),
{
    let content: i64 = hi as i64 - lo as i64 - margin as i64;
    let limited: i64 = if content > max as i64 || min > max {
        max as i64
    } else if content < min as i64 {
        min as i64
    } else {
        content
    };
    let target: i64 = limited + margin as i64;
    if near_dragged {
        (saturate(hi as i64 - target), hi)
    } else if far_dragged {
        (lo, saturate(lo as i64 + target))
    } else {
        (lo, hi)
    }
}

/// Holds a dragged rectangle to the limits of the content size.
///
/// `margins` is what frame and title bar add to the content on each axis.
/// On an axis with a dragged edge the content extent is brought between
/// `min_size` and `max_size` by moving that edge; the opposite edge stays.
#[verifier::when_used_as_spec(spec_limit_size)]
pub fn limit_size(
    rect: Rect,
    interaction: ResizeInteraction,
    margins: Vec2,
    min_size: Vec2,
    max_size: Vec2,
) -> (r: Rect)
    ensures
        r == spec_limit_size(rect, interaction, margins, min_size, max_size),
{
    let xs = limit_axis(
        rect.min.x,
        rect.max.x,
        interaction.left.drag,
        interaction.right.drag,
        margins.x,
        min_size.x,
        max_size.x,
    );
    let ys = limit_axis(
        rect.min.y,
        rect.max.y,
        interaction.top.drag,
        interaction.bottom.drag,
        margins.y,
        min_size.y,
        max_size.y,
    );
    Rect { min: Pos2 { x: xs.0, y: ys.0 }, max: Pos2 { x: xs.1, y: ys.1 } }
}

/// What a drag makes of the anchor: the dragged edges moved, the size held
/// to its limits, and the result brought into the bounds, if there are any.
pub open spec fn spec_resized_rect(
    anchor: Rect,
    interaction: ResizeInteraction,
    delta: Vec2,
    margins: Vec2,
    resize: Resize,
    bounds: Option<Rect>,
) -> Rect {
    let limited = spec_limit_size(
        spec_dragged_rect(anchor, interaction, delta),
        interaction,
        margins,
        resize.min_size,
        resize.max_size,
    );
    match bounds {
        Some(b) => spec_constrain_window_rect_to_area(limited, b),
        None => limited,
    }
}

/// Whether a drag moves the window in this frame: an edge is dragged and
/// the pointer says how far.
pub open spec fn spec_drag_applies(interaction: ResizeInteraction, total_drag_delta: Option<Vec2>) -> bool {
    interaction.spec_any_dragged() && total_drag_delta.is_some()
}

/// The stored state after the drag of this frame.
///
/// While no edge is dragged the anchor is dropped. While one is dragged but
/// the pointer gives no distance, nothing changes. Else the anchor is kept,
/// or taken from the rectangle that the drag starts from, and the state
/// holds the rectangle that the drag makes of it and the content size that
/// goes with that rectangle.
pub open spec fn spec_resize_response(
    interaction: ResizeInteraction,
    total_drag_delta: Option<Vec2>,
    margins: Vec2,
    resize: Resize,
    bounds: Option<Rect>,
    state: WindowState,
) -> WindowState {
    if !interaction.spec_any_dragged() {
        WindowState { drag_anchor: None, ..state }
    } else if total_drag_delta.is_none() {
        state
    } else {
        let start = spec_anchor_or(state.drag_anchor, interaction.outer_rect);
        let rect = spec_resized_rect(
            start,
            interaction,
            total_drag_delta.unwrap(),
            margins,
            resize,
            bounds,
        );
        WindowState {
            drag_anchor: Some(start),
            outer_rect: rect,
            requested_size: Some(rect.spec_size().spec_minus(margins)),
            ..state
        }
    }
}

/// Applies the drag of this frame to the stored state of the window.
///
/// Where a drag moves the window, the new rectangle is stored at once, so
/// that the layout of this same frame uses it, and the content size that
/// goes with it is asked for. The result says whether the window is to be
/// brought to the front: it is, whenever a drag moves it.
pub fn resize_response(
    interaction: &ResizeInteraction,
    total_drag_delta: Option<Vec2>,
    margins: Vec2,
    resize: &Resize,
    bounds: Option<Rect>,
    state: &mut WindowState,
) -> (to_front: bool)
    ensures
        to_front == spec_drag_applies(*interaction, total_drag_delta),
        *final(state) == spec_resize_response(
            *interaction,
            total_drag_delta,
            margins,
            *resize,
            bounds,
            *old(state),
        ),
{
    let mut anchor = state.drag_anchor;
    let moved = move_and_resize_window(&mut anchor, interaction, total_drag_delta);
    state.drag_anchor = anchor;
    let mut new_rect = match moved {
        Some(r) => r,
        None => {
            return false;
        },
    };
    new_rect = limit_size(new_rect, *interaction, margins, resize.min_size, resize.max_size);
    match bounds {
        Some(b) => {
            new_rect = constrain_window_rect_to_area(new_rect, b);
        },
        None => {},
    }
    state.outer_rect = new_rect;
    state.requested_size = Some(new_rect.size().minus(margins));
    true
}

} // verus!
