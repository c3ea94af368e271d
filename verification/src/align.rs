//! Alignment along one axis and along both, and a pair of per-axis flags.

use vstd::prelude::*;
use crate::geometry::{clamp_coord, half, half_of, saturate, Pos2, Rect, Vec2};
use crate::outside::vec2b_and;

verus! {

/// Left, centre or right; or top, centre or bottom.
#[derive(Clone, Copy, Debug, PartialEq, Eq, Structural)]
pub enum Align {
    /// Left or top.
    Min,
    /// Horizontal or vertical centre.
    Center,
    /// Right or bottom.
    Max,
}

/// An alignment for each axis.
#[derive(Clone, Copy, Debug, PartialEq, Eq, Structural)]
pub struct Align2 {
    pub x: Align,
    pub y: Align,
}

/// One flag for each axis.
#[derive(Clone, Copy, Debug, PartialEq, Eq, Structural)]
pub struct Vec2b {
    pub x: bool,
    pub y: bool,
}

impl Vec2b {
    pub open spec fn spec_new(x: bool, y: bool) -> Vec2b {
        Vec2b { x, y }
    }

    #[verifier::when_used_as_spec(spec_new)]
    pub fn new(x: bool, y: bool) -> (r: Vec2b)
        ensures
            r == Vec2b::spec_new(x, y),
    {
        Vec2b { x, y }
    }

    pub open spec fn spec_splat(v: bool) -> Vec2b {
        Vec2b { x: v, y: v }
    }

    /// The same flag on both axes.
    #[verifier::when_used_as_spec(spec_splat)]
    pub fn splat(v: bool) -> (r: Vec2b)
        ensures
            r == Vec2b::spec_splat(v),
    {
        Vec2b { x: v, y: v }
    }

    pub open spec fn spec_any(self) -> bool {
        self.x || self.y
    }

    /// Whether the flag of either axis is set.
    #[verifier::when_used_as_spec(spec_any)]
    pub fn any(self) -> (b: bool)
        ensures
            b == self.spec_any(),
    {
        self.x || self.y
    }

    /// Both flags, each kept only where `flag` holds.
    pub open spec fn spec_and(self, flag: bool) -> Vec2b {
        Vec2b { x: self.x && flag, y: self.y && flag }
    }

    #[verifier::when_used_as_spec(spec_and)]
    pub fn and(self, flag: bool) -> (r: Vec2b)
        ensures
            r == self.spec_and(flag),
    {
        let joined = vec2b_and(self.x, self.y, flag);
        Vec2b { x: joined.0, y: joined.1 }
    }
}

impl Align {
    /// -1 for `Min`, 0 for `Center`, 1 for `Max`.
    pub open spec fn spec_to_sign(self) -> i32 {
        match self {
            Align::Min => -1i32,
            Align::Center => 0i32,
            Align::Max => 1i32,
        }
    }

    #[verifier::when_used_as_spec(spec_to_sign)]
    pub fn to_sign(self) -> (s: i32)
        ensures
            s == self.spec_to_sign(),
    {
        match self {
            Align::Min => -1,
            Align::Center => 0,
            Align::Max => 1,
        }
    }

    /// Where a span of length `size` starts when it is aligned within
    /// `min..=max`, before saturation.
    ///
    /// A span that is longer than the range sticks out at the far end for
    /// `Min`, at the near end for `Max`, and at both for `Center`.
    pub open spec fn aligned_start(self, size: int, min: int, max: int) -> int {
        match self {
            Align::Min => min,
            Align::Center => half(min + max) - half(size),
            Align::Max => max - size,
        }
    }

    /// The span of length `size` aligned within `min..=max`, as its two ends.
    pub open spec fn spec_align_size_within_range(self, size: i32, min: i32, max: i32) -> (
        i32,
        i32,
    ) {
        let start = self.aligned_start(size as int, min as int, max as int);
        (clamp_coord(start) as i32, clamp_coord(start + size) as i32)
    }

    #[verifier::when_used_as_spec(spec_align_size_within_range)]
    pub fn align_size_within_range(self, size: i32, min: i32, max: i32) -> (r: (i32, i32))
        ensures
            r == self.spec_align_size_within_range(size, min, max),
    {
        let start: i64 = match self {
            Align::Min => min as i64,
            Align::Center => half_of(min as i64 + max as i64) - half_of(size as i64),
            Align::Max => max as i64 - size as i64,
        };
        (saturate(start), saturate(start + size as i64))
    }
}

impl Align2 {
    pub open spec fn spec_new(x: Align, y: Align) -> Align2 {
        Align2 { x, y }
    }

    #[verifier::when_used_as_spec(spec_new)]
    pub fn new(x: Align, y: Align) -> (a: Align2)
        ensures
            a == Align2::spec_new(x, y),
    {
        Align2 { x, y }
    }

    pub open spec fn spec_left_top() -> Align2 {
        Align2 { x: Align::Min, y: Align::Min }
    }

    #[verifier::when_used_as_spec(spec_left_top)]
    pub fn left_top() -> (a: Align2)
        ensures
            a == Align2::spec_left_top(),
    {
        Align2 { x: Align::Min, y: Align::Min }
    }

    pub open spec fn spec_left_center() -> Align2 {
        Align2 { x: Align::Min, y: Align::Center }
    }

    #[verifier::when_used_as_spec(spec_left_center)]
    pub fn left_center() -> (a: Align2)
        ensures
            a == Align2::spec_left_center(),
    {
        Align2 { x: Align::Min, y: Align::Center }
    }

    pub open spec fn spec_left_bottom() -> Align2 {
        Align2 { x: Align::Min, y: Align::Max }
    }

    #[verifier::when_used_as_spec(spec_left_bottom)]
    pub fn left_bottom() -> (a: Align2)
        ensures
            a == Align2::spec_left_bottom(),
    {
        Align2 { x: Align::Min, y: Align::Max }
    }

    pub open spec fn spec_center_center() -> Align2 {
        Align2 { x: Align::Center, y: Align::Center }
    }

    #[verifier::when_used_as_spec(spec_center_center)]
    pub fn center_center() -> (a: Align2)
        ensures
            a == Align2::spec_center_center(),
    {
        Align2 { x: Align::Center, y: Align::Center }
    }

    pub open spec fn spec_right_top() -> Align2 {
        Align2 { x: Align::Max, y: Align::Min }
    }

    #[verifier::when_used_as_spec(spec_right_top)]
    pub fn right_top() -> (a: Align2)
        ensures
            a == Align2::spec_right_top(),
    {
        Align2 { x: Align::Max, y: Align::Min }
    }

    pub open spec fn spec_right_center() -> Align2 {
        Align2 { x: Align::Max, y: Align::Center }
    }

    #[verifier::when_used_as_spec(spec_right_center)]
    pub fn right_center() -> (a: Align2)
        ensures
            a == Align2::spec_right_center(),
    {
        Align2 { x: Align::Max, y: Align::Center }
    }

    pub open spec fn spec_right_bottom() -> Align2 {
        Align2 { x: Align::Max, y: Align::Max }
    }

    #[verifier::when_used_as_spec(spec_right_bottom)]
    pub fn right_bottom() -> (a: Align2)
        ensures
            a == Align2::spec_right_bottom(),
    {
        Align2 { x: Align::Max, y: Align::Max }
    }

    pub open spec fn spec_x(self) -> Align {
        self.x
    }

    /// The alignment along the horizontal axis.
    #[verifier::when_used_as_spec(spec_x)]
    pub fn x(self) -> (a: Align)
        ensures
            a == self.spec_x(),
    {
        self.x
    }

    pub open spec fn spec_y(self) -> Align {
        self.y
    }

    /// The alignment along the vertical axis.
    #[verifier::when_used_as_spec(spec_y)]
    pub fn y(self) -> (a: Align)
        ensures
            a == self.spec_y(),
    {
        self.y
    }

    /// -1, 0 or 1 for each axis.
    pub open spec fn spec_to_sign(self) -> Vec2 {
        Vec2 { x: self.x.spec_to_sign(), y: self.y.spec_to_sign() }
    }

    #[verifier::when_used_as_spec(spec_to_sign)]
    pub fn to_sign(self) -> (v: Vec2)
        ensures
            v == self.spec_to_sign(),
    {
        Vec2 { x: self.x.to_sign(), y: self.y.to_sign() }
    }

    /// The rectangle of extent `size` whose corner of this alignment lies at
    /// `pos`: for the lower right alignment, the rectangle that ends there.
    pub open spec fn spec_anchor_size(self, pos: Pos2, size: Vec2) -> Rect {
        let x = match self.x {
            Align::Min => pos.x as int,
            Align::Center => pos.x - half(size.x as int),
            Align::Max => pos.x - size.x,
        };
        let y = match self.y {
            Align::Min => pos.y as int,
            Align::Center => pos.y - half(size.y as int),
            Align::Max => pos.y - size.y,
        };
        Rect {
            min: Pos2 { x: clamp_coord(x) as i32, y: clamp_coord(y) as i32 },
            max: Pos2 { x: clamp_coord(x + size.x) as i32, y: clamp_coord(y + size.y) as i32 },
        }
    }

    #[verifier::when_used_as_spec(spec_anchor_size)]
    pub fn anchor_size(self, pos: Pos2, size: Vec2) -> (r: Rect)
        ensures
            r == self.spec_anchor_size(pos, size),
    {
        let x: i64 = match self.x {
            Align::Min => pos.x as i64,
            Align::Center => pos.x as i64 - half_of(size.x as i64),
            Align::Max => pos.x as i64 - size.x as i64,
        };
        let y: i64 = match self.y {
            Align::Min => pos.y as i64,
            Align::Center => pos.y as i64 - half_of(size.y as i64),
            Align::Max => pos.y as i64 - size.y as i64,
        };
        Rect {
            min: Pos2 { x: saturate(x), y: saturate(y) },
            max: Pos2 { x: saturate(x + size.x as i64), y: saturate(y + size.y as i64) },
        }
    }

    /// The rectangle of extent `size` aligned within `frame`, axis by axis.
    pub open spec fn spec_align_size_within_rect(self, size: Vec2, frame: Rect) -> Rect {
        let xs = self.x.spec_align_size_within_range(size.x, frame.min.x, frame.max.x);
        let ys = self.y.spec_align_size_within_range(size.y, frame.min.y, frame.max.y);
        Rect { min: Pos2 { x: xs.0, y: ys.0 }, max: Pos2 { x: xs.1, y: ys.1 } }
    }

    #[verifier::when_used_as_spec(spec_align_size_within_rect)]
    pub fn align_size_within_rect(self, size: Vec2, frame: Rect) -> (r: Rect)
        ensures
            r == self.spec_align_size_within_rect(size, frame),
    {
        let xs = self.x.align_size_within_range(size.x, frame.min.x, frame.max.x);
        let ys = self.y.align_size_within_range(size.y, frame.min.y, frame.max.y);
        Rect { min: Pos2 { x: xs.0, y: ys.0 }, max: Pos2 { x: xs.1, y: ys.1 } }
    }
}

} // verus!
