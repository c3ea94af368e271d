//! Points, offsets and rectangles on the integer grid.
//!
//! Coordinates are `i32`. Every operation computes in a wider type and then
//! saturates, so none of them can overflow and none needs a precondition.

use vstd::prelude::*;

verus! {

/// The coordinate nearest to `v`.
pub open spec fn clamp_coord(v: int) -> int {
    if v < i32::MIN as int {
        i32::MIN as int
    } else if v > i32::MAX as int {
        i32::MAX as int
    } else {
        v
    }
}

/// `v` limited to `lo..=hi`; where the interval is empty, `hi`.
pub open spec fn clamp_between(v: int, lo: int, hi: int) -> int {
    if v > hi || lo > hi {
        hi
    } else if v < lo {
        lo
    } else {
        v
    }
}

/// Half of `v`, rounded towards negative infinity.
pub open spec fn half(v: int) -> int {
    v / 2
}

/// Saturates a wide value to a coordinate.
pub fn saturate(v: i64) -> (r: i32)
    ensures
        r as int == clamp_coord(v as int),
{
    if v < -2147483648 {
        -2147483648
    } else if v > 2147483647 {
        2147483647
    } else {
        v as i32
    }
}

/// Half of `v`, rounded towards negative infinity.
pub fn half_of(v: i64) -> (r: i64)
    ensures
        r as int == half(v as int),
{
    if v >= 0 {
        v / 2
    } else if v == -9223372036854775808 {
        -4611686018427387904
    } else {
        let w: i64 = -v;
        -(w / 2) - (w % 2)
    }
}


/// A position on the grid.
#[derive(Clone, Copy, Debug, PartialEq, Eq, Structural)]
pub struct Pos2 {
    pub x: i32,
    pub y: i32,
}

/// An offset or a size on the grid.
#[derive(Clone, Copy, Debug, PartialEq, Eq, Structural)]
pub struct Vec2 {
    pub x: i32,
    pub y: i32,
}

/// An axis-aligned rectangle, given by two opposite corners.
///
/// Both corners belong to the rectangle. Nothing forces `min` to lie before
/// `max`: a rectangle whose corners are swapped on an axis holds no point.
#[derive(Clone, Copy, Debug, PartialEq, Eq, Structural)]
pub struct Rect {
    pub min: Pos2,
    pub max: Pos2,
}

impl Pos2 {
    pub open spec fn spec_new(x: i32, y: i32) -> Pos2 {
        Pos2 { x, y }
    }

    #[verifier::when_used_as_spec(spec_new)]
    pub fn new(x: i32, y: i32) -> (p: Pos2)
        ensures
            p == Pos2::spec_new(x, y),
    {
        Pos2 { x, y }
    }

    /// This position moved by `v`, each coordinate saturating.
    pub open spec fn spec_offset(self, v: Vec2) -> Pos2 {
        Pos2 {
            x: clamp_coord(self.x + v.x) as i32,
            y: clamp_coord(self.y + v.y) as i32,
        }
    }

    #[verifier::when_used_as_spec(spec_offset)]
    pub fn offset(self, v: Vec2) -> (p: Pos2)
        ensures
            p == self.spec_offset(v),
    {
        Pos2 { x: saturate(self.x as i64 + v.x as i64), y: saturate(self.y as i64 + v.y as i64) }
    }
}

impl Vec2 {
    pub open spec fn spec_new(x: i32, y: i32) -> Vec2 {
        Vec2 { x, y }
    }

    #[verifier::when_used_as_spec(spec_new)]
    pub fn new(x: i32, y: i32) -> (v: Vec2)
        ensures
            v == Vec2::spec_new(x, y),
    {
        Vec2 { x, y }
    }

    pub open spec fn spec_zero() -> Vec2 {
        Vec2 { x: 0, y: 0 }
    }

    /// The offset that moves nothing.
    #[verifier::when_used_as_spec(spec_zero)]
    pub fn zero() -> (v: Vec2)
        ensures
            v == Vec2::spec_zero(),
    {
        Vec2 { x: 0, y: 0 }
    }

    pub open spec fn spec_splat(v: i32) -> Vec2 {
        Vec2 { x: v, y: v }
    }

    /// The same extent on both axes.
    #[verifier::when_used_as_spec(spec_splat)]
    pub fn splat(v: i32) -> (r: Vec2)
        ensures
            r == Vec2::spec_splat(v),
    {
        Vec2 { x: v, y: v }
    }

    /// The sum of two offsets, each axis saturating.
    pub open spec fn spec_plus(self, o: Vec2) -> Vec2 {
        Vec2 { x: clamp_coord(self.x + o.x) as i32, y: clamp_coord(self.y + o.y) as i32 }
    }

    #[verifier::when_used_as_spec(spec_plus)]
    pub fn plus(self, o: Vec2) -> (r: Vec2)
        ensures
            r == self.spec_plus(o),
    {
        Vec2 { x: saturate(self.x as i64 + o.x as i64), y: saturate(self.y as i64 + o.y as i64) }
    }

    /// The difference of two offsets, each axis saturating.
    pub open spec fn spec_minus(self, o: Vec2) -> Vec2 {
        Vec2 { x: clamp_coord(self.x - o.x) as i32, y: clamp_coord(self.y - o.y) as i32 }
    }

    #[verifier::when_used_as_spec(spec_minus)]
    pub fn minus(self, o: Vec2) -> (r: Vec2)
        ensures
            r == self.spec_minus(o),
    {
        Vec2 { x: saturate(self.x as i64 - o.x as i64), y: saturate(self.y as i64 - o.y as i64) }
    }

    /// On each axis the larger of the two extents.
    pub open spec fn spec_at_least(self, o: Vec2) -> Vec2 {
        Vec2 {
            x: if self.x < o.x { o.x } else { self.x },
            y: if self.y < o.y { o.y } else { self.y },
        }
    }

    #[verifier::when_used_as_spec(spec_at_least)]
    pub fn at_least(self, o: Vec2) -> (r: Vec2)
        ensures
            r == self.spec_at_least(o),
    {
        Vec2 {
            x: if self.x < o.x { o.x } else { self.x },
            y: if self.y < o.y { o.y } else { self.y },
        }
    }

    /// On each axis the smaller of the two extents.
    pub open spec fn spec_at_most(self, o: Vec2) -> Vec2 {
        Vec2 {
            x: if self.x > o.x { o.x } else { self.x },
            y: if self.y > o.y { o.y } else { self.y },
        }
    }

    #[verifier::when_used_as_spec(spec_at_most)]
    pub fn at_most(self, o: Vec2) -> (r: Vec2)
        ensures
            r == self.spec_at_most(o),
    {
        Vec2 {
            x: if self.x > o.x { o.x } else { self.x },
            y: if self.y > o.y { o.y } else { self.y },
        }
    }
}

impl Rect {
    pub open spec fn spec_from_min_max(min: Pos2, max: Pos2) -> Rect {
        Rect { min, max }
    }

    #[verifier::when_used_as_spec(spec_from_min_max)]
    pub fn from_min_max(min: Pos2, max: Pos2) -> (r: Rect)
        ensures
            r == Rect::spec_from_min_max(min, max),
    {
        Rect { min, max }
    }

    /// The rectangle that starts at `min` and extends by `size`.
    pub open spec fn spec_from_min_size(min: Pos2, size: Vec2) -> Rect {
        Rect { min, max: min.spec_offset(size) }
    }

    #[verifier::when_used_as_spec(spec_from_min_size)]
    pub fn from_min_size(min: Pos2, size: Vec2) -> (r: Rect)
        ensures
            r == Rect::spec_from_min_size(min, size),
    {
        Rect { min, max: min.offset(size) }
    }

    /// The rectangle of extent `size` around `center`.
    ///
    /// The smaller corner lies `size / 2` (rounded down) before the center,
    /// the larger one `size` after the smaller.
    pub open spec fn spec_from_center_size(center: Pos2, size: Vec2) -> Rect {
        Rect {
            min: Pos2 {
                x: clamp_coord(center.x - half(size.x as int)) as i32,
                y: clamp_coord(center.y - half(size.y as int)) as i32,
            },
            max: Pos2 {
                x: clamp_coord(center.x - half(size.x as int) + size.x) as i32,
                y: clamp_coord(center.y - half(size.y as int) + size.y) as i32,
            },
        }
    }

    #[verifier::when_used_as_spec(spec_from_center_size)]
    pub fn from_center_size(center: Pos2, size: Vec2) -> (r: Rect)
        ensures
            r == Rect::spec_from_center_size(center, size),
    {
        let x0: i64 = center.x as i64 - half_of(size.x as i64);
        let y0: i64 = center.y as i64 - half_of(size.y as i64);
        Rect {
            min: Pos2 { x: saturate(x0), y: saturate(y0) },
            max: Pos2 { x: saturate(x0 + size.x as i64), y: saturate(y0 + size.y as i64) },
        }
    }

    /// Horizontal extent; negative where the corners are swapped.
    pub open spec fn spec_width(self) -> int {
        self.max.x - self.min.x
    }

    pub fn width(self) -> (w: i64)
        ensures
            w as int == self.spec_width(),
    {
        self.max.x as i64 - self.min.x as i64
    }

    /// Vertical extent; negative where the corners are swapped.
    pub open spec fn spec_height(self) -> int {
        self.max.y - self.min.y
    }

    pub fn height(self) -> (h: i64)
        ensures
            h as int == self.spec_height(),
    {
        self.max.y as i64 - self.min.y as i64
    }

    /// Both extents, each saturated to a coordinate.
    pub open spec fn spec_size(self) -> Vec2 {
        Vec2 {
            x: clamp_coord(self.spec_width()) as i32,
            y: clamp_coord(self.spec_height()) as i32,
        }
    }

    #[verifier::when_used_as_spec(spec_size)]
    pub fn size(self) -> (v: Vec2)
        ensures
            v == self.spec_size(),
    {
        Vec2 { x: saturate(self.width()), y: saturate(self.height()) }
    }

    /// The middle of the rectangle, rounded towards the smaller corner.
    pub open spec fn spec_center(self) -> Pos2 {
        Pos2 {
            x: half(self.min.x + self.max.x) as i32,
            y: half(self.min.y + self.max.y) as i32,
        }
    }

    #[verifier::when_used_as_spec(spec_center)]
    pub fn center(self) -> (p: Pos2)
        ensures
            p == self.spec_center(),
    {
        let cx: i64 = half_of(self.min.x as i64 + self.max.x as i64);
        let cy: i64 = half_of(self.min.y as i64 + self.max.y as i64);
        Pos2 { x: cx as i32, y: cy as i32 }
    }

    /// Every side moved outwards by the matching extent of `v`
    /// (inwards where it is negative).
    pub open spec fn spec_expand2(self, v: Vec2) -> Rect {
        Rect {
            min: Pos2 {
                x: clamp_coord(self.min.x - v.x) as i32,
                y: clamp_coord(self.min.y - v.y) as i32,
            },
            max: Pos2 {
                x: clamp_coord(self.max.x + v.x) as i32,
                y: clamp_coord(self.max.y + v.y) as i32,
            },
        }
    }

    #[verifier::when_used_as_spec(spec_expand2)]
    pub fn expand2(self, v: Vec2) -> (r: Rect)
        ensures
            r == self.spec_expand2(v),
    {
        Rect {
            min: Pos2 {
                x: saturate(self.min.x as i64 - v.x as i64),
                y: saturate(self.min.y as i64 - v.y as i64),
            },
            max: Pos2 {
                x: saturate(self.max.x as i64 + v.x as i64),
                y: saturate(self.max.y as i64 + v.y as i64),
            },
        }
    }

    /// Every side moved outwards by `a`.
    pub open spec fn spec_expand(self, a: i32) -> Rect {
        self.spec_expand2(Vec2 { x: a, y: a })
    }

    #[verifier::when_used_as_spec(spec_expand)]
    pub fn expand(self, a: i32) -> (r: Rect)
        ensures
            r == self.spec_expand(a),
    {
        self.expand2(Vec2 { x: a, y: a })
    }

    /// Every side moved inwards by the matching extent of `v`.
    pub open spec fn spec_shrink2(self, v: Vec2) -> Rect {
        Rect {
            min: Pos2 {
                x: clamp_coord(self.min.x + v.x) as i32,
                y: clamp_coord(self.min.y + v.y) as i32,
            },
            max: Pos2 {
                x: clamp_coord(self.max.x - v.x) as i32,
                y: clamp_coord(self.max.y - v.y) as i32,
            },
        }
    }

    #[verifier::when_used_as_spec(spec_shrink2)]
    pub fn shrink2(self, v: Vec2) -> (r: Rect)
        ensures
            r == self.spec_shrink2(v),
    {
        Rect {
            min: Pos2 {
                x: saturate(self.min.x as i64 + v.x as i64),
                y: saturate(self.min.y as i64 + v.y as i64),
            },
            max: Pos2 {
                x: saturate(self.max.x as i64 - v.x as i64),
                y: saturate(self.max.y as i64 - v.y as i64),
            },
        }
    }

    /// Every side moved inwards by `a`.
    pub open spec fn spec_shrink(self, a: i32) -> Rect {
        self.spec_shrink2(Vec2 { x: a, y: a })
    }

    #[verifier::when_used_as_spec(spec_shrink)]
    pub fn shrink(self, a: i32) -> (r: Rect)
        ensures
            r == self.spec_shrink(a),
    {
        self.shrink2(Vec2 { x: a, y: a })
    }

    /// Both corners moved by `v`.
    pub open spec fn spec_translate(self, v: Vec2) -> Rect {
        Rect { min: self.min.spec_offset(v), max: self.max.spec_offset(v) }
    }

    #[verifier::when_used_as_spec(spec_translate)]
    pub fn translate(self, v: Vec2) -> (r: Rect)
        ensures
            r == self.spec_translate(v),
    {
        Rect { min: self.min.offset(v), max: self.max.offset(v) }
    }

    /// Whether `p` lies in the rectangle, its border included.
    pub open spec fn spec_contains(self, p: Pos2) -> bool {
        self.min.x <= p.x && p.x <= self.max.x && self.min.y <= p.y && p.y <= self.max.y
    }

    #[verifier::when_used_as_spec(spec_contains)]
    pub fn contains(self, p: Pos2) -> (b: bool)
        ensures
            b == self.spec_contains(p),
    {
        self.min.x <= p.x && p.x <= self.max.x && self.min.y <= p.y && p.y <= self.max.y
    }

    /// Whether `min` lies before or on `max` on both axes.
    pub open spec fn spec_is_ordered(self) -> bool {
        self.min.x <= self.max.x && self.min.y <= self.max.y
    }

    #[verifier::when_used_as_spec(spec_is_ordered)]
    pub fn is_ordered(self) -> (b: bool)
        ensures
            b == self.spec_is_ordered(),
    {
        self.min.x <= self.max.x && self.min.y <= self.max.y
    }

    /// Whether every point of `self` lies in `outer`, for an ordered `self`.
    pub open spec fn spec_is_within(self, outer: Rect) -> bool {
        outer.min.x <= self.min.x && self.max.x <= outer.max.x && outer.min.y <= self.min.y
            && self.max.y <= outer.max.y
    }

    #[verifier::when_used_as_spec(spec_is_within)]
    pub fn is_within(self, outer: Rect) -> (b: bool)
        ensures
            b == self.spec_is_within(outer),
    {
        outer.min.x <= self.min.x && self.max.x <= outer.max.x && outer.min.y <= self.min.y
            && self.max.y <= outer.max.y
    }

    pub open spec fn spec_left_top(self) -> Pos2 {
        self.min
    }

    #[verifier::when_used_as_spec(spec_left_top)]
    pub fn left_top(self) -> (p: Pos2)
        ensures
            p == self.spec_left_top(),
    {
        self.min
    }

    pub open spec fn spec_right_top(self) -> Pos2 {
        Pos2 { x: self.max.x, y: self.min.y }
    }

    #[verifier::when_used_as_spec(spec_right_top)]
    pub fn right_top(self) -> (p: Pos2)
        ensures
            p == self.spec_right_top(),
    {
        Pos2 { x: self.max.x, y: self.min.y }
    }

    pub open spec fn spec_left_bottom(self) -> Pos2 {
        Pos2 { x: self.min.x, y: self.max.y }
    }

    #[verifier::when_used_as_spec(spec_left_bottom)]
    pub fn left_bottom(self) -> (p: Pos2)
        ensures
            p == self.spec_left_bottom(),
    {
        Pos2 { x: self.min.x, y: self.max.y }
    }

    pub open spec fn spec_right_bottom(self) -> Pos2 {
        self.max
    }

    #[verifier::when_used_as_spec(spec_right_bottom)]
    pub fn right_bottom(self) -> (p: Pos2)
        ensures
            p == self.spec_right_bottom(),
    {
        self.max
    }
}

} // verus!
