//! The fade of a window that opens or closes.
//!
//! Time is counted in whole steps. A fade lasts `duration` steps; its level
//! runs from 0 (closed) to `duration` (open), and the opacity is the level
//! eased along a cubic curve, from 0 (invisible) to 255 (opaque).

use vstd::prelude::*;

verus! {

/// `v` to the third power.
pub open spec fn cube(v: int) -> int {
    v * v * v
}

/// The level after one frame of `dt` steps: up towards `duration` while
/// the window should be open, down towards 0 while it should not.
pub open spec fn stepped_level(level: int, open: bool, dt: int, duration: int) -> int {
    let from = if level > duration {
        duration
    } else {
        level
    };
    if open {
        if from + dt > duration {
            duration
        } else {
            from + dt
        }
    } else {
        if dt > from {
            0
        } else {
            from - dt
        }
    }
}

/// The opacity at `level` of a fade of `duration` steps.
///
/// While opening the curve starts fast and ends slow, and mirrored while
/// closing. Without a duration the window is at once opaque or invisible.
pub open spec fn eased_opacity(level: int, open: bool, duration: int) -> int {
    if duration <= 0 {
        if open {
            255
        } else {
            0
        }
    } else if open {
        255 - (255 * cube(duration - level)) / cube(duration)
    } else {
        (255 * cube(level)) / cube(duration)
    }
}

/// How far a window has faded in. `None` until the window is first shown.
#[derive(Clone, Copy, Debug, PartialEq, Eq, Structural)]
pub struct Fade {
    pub level: Option<u16>,
}

proof fn lemma_cube_bounds(v: int, d: int)
    requires
        0 <= v <= d,
        0 < d <= 65535,
    ensures
        0 <= cube(v) <= cube(d),
        0 < cube(d) <= 65535 * 65535 * 65535,
        0 <= (255 * cube(v)) / cube(d) <= 255,
{
    assert(0 <= v * v <= d * d) by (nonlinear_arith)
        requires
            0 <= v <= d,
    ;
    assert(0 <= v * v * v <= d * d * d) by (nonlinear_arith)
        requires
            0 <= v <= d,
            0 <= v * v <= d * d,
    ;
    assert(0 < d * d <= 65535 * 65535) by (nonlinear_arith)
        requires
            0 < d <= 65535,
    ;
    assert(0 < d * d * d <= 65535 * 65535 * 65535) by (nonlinear_arith)
        requires
            0 < d <= 65535,
            0 < d * d <= 65535 * 65535,
    ;
    let c = cube(d);
    let n = 255 * cube(v);
    assert(0 <= n / c <= 255) by (nonlinear_arith)
        requires
            0 <= n <= 255 * c,
            0 < c,
    ;
}

impl Fade {
    pub open spec fn spec_fresh() -> Fade {
        Fade { level: None }
    }

    /// The fade of a window that was never shown.
    #[verifier::when_used_as_spec(spec_fresh)]
    pub fn fresh() -> (f: Fade)
        ensures
            f == Fade::spec_fresh(),
    {
        Fade { level: None }
    }

    /// The fade after one frame. A window that is shown for the first time
    /// does not fade: it starts at the end of its animation.
    pub open spec fn spec_step(self, open: bool, dt: u16, duration: u16) -> Fade {
        match self.level {
            None => Fade {
                level: Some(
                    if open {
                        duration
                    } else {
                        0u16
                    },
                ),
            },
            Some(l) => Fade {
                level: Some(stepped_level(l as int, open, dt as int, duration as int) as u16),
            },
        }
    }

    #[verifier::when_used_as_spec(spec_step)]
    pub fn step(self, open: bool, dt: u16, duration: u16) -> (f: Fade)
        ensures
            f == self.spec_step(open, dt, duration),
            f.level.is_some(),
            f.level.unwrap() <= duration,
    {
        match self.level {
            None => Fade { level: Some(if open { duration } else { 0 }) },
            Some(l) => {
                let from: u16 = if l > duration { duration } else { l };
                let next: u16 = if open {
                    if dt > duration - from {
                        duration
                    } else {
                        from + dt
                    }
                } else {
                    if dt > from {
                        0
                    } else {
                        from - dt
                    }
                };
                Fade { level: Some(next) }
            },
        }
    }

    /// The opacity of the window, from 0 to 255. A window that was never
    /// shown is taken to stand at the end of its animation.
    pub open spec fn spec_opacity(self, open: bool, duration: u16) -> u8 {
        match self.level {
            None => if open {
                255u8
            } else {
                0u8
            },
            Some(l) => {
                let level = if l > duration {
                    duration
                } else {
                    l
                };
                eased_opacity(level as int, open, duration as int) as u8
            },
        }
    }

    #[verifier::when_used_as_spec(spec_opacity)]
    pub fn opacity(self, open: bool, duration: u16) -> (o: u8)
        ensures
            o == self.spec_opacity(open, duration),
    {
        match self.level {
            None => if open { 255 } else { 0 },
            Some(l) => {
                if duration == 0 {
                    return if open { 255 } else { 0 };
                }
                let level: u64 = if l > duration { duration as u64 } else { l as u64 };
                let d: u64 = duration as u64;
                let v: u64 = if open { d - level } else { level };
                proof {
                    lemma_cube_bounds(v as int, d as int);
                    assert(v * v <= d * d) by (nonlinear_arith)
                        requires
                            0 <= v <= d,
                    ;
                    assert(d * d <= 65535 * 65535) by (nonlinear_arith)
                        requires
                            0 < d <= 65535,
                    ;
                }
                let v3: u64 = v * v * v;
                let d3: u64 = d * d * d;
                let part: u64 = (255 * v3) / d3;
                if open {
                    (255 - part) as u8
                } else {
                    part as u8
                }
            },
        }
    }
}

} // verus!
