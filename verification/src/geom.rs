//! Axis-aligned box geometry: overlap testing and collision-side
//! classification, plus the clamped and truncating arithmetic helpers the
//! simulation uses.

use vstd::prelude::*;

verus! {

/// The side of collider `b` that a moving box `a` struck, or `Inside` when
/// the boxes overlap but no single side can be singled out (containment or a
/// tie between the two axes).
#[derive(Clone, Copy, Debug, PartialEq, Eq, Structural)]
pub enum Side {
    Left,
    Right,
    Top,
    Bottom,
    Inside,
}

/// Mathematical axis-aligned box: center and non-negative half-extents.
pub struct BoxModel {
    pub x: int,
    pub y: int,
    pub hw: int,
    pub hh: int,
}

/// Executable axis-aligned box in sub-unit coordinates.
#[derive(Clone, Copy, Debug)]
pub struct Aabb {
    pub x: i64,
    pub y: i64,
    pub hw: i64,
    pub hh: i64,
}

impl View for Aabb {
    type V = BoxModel;

    open spec fn view(&self) -> BoxModel {
        BoxModel { x: self.x as int, y: self.y as int, hw: self.hw as int, hh: self.hh as int }
    }
}

/// Coordinate magnitudes the executable geometry accepts without overflow.
pub const COORD_LIMIT: i64 = 1000000000;

pub open spec fn box_bounded(b: BoxModel) -> bool {
    &&& -COORD_LIMIT <= b.x <= COORD_LIMIT
    &&& -COORD_LIMIT <= b.y <= COORD_LIMIT
    &&& 0 <= b.hw <= COORD_LIMIT
    &&& 0 <= b.hh <= COORD_LIMIT
}

pub open spec fn abs_val(v: int) -> int {
    if v < 0 {
        -v
    } else {
        v
    }
}

/// Overlap depth along the x axis: non-negative exactly when the projections
/// of the two boxes on the x axis meet (touching counts as meeting).
pub open spec fn x_overlap(a: BoxModel, b: BoxModel) -> int {
    a.hw + b.hw - abs_val(a.x - b.x)
}

/// Overlap depth along the y axis.
pub open spec fn y_overlap(a: BoxModel, b: BoxModel) -> int {
    a.hh + b.hh - abs_val(a.y - b.y)
}

pub open spec fn boxes_meet(a: BoxModel, b: BoxModel) -> bool {
    x_overlap(a, b) >= 0 && y_overlap(a, b) >= 0
}

/// Classification along the x axis: `a` strictly straddles `b`'s left edge,
/// its right edge, or neither (containment or aligned edges).
pub open spec fn x_side(a: BoxModel, b: BoxModel) -> Side {
    if a.x - a.hw < b.x - b.hw && a.x + a.hw < b.x + b.hw {
        Side::Left
    } else if a.x - a.hw > b.x - b.hw && a.x + a.hw > b.x + b.hw {
        Side::Right
    } else {
        Side::Inside
    }
}

/// Classification along the y axis; `Bottom` means `a` sits below `b`.
pub open spec fn y_side(a: BoxModel, b: BoxModel) -> Side {
    if a.y - a.hh < b.y - b.hh && a.y + a.hh < b.y + b.hh {
        Side::Bottom
    } else if a.y - a.hh > b.y - b.hh && a.y + a.hh > b.y + b.hh {
        Side::Top
    } else {
        Side::Inside
    }
}

/// Collision test between two axis-aligned boxes.  `None` when the boxes are
/// separated by a positive gap on either axis.  On overlap the collision is
/// attributed to the axis with the smaller overlap depth (the side `a`
/// penetrated least); an exact tie between the axes, or a configuration in
/// which `a` does not strictly straddle one edge of `b` on the chosen axis,
/// classifies as `Inside`.
pub open spec fn collide_spec(a: BoxModel, b: BoxModel) -> Option<Side> {
    if !boxes_meet(a, b) {
        None
    } else if x_overlap(a, b) < y_overlap(a, b) {
        Some(x_side(a, b))
    } else if y_overlap(a, b) < x_overlap(a, b) {
        Some(y_side(a, b))
    } else {
        Some(Side::Inside)
    }
}

/// Executable collision test; follows `collide_spec` exactly.
pub fn collide(a: &Aabb, b: &Aabb) -> (r: Option<Side>)
    requires
        box_bounded(a@),
        box_bounded(b@),
    ensures
        r == collide_spec(a@, b@),
{
    let dx: i64 = a.x - b.x;
    let adx: i64 = if dx < 0 {
        -dx
    } else {
        dx
    };
    let dy: i64 = a.y - b.y;
    let ady: i64 = if dy < 0 {
        -dy
    } else {
        dy
    };
    let xo: i64 = a.hw + b.hw - adx;
    let yo: i64 = a.hh + b.hh - ady;
    if xo < 0 || yo < 0 {
        None
    } else if xo < yo {
        if a.x - a.hw < b.x - b.hw && a.x + a.hw < b.x + b.hw {
            Some(Side::Left)
        } else if a.x - a.hw > b.x - b.hw && a.x + a.hw > b.x + b.hw {
            Some(Side::Right)
        } else {
            Some(Side::Inside)
        }
    } else if yo < xo {
        if a.y - a.hh < b.y - b.hh && a.y + a.hh < b.y + b.hh {
            Some(Side::Bottom)
        } else if a.y - a.hh > b.y - b.hh && a.y + a.hh > b.y + b.hh {
            Some(Side::Top)
        } else {
            Some(Side::Inside)
        }
    } else {
        Some(Side::Inside)
    }
}

pub open spec fn clamp_spec(v: int, lo: int, hi: int) -> int {
    if v < lo {
        lo
    } else if v > hi {
        hi
    } else {
        v
    }
}

/// Clamp `v` into the closed interval `[lo, hi]`.
pub fn clamp_i64(v: i64, lo: i64, hi: i64) -> (r: i64)
    requires
        lo <= hi,
    ensures
        r == clamp_spec(v as int, lo as int, hi as int),
{
    if v < lo {
        lo
    } else if v > hi {
        hi
    } else {
        v
    }
}

/// Integer division truncating toward zero, the rounding the fixed-point
/// simulation uses when scaling a displacement or a contact offset.
pub open spec fn div_trunc(n: int, d: int) -> int
    recommends
        d > 0,
{
    if n >= 0 {
        n / d
    } else {
        -((-n) / d)
    }
}

/// Executable truncating division by a positive divisor.
pub fn div_trunc_i64(n: i64, d: i64) -> (q: i64)
    requires
        0 < d,
        -COORD_LIMIT <= n <= COORD_LIMIT,
    ensures
        q == div_trunc(n as int, d as int),
        n >= 0 ==> 0 <= q <= n,
        n < 0 ==> n <= q <= 0,
{
    let r = n.checked_div(d);
    proof {
        if n >= 0 {
            assert(0 <= (n as int) / (d as int) <= n as int) by (nonlinear_arith)
                requires
                    0 < (d as int),
                    0 <= (n as int);
        } else {
            assert(0 <= (-(n as int)) / (d as int) <= -(n as int)) by (nonlinear_arith)
                requires
                    0 < (d as int),
                    (n as int) < 0;
        }
    }
    r.unwrap()
}

} // verus!
