//! Tiles: the squares of side `2^exponent` that the plane is cut into.
use crate::math::{I64Vec2, Number, Real, Vec2};
use std::cmp::Ordering;
use vstd::arithmetic::power2::{lemma_pow2_pos, pow2};
use vstd::prelude::*;
use vstd::std_specs::cmp::PartialOrdSpecImpl;

verus! {

/// The exact number `mantissa * 2^exponent`.
#[derive(Debug, Copy, Clone, PartialEq, Eq, Structural)]
pub struct Dyadic {
    pub mantissa: i128,
    pub exponent: i64,
}

impl Dyadic {
    /// The number counted in units of `2^base`, for a base that is not
    /// above the exponent: `mantissa * 2^(exponent - base)`.
    pub open spec fn scaled(self, base: int) -> int
        recommends
            base <= self.exponent,
    {
        self.mantissa * pow2((self.exponent - base) as nat)
    }
}

/// A pair of exact numbers: a point of the plane.
#[derive(Debug, Copy, Clone, PartialEq, Eq, Structural)]
pub struct DyadicVec2 {
    pub x: Dyadic,
    pub y: Dyadic,
}

/// The address of a tile: the square of side `2^exponent` whose bottom left
/// corner lies at `unscaled_pos * 2^exponent`.
#[derive(Debug, Copy, Clone, PartialEq, Eq, Hash, Structural)]
pub struct QuadPos {
    pub unscaled_pos: I64Vec2,
    pub exponent: i32,
}

impl Default for QuadPos {
    /// The unit tile at the origin.
    fn default() -> (r: Self)
        ensures
            r == (QuadPos { unscaled_pos: I64Vec2 { x: 0, y: 0 }, exponent: 0 }),
    {
        QuadPos { unscaled_pos: I64Vec2 { x: 0, y: 0 }, exponent: 0 }
    }
}

impl QuadPos {
    /// The order of tiles: a coarser tile comes before a finer one; tiles
    /// of one size are ordered by their column, then by their row.
    pub open spec fn precedes(self, other: Self) -> bool {
        self.exponent > other.exponent || (self.exponent == other.exponent && (
        self.unscaled_pos.x < other.unscaled_pos.x || (self.unscaled_pos.x == other.unscaled_pos.x
            && self.unscaled_pos.y < other.unscaled_pos.y)))
    }

    /// Whether `self` comes before `other` in the order of tiles.
    pub fn is_before(&self, other: &Self) -> (r: bool)
        ensures
            r == self.precedes(*other),
    {
        self.exponent > other.exponent || (self.exponent == other.exponent && (
        self.unscaled_pos.x < other.unscaled_pos.x || (self.unscaled_pos.x == other.unscaled_pos.x
            && self.unscaled_pos.y < other.unscaled_pos.y)))
    }

    /// The side of the tile, exactly: `2^exponent`.
    pub open spec fn exact_size_spec(&self) -> Dyadic {
        Dyadic { mantissa: 1, exponent: self.exponent as i64 }
    }

    /// The side of the tile, exactly: `2^exponent`.
    #[verifier::when_used_as_spec(exact_size_spec)]
    pub fn exact_size(&self) -> (r: Dyadic)
        ensures
            r == self.exact_size_spec(),
    {
        Dyadic { mantissa: 1, exponent: self.exponent as i64 }
    }

    /// The bottom left corner, exactly: `unscaled_pos * 2^exponent`.
    pub open spec fn exact_bottom_left_spec(&self) -> DyadicVec2 {
        DyadicVec2 {
            x: Dyadic { mantissa: self.unscaled_pos.x as i128, exponent: self.exponent as i64 },
            y: Dyadic { mantissa: self.unscaled_pos.y as i128, exponent: self.exponent as i64 },
        }
    }

    /// The bottom left corner, exactly: `unscaled_pos * 2^exponent`.
    #[verifier::when_used_as_spec(exact_bottom_left_spec)]
    pub fn exact_bottom_left(&self) -> (r: DyadicVec2)
        ensures
            r == self.exact_bottom_left_spec(),
    {
        let e = self.exponent as i64;
        DyadicVec2 {
            x: Dyadic { mantissa: self.unscaled_pos.x as i128, exponent: e },
            y: Dyadic { mantissa: self.unscaled_pos.y as i128, exponent: e },
        }
    }

    /// The centre, exactly: `(2 * unscaled_pos + 1) * 2^(exponent - 1)`.
    pub open spec fn exact_center_spec(&self) -> DyadicVec2 {
        DyadicVec2 {
            x: Dyadic {
                mantissa: (2 * self.unscaled_pos.x + 1) as i128,
                exponent: (self.exponent - 1) as i64,
            },
            y: Dyadic {
                mantissa: (2 * self.unscaled_pos.y + 1) as i128,
                exponent: (self.exponent - 1) as i64,
            },
        }
    }

    /// The centre, exactly: `(2 * unscaled_pos + 1) * 2^(exponent - 1)`.
    #[verifier::when_used_as_spec(exact_center_spec)]
    pub fn exact_center(&self) -> (r: DyadicVec2)
        ensures
            r == self.exact_center_spec(),
    {
        let e = self.exponent as i64 - 1;
        DyadicVec2 {
            x: Dyadic { mantissa: 2 * (self.unscaled_pos.x as i128) + 1, exponent: e },
            y: Dyadic { mantissa: 2 * (self.unscaled_pos.y as i128) + 1, exponent: e },
        }
    }

    /// The top right corner, exactly: `(unscaled_pos + 1) * 2^exponent`.
    pub open spec fn exact_top_right_spec(&self) -> DyadicVec2 {
        DyadicVec2 {
            x: Dyadic {
                mantissa: (self.unscaled_pos.x + 1) as i128,
                exponent: self.exponent as i64,
            },
            y: Dyadic {
                mantissa: (self.unscaled_pos.y + 1) as i128,
                exponent: self.exponent as i64,
            },
        }
    }

    /// The top right corner, exactly: `(unscaled_pos + 1) * 2^exponent`.
    #[verifier::when_used_as_spec(exact_top_right_spec)]
    pub fn exact_top_right(&self) -> (r: DyadicVec2)
        ensures
            r == self.exact_top_right_spec(),
    {
        let e = self.exponent as i64;
        DyadicVec2 {
            x: Dyadic { mantissa: self.unscaled_pos.x as i128 + 1, exponent: e },
            y: Dyadic { mantissa: self.unscaled_pos.y as i128 + 1, exponent: e },
        }
    }

    pub open spec fn cell_size_spec<S: Real>(&self) -> S {
        S::from_decimal(2, 0).powi(self.exponent)
    }

    /// The side of the tile as a number of `S`: two raised to the exponent.
    #[verifier::when_used_as_spec(cell_size_spec)]
    pub fn cell_size<S: Real>(&self) -> (r: S)
        ensures
            r == self.cell_size_spec::<S>(),
    {
        S::from_decimal(2, 0).powi(self.exponent)
    }

    pub open spec fn cell_bottom_left_spec<S: Real>(&self) -> Vec2<S> {
        let cell_size = self.cell_size::<S>();
        Vec2 {
            x: S::from_int(self.unscaled_pos.x).mul(cell_size),
            y: S::from_int(self.unscaled_pos.y).mul(cell_size),
        }
    }

    /// The bottom left corner in the arithmetic of `S`:
    /// `unscaled_pos * cell_size`.
    #[verifier::when_used_as_spec(cell_bottom_left_spec)]
    pub fn cell_bottom_left<S: Real>(&self) -> (r: Vec2<S>)
        ensures
            r == self.cell_bottom_left_spec::<S>(),
    {
        let cell_size = self.cell_size::<S>();
        Vec2::new(S::from_int(self.unscaled_pos.x), S::from_int(self.unscaled_pos.y)).scale(
            cell_size,
        )
    }

    pub open spec fn cell_center_spec<S: Real>(&self) -> Vec2<S> {
        let cell_size = self.cell_size::<S>();
        let half = S::from_decimal(5, -1i32);
        Vec2 {
            x: S::from_int(self.unscaled_pos.x).add(half).mul(cell_size),
            y: S::from_int(self.unscaled_pos.y).add(half).mul(cell_size),
        }
    }

    /// The centre in the arithmetic of `S`:
    /// `(unscaled_pos + 0.5) * cell_size`.
    #[verifier::when_used_as_spec(cell_center_spec)]
    pub fn cell_center<S: Real>(&self) -> (r: Vec2<S>)
        ensures
            r == self.cell_center_spec::<S>(),
    {
        let cell_size = self.cell_size::<S>();
        let half = S::from_decimal(5, -1);
        Vec2::new(
            S::from_int(self.unscaled_pos.x).add(half),
            S::from_int(self.unscaled_pos.y).add(half),
        ).scale(cell_size)
    }

    pub open spec fn cell_top_right_spec<S: Real>(&self) -> Vec2<S> {
        let cell_size = self.cell_size::<S>();
        Vec2 {
            x: S::from_int(self.unscaled_pos.x).add(S::one()).mul(cell_size),
            y: S::from_int(self.unscaled_pos.y).add(S::one()).mul(cell_size),
        }
    }

    /// The top right corner in the arithmetic of `S`:
    /// `(unscaled_pos + 1) * cell_size`.
    #[verifier::when_used_as_spec(cell_top_right_spec)]
    pub fn cell_top_right<S: Real>(&self) -> (r: Vec2<S>)
        ensures
            r == self.cell_top_right_spec::<S>(),
    {
        let cell_size = self.cell_size::<S>();
        Vec2::new(
            S::from_int(self.unscaled_pos.x).add(S::one()),
            S::from_int(self.unscaled_pos.y).add(S::one()),
        ).scale(cell_size)
    }

    /// Whether the tile lies within `other`, both taken with their borders.
    /// Both are measured in units of the side of the finer of the two.
    pub open spec fn within(self, other: Self) -> bool {
        let base = if self.exponent <= other.exponent {
            self.exponent as int
        } else {
            other.exponent as int
        };
        &&& other.exact_bottom_left().x.scaled(base) <= self.exact_bottom_left().x.scaled(base)
        &&& self.exact_top_right().x.scaled(base) <= other.exact_top_right().x.scaled(base)
        &&& other.exact_bottom_left().y.scaled(base) <= self.exact_bottom_left().y.scaled(base)
        &&& self.exact_top_right().y.scaled(base) <= other.exact_top_right().y.scaled(base)
    }

    /// Whether the two tiles share no inner point: one ends, in some
    /// direction, where or before the other begins.
    pub open spec fn apart(self, other: Self) -> bool {
        let base = if self.exponent <= other.exponent {
            self.exponent as int
        } else {
            other.exponent as int
        };
        ||| self.exact_top_right().x.scaled(base) <= other.exact_bottom_left().x.scaled(base)
        ||| other.exact_top_right().x.scaled(base) <= self.exact_bottom_left().x.scaled(base)
        ||| self.exact_top_right().y.scaled(base) <= other.exact_bottom_left().y.scaled(base)
        ||| other.exact_top_right().y.scaled(base) <= self.exact_bottom_left().y.scaled(base)
    }

    /// The size of a tile is `2^exponent` exactly, and the tile is a square
    /// of that side: in units of `2^base`, for any base not above the
    /// exponent, the side counts `2^(exponent - base)`, and so does the
    /// difference of the opposite corners in either direction.
    pub proof fn lemma_tile_size(self, base: int)
        requires
            base <= self.exponent,
        ensures
            self.exact_size().mantissa == 1,
            self.exact_size().exponent == self.exponent,
            self.exact_size().scaled(base) == pow2((self.exponent - base) as nat),
            self.exact_size().scaled(self.exponent as int) == 1,
            self.exact_top_right().x.scaled(base) - self.exact_bottom_left().x.scaled(base)
                == self.exact_size().scaled(base),
            self.exact_top_right().y.scaled(base) - self.exact_bottom_left().y.scaled(base)
                == self.exact_size().scaled(base),
            self.exact_top_right().x.mantissa - self.exact_bottom_left().x.mantissa
                == self.exact_size().mantissa,
            self.exact_top_right().y.mantissa - self.exact_bottom_left().y.mantissa
                == self.exact_size().mantissa,
            self.exact_top_right().x.exponent == self.exact_size().exponent,
            self.exact_bottom_left().x.exponent == self.exact_size().exponent,
    {
        let p = pow2((self.exponent - base) as nat) as int;
        let x = self.unscaled_pos.x as int;
        let y = self.unscaled_pos.y as int;
        assert((x + 1) * p - x * p == p) by (nonlinear_arith);
        assert((y + 1) * p - y * p == p) by (nonlinear_arith);
        assert(1 * p == p);
        assert(pow2(0) == 1) by {
            reveal(pow2);
            vstd::arithmetic::power::lemma_pow0(2);
        }
    }

    /// The centre lies half a side from the bottom left corner, in either
    /// direction: counted in halves of a side, the bottom left corner is at
    /// `2 * unscaled_pos` and the centre at `2 * unscaled_pos + 1`.
    pub proof fn lemma_center(self)
        ensures
            self.exact_center().x.scaled(self.exponent - 1) == self.exact_bottom_left().x.scaled(
                self.exponent - 1,
            ) + 1,
            self.exact_center().y.scaled(self.exponent - 1) == self.exact_bottom_left().y.scaled(
                self.exponent - 1,
            ) + 1,
            self.exact_size().scaled(self.exponent - 1) == 2,
    {
        assert(pow2(0) == 1 && pow2(1) == 2) by {
            reveal(pow2);
            vstd::arithmetic::power::lemma_pow0(2);
            vstd::arithmetic::power::lemma_pow1(2);
        }
        let x = self.unscaled_pos.x as int;
        let y = self.unscaled_pos.y as int;
        assert((2 * x + 1) * 1 == x * 2 + 1 && (2 * y + 1) * 1 == y * 2 + 1);
        assert(self.exact_center().x.scaled(self.exponent - 1) == (2 * x + 1) * pow2(0));
        assert(self.exact_bottom_left().x.scaled(self.exponent - 1) == x * pow2(1));
        assert(self.exact_center().y.scaled(self.exponent - 1) == (2 * y + 1) * pow2(0));
        assert(self.exact_bottom_left().y.scaled(self.exponent - 1) == y * pow2(1));
    }

    /// Tiles never overlap in part: of two tiles the finer lies within the
    /// coarser, or the two share no inner point.
    pub proof fn lemma_tiles_nest(self, other: Self)
        requires
            self.exponent <= other.exponent,
        ensures
            self.within(other) || self.apart(other),
    {
        let base = self.exponent as int;
        let m = pow2((other.exponent - base) as nat) as int;
        lemma_pow2_pos((other.exponent - base) as nat);
        assert(pow2(0) == 1) by {
            reveal(pow2);
            vstd::arithmetic::power::lemma_pow0(2);
        }
        let ax = self.unscaled_pos.x as int;
        let ay = self.unscaled_pos.y as int;
        let bx = other.unscaled_pos.x as int;
        let by = other.unscaled_pos.y as int;
        assert((bx + 1) * m == bx * m + m) by (nonlinear_arith);
        assert((by + 1) * m == by * m + m) by (nonlinear_arith);
        assert(ax * 1 == ax && (ax + 1) * 1 == ax + 1 && ay * 1 == ay && (ay + 1) * 1 == ay + 1);
    }

    /// The order of tiles is a strict total order.
    pub proof fn lemma_order_is_total(a: Self, b: Self, c: Self)
        ensures
            !a.precedes(a),
            a.precedes(b) ==> !b.precedes(a),
            a.precedes(b) && b.precedes(c) ==> a.precedes(c),
            a == b || a.precedes(b) || b.precedes(a),
    {
    }

    /// Coarser tiles come first; among tiles of one size the order is that
    /// of the pairs `(x, y)`.
    pub proof fn lemma_order_by_size_then_position(a: Self, b: Self)
        ensures
            a.exponent > b.exponent ==> a.precedes(b),
            a.exponent == b.exponent ==> (a.precedes(b) <==> (a.unscaled_pos.x < b.unscaled_pos.x
                || (a.unscaled_pos.x == b.unscaled_pos.x && a.unscaled_pos.y
                < b.unscaled_pos.y))),
    {
    }
}

impl PartialOrd for QuadPos {
    fn partial_cmp(&self, other: &Self) -> (r: Option<Ordering>) {
        if self.is_before(other) {
            Some(Ordering::Less)
        } else if other.is_before(self) {
            Some(Ordering::Greater)
        } else {
            Some(Ordering::Equal)
        }
    }
}

impl PartialOrdSpecImpl for QuadPos {
    open spec fn obeys_partial_cmp_spec() -> bool {
        true
    }

    open spec fn partial_cmp_spec(&self, other: &Self) -> Option<Ordering> {
        if self.precedes(*other) {
            Some(Ordering::Less)
        } else if other.precedes(*self) {
            Some(Ordering::Greater)
        } else {
            Some(Ordering::Equal)
        }
    }
}

} // verus!
