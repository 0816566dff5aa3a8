//! Points and rectangles of a window. Coordinates are kept as the bits of single-precision
//! numbers and only compared; the host calculates with them.
use vstd::prelude::*;

verus! {

/// The bits of a single-precision number.
#[derive(Clone, Copy, Debug)]
pub struct Scalar {
    pub bits: u32,
}

impl Scalar {
    /// The magnitude, as a number that orders as the magnitudes do.
    pub open spec fn magnitude(self) -> int {
        self.bits as int % 0x8000_0000
    }

    pub open spec fn spec_is_nan(self) -> bool {
        self.magnitude() > 0x7f80_0000
    }

    /// A number that orders as the single-precision numbers do; both zeros have the same.
    pub open spec fn rank(self) -> int {
        if self.bits >= 0x8000_0000 {
            -self.magnitude()
        } else {
            self.magnitude()
        }
    }

    /// Equality of single-precision numbers.
    pub open spec fn equals(self, other: Scalar) -> bool {
        !self.spec_is_nan() && !other.spec_is_nan() && self.rank() == other.rank()
    }

    /// The order of single-precision numbers.
    pub open spec fn at_most(self, other: Scalar) -> bool {
        !self.spec_is_nan() && !other.spec_is_nan() && self.rank() <= other.rank()
    }

    pub fn is_nan(self) -> (nan: bool)
        ensures
            nan == self.spec_is_nan(),
    {
        self.bits % 0x8000_0000 > 0x7f80_0000
    }

    fn order(self) -> (rank: i64)
        ensures
            rank == self.rank(),
    {
        let magnitude: i64 = (self.bits % 0x8000_0000) as i64;
        if self.bits >= 0x8000_0000 {
            -magnitude
        } else {
            magnitude
        }
    }

    pub fn same(self, other: Scalar) -> (same: bool)
        ensures
            same == self.equals(other),
    {
        !self.is_nan() && !other.is_nan() && self.order() == other.order()
    }

    pub fn is_at_most(self, other: Scalar) -> (ordered: bool)
        ensures
            ordered == self.at_most(other),
    {
        !self.is_nan() && !other.is_nan() && self.order() <= other.order()
    }
}

#[derive(Clone, Copy, Debug)]
pub struct Pos {
    pub x: Scalar,
    pub y: Scalar,
}

impl Pos {
    pub open spec fn equals(self, other: Pos) -> bool {
        self.x.equals(other.x) && self.y.equals(other.y)
    }

    pub fn same(self, other: Pos) -> (same: bool)
        ensures
            same == self.equals(other),
    {
        self.x.same(other.x) && self.y.same(other.y)
    }
}

#[derive(Clone, Copy, Debug)]
pub struct Rect {
    pub min: Pos,
    pub max: Pos,
}

impl Rect {
    /// The edges belong to the rectangle.
    pub open spec fn encloses(self, position: Pos) -> bool {
        &&& self.min.x.at_most(position.x)
        &&& position.x.at_most(self.max.x)
        &&& self.min.y.at_most(position.y)
        &&& position.y.at_most(self.max.y)
    }

    pub fn contains(&self, position: Pos) -> (inside: bool)
        ensures
            inside == self.encloses(position),
    {
        self.min.x.is_at_most(position.x) && position.x.is_at_most(self.max.x)
            && self.min.y.is_at_most(position.y) && position.y.is_at_most(self.max.y)
    }

    pub open spec fn equals(self, other: Rect) -> bool {
        self.min.equals(other.min) && self.max.equals(other.max)
    }

    pub fn same(&self, other: &Rect) -> (same: bool)
        ensures
            same == self.equals(*other),
    {
        self.min.same(other.min) && self.max.same(other.max)
    }
}

} // verus!
