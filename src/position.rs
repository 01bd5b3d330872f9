//! Two-dimensional coordinates
use vstd::prelude::*;

use crate::orientation::{
    vector_deci, Direction, NearlySingularConversion, Orientation, Rotation, MAX_COMPONENT,
};

verus! {

/// A value of the host's floating-point space could not be held by a [`Coordinate`]
#[derive(Clone, Copy, Debug, PartialEq, Eq, Structural)]
pub struct FloatCoordinateConversionError;

/// The quotient of `a / b`, rounded toward zero
pub open spec fn trunc_div(a: int, b: int) -> int {
    let q = (if a < 0 { -a } else { a }) / (if b < 0 { -b } else { b });
    if (a < 0) != (b < 0) { -q } else { q }
}

/// The remainder of `a / b` rounded toward zero; it takes the sign of `a`
pub open spec fn trunc_rem(a: int, b: int) -> int {
    a - b * trunc_div(a, b)
}

/// Bounds every coordinate type keeps to, so that differences of two coordinates can be
/// turned into directions
pub open spec fn within_coordinate_bounds(v: int) -> bool {
    -0x8000_0000_0000_0000 <= v <= 0x7fff_ffff_ffff_ffff
}

/// A type that can be used as a coordinate of a [`Position`]
///
/// Each coordinate stands for an integer, its [`value`](Coordinate::value), and the
/// arithmetic below acts on those integers.
pub trait Coordinate: Sized + Copy {
    /// The integer that the coordinate stands for
    spec fn value(self) -> int;

    /// Whether the type can hold the integer `v`
    spec fn holds(v: int) -> bool;

    /// Every coordinate holds its own value
    proof fn lemma_holds_value(c: Self)
        ensures
            Self::holds(c.value()),
    ;

    /// A coordinate is determined by its value
    proof fn lemma_value_injective(a: Self, b: Self)
        requires
            a.value() == b.value(),
        ensures
            a == b,
    ;

    /// What a coordinate type holds stays within the common bounds
    proof fn lemma_holds_bounded(v: int)
        requires
            Self::holds(v),
        ensures
            within_coordinate_bounds(v),
    ;

    /// The coordinate of integer zero
    fn zero() -> (r: Self)
        ensures
            r.value() == 0,
    ;

    /// The integer as a machine value
    fn to_i128(self) -> (r: i128)
        ensures
            r == self.value(),
    ;

    /// Whether two coordinates stand for the same integer
    fn same(self, rhs: Self) -> (r: bool)
        ensures
            r == (self.value() == rhs.value()),
    ;

    fn plus(self, rhs: Self) -> (r: Self)
        requires
            Self::holds(self.value() + rhs.value()),
        ensures
            r.value() == self.value() + rhs.value(),
    ;

    fn minus(self, rhs: Self) -> (r: Self)
        requires
            Self::holds(self.value() - rhs.value()),
        ensures
            r.value() == self.value() - rhs.value(),
    ;

    fn times(self, rhs: Self) -> (r: Self)
        requires
            Self::holds(self.value() * rhs.value()),
        ensures
            r.value() == self.value() * rhs.value(),
    ;

    /// Division rounded toward zero
    fn divided_by(self, rhs: Self) -> (r: Self)
        requires
            rhs.value() != 0,
            Self::holds(trunc_div(self.value(), rhs.value())),
        ensures
            r.value() == trunc_div(self.value(), rhs.value()),
    ;

    /// Remainder of division rounded toward zero
    fn remainder(self, rhs: Self) -> (r: Self)
        requires
            rhs.value() != 0,
        ensures
            r.value() == trunc_rem(self.value(), rhs.value()),
    ;
}

/// A 2-dimensional position
///
/// The coordinate type `C` decides the kind of space: a square grid, a hex grid and so on.
#[derive(Clone, Copy, Debug, PartialEq)]
pub struct Position<C: Coordinate> {
    /// The first coordinate of the position, typically the x-axis
    pub x: C,
    /// The second coordinate of the position, typically the y-axis
    pub y: C,
}

impl<C: Coordinate> Position<C> {
    /// The pair of integers that the position stands for
    pub open spec fn model(self) -> (int, int) {
        (self.x.value(), self.y.value())
    }

    /// Creates a new [`Position`] with the provided `x` and `y` coordinates
    pub fn new(x: C, y: C) -> (r: Position<C>)
        ensures
            r.x == x,
            r.y == y,
    {
        Position { x, y }
    }

    /// Whether two positions stand for the same point
    pub fn same(self, rhs: Position<C>) -> (r: bool)
        ensures
            r == (self.model() == rhs.model()),
    {
        self.x.same(rhs.x) && self.y.same(rhs.y)
    }

    /// Componentwise sum
    pub fn add(self, rhs: Position<C>) -> (r: Position<C>)
        requires
            C::holds(self.x.value() + rhs.x.value()),
            C::holds(self.y.value() + rhs.y.value()),
        ensures
            r.model() == (self.x.value() + rhs.x.value(), self.y.value() + rhs.y.value()),
    {
        Position { x: self.x.plus(rhs.x), y: self.y.plus(rhs.y) }
    }

    /// Componentwise difference
    pub fn sub(self, rhs: Position<C>) -> (r: Position<C>)
        requires
            C::holds(self.x.value() - rhs.x.value()),
            C::holds(self.y.value() - rhs.y.value()),
        ensures
            r.model() == (self.x.value() - rhs.x.value(), self.y.value() - rhs.y.value()),
    {
        Position { x: self.x.minus(rhs.x), y: self.y.minus(rhs.y) }
    }

    /// Both coordinates multiplied by a scalar
    pub fn mul(self, rhs: C) -> (r: Position<C>)
        requires
            C::holds(self.x.value() * rhs.value()),
            C::holds(self.y.value() * rhs.value()),
        ensures
            r.model() == (self.x.value() * rhs.value(), self.y.value() * rhs.value()),
    {
        Position { x: self.x.times(rhs), y: self.y.times(rhs) }
    }

    /// Both coordinates divided by a scalar, rounding toward zero
    pub fn div(self, rhs: C) -> (r: Position<C>)
        requires
            rhs.value() != 0,
            C::holds(trunc_div(self.x.value(), rhs.value())),
            C::holds(trunc_div(self.y.value(), rhs.value())),
        ensures
            r.model() == (
                trunc_div(self.x.value(), rhs.value()),
                trunc_div(self.y.value(), rhs.value()),
            ),
    {
        Position { x: self.x.divided_by(rhs), y: self.y.divided_by(rhs) }
    }

    /// The remainder of both coordinates by a scalar
    pub fn rem(self, rhs: C) -> (r: Position<C>)
        requires
            rhs.value() != 0,
        ensures
            r.model() == (
                trunc_rem(self.x.value(), rhs.value()),
                trunc_rem(self.y.value(), rhs.value()),
            ),
    {
        Position { x: self.x.remainder(rhs), y: self.y.remainder(rhs) }
    }

    /// The remainder of each coordinate by the matching coordinate of `rhs`
    pub fn rem_elementwise(self, rhs: Position<C>) -> (r: Position<C>)
        requires
            rhs.x.value() != 0,
            rhs.y.value() != 0,
        ensures
            r.model() == (
                trunc_rem(self.x.value(), rhs.x.value()),
                trunc_rem(self.y.value(), rhs.y.value()),
            ),
    {
        Position { x: self.x.remainder(rhs.x), y: self.y.remainder(rhs.y) }
    }
}

impl<C: Coordinate> Default for Position<C> {
    /// The origin
    fn default() -> (r: Position<C>)
        ensures
            r.model() == (0int, 0int),
    {
        Position { x: C::zero(), y: C::zero() }
    }
}


impl<C: Coordinate> Position<C> {
    /// The position as a vector in machine integers
    fn components(self) -> (r: (i128, i128))
        ensures
            r.0 == self.x.value(),
            r.1 == self.y.value(),
            within_coordinate_bounds(r.0 as int),
            within_coordinate_bounds(r.1 as int),
    {
        proof {
            C::lemma_holds_value(self.x);
            C::lemma_holds_value(self.y);
            C::lemma_holds_bounded(self.x.value());
            C::lemma_holds_bounded(self.y.value());
        }
        (self.x.to_i128(), self.y.to_i128())
    }

    /// The [`Direction`] of the vector from the origin to this position
    pub fn try_into_direction(self) -> (r: Result<Direction, NearlySingularConversion>)
        ensures
            r is Err <==> self.model() == (0int, 0int),
            r is Ok ==> r->Ok_0.deci() == vector_deci(self.x.value(), self.y.value()),
    {
        let (x, y) = self.components();
        Direction::try_from_vector(x, y)
    }

    /// The [`Rotation`] of the vector from the origin to this position
    pub fn try_into_rotation(self) -> (r: Result<Rotation, NearlySingularConversion>)
        ensures
            r is Err <==> self.model() == (0int, 0int),
            r is Ok ==> r->Ok_0.deci() == vector_deci(self.x.value(), self.y.value()),
    {
        let (x, y) = self.components();
        Rotation::try_from_vector(x, y)
    }
}

impl<C: Coordinate> Position<C> {
    /// The vector from `self` to `other`, in machine integers
    fn delta_to(self, other: Position<C>) -> (r: (i128, i128))
        ensures
            r.0 == other.x.value() - self.x.value(),
            r.1 == other.y.value() - self.y.value(),
            -MAX_COMPONENT <= r.0 <= MAX_COMPONENT,
            -MAX_COMPONENT <= r.1 <= MAX_COMPONENT,
    {
        let (sx, sy) = self.components();
        let (ox, oy) = other.components();
        (ox - sx, oy - sy)
    }

    /// Gets the [`Direction`] that points away from this position, towards `other_position`
    pub fn direction_to(self, other_position: Position<C>) -> (r: Result<
        Direction,
        NearlySingularConversion,
    >)
        ensures
            r is Err <==> self.model() == other_position.model(),
            r is Ok ==> r->Ok_0.deci() == vector_deci(
                other_position.x.value() - self.x.value(),
                other_position.y.value() - self.y.value(),
            ),
    {
        let (dx, dy) = self.delta_to(other_position);
        Direction::try_from_vector(dx, dy)
    }

    /// Gets the [`Direction`] that points towards this position, from `other_position`
    pub fn direction_from(self, other_position: Position<C>) -> (r: Result<
        Direction,
        NearlySingularConversion,
    >)
        ensures
            r is Err <==> self.model() == other_position.model(),
            r is Ok ==> r->Ok_0.deci() == vector_deci(
                self.x.value() - other_position.x.value(),
                self.y.value() - other_position.y.value(),
            ),
    {
        let (dx, dy) = other_position.delta_to(self);
        Direction::try_from_vector(dx, dy)
    }

    /// Gets the orientation that points away from this position, towards `other_position`
    pub fn orientation_to<O: Orientation>(self, other_position: Position<C>) -> (r: Result<
        O,
        NearlySingularConversion,
    >)
        ensures
            r is Err <==> self.model() == other_position.model(),
            r is Ok ==> r->Ok_0.angle() == vector_deci(
                other_position.x.value() - self.x.value(),
                other_position.y.value() - self.y.value(),
            ),
    {
        let (dx, dy) = self.delta_to(other_position);
        O::orientation_of_vector(dx, dy)
    }

    /// Gets the [`Rotation`] that points towards this position, from `other_position`
    pub fn rotation_from(self, other_position: Position<C>) -> (r: Result<
        Rotation,
        NearlySingularConversion,
    >)
        ensures
            r is Err <==> self.model() == other_position.model(),
            r is Ok ==> r->Ok_0.deci() == vector_deci(
                self.x.value() - other_position.x.value(),
                self.y.value() - other_position.y.value(),
            ),
    {
        let (dx, dy) = other_position.delta_to(self);
        Rotation::try_from_vector(dx, dy)
    }
}


} // verus!
