//! Coordinate types for [`Position`] designed for operation on discrete grids
//!
//! The provided types all store an `isize`.
use vstd::prelude::*;

use crate::orientation::{compass_deci, vector_deci, Compass, Direction};
use crate::position::{trunc_div, trunc_rem, within_coordinate_bounds, Coordinate, Position};

verus! {

/// Whether an `isize` can hold `v`
pub open spec fn isize_holds(v: int) -> bool {
    isize::MIN <= v <= isize::MAX
}

proof fn lemma_isize_bounded(v: int)
    requires
        isize_holds(v),
    ensures
        within_coordinate_bounds(v),
{
}

/// Magnitude of an `isize`, widened so that it always fits
fn magnitude(a: isize) -> (r: u128)
    ensures
        r == (if a < 0 { -a } else { a as int }),
{
    if a < 0 { (-(a as i128)) as u128 } else { a as u128 }
}

/// `a / b` rounded toward zero
fn isize_trunc_div(a: isize, b: isize) -> (r: isize)
    requires
        b != 0,
        isize_holds(trunc_div(a as int, b as int)),
    ensures
        r == trunc_div(a as int, b as int),
{
    let ua = magnitude(a);
    let ub = magnitude(b);
    let q = ua / ub;
    assert(q <= ua) by {
        vstd::arithmetic::div_mod::lemma_div_is_ordered_by_denominator(ua as int, 1, ub as int);
    }
    if (a < 0) != (b < 0) {
        (-(q as i128)) as isize
    } else {
        q as isize
    }
}

/// The remainder of `a / b` rounded toward zero
fn isize_trunc_rem(a: isize, b: isize) -> (r: isize)
    requires
        b != 0,
    ensures
        r == trunc_rem(a as int, b as int),
{
    let ua = magnitude(a);
    let ub = magnitude(b);
    let q = ua / ub;
    let m = ua % ub;
    proof {
        vstd::arithmetic::div_mod::lemma_fundamental_div_mod(ua as int, ub as int);
    }
    assert(ub * q + m == ua);
    assert(m < ub);
    let r: i128 = if a < 0 { -(m as i128) } else { m as i128 };
    assert(r == trunc_rem(a as int, b as int)) by (nonlinear_arith)
        requires
            ub * q + m == ua,
            q == ua / ub,
            ua == (if a < 0 { -a } else { a as int }),
            ub == (if b < 0 { -b } else { b as int }),
            r == (if a < 0 { -m } else { m as int }),
            b != 0,
    ;
    r as isize
}

/// [`DiscreteCoordinate`] primitive for a square grid, where each cell has four neighbors
///
/// Neighboring tiles must touch on their faces
#[derive(Clone, Copy, Debug, Default, PartialEq, Eq, PartialOrd, Structural)]
pub struct OrthogonalGrid(pub isize);

impl Coordinate for OrthogonalGrid {
    open spec fn value(self) -> int {
        self.0 as int
    }

    open spec fn holds(v: int) -> bool {
        isize_holds(v)
    }

    proof fn lemma_holds_value(c: OrthogonalGrid) {
    }

    proof fn lemma_value_injective(a: OrthogonalGrid, b: OrthogonalGrid) {
    }

    proof fn lemma_holds_bounded(v: int) {
        lemma_isize_bounded(v);
    }

    fn zero() -> (r: OrthogonalGrid) {
        OrthogonalGrid(0)
    }

    fn to_i128(self) -> (r: i128) {
        self.0 as i128
    }

    fn same(self, rhs: OrthogonalGrid) -> (r: bool) {
        self.0 == rhs.0
    }

    fn plus(self, rhs: OrthogonalGrid) -> (r: OrthogonalGrid) {
        OrthogonalGrid(self.0 + rhs.0)
    }

    fn minus(self, rhs: OrthogonalGrid) -> (r: OrthogonalGrid) {
        OrthogonalGrid(self.0 - rhs.0)
    }

    fn times(self, rhs: OrthogonalGrid) -> (r: OrthogonalGrid) {
        OrthogonalGrid(self.0 * rhs.0)
    }

    fn divided_by(self, rhs: OrthogonalGrid) -> (r: OrthogonalGrid) {
        OrthogonalGrid(isize_trunc_div(self.0, rhs.0))
    }

    fn remainder(self, rhs: OrthogonalGrid) -> (r: OrthogonalGrid) {
        OrthogonalGrid(isize_trunc_rem(self.0, rhs.0))
    }
}

/// [`DiscreteCoordinate`] primitive for a square grid, where each cell has eight neighbors
///
/// Neighboring tiles are a king's move away: either touching faces or diagonally adjacent
#[derive(Clone, Copy, Debug, Default, PartialEq, Eq, PartialOrd, Structural)]
pub struct AdjacentGrid(pub isize);

impl Coordinate for AdjacentGrid {
    open spec fn value(self) -> int {
        self.0 as int
    }

    open spec fn holds(v: int) -> bool {
        isize_holds(v)
    }

    proof fn lemma_holds_value(c: AdjacentGrid) {
    }

    proof fn lemma_value_injective(a: AdjacentGrid, b: AdjacentGrid) {
    }

    proof fn lemma_holds_bounded(v: int) {
        lemma_isize_bounded(v);
    }

    fn zero() -> (r: AdjacentGrid) {
        AdjacentGrid(0)
    }

    fn to_i128(self) -> (r: i128) {
        self.0 as i128
    }

    fn same(self, rhs: AdjacentGrid) -> (r: bool) {
        self.0 == rhs.0
    }

    fn plus(self, rhs: AdjacentGrid) -> (r: AdjacentGrid) {
        AdjacentGrid(self.0 + rhs.0)
    }

    fn minus(self, rhs: AdjacentGrid) -> (r: AdjacentGrid) {
        AdjacentGrid(self.0 - rhs.0)
    }

    fn times(self, rhs: AdjacentGrid) -> (r: AdjacentGrid) {
        AdjacentGrid(self.0 * rhs.0)
    }

    fn divided_by(self, rhs: AdjacentGrid) -> (r: AdjacentGrid) {
        AdjacentGrid(isize_trunc_div(self.0, rhs.0))
    }

    fn remainder(self, rhs: AdjacentGrid) -> (r: AdjacentGrid) {
        AdjacentGrid(isize_trunc_rem(self.0, rhs.0))
    }
}

/// [`DiscreteCoordinate`] primitive for a hexagonal grid, where each cell points sideways
///
/// These hexes tile vertically, but not horizontally
#[derive(Clone, Copy, Debug, Default, PartialEq, Eq, PartialOrd, Structural)]
pub struct FlatHex(pub isize);

impl Coordinate for FlatHex {
    open spec fn value(self) -> int {
        self.0 as int
    }

    open spec fn holds(v: int) -> bool {
        isize_holds(v)
    }

    proof fn lemma_holds_value(c: FlatHex) {
    }

    proof fn lemma_value_injective(a: FlatHex, b: FlatHex) {
    }

    proof fn lemma_holds_bounded(v: int) {
        lemma_isize_bounded(v);
    }

    fn zero() -> (r: FlatHex) {
        FlatHex(0)
    }

    fn to_i128(self) -> (r: i128) {
        self.0 as i128
    }

    fn same(self, rhs: FlatHex) -> (r: bool) {
        self.0 == rhs.0
    }

    fn plus(self, rhs: FlatHex) -> (r: FlatHex) {
        FlatHex(self.0 + rhs.0)
    }

    fn minus(self, rhs: FlatHex) -> (r: FlatHex) {
        FlatHex(self.0 - rhs.0)
    }

    fn times(self, rhs: FlatHex) -> (r: FlatHex) {
        FlatHex(self.0 * rhs.0)
    }

    fn divided_by(self, rhs: FlatHex) -> (r: FlatHex) {
        FlatHex(isize_trunc_div(self.0, rhs.0))
    }

    fn remainder(self, rhs: FlatHex) -> (r: FlatHex) {
        FlatHex(isize_trunc_rem(self.0, rhs.0))
    }
}

/// Coordinate primitive for a hexagonal grid, where each cell points up
///
/// These hexes tile horizontally, but not vertically
///
/// It has no ring of neighbors: none of them lies due north, so the north-centered sectors
/// of [`DiscreteCoordinate`] do not fit it.
#[derive(Clone, Copy, Debug, Default, PartialEq, Eq, PartialOrd, Structural)]
pub struct PointyHex(pub isize);

impl Coordinate for PointyHex {
    open spec fn value(self) -> int {
        self.0 as int
    }

    open spec fn holds(v: int) -> bool {
        isize_holds(v)
    }

    proof fn lemma_holds_value(c: PointyHex) {
    }

    proof fn lemma_value_injective(a: PointyHex, b: PointyHex) {
    }

    proof fn lemma_holds_bounded(v: int) {
        lemma_isize_bounded(v);
    }

    fn zero() -> (r: PointyHex) {
        PointyHex(0)
    }

    fn to_i128(self) -> (r: i128) {
        self.0 as i128
    }

    fn same(self, rhs: PointyHex) -> (r: bool) {
        self.0 == rhs.0
    }

    fn plus(self, rhs: PointyHex) -> (r: PointyHex) {
        PointyHex(self.0 + rhs.0)
    }

    fn minus(self, rhs: PointyHex) -> (r: PointyHex) {
        PointyHex(self.0 - rhs.0)
    }

    fn times(self, rhs: PointyHex) -> (r: PointyHex) {
        PointyHex(self.0 * rhs.0)
    }

    fn divided_by(self, rhs: PointyHex) -> (r: PointyHex) {
        PointyHex(isize_trunc_div(self.0, rhs.0))
    }

    fn remainder(self, rhs: PointyHex) -> (r: PointyHex) {
        PointyHex(isize_trunc_rem(self.0, rhs.0))
    }
}


/// The index of the sector of the circle that an angle falls in, when the circle is cut into
/// `n` equal sectors with the first one centered on north
///
/// An angle on the boundary of two sectors goes to the higher index.
pub open spec fn sector_of(deci: int, n: int) -> int {
    let width = 3600int / n;
    ((deci + width / 2) / width) % n
}

/// A type that can be used to represent a discrete 2-dimensional coordinate
///
/// Each cell has a fixed ring of neighbors, listed clockwise starting from north (+y).
pub trait DiscreteCoordinate: Coordinate {
    /// The offsets from a cell to each of its neighbors, clockwise from north
    spec fn offsets() -> Seq<(int, int)>;

    /// The ring of neighbors is well formed: it cuts the circle into equal whole sectors, and
    /// no neighbor is the cell itself
    proof fn lemma_offsets()
        ensures
            0 < Self::offsets().len() <= 3600,
            3600nat % Self::offsets().len() == 0,
            forall|i: int|
                0 <= i < Self::offsets().len() ==> (#[trigger] Self::offsets()[i]).0 != 0
                    || Self::offsets()[i].1 != 0,
            forall|i: int|
                0 <= i < Self::offsets().len() ==> -2 <= (#[trigger] Self::offsets()[i]).0 <= 2
                    && -2 <= Self::offsets()[i].1 <= 2,
    ;

    /// The number of neighbors
    fn n_neighbors() -> (r: usize)
        ensures
            r == Self::offsets().len(),
    ;

    /// Creates a [`Position`] from the pair of values provided
    fn position(x: Self, y: Self) -> (r: Position<Self>)
        ensures
            r.x == x,
            r.y == y,
    {
        Position { x, y }
    }

    /// The (0, 0) cell
    fn origin() -> (r: Position<Self>)
        ensures
            r.model() == (0int, 0int),
    {
        Position { x: Self::zero(), y: Self::zero() }
    }

    /// The neighboring positions of a cell, clockwise starting from north (+y)
    fn neighbors(position: Position<Self>) -> (r: Vec<Position<Self>>)
        requires
            forall|i: int|
                0 <= i < Self::offsets().len() ==> Self::holds(
                    position.x.value() + (#[trigger] Self::offsets()[i]).0,
                ) && Self::holds(position.y.value() + Self::offsets()[i].1),
        ensures
            r@.len() == Self::offsets().len(),
            forall|i: int|
                0 <= i < r@.len() ==> (#[trigger] r@[i]).model() == (
                    position.x.value() + Self::offsets()[i].0,
                    position.y.value() + Self::offsets()[i].1,
                ),
    ;

    /// The [`Direction`] towards each neighbor, clockwise starting from north (+y)
    fn neighbor_directions() -> (r: Vec<Direction>)
        ensures
            r@.len() == Self::offsets().len(),
            forall|i: int|
                0 <= i < r@.len() ==> (#[trigger] r@[i]).deci() == vector_deci(
                    Self::offsets()[i].0,
                    Self::offsets()[i].1,
                ),
    {
        proof {
            Self::lemma_offsets();
            assert forall|i: int| 0 <= i < Self::offsets().len() implies Self::holds(
                0 + (#[trigger] Self::offsets()[i]).0,
            ) && Self::holds(0 + Self::offsets()[i].1) by {
                Self::lemma_unit_holds(Self::offsets()[i].0);
                Self::lemma_unit_holds(Self::offsets()[i].1);
            }
        }
        let origin = Self::origin();
        let cells = Self::neighbors(origin);
        let mut directions: Vec<Direction> = Vec::new();
        let mut i: usize = 0;
        while i < cells.len()
            invariant
                cells@.len() == Self::offsets().len(),
                origin.model() == (0int, 0int),
                forall|j: int|
                    0 <= j < cells@.len() ==> (#[trigger] cells@[j]).model() == (
                        origin.x.value() + Self::offsets()[j].0,
                        origin.y.value() + Self::offsets()[j].1,
                    ),
                forall|j: int|
                    0 <= j < Self::offsets().len() ==> (#[trigger] Self::offsets()[j]).0 != 0
                        || Self::offsets()[j].1 != 0,
                i <= cells@.len(),
                directions@.len() == i,
                forall|j: int|
                    0 <= j < i ==> (#[trigger] directions@[j]).deci() == vector_deci(
                        Self::offsets()[j].0,
                        Self::offsets()[j].1,
                    ),
            decreases cells@.len() - i,
        {
            let d = origin.direction_to(cells[i]);
            assert(cells@[i as int].model() == Self::offsets()[i as int]);
            match d {
                Ok(d) => directions.push(d),
                Err(_) => {
                    assert(false);
                },
            }
            i += 1;
        }
        directions
    }

    /// Every integer in `-2..=2` can be held
    proof fn lemma_unit_holds(v: int)
        requires
            -2 <= v <= 2,
        ensures
            Self::holds(v),
    ;

    /// The index of the neighbor that a direction points most nearly towards
    ///
    /// The circle is cut into as many equal sectors as there are neighbors, the first centered
    /// on north; a direction on the boundary of two sectors goes to the higher index.
    fn neighbor_index(direction: Direction) -> (r: usize)
        ensures
            r == sector_of(direction.deci() as int, Self::offsets().len() as int),
            r < Self::offsets().len(),
    {
        proof { Self::lemma_offsets(); }
        let n = Self::n_neighbors();
        let width: u16 = (3600 / n) as u16;
        proof { vstd::arithmetic::div_mod::lemma_div_non_zero(3600, n as int); }
        assert(width >= 1);
        let a = direction.deci_degrees();
        let s = ((a + width / 2) / width) as usize % n;
        s
    }
}

impl DiscreteCoordinate for OrthogonalGrid {
    open spec fn offsets() -> Seq<(int, int)> {
        seq![(0int, 1int), (1int, 0int), (0int, -1int), (-1int, 0int)]
    }

    proof fn lemma_offsets() {
    }

    proof fn lemma_unit_holds(v: int) {
    }

    fn n_neighbors() -> (r: usize) {
        4
    }

    fn neighbors(position: Position<OrthogonalGrid>) -> (r: Vec<Position<OrthogonalGrid>>) {
        let x = position.x.0;
        let y = position.y.0;
        proof {
            assert(Self::offsets()[0] == (0int, 1int));
            assert(Self::offsets()[1] == (1int, 0int));
            assert(Self::offsets()[2] == (0int, -1int));
            assert(Self::offsets()[3] == (-1int, 0int));
        }
        vec![
            Position { x: OrthogonalGrid(x), y: OrthogonalGrid(y + 1) },
            Position { x: OrthogonalGrid(x + 1), y: OrthogonalGrid(y) },
            Position { x: OrthogonalGrid(x), y: OrthogonalGrid(y - 1) },
            Position { x: OrthogonalGrid(x - 1), y: OrthogonalGrid(y) },
        ]
    }
}


impl DiscreteCoordinate for AdjacentGrid {
    open spec fn offsets() -> Seq<(int, int)> {
        seq![
            (0int, 1int),
            (1int, 1int),
            (1int, 0int),
            (1int, -1int),
            (0int, -1int),
            (-1int, -1int),
            (-1int, 0int),
            (-1int, 1int),
        ]
    }

    proof fn lemma_offsets() {
    }

    proof fn lemma_unit_holds(v: int) {
    }

    fn n_neighbors() -> (r: usize) {
        8
    }

    fn neighbors(position: Position<AdjacentGrid>) -> (r: Vec<Position<AdjacentGrid>>) {
        let x = position.x.0;
        let y = position.y.0;
        proof {
            assert(Self::offsets()[0] == (0int, 1int));
            assert(Self::offsets()[1] == (1int, 1int));
            assert(Self::offsets()[2] == (1int, 0int));
            assert(Self::offsets()[3] == (1int, -1int));
            assert(Self::offsets()[4] == (0int, -1int));
            assert(Self::offsets()[5] == (-1int, -1int));
            assert(Self::offsets()[6] == (-1int, 0int));
            assert(Self::offsets()[7] == (-1int, 1int));
        }
        vec![
            Position { x: AdjacentGrid(x), y: AdjacentGrid(y + 1) },
            Position { x: AdjacentGrid(x + 1), y: AdjacentGrid(y + 1) },
            Position { x: AdjacentGrid(x + 1), y: AdjacentGrid(y) },
            Position { x: AdjacentGrid(x + 1), y: AdjacentGrid(y - 1) },
            Position { x: AdjacentGrid(x), y: AdjacentGrid(y - 1) },
            Position { x: AdjacentGrid(x - 1), y: AdjacentGrid(y - 1) },
            Position { x: AdjacentGrid(x - 1), y: AdjacentGrid(y) },
            Position { x: AdjacentGrid(x - 1), y: AdjacentGrid(y + 1) },
        ]
    }
}

/// On a square grid of four neighbors, the directions towards the neighbors are the four
/// cardinal compass points, clockwise starting at north, and each falls in its neighbor's sector
pub proof fn lemma_orthogonal_neighbors_are_cardinal()
    ensures
        OrthogonalGrid::offsets().len() == 4,
        vector_deci(OrthogonalGrid::offsets()[0].0, OrthogonalGrid::offsets()[0].1)
            == compass_deci(Compass::North),
        vector_deci(OrthogonalGrid::offsets()[1].0, OrthogonalGrid::offsets()[1].1)
            == compass_deci(Compass::East),
        vector_deci(OrthogonalGrid::offsets()[2].0, OrthogonalGrid::offsets()[2].1)
            == compass_deci(Compass::South),
        vector_deci(OrthogonalGrid::offsets()[3].0, OrthogonalGrid::offsets()[3].1)
            == compass_deci(Compass::West),
        forall|i: int|
            0 <= i < 4 ==> sector_of(
                vector_deci(#[trigger] OrthogonalGrid::offsets()[i].0, OrthogonalGrid::offsets()[i].1),
                4,
            ) == i,
{
    assert(3600int / 4 == 900);
    assert(OrthogonalGrid::offsets()[0] == (0int, 1int));
    assert(OrthogonalGrid::offsets()[1] == (1int, 0int));
    assert(OrthogonalGrid::offsets()[2] == (0int, -1int));
    assert(OrthogonalGrid::offsets()[3] == (-1int, 0int));
}

/// On a square grid of eight neighbors, the directions towards the neighbors are the eight
/// compass points, clockwise starting at north, and each falls in its neighbor's sector
pub proof fn lemma_adjacent_neighbors_are_compass_points()
    ensures
        AdjacentGrid::offsets().len() == 8,
        vector_deci(AdjacentGrid::offsets()[0].0, AdjacentGrid::offsets()[0].1)
            == compass_deci(Compass::North),
        vector_deci(AdjacentGrid::offsets()[1].0, AdjacentGrid::offsets()[1].1)
            == compass_deci(Compass::NorthEast),
        vector_deci(AdjacentGrid::offsets()[2].0, AdjacentGrid::offsets()[2].1)
            == compass_deci(Compass::East),
        vector_deci(AdjacentGrid::offsets()[3].0, AdjacentGrid::offsets()[3].1)
            == compass_deci(Compass::SouthEast),
        vector_deci(AdjacentGrid::offsets()[4].0, AdjacentGrid::offsets()[4].1)
            == compass_deci(Compass::South),
        vector_deci(AdjacentGrid::offsets()[5].0, AdjacentGrid::offsets()[5].1)
            == compass_deci(Compass::SouthWest),
        vector_deci(AdjacentGrid::offsets()[6].0, AdjacentGrid::offsets()[6].1)
            == compass_deci(Compass::West),
        vector_deci(AdjacentGrid::offsets()[7].0, AdjacentGrid::offsets()[7].1)
            == compass_deci(Compass::NorthWest),
        forall|i: int|
            0 <= i < 8 ==> sector_of(
                vector_deci(#[trigger] AdjacentGrid::offsets()[i].0, AdjacentGrid::offsets()[i].1),
                8,
            ) == i,
{
    assert(3600int / 8 == 450);
    assert(AdjacentGrid::offsets()[0] == (0int, 1int));
    assert(AdjacentGrid::offsets()[1] == (1int, 1int));
    assert(AdjacentGrid::offsets()[2] == (1int, 0int));
    assert(AdjacentGrid::offsets()[3] == (1int, -1int));
    assert(AdjacentGrid::offsets()[4] == (0int, -1int));
    assert(AdjacentGrid::offsets()[5] == (-1int, -1int));
    assert(AdjacentGrid::offsets()[6] == (-1int, 0int));
    assert(AdjacentGrid::offsets()[7] == (-1int, 1int));
}


/// Hexes with a flat top, in doubled-height coordinates: a column steps `y` by two, and the
/// neighboring columns are offset by one
impl DiscreteCoordinate for FlatHex {
    open spec fn offsets() -> Seq<(int, int)> {
        seq![(0int, 2int), (1int, 1int), (1int, -1int), (0int, -2int), (-1int, -1int), (-1int, 1int)]
    }

    proof fn lemma_offsets() {
    }

    proof fn lemma_unit_holds(v: int) {
    }

    fn n_neighbors() -> (r: usize) {
        6
    }

    fn neighbors(position: Position<FlatHex>) -> (r: Vec<Position<FlatHex>>) {
        let x = position.x.0;
        let y = position.y.0;
        proof {
            assert(Self::offsets()[0] == (0int, 2int));
            assert(Self::offsets()[1] == (1int, 1int));
            assert(Self::offsets()[2] == (1int, -1int));
            assert(Self::offsets()[3] == (0int, -2int));
            assert(Self::offsets()[4] == (-1int, -1int));
            assert(Self::offsets()[5] == (-1int, 1int));
        }
        vec![
            Position { x: FlatHex(x), y: FlatHex(y + 2) },
            Position { x: FlatHex(x + 1), y: FlatHex(y + 1) },
            Position { x: FlatHex(x + 1), y: FlatHex(y - 1) },
            Position { x: FlatHex(x), y: FlatHex(y - 2) },
            Position { x: FlatHex(x - 1), y: FlatHex(y - 1) },
            Position { x: FlatHex(x - 1), y: FlatHex(y + 1) },
        ]
    }
}

/// On a flat-topped hex grid, the direction towards each neighbor falls in that neighbor's
/// own sector of the circle
pub proof fn lemma_flat_hex_directions_partition()
    ensures
        FlatHex::offsets().len() == 6,
        forall|i: int|
            0 <= i < 6 ==> sector_of(
                vector_deci(#[trigger] FlatHex::offsets()[i].0, FlatHex::offsets()[i].1),
                6,
            ) == i,
{
    assert(FlatHex::offsets()[0] == (0int, 2int));
    assert(FlatHex::offsets()[1] == (1int, 1int));
    assert(FlatHex::offsets()[2] == (1int, -1int));
    assert(FlatHex::offsets()[3] == (0int, -2int));
    assert(FlatHex::offsets()[4] == (-1int, -1int));
    assert(FlatHex::offsets()[5] == (-1int, 1int));
    assert(vector_deci(0, 2) == 0);
    assert(vector_deci(1, 1) == 450);
    assert(vector_deci(1, -1) == 1350);
    assert(vector_deci(0, -2) == 1800);
    assert(vector_deci(-1, -1) == 2250);
    assert(vector_deci(-1, 1) == 3150);
    assert(3600int / 6 == 600);
    assert(sector_of(0, 6) == 0);
    assert(sector_of(450, 6) == 1);
    assert(sector_of(1350, 6) == 2);
    assert(sector_of(1800, 6) == 3);
    assert(sector_of(2250, 6) == 4);
    assert(sector_of(3150, 6) == 5);
}

} // verus!
