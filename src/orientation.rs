//! Facing, as an angle from due north and as a direction
use vstd::prelude::*;

verus! {

/// The number of deci-degrees in a full turn
pub const FULL_CIRCLE: u16 = 3600;

/// The eight named points of the compass, clockwise from north
#[derive(Clone, Copy, Debug, PartialEq, Eq, Structural)]
pub enum Compass {
    North,
    NorthEast,
    East,
    SouthEast,
    South,
    SouthWest,
    West,
    NorthWest,
}

/// The angle of a compass point, in deci-degrees clockwise from north
pub open spec fn compass_deci(c: Compass) -> nat {
    match c {
        Compass::North => 0,
        Compass::NorthEast => 450,
        Compass::East => 900,
        Compass::SouthEast => 1350,
        Compass::South => 1800,
        Compass::SouthWest => 2250,
        Compass::West => 2700,
        Compass::NorthWest => 3150,
    }
}

impl Compass {
    /// The angle of this compass point, in deci-degrees clockwise from north
    pub fn deci_degrees(self) -> (r: u16)
        ensures
            r as nat == compass_deci(self),
    {
        match self {
            Compass::North => 0,
            Compass::NorthEast => 450,
            Compass::East => 900,
            Compass::SouthEast => 1350,
            Compass::South => 1800,
            Compass::SouthWest => 2250,
            Compass::West => 2700,
            Compass::NorthWest => 3150,
        }
    }
}

/// A facing expressed as an angle clockwise from due north, in tenths of a degree
#[derive(Clone, Copy, Debug, PartialEq, Eq, Structural)]
pub struct Rotation(u16);

impl Rotation {
    #[verifier::type_invariant]
    spec fn inv(self) -> bool {
        self.0 < 3600
    }

    /// The angle in deci-degrees, always below a full turn
    pub closed spec fn deci(self) -> nat {
        self.0 as nat
    }

    /// Creates a rotation, wrapping the angle into a single turn
    pub fn new(deci_degrees: u16) -> (r: Rotation)
        ensures
            r.deci() == deci_degrees as nat % 3600,
    {
        Rotation(deci_degrees % FULL_CIRCLE)
    }

    /// The rotation of a named compass point
    pub fn compass(c: Compass) -> (r: Rotation)
        ensures
            r.deci() == compass_deci(c),
    {
        Rotation(c.deci_degrees())
    }

    /// The angle in deci-degrees, below a full turn
    pub fn deci_degrees(&self) -> (r: u16)
        ensures
            r as nat == self.deci(),
            r < 3600,
    {
        proof { use_type_invariant(self); }
        self.0
    }

    /// The sum of two rotations, wrapped into a single turn
    pub fn add(self, rhs: Rotation) -> (r: Rotation)
        ensures
            r.deci() == (self.deci() + rhs.deci()) % 3600,
    {
        proof {
            use_type_invariant(self);
            use_type_invariant(rhs);
        }
        Rotation((self.0 + rhs.0) % FULL_CIRCLE)
    }

    /// The difference of two rotations, wrapped into a single turn
    pub fn sub(self, rhs: Rotation) -> (r: Rotation)
        ensures
            r.deci() == (self.deci() - rhs.deci() + 3600) % 3600,
    {
        proof {
            use_type_invariant(self);
            use_type_invariant(rhs);
        }
        Rotation((self.0 + FULL_CIRCLE - rhs.0) % FULL_CIRCLE)
    }

    /// The opposite facing: half a turn away
    pub fn reverse(self) -> (r: Rotation)
        ensures
            r.deci() == (self.deci() + 1800) % 3600,
    {
        proof { use_type_invariant(self); }
        Rotation((self.0 + 1800) % FULL_CIRCLE)
    }
}

/// A facing expressed as a direction in the plane
///
/// The direction is held as the point of the unit circle that lies a whole number of
/// deci-degrees clockwise from due north, so that it converts to and from [`Rotation`]
/// without loss; its unit vector is `(sin a, cos a)` for that angle `a`.
#[derive(Clone, Copy, Debug, PartialEq, Eq, Structural)]
pub struct Direction(u16);

impl Direction {
    #[verifier::type_invariant]
    spec fn inv(self) -> bool {
        self.0 < 3600
    }

    /// The angle of the direction, in deci-degrees clockwise from north
    pub closed spec fn deci(self) -> nat {
        self.0 as nat
    }

    /// The direction of a named compass point
    pub fn compass(c: Compass) -> (r: Direction)
        ensures
            r.deci() == compass_deci(c),
    {
        Direction(c.deci_degrees())
    }

    /// The angle of the direction in deci-degrees clockwise from north, below a full turn
    pub fn deci_degrees(&self) -> (r: u16)
        ensures
            r as nat == self.deci(),
            r < 3600,
    {
        proof { use_type_invariant(self); }
        self.0
    }

    /// The direction that points the opposite way
    pub fn reverse(self) -> (r: Direction)
        ensures
            r.deci() == (self.deci() + 1800) % 3600,
    {
        proof { use_type_invariant(self); }
        Direction((self.0 + 1800) % FULL_CIRCLE)
    }

    /// The direction that a rotation faces
    pub closed spec fn spec_from_rotation(rotation: Rotation) -> Direction {
        Direction(rotation.0)
    }

    /// The direction that a rotation faces
    pub fn from_rotation(rotation: Rotation) -> (r: Direction)
        ensures
            r == Direction::spec_from_rotation(rotation),
            r.deci() == rotation.deci(),
    {
        proof { use_type_invariant(rotation); }
        Direction(rotation.deci_degrees())
    }
}

impl Rotation {
    /// The rotation that faces along a direction
    pub closed spec fn spec_from_direction(direction: Direction) -> Rotation {
        Rotation(direction.0)
    }

    /// The rotation that faces along a direction
    pub fn from_direction(direction: Direction) -> (r: Rotation)
        ensures
            r == Rotation::spec_from_direction(direction),
            r.deci() == direction.deci(),
    {
        proof { use_type_invariant(direction); }
        Rotation(direction.deci_degrees())
    }
}



/// A rotation turned into a direction and back is the rotation it started from, and a
/// direction turned into a rotation and back is the direction it started from; in particular
/// every compass point is a fixed point of both conversions
pub proof fn lemma_round_trip(r: Rotation, d: Direction)
    ensures
        Rotation::spec_from_direction(Direction::spec_from_rotation(r)) == r,
        Direction::spec_from_rotation(Rotation::spec_from_direction(d)) == d,
        Direction::spec_from_rotation(r).deci() == r.deci(),
        Rotation::spec_from_direction(d).deci() == d.deci(),
{
}

/// A direction was asked of a vector too short to have one
#[derive(Clone, Copy, Debug, PartialEq, Eq, Structural)]
pub struct NearlySingularConversion;

/// Fixed-point scale used to hold the slope of a vector
pub const SLOPE_SCALE: u128 = 0x1_0000_0000;

/// The largest magnitude of a vector component that the angle computation takes
pub const MAX_COMPONENT: i128 = 0x1_0000_0000_0000_0000;

/// The angle, in deci-degrees, of a vector `(n, d)` with `0 <= n <= d` in the first octant,
/// measured from the `d` axis
///
/// It uses `atan(t) ~ (pi / 4) t + 0.273 t (1 - t)` on the slope `t = n / d` held in fixed point,
/// and is exact on both edges of the octant.
pub open spec fn octant_deci(n: int, d: int) -> int {
    if n == 0 {
        0
    } else if n == d {
        450
    } else {
        let s = SLOPE_SCALE as int;
        let q0 = (n * s + d / 2) / d;
        let q = if q0 > s { s } else { q0 };
        let a = (4500 * q * s + 1564 * q * (s - q) + 5 * s * s) / (10 * s * s);
        if a > 450 { 450 } else { a }
    }
}

/// The angle of the non-zero vector `(x, y)`, in deci-degrees clockwise from `+y`
pub open spec fn vector_deci(x: int, y: int) -> int {
    let ax = if x < 0 { -x } else { x };
    let ay = if y < 0 { -y } else { y };
    let b = if ax <= ay { octant_deci(ax, ay) } else { 900 - octant_deci(ay, ax) };
    if x >= 0 && y > 0 {
        b
    } else if x > 0 && y <= 0 {
        1800 - b
    } else if x <= 0 && y < 0 {
        1800 + b
    } else {
        (3600 - b) % 3600
    }
}

/// The compass point that a vector lies exactly on, if any
pub open spec fn on_compass(x: int, y: int, c: Compass) -> bool {
    match c {
        Compass::North => x == 0 && y > 0,
        Compass::NorthEast => x > 0 && y == x,
        Compass::East => x > 0 && y == 0,
        Compass::SouthEast => x > 0 && y == -x,
        Compass::South => x == 0 && y < 0,
        Compass::SouthWest => x < 0 && y == x,
        Compass::West => x < 0 && y == 0,
        Compass::NorthWest => x < 0 && y == -x,
    }
}

/// The angle `a` lies in the eighth of the circle that the vector `(x, y)` points into
pub open spec fn in_octant(x: int, y: int, a: int) -> bool {
    &&& (0 < x && x < y ==> 0 <= a <= 450)
    &&& (0 < y && y < x ==> 450 <= a <= 900)
    &&& (0 < -y && -y < x ==> 900 <= a <= 1350)
    &&& (0 < x && x < -y ==> 1350 <= a <= 1800)
    &&& (0 < -x && -x < -y ==> 1800 <= a <= 2250)
    &&& (0 < -y && -y < -x ==> 2250 <= a <= 2700)
    &&& (0 < y && y < -x ==> 2700 <= a <= 3150)
    &&& (0 < -x && -x < y ==> a == 0 || 3150 <= a)
}

/// Angle of `(n, d)` within the first octant
fn octant_angle(n: u128, d: u128) -> (r: u16)
    requires
        n <= d,
        0 < d <= MAX_COMPONENT,
    ensures
        r as int == octant_deci(n as int, d as int),
        r <= 450,
        n == 0 ==> r == 0,
        n == d ==> r == 450,
{
    if n == 0 {
        return 0;
    }
    if n == d {
        return 450;
    }
    let s = SLOPE_SCALE;
    assert(n * s <= 0x1_0000_0000_0000_0000_0000_0000) by (nonlinear_arith)
        requires n <= 0x1_0000_0000_0000_0000u128, s == 0x1_0000_0000u128;
    let q0 = (n * s + d / 2) / d;
    let q = if q0 > s { s } else { q0 };
    assert(4500 * q * s <= 4500 * s * s && 1564 * q * (s - q) <= 1564 * s * s) by (nonlinear_arith)
        requires q <= s;
    let a = (4500 * q * s + 1564 * q * (s - q) + 5 * s * s) / (10 * s * s);
    if a > 450 { 450 } else { a as u16 }
}

/// Angle of the non-zero vector `(x, y)` in deci-degrees clockwise from `+y`
fn vector_angle(x: i128, y: i128) -> (r: u16)
    requires
        x != 0 || y != 0,
        -MAX_COMPONENT <= x <= MAX_COMPONENT,
        -MAX_COMPONENT <= y <= MAX_COMPONENT,
    ensures
        r as int == vector_deci(x as int, y as int),
        r < 3600,
        forall|c: Compass| on_compass(x as int, y as int, c) ==> r as nat == #[trigger] compass_deci(c),
        in_octant(x as int, y as int, r as int),
{
    let ax: u128 = if x < 0 { (-x) as u128 } else { x as u128 };
    let ay: u128 = if y < 0 { (-y) as u128 } else { y as u128 };
    let b: u16 = if ax <= ay { octant_angle(ax, ay) } else { 900 - octant_angle(ay, ax) };
    if x >= 0 && y > 0 {
        b
    } else if x > 0 && y <= 0 {
        1800 - b
    } else if x <= 0 && y < 0 {
        1800 + b
    } else {
        (3600 - b) % FULL_CIRCLE
    }
}

impl Direction {
    /// The direction of a vector, which must not be the zero vector
    pub fn try_from_vector(x: i128, y: i128) -> (r: Result<Direction, NearlySingularConversion>)
        requires
            -MAX_COMPONENT <= x <= MAX_COMPONENT,
            -MAX_COMPONENT <= y <= MAX_COMPONENT,
        ensures
            r is Err <==> x == 0 && y == 0,
            r is Ok ==> r->Ok_0.deci() == vector_deci(x as int, y as int),
            r is Ok ==> in_octant(x as int, y as int, r->Ok_0.deci() as int),
            r is Ok ==> forall|c: Compass| on_compass(x as int, y as int, c)
                ==> r->Ok_0.deci() == #[trigger] compass_deci(c),
    {
        if x == 0 && y == 0 {
            Err(NearlySingularConversion)
        } else {
            Ok(Direction(vector_angle(x, y)))
        }
    }
}

impl Rotation {
    /// The rotation that faces along a vector, which must not be the zero vector
    pub fn try_from_vector(x: i128, y: i128) -> (r: Result<Rotation, NearlySingularConversion>)
        requires
            -MAX_COMPONENT <= x <= MAX_COMPONENT,
            -MAX_COMPONENT <= y <= MAX_COMPONENT,
        ensures
            r is Err <==> x == 0 && y == 0,
            r is Ok ==> r->Ok_0.deci() == vector_deci(x as int, y as int),
            r is Ok ==> in_octant(x as int, y as int, r->Ok_0.deci() as int),
            r is Ok ==> forall|c: Compass| on_compass(x as int, y as int, c)
                ==> r->Ok_0.deci() == #[trigger] compass_deci(c),
    {
        if x == 0 && y == 0 {
            Err(NearlySingularConversion)
        } else {
            Ok(Rotation(vector_angle(x, y)))
        }
    }
}


/// A way of expressing facing that can be derived from a vector
pub trait Orientation: Sized {
    /// The facing's angle, in deci-degrees clockwise from north
    spec fn angle(self) -> nat;

    /// The facing along a vector, which must not be the zero vector
    fn orientation_of_vector(x: i128, y: i128) -> (r: Result<Self, NearlySingularConversion>)
        requires
            -MAX_COMPONENT <= x <= MAX_COMPONENT,
            -MAX_COMPONENT <= y <= MAX_COMPONENT,
        ensures
            r is Err <==> x == 0 && y == 0,
            r is Ok ==> r->Ok_0.angle() == vector_deci(x as int, y as int),
    ;
}

impl Orientation for Direction {
    open spec fn angle(self) -> nat {
        self.deci()
    }

    fn orientation_of_vector(x: i128, y: i128) -> (r: Result<Direction, NearlySingularConversion>) {
        Direction::try_from_vector(x, y)
    }
}

impl Orientation for Rotation {
    open spec fn angle(self) -> nat {
        self.deci()
    }

    fn orientation_of_vector(x: i128, y: i128) -> (r: Result<Rotation, NearlySingularConversion>) {
        Rotation::try_from_vector(x, y)
    }
}

} // verus!
