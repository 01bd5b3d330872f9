use leafwing_2d::orientation::{Compass, Direction, NearlySingularConversion, Rotation};

#[test]
fn rotation_wraps_into_one_turn() {
    assert_eq!(Rotation::new(3600).deci_degrees(), 0);
    assert_eq!(Rotation::new(3725).deci_degrees(), 125);
    assert_eq!(Rotation::new(900).deci_degrees(), 900);
}

#[test]
fn rotation_arithmetic_wraps() {
    let a = Rotation::new(3500);
    let b = Rotation::new(200);
    assert_eq!(a.add(b).deci_degrees(), 100);
    assert_eq!(b.sub(a).deci_degrees(), 300);
    assert_eq!(a.sub(b).deci_degrees(), 3300);
    assert_eq!(b.reverse().deci_degrees(), 2000);
    assert_eq!(Direction::compass(Compass::West).reverse(), Direction::compass(Compass::East));
}

#[test]
fn rotation_direction_round_trip_every_value() {
    for deci in 0..3600u16 {
        let rotation = Rotation::new(deci);
        let direction = Direction::from_rotation(rotation);
        assert_eq!(Rotation::from_direction(direction), rotation);
    }
}

#[test]
fn compass_directions_are_fixed_points() {
    let points = [
        Compass::North,
        Compass::NorthEast,
        Compass::East,
        Compass::SouthEast,
        Compass::South,
        Compass::SouthWest,
        Compass::West,
        Compass::NorthWest,
    ];
    for (i, c) in points.iter().enumerate() {
        let d = Direction::compass(*c);
        assert_eq!(d.deci_degrees(), 450 * i as u16);
        assert_eq!(Direction::from_rotation(Rotation::from_direction(d)), d);
        assert_eq!(Rotation::from_direction(d), Rotation::compass(*c));
    }
}

#[test]
fn vectors_on_compass_rays_are_exact() {
    let cases: [((i128, i128), Compass); 8] = [
        ((0, 5), Compass::North),
        ((3, 3), Compass::NorthEast),
        ((7, 0), Compass::East),
        ((2, -2), Compass::SouthEast),
        ((0, -1), Compass::South),
        ((-4, -4), Compass::SouthWest),
        ((-9, 0), Compass::West),
        ((-1, 1), Compass::NorthWest),
    ];
    for ((x, y), c) in cases {
        assert_eq!(Direction::try_from_vector(x, y), Ok(Direction::compass(c)));
        assert_eq!(Rotation::try_from_vector(x, y), Ok(Rotation::compass(c)));
    }
}

#[test]
fn vector_between_compass_rays() {
    // atan(1/2) is about 26.57 degrees
    assert_eq!(Direction::try_from_vector(1, 2).unwrap().deci_degrees(), 264);
    assert_eq!(Direction::try_from_vector(2, 1).unwrap().deci_degrees(), 636);
    assert_eq!(Direction::try_from_vector(-1, 2).unwrap().deci_degrees(), 3336);
    assert_eq!(Rotation::try_from_vector(1, -2).unwrap().deci_degrees(), 1536);
    assert_eq!(Rotation::try_from_vector(-1, -2).unwrap().deci_degrees(), 2064);
}

#[test]
fn zero_vector_is_singular() {
    assert_eq!(Direction::try_from_vector(0, 0), Err(NearlySingularConversion));
    assert_eq!(Rotation::try_from_vector(0, 0), Err(NearlySingularConversion));
}
