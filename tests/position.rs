use leafwing_2d::discrete_coordinates::{
    AdjacentGrid, DiscreteCoordinate, FlatHex, OrthogonalGrid, PointyHex,
};
use leafwing_2d::orientation::{Compass, Direction, NearlySingularConversion, Rotation};
use leafwing_2d::position::Position;

fn grid(x: isize, y: isize) -> Position<OrthogonalGrid> {
    Position::new(OrthogonalGrid(x), OrthogonalGrid(y))
}

#[test]
fn adding_the_origin_changes_nothing() {
    let player = grid(10, 4);
    let origin = Position::default();
    assert_eq!(player.add(origin), grid(10, 4));
    assert_eq!(player.sub(origin), grid(10, 4));
}

#[test]
fn direction_and_rotation_between_positions() {
    let origin = Position::<OrthogonalGrid>::default();
    assert_eq!(origin.direction_to(grid(0, 1)), Ok(Direction::compass(Compass::North)));
    assert_eq!(origin.direction_from(grid(0, 1)), Ok(Direction::compass(Compass::South)));
    assert_eq!(origin.rotation_from(grid(0, -1)), Ok(Rotation::compass(Compass::North)));
    assert_eq!(
        origin.orientation_to::<Rotation>(grid(-3, 0)),
        Ok(Rotation::compass(Compass::West))
    );
    assert_eq!(
        grid(5, 5).orientation_to::<Direction>(grid(6, 6)),
        Ok(Direction::compass(Compass::NorthEast))
    );
}

#[test]
fn equal_positions_are_singular() {
    for (x, y) in [(0, 0), (3, -7), (isize::MAX, isize::MIN)] {
        let p = grid(x, y);
        assert_eq!(p.direction_to(p), Err(NearlySingularConversion));
        assert_eq!(p.direction_from(p), Err(NearlySingularConversion));
        assert_eq!(p.rotation_from(p), Err(NearlySingularConversion));
        assert_eq!(p.orientation_to::<Direction>(p), Err(NearlySingularConversion));
    }
    let h = Position::new(FlatHex(2), FlatHex(2));
    assert_eq!(h.direction_to(h), Err(NearlySingularConversion));
    let q = Position::new(PointyHex(-1), PointyHex(8));
    assert_eq!(q.rotation_from(q), Err(NearlySingularConversion));
}

#[test]
fn extreme_positions_still_have_a_direction() {
    let a = grid(isize::MIN, 0);
    let b = grid(isize::MAX, 0);
    assert_eq!(a.direction_to(b), Ok(Direction::compass(Compass::East)));
    assert_eq!(a.direction_from(b), Ok(Direction::compass(Compass::West)));
}

#[test]
fn scalar_arithmetic_rounds_toward_zero() {
    let p = grid(-7, 9);
    assert_eq!(p.mul(OrthogonalGrid(3)), grid(-21, 27));
    assert_eq!(p.div(OrthogonalGrid(2)), grid(-3, 4));
    assert_eq!(p.div(OrthogonalGrid(-2)), grid(3, -4));
    assert_eq!(p.rem(OrthogonalGrid(4)), grid(-3, 1));
    assert_eq!(p.rem(OrthogonalGrid(-4)), grid(-3, 1));
    assert_eq!(p.rem_elementwise(grid(2, 5)), grid(-1, 4));
    assert!(p.same(grid(-7, 9)));
    assert!(!p.same(grid(-7, 8)));
}

#[test]
fn orthogonal_neighbors_clockwise_from_north() {
    let n = OrthogonalGrid::neighbors(grid(2, 3));
    assert_eq!(n, vec![grid(2, 4), grid(3, 3), grid(2, 2), grid(1, 3)]);
    assert_eq!(OrthogonalGrid::n_neighbors(), 4);
    assert_eq!(OrthogonalGrid::origin(), grid(0, 0));
}

#[test]
fn orthogonal_neighbor_directions_are_cardinal() {
    assert_eq!(
        OrthogonalGrid::neighbor_directions(),
        vec![
            Direction::compass(Compass::North),
            Direction::compass(Compass::East),
            Direction::compass(Compass::South),
            Direction::compass(Compass::West),
        ]
    );
}

#[test]
fn adjacent_neighbor_directions_are_compass_points() {
    let expected: Vec<Direction> = (0..8u16).map(|i| Direction::try_from_vector(
        [0, 1, 1, 1, 0, -1, -1, -1][i as usize],
        [1, 1, 0, -1, -1, -1, 0, 1][i as usize],
    ).unwrap()).collect();
    assert_eq!(AdjacentGrid::neighbor_directions(), expected);
    for (i, d) in AdjacentGrid::neighbor_directions().iter().enumerate() {
        assert_eq!(d.deci_degrees(), 450 * i as u16);
    }
    let cell = Position::new(AdjacentGrid(0), AdjacentGrid(0));
    assert_eq!(AdjacentGrid::neighbors(cell)[3], Position::new(AdjacentGrid(1), AdjacentGrid(-1)));
}

#[test]
fn neighbor_index_partitions_the_circle() {
    let at = |deci: u16| Direction::from_rotation(Rotation::new(deci));
    assert_eq!(OrthogonalGrid::neighbor_index(at(0)), 0);
    assert_eq!(OrthogonalGrid::neighbor_index(at(449)), 0);
    // on the boundary the higher index wins
    assert_eq!(OrthogonalGrid::neighbor_index(at(450)), 1);
    assert_eq!(OrthogonalGrid::neighbor_index(at(1800)), 2);
    assert_eq!(OrthogonalGrid::neighbor_index(at(3149)), 3);
    assert_eq!(OrthogonalGrid::neighbor_index(at(3150)), 0);
    assert_eq!(AdjacentGrid::neighbor_index(at(225)), 1);
    assert_eq!(AdjacentGrid::neighbor_index(at(224)), 0);
    assert_eq!(AdjacentGrid::neighbor_index(at(3599)), 0);
    for (i, d) in OrthogonalGrid::neighbor_directions().into_iter().enumerate() {
        assert_eq!(OrthogonalGrid::neighbor_index(d), i);
    }
}

#[test]
fn hex_coordinates_do_arithmetic() {
    let a = Position::new(FlatHex(3), FlatHex(-2));
    let b = Position::new(FlatHex(-1), FlatHex(5));
    assert_eq!(a.add(b), Position::new(FlatHex(2), FlatHex(3)));
    assert_eq!(a.sub(b), Position::new(FlatHex(4), FlatHex(-7)));
    let p = Position::new(PointyHex(9), PointyHex(-9));
    assert_eq!(p.div(PointyHex(4)), Position::new(PointyHex(2), PointyHex(-2)));
    assert_eq!(p.rem(PointyHex(4)), Position::new(PointyHex(1), PointyHex(-1)));
    assert_eq!(Position::<AdjacentGrid>::default(), Position::new(AdjacentGrid(0), AdjacentGrid(0)));
    assert_eq!(
        AdjacentGrid::position(AdjacentGrid(1), AdjacentGrid(2)),
        Position::new(AdjacentGrid(1), AdjacentGrid(2))
    );
}

#[test]
fn position_as_vector_from_origin() {
    assert_eq!(grid(0, 4).try_into_direction(), Ok(Direction::compass(Compass::North)));
    assert_eq!(grid(-2, -2).try_into_rotation(), Ok(Rotation::compass(Compass::SouthWest)));
    assert_eq!(grid(2, 1).try_into_rotation().unwrap().deci_degrees(), 636);
    assert_eq!(grid(0, 0).try_into_direction(), Err(NearlySingularConversion));
    assert_eq!(grid(0, 0).try_into_rotation(), Err(NearlySingularConversion));
}

#[test]
fn flat_hex_ring_and_partition() {
    let hex = |x: isize, y: isize| Position::new(FlatHex(x), FlatHex(y));
    assert_eq!(FlatHex::n_neighbors(), 6);
    assert_eq!(
        FlatHex::neighbors(hex(1, 1)),
        vec![hex(1, 3), hex(2, 2), hex(2, 0), hex(1, -1), hex(0, 0), hex(0, 2)]
    );
    let degrees: Vec<u16> = FlatHex::neighbor_directions().iter().map(|d| d.deci_degrees()).collect();
    assert_eq!(degrees, vec![0, 450, 1350, 1800, 2250, 3150]);
    for (i, d) in FlatHex::neighbor_directions().into_iter().enumerate() {
        assert_eq!(FlatHex::neighbor_index(d), i);
    }
    // sectors are 60 degrees wide; 30 degrees is the boundary between the first two
    let at = |deci: u16| Direction::from_rotation(Rotation::new(deci));
    assert_eq!(FlatHex::neighbor_index(at(299)), 0);
    assert_eq!(FlatHex::neighbor_index(at(300)), 1);
    assert_eq!(FlatHex::neighbor_index(at(3299)), 5);
    assert_eq!(FlatHex::neighbor_index(at(3300)), 0);
}
