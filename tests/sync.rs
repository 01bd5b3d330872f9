use leafwing_2d::discrete_coordinates::OrthogonalGrid;
use leafwing_2d::orientation::{Compass, Direction, Rotation};
use leafwing_2d::position::{FloatCoordinateConversionError, Position};
use leafwing_2d::sync::{
    reconcile, sync_direction_and_rotation, sync_transform_with_2d, HostTransform, TwoDEntity,
    Watched,
};

fn grid(x: isize, y: isize) -> Position<OrthogonalGrid> {
    Position::new(OrthogonalGrid(x), OrthogonalGrid(y))
}

fn host(deci: u16, x: isize, y: isize) -> HostTransform<OrthogonalGrid> {
    HostTransform { rotation: Rotation::new(deci), x: Ok(OrthogonalGrid(x)), y: Ok(OrthogonalGrid(y)) }
}

fn entity(
    transform: Watched<HostTransform<OrthogonalGrid>>,
    rotation: Watched<Rotation>,
    direction: Watched<Direction>,
    position: Watched<Position<OrthogonalGrid>>,
) -> TwoDEntity<OrthogonalGrid> {
    TwoDEntity {
        transform,
        rotation: Some(rotation),
        direction: Some(direction),
        position: Some(position),
    }
}

fn clear_flags(e: &mut TwoDEntity<OrthogonalGrid>) {
    e.transform.changed = false;
    for r in e.rotation.iter_mut() {
        r.changed = false;
    }
    for d in e.direction.iter_mut() {
        d.changed = false;
    }
    for p in e.position.iter_mut() {
        p.changed = false;
    }
}

#[test]
fn changed_rotation_updates_direction() {
    let mut d = Watched::new(Direction::compass(Compass::North), false);
    let mut r = Watched::new(Rotation::compass(Compass::East), true);
    assert_eq!(sync_direction_and_rotation(&mut d, &mut r), 1);
    assert_eq!(d, Watched::new(Direction::compass(Compass::East), true));
    assert_eq!(r, Watched::new(Rotation::compass(Compass::East), true));
}

#[test]
fn changed_direction_updates_rotation() {
    let mut d = Watched::new(Direction::compass(Compass::South), true);
    let mut r = Watched::new(Rotation::compass(Compass::North), false);
    assert_eq!(sync_direction_and_rotation(&mut d, &mut r), 1);
    assert_eq!(r.value, Rotation::compass(Compass::South));
    assert!(r.changed);
}

#[test]
fn rotation_wins_over_direction() {
    let mut d = Watched::new(Direction::compass(Compass::West), true);
    let mut r = Watched::new(Rotation::new(1234), true);
    assert_eq!(sync_direction_and_rotation(&mut d, &mut r), 1);
    assert_eq!(d.value, Direction::from_rotation(Rotation::new(1234)));
    assert_eq!(r.value, Rotation::new(1234));

    let mut e = entity(
        Watched::new(host(0, 0, 0), false),
        Watched::new(Rotation::new(1234), true),
        Watched::new(Direction::compass(Compass::West), true),
        Watched::new(grid(0, 0), false),
    );
    reconcile(&mut e);
    assert_eq!(e.direction.unwrap().value, Direction::from_rotation(Rotation::new(1234)));
    assert_eq!(e.rotation.unwrap().value, Rotation::new(1234));
    assert_eq!(e.transform.value.rotation, Rotation::new(1234));
}

#[test]
fn equal_values_are_not_written() {
    let mut d = Watched::new(Direction::compass(Compass::East), false);
    let mut r = Watched::new(Rotation::compass(Compass::East), true);
    assert_eq!(sync_direction_and_rotation(&mut d, &mut r), 0);
    assert!(!d.changed);
    let mut d = Watched::new(Direction::compass(Compass::East), false);
    let mut r = Watched::new(Rotation::compass(Compass::North), false);
    assert_eq!(sync_direction_and_rotation(&mut d, &mut r), 0);
    assert_eq!(r.value, Rotation::compass(Compass::North));
}

#[test]
fn changed_transform_is_pulled() {
    let mut e = entity(
        Watched::new(host(2700, 5, -3), true),
        Watched::new(Rotation::new(0), false),
        Watched::new(Direction::compass(Compass::North), false),
        Watched::new(grid(0, 0), false),
    );
    let out = sync_transform_with_2d(&mut e);
    assert_eq!(out.writes, 4);
    assert_eq!(e.rotation.unwrap().value, Rotation::compass(Compass::West));
    assert_eq!(e.direction.unwrap().value, Direction::compass(Compass::West));
    assert_eq!(e.position.unwrap().value, grid(5, -3));
    assert!(!out.x_unreadable && !out.y_unreadable);
}

#[test]
fn changed_position_is_pushed_and_wins() {
    let mut e = entity(
        Watched::new(host(0, 1, 1), true),
        Watched::new(Rotation::new(0), false),
        Watched::new(Direction::compass(Compass::North), false),
        Watched::new(grid(8, 1), true),
    );
    let out = sync_transform_with_2d(&mut e);
    assert_eq!(out.writes, 1);
    assert_eq!(e.transform.value.x, Ok(OrthogonalGrid(8)));
    assert_eq!(e.transform.value.y, Ok(OrthogonalGrid(1)));
    assert_eq!(e.position.unwrap().value, grid(8, 1));
}

#[test]
fn unreadable_axis_leaves_other_axis_working() {
    let mut e = entity(
        Watched::new(
            HostTransform {
                rotation: Rotation::new(0),
                x: Err(FloatCoordinateConversionError),
                y: Ok(OrthogonalGrid(6)),
            },
            true,
        ),
        Watched::new(Rotation::new(0), false),
        Watched::new(Direction::compass(Compass::North), false),
        Watched::new(grid(2, 2), false),
    );
    let out = sync_transform_with_2d(&mut e);
    assert_eq!(e.position.unwrap().value, grid(2, 6));
    assert!(out.x_unreadable);
    assert!(!out.y_unreadable);
    assert_eq!(out.writes, 1);
}

#[test]
fn second_run_writes_nothing() {
    let mut e = entity(
        Watched::new(host(100, 1, 2), true),
        Watched::new(Rotation::new(2500), true),
        Watched::new(Direction::compass(Compass::South), false),
        Watched::new(grid(4, 4), false),
    );
    let first = reconcile(&mut e);
    assert!(first.writes > 0);
    assert_eq!(e.direction.unwrap().value, Direction::from_rotation(Rotation::new(2500)));
    assert_eq!(e.transform.value.rotation, Rotation::new(2500));
    assert_eq!(e.position.unwrap().value, grid(1, 2));
    clear_flags(&mut e);
    assert_eq!(reconcile(&mut e).writes, 0);
    // even when every field that the first run wrote is seen as changed
    e.transform.changed = true;
    e.direction.as_mut().unwrap().changed = true;
    e.position.as_mut().unwrap().changed = true;
    assert_eq!(reconcile(&mut e).writes, 0);
}

#[test]
fn entity_without_two_d_orientation_only_syncs_position() {
    let mut e: TwoDEntity<OrthogonalGrid> = TwoDEntity {
        transform: Watched::new(host(900, 0, 0), false),
        rotation: None,
        direction: None,
        position: Some(Watched::new(grid(-2, 3), true)),
    };
    let out = reconcile(&mut e);
    assert_eq!(out.writes, 2);
    assert_eq!(e.transform.value.rotation, Rotation::new(900));
    assert_eq!(e.transform.value.x, Ok(OrthogonalGrid(-2)));
    assert_eq!(e.transform.value.y, Ok(OrthogonalGrid(3)));
}
