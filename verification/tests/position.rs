use micropolis_core::map::position::{MapPosition, MapPositionOffset, MapRectangle};

#[test]
fn test_position_addition() {
    assert_eq!(
        MapPosition::new(3, 2) + MapPosition::new(-1, 12),
        MapPosition::new(2, 14),
    );
    assert_eq!(
        MapPosition::new(13, -5) + MapPosition::new(0, -1),
        MapPosition::new(13, -6),
    );
}

#[test]
fn test_position_substraction() {
    assert_eq!(
        MapPosition::new(3, 2) - MapPosition::new(-1, 12),
        MapPosition::new(4, -10),
    );
    assert_eq!(
        MapPosition::new(13, -5) - MapPosition::new(0, -1),
        MapPosition::new(13, -4),
    );
}

#[test]
fn test_position_offsetting() {
    assert_eq!(
        MapPosition::new(7, -3).with_offset(3, 3),
        MapPosition::new(10, 0),
    );
    assert_eq!(
        MapPosition::new(7, -3).with_x_offset(-1),
        MapPosition::new(6, -3),
    );
    assert_eq!(
        MapPosition::new(7, -3).with_y_offset(2),
        MapPosition::new(7, -1),
    );
}

#[test]
fn test_rectangle_tuple() {
    assert_eq!(MapRectangle::new(120, 100).get_tuple(), (120, 100),);
}

#[test]
fn test_cardinal_directions() {
    assert_eq!(MapPositionOffset::North.is_cardinal(), true);
    assert_eq!(MapPositionOffset::East.is_cardinal(), true);
    assert_eq!(MapPositionOffset::South.is_cardinal(), true);
    assert_eq!(MapPositionOffset::West.is_cardinal(), true);
    assert_eq!(MapPositionOffset::NorthEast.is_cardinal(), false);
    assert_eq!(MapPositionOffset::NorthWest.is_cardinal(), false);
    assert_eq!(MapPositionOffset::SouthEast.is_cardinal(), false);
    assert_eq!(MapPositionOffset::SouthWest.is_cardinal(), false);
}

#[test]
fn position_scaling_and_shifts() {
    assert_eq!(MapPosition::new(3, -2) * 4, MapPosition::new(12, -8));
    assert_eq!(MapPosition::new(7, -7) / 2, MapPosition::new(3, -3));
    assert_eq!(MapPosition::new(3, 5) << 2, MapPosition::new(12, 20));
    assert_eq!(MapPosition::new(12, 21) >> 2, MapPosition::new(3, 5));
}

#[test]
fn position_distance_and_direction() {
    let origin = MapPosition::new(0, 0);
    let target = MapPosition::new(3, -4);
    assert_eq!(origin.distance_with(&target), 7);
    assert_eq!(target.absolute(), MapPosition::new(3, 4));
    assert_eq!(target.minimum_axis(), -4);
    assert_eq!(target.maximum_axis(), 3);
    assert_eq!(target.unitary(0), MapPosition::new(1, -1));
    assert_eq!(origin.axis_equalities_with(&MapPosition::new(0, 5)), (true, false));
}

#[test]
fn offsets_apply_and_rotate() {
    let position = MapPosition::new(5, 5);
    assert_eq!(MapPositionOffset::NorthWest.apply(&position), MapPosition::new(4, 4));
    assert_eq!(MapPositionOffset::South.apply(&position), MapPosition::new(5, 6));
    assert_eq!(MapPositionOffset::North.offset(), (0, -1));
    let bounds = MapRectangle::new(6, 6);
    assert_eq!(MapPositionOffset::East.apply_with_bounds(&position, &bounds), None);
    assert_eq!(
        MapPositionOffset::West.apply_with_bounds(&position, &bounds),
        Some(MapPosition::new(4, 5))
    );
}

#[test]
fn rectangle_inside_and_contained() {
    let bounds = MapRectangle::new(10, 8);
    assert!(bounds.is_inside(&MapPosition::new(0, 0)));
    assert!(bounds.is_inside(&MapPosition::new(9, 7)));
    assert!(!bounds.is_inside(&MapPosition::new(10, 7)));
    assert!(!bounds.is_inside(&MapPosition::new(-1, 3)));
    assert!(bounds.is_contained(&MapPosition::new(2, 2), &MapRectangle::new(3, 3)));
}
