use code_selection::{get_pair_mut, AreaSize, Direction, Position, RelativePosition};

#[test]
fn test_position_ord() {
    let pos0 = Position::new(0, 0);
    let pos1 = Position::new(1, 0);
    let pos2 = Position::new(0, 1);
    let pos3 = Position::new(1, 1);

    assert_eq!(pos0.cmp(&pos1), std::cmp::Ordering::Less);
    assert_eq!(pos0.cmp(&pos2), std::cmp::Ordering::Less);
    assert_eq!(pos0.cmp(&pos3), std::cmp::Ordering::Less);

    assert_eq!(pos1.cmp(&pos2), std::cmp::Ordering::Less);
    assert_eq!(pos1.cmp(&pos3), std::cmp::Ordering::Less);

    assert_eq!(pos2.cmp(&pos3), std::cmp::Ordering::Less);
}

#[test]
fn index_and_coords_round_trip() {
    let size = AreaSize::new(6, 4);
    for index in 0..size.area() {
        let pos = size.index_to_coords(index);
        assert!(pos.x < 6 && pos.y < 4);
        assert_eq!(size.coords_to_index(pos), index);
    }
    assert_eq!(size.coords_to_index(RelativePosition::new(5, 2)), 17);
    assert_eq!(size.index_to_coords(7), RelativePosition::new(1, 1));
}

#[test]
fn area_and_scaling() {
    let size = AreaSize::splat(8);
    assert_eq!(size.area(), 64);
    let scaled = AreaSize::new(4, 6).scaled(AreaSize::splat(7));
    assert_eq!(scaled, AreaSize::new(28, 42));
}

#[test]
fn position_arithmetic() {
    let p = Position::new(3, -2);
    assert_eq!(p + Position::new(1, 5), Position::new(4, 3));
    assert_eq!(p - Position::new(1, 5), Position::new(2, -7));
    assert_eq!(p + (2, 2), Position::new(5, 0));
    assert_eq!(p + Direction::North, Position::new(3, -3));
    assert_eq!(p + Direction::East, Position::new(4, -2));
    assert_eq!(p + Direction::South, Position::new(3, -1));
    assert_eq!(p + Direction::West, Position::new(2, -2));
    assert_eq!(p + AreaSize::new(10, 20), Position::new(13, 18));
    assert_eq!(p + RelativePosition::new(1, 1), Position::new(4, -1));
    assert_eq!(p - RelativePosition::new(4, 1), Position::new(-1, -3));
    assert_eq!(Position::from(RelativePosition::new(7, 9)), Position::new(7, 9));
    assert_eq!(Direction::West.to_offset(), (-1, 0));
}

#[test]
fn relative_position_arithmetic() {
    let r = RelativePosition::new(2, 3);
    assert_eq!(r + RelativePosition::new(4, 5), RelativePosition::new(6, 8));
    assert_eq!(r * AreaSize::splat(7), RelativePosition::new(14, 21));
}

#[test]
fn pair_borrow_of_distinct_elements() {
    let mut values = vec![1, 2, 3, 4];
    {
        let (a, b) = get_pair_mut(&mut values, 3, 1);
        assert_eq!((*a, *b), (4, 2));
        *a = 40;
        *b = 20;
    }
    assert_eq!(values, vec![1, 20, 3, 40]);
    let (a, b) = get_pair_mut(&mut values, 0, 2);
    std::mem::swap(a, b);
    assert_eq!(values, vec![3, 20, 1, 40]);
}
