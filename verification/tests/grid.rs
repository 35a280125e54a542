use bevy_rpg::collision::{CollisionMap, TileType};

#[test]
fn new_map_is_empty_and_walkable() {
    let map = CollisionMap::new(3, 2);
    assert_eq!(map.width(), 3);
    assert_eq!(map.height(), 2);
    for y in 0..2 {
        for x in 0..3 {
            assert_eq!(map.get_tile(x, y), Some(TileType::Empty));
            assert!(map.is_walkable(x, y));
        }
    }
}

#[test]
fn cells_outside_the_grid_have_no_tile() {
    let map = CollisionMap::new(3, 2);
    assert!(!map.in_bounds(-1, 0));
    assert!(!map.in_bounds(3, 0));
    assert!(!map.in_bounds(0, 2));
    assert_eq!(map.get_tile(3, 1), None);
    assert!(!map.is_walkable(0, -1));
}

#[test]
fn set_then_get_touches_one_cell() {
    let mut map = CollisionMap::new(3, 2);
    map.set_tile(2, 1, TileType::Rock);
    assert_eq!(map.get_tile(2, 1), Some(TileType::Rock));
    assert!(!map.is_walkable(2, 1));
    assert_eq!(map.get_tile(1, 2 - 1), Some(TileType::Empty));
    assert_eq!(map.get_tile(2, 0), Some(TileType::Empty));
    map.set_tile(2, 1, TileType::Grass);
    assert!(map.is_walkable(2, 1));
}

#[test]
fn writes_outside_the_grid_change_nothing() {
    let mut map = CollisionMap::new(2, 2);
    map.set_tile(5, 5, TileType::Water);
    map.set_tile(-1, 0, TileType::Water);
    for y in 0..2 {
        for x in 0..2 {
            assert_eq!(map.get_tile(x, y), Some(TileType::Empty));
        }
    }
}

#[test]
fn water_trees_and_rocks_block() {
    let blocking = [TileType::Water, TileType::Tree, TileType::Rock];
    let open = [TileType::Dirt, TileType::Grass, TileType::YellowGrass, TileType::Shore, TileType::Empty];
    for t in blocking {
        assert!(!t.is_walkable());
    }
    for t in open {
        assert!(t.is_walkable());
    }
}

#[test]
fn empty_grid_has_no_cells() {
    let map = CollisionMap::new(0, 5);
    assert!(!map.in_bounds(0, 0));
    assert_eq!(map.get_tile(0, 0), None);
}

#[test]
fn region_is_clear_when_inside_and_no_blocking_tile_touches() {
    let mut map = CollisionMap::new(4, 4);
    map.set_tile(2, 2, TileType::Tree);
    assert!(map.region_clear(0, 1, 0, 3, |_x, _y, _t| true));
    assert!(!map.region_clear(1, 2, 1, 2, |_x, _y, _t| true));
    assert!(map.region_clear(1, 2, 1, 2, |_x, _y, _t| false));
    assert!(!map.region_clear(3, 4, 0, 0, |_x, _y, _t| false));
    assert!(!map.region_clear(-1, 0, 0, 0, |_x, _y, _t| false));
    let seen = std::cell::RefCell::new(Vec::new());
    map.set_tile(0, 3, TileType::Water);
    let clear = map.region_clear(0, 3, 0, 3, |x, y, t| {
        seen.borrow_mut().push((x, y, t));
        false
    });
    assert!(clear);
    assert_eq!(seen.into_inner(), vec![(2, 2, TileType::Tree), (0, 3, TileType::Water)]);
}

#[test]
fn empty_region_is_clear() {
    let map = CollisionMap::new(2, 2);
    assert!(map.region_clear(1, 0, 0, 1, |_x, _y, _t| true));
}
