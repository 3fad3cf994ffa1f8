use kartoffels::{Dir, Pos, Tile, TileBase, TileMap};
use rand::rngs::SmallRng;
use rand::SeedableRng;

#[test]
fn checked_add_adds_each_coordinate() {
    assert_eq!(Pos::new(3, -4).checked_add(Pos::new(-1, 9)), Some(Pos::new(2, 5)));
    assert_eq!(Pos::new(7, 7).checked_add(Dir::Up.as_vec()), Some(Pos::new(7, 6)));
}

#[test]
fn checked_add_refuses_what_does_not_fit() {
    assert_eq!(Pos::new(i32::MAX, 0).checked_add(Pos::new(1, 0)), None);
    assert_eq!(Pos::new(0, i32::MIN).checked_add(Pos::new(0, -1)), None);
    assert_eq!(
        Pos::new(i32::MAX - 1, i32::MIN + 1).checked_add(Pos::new(1, -1)),
        Some(Pos::new(i32::MAX, i32::MIN))
    );
}

#[test]
fn tiles_are_named_by_their_bytes() {
    assert_eq!(TileBase::BOT, b'@');
    assert_eq!(TileBase::BOT_CHEVRON, b'~');
    assert_eq!(TileBase::FLOOR, b'.');
    assert_eq!(TileBase::VOID, b' ');
    assert_eq!(TileBase::WALL_H, b'-');
    assert_eq!(TileBase::WALL_V, b'|');
}

#[test]
fn new_tiles_have_no_metadata() {
    let tile = Tile::new(TileBase::FLOOR);
    assert_eq!(tile, Tile { base: b'.', meta: [0, 0, 0] });
    assert!(tile.is_floor());
    assert!(!tile.is_void());
    assert!(!tile.is_bot());
    assert_eq!(Tile::from(TileBase::VOID), Tile { base: b' ', meta: [0, 0, 0] });
    assert_eq!(Tile::with_meta(TileBase::BOT, 5, 2), Tile { base: b'@', meta: [5, 2, 0] });
    assert!(Tile::with_meta(TileBase::BOT, 5, 2).is_bot());
}

#[test]
fn a_new_grid_is_void() {
    let map = TileMap::new(3, 2);
    assert_eq!(map.width(), 3);
    assert_eq!(map.height(), 2);
    assert_eq!(map.tiles.len(), 6);
    assert!(map.check());
    for y in 0..2 {
        for x in 0..3 {
            assert_eq!(map.get(Pos::new(x, y)), Tile::new(TileBase::VOID));
        }
    }
}

#[test]
fn a_grid_knows_its_points() {
    let map = TileMap::new(3, 2);
    assert!(map.contains(Pos::new(0, 0)));
    assert!(map.contains(Pos::new(2, 1)));
    assert!(!map.contains(Pos::new(3, 1)));
    assert!(!map.contains(Pos::new(2, 2)));
    assert!(!map.contains(Pos::new(-1, 0)));
    assert!(!map.contains(Pos::new(0, -1)));
    assert!(!TileMap::new(0, 0).contains(Pos::new(0, 0)));
}

#[test]
fn set_changes_one_tile() {
    let mut map = TileMap::filled(3, 2, Tile::new(TileBase::FLOOR));
    map.set(Pos::new(2, 1), Tile::new(TileBase::WALL_H));
    map.set(Pos::new(0, 1), Tile::with_meta(TileBase::WALL_V, 1, 2));
    for y in 0..2 {
        for x in 0..3 {
            let expected = if (x, y) == (2, 1) {
                Tile::new(TileBase::WALL_H)
            } else if (x, y) == (0, 1) {
                Tile { base: b'|', meta: [1, 2, 0] }
            } else {
                Tile::new(TileBase::FLOOR)
            };
            assert_eq!(map.get(Pos::new(x, y)), expected);
        }
    }
    assert_eq!(map.tiles[5], Tile::new(TileBase::WALL_H));
    assert_eq!(map.tiles[3], Tile { base: b'|', meta: [1, 2, 0] });
}

#[test]
fn outside_of_the_grid_is_void_and_stays_so() {
    let mut map = TileMap::filled(2, 2, Tile::new(TileBase::FLOOR));
    let before = map.duplicate();
    map.set(Pos::new(2, 0), Tile::new(TileBase::WALL_H));
    map.set(Pos::new(0, -1), Tile::new(TileBase::WALL_H));
    assert_eq!(map, before);
    assert_eq!(map.get(Pos::new(2, 0)), Tile::new(TileBase::VOID));
    assert_eq!(map.get(Pos::new(-1, -1)), Tile::new(TileBase::VOID));
    assert_eq!(map.get(Pos::new(i32::MAX, i32::MIN)), Tile::new(TileBase::VOID));
}

#[test]
fn check_finds_a_grid_with_missing_tiles() {
    let mut map = TileMap::new(2, 2);
    map.tiles.pop();
    assert!(!map.check());
    let mut map = TileMap::new(2, 2);
    map.width = 3;
    assert!(!map.check());
    let huge = TileMap { width: u32::MAX, height: 0, tiles: Vec::new() };
    assert!(!huge.check());
}

#[test]
fn sample_pos_stays_on_the_grid() {
    let map = TileMap::new(5, 3);
    let mut rng = SmallRng::seed_from_u64(1);
    let mut seen = [[false; 5]; 3];
    for _ in 0..2000 {
        let pos = map.sample_pos(&mut rng);
        assert!(map.contains(pos));
        seen[pos.y as usize][pos.x as usize] = true;
    }
    assert!(seen.iter().all(|row| row.iter().all(|hit| *hit)));
    let single = TileMap::new(1, 1);
    assert_eq!(single.sample_pos(&mut rng), Pos::new(0, 0));
}

#[test]
fn point_is_at_its_column_and_row() {
    let map = TileMap::new(5, 3);
    assert_eq!(map.point(0, 0), Pos::new(0, 0));
    assert_eq!(map.point(4, 2), Pos::new(4, 2));
    assert_eq!(map.point(3, 1), Pos::new(3, 1));
    assert!(map.contains(map.point(4, 2)));
}

#[test]
fn sample_pos_draws_the_column_and_the_row() {
    let map = TileMap::new(7, 1);
    let mut rng = SmallRng::seed_from_u64(9);
    let mut columns = [false; 7];
    for _ in 0..500 {
        let pos = map.sample_pos(&mut rng);
        assert_eq!(pos.y, 0);
        columns[pos.x as usize] = true;
    }
    assert!(columns.iter().all(|hit| *hit));
    let map = TileMap::new(1, 6);
    let mut rows = [false; 6];
    for _ in 0..500 {
        let pos = map.sample_pos(&mut rng);
        assert_eq!(pos.x, 0);
        rows[pos.y as usize] = true;
    }
    assert!(rows.iter().all(|hit| *hit));
}
