use bevy_rogue::components::Position;
use bevy_rogue::map_builder::gamemap::{new_map, GameMap};
use bevy_rogue::map_builder::map::{
    cell_to_world, map_idx, spawn_map_tiles, sprite_idx, GridMap, TileType, FLOOR_SPRITE,
    PLAYER_SPRITE, WALL_SPRITE,
};

fn pos(x: i32, y: i32) -> Position {
    Position { x, y }
}

fn on_border(map: &GridMap, x: usize, y: usize) -> bool {
    x == 0 || y == 0 || x == map.width() - 1 || y == map.height() - 1
}

fn walls(map: &GridMap) -> usize {
    map.tiles().iter().filter(|t| **t == TileType::Wall).count()
}

fn interior_walls(map: &GridMap) -> usize {
    let mut n = 0;
    for y in 1..map.height() - 1 {
        for x in 1..map.width() - 1 {
            if map.tile(pos(x as i32, y as i32)) == TileType::Wall {
                n += 1;
            }
        }
    }
    n
}

#[test]
fn map_idx_is_row_major() {
    assert_eq!(map_idx(0, 0), 0);
    assert_eq!(map_idx(3, 2), 83);
    assert_eq!(map_idx(39, 0), 39);
    assert_eq!(map_idx(0, 1), 40);
    assert_eq!(map_idx(39, 29), 1199);
}

#[test]
fn sprite_idx_reads_sheet_rows() {
    assert_eq!(sprite_idx(2, 3), 50);
    assert_eq!(sprite_idx(0, 1), 16);
    assert_eq!(sprite_idx(4, 8), 132);
    assert_eq!(sprite_idx(15, 15), 255);
    assert_eq!(sprite_idx(20, 3), 68);
    assert_eq!(sprite_idx(0, 40), 640);
    assert_eq!(FLOOR_SPRITE, sprite_idx(2, 3));
    assert_eq!(WALL_SPRITE, sprite_idx(0, 1));
    assert_eq!(PLAYER_SPRITE, sprite_idx(4, 8));
}

#[test]
#[allow(non_snake_case)]
fn with_walls_builds_border_and_listed_cells() {
    let map = GridMap::with_walls(5, 4, &vec![pos(1, 1), pos(3, 2)]);
    assert_eq!(map.width(), 5);
    assert_eq!(map.height(), 4);
    assert_eq!(map.tiles().len(), 20);
    let (F, W) = (TileType::Floor, TileType::Wall);
    let expected = vec![
        W, W, W, W, W, //
        W, W, F, F, W, //
        W, F, F, W, W, //
        W, W, W, W, W, //
    ];
    assert_eq!(map.tiles(), &expected);
    assert_eq!(map.tile(pos(3, 2)), W);
    assert_eq!(map.tile(pos(2, 2)), F);
}

#[test]
fn with_walls_repeated_cell_is_one_wall() {
    let map = GridMap::with_walls(5, 5, &vec![pos(2, 2), pos(2, 2), pos(2, 2)]);
    assert_eq!(walls(&map), 16 + 1);
}

#[test]
fn with_walls_no_draws_leaves_interior_floor() {
    let map = GridMap::with_walls(6, 4, &vec![]);
    assert_eq!(walls(&map), 2 * 6 + 2 * 4 - 4);
    assert_eq!(interior_walls(&map), 0);
}

#[test]
fn generated_perimeter_is_wall() {
    for (w, h, n) in [(40usize, 30usize, 50usize), (3, 3, 0), (3, 7, 4), (9, 3, 100), (12, 5, 10)] {
        let map = GridMap::generate(w, h, n);
        assert_eq!(map.width(), w);
        assert_eq!(map.height(), h);
        assert_eq!(map.tiles().len(), w * h);
        for y in 0..h {
            for x in 0..w {
                if on_border(&map, x, y) {
                    assert_eq!(map.tile(pos(x as i32, y as i32)), TileType::Wall);
                }
            }
        }
    }
}

#[test]
fn generated_wall_count_is_bounded() {
    for (w, h, n) in [(40usize, 30usize, 50usize), (3, 3, 0), (3, 3, 5), (10, 8, 3), (20, 20, 400)] {
        let map = GridMap::generate(w, h, n);
        let border = 2 * w + 2 * h - 4;
        let count = walls(&map);
        assert!(count >= border);
        assert!(count <= border + n);
        assert_eq!(count, border + interior_walls(&map));
    }
}

#[test]
fn generated_smallest_map_has_one_interior_cell() {
    let map = GridMap::generate(3, 3, 2);
    assert_eq!(walls(&map), 9);
    let open = GridMap::generate(3, 3, 0);
    assert_eq!(walls(&open), 8);
    assert_eq!(open.tile(pos(1, 1)), TileType::Floor);
}

#[test]
fn generated_draws_spread_over_interior() {
    let map = GridMap::generate(40, 30, 50);
    let inner = interior_walls(&map);
    // All 50 draws landing on one of the 1064 interior cells has probability below 1e-140.
    assert!(inner >= 2);
    assert!(inner <= 50);
}

#[test]
fn standard_maps_have_screen_dimensions() {
    let map = GridMap::new();
    assert_eq!((map.width(), map.height()), (40, 30));
    assert!(interior_walls(&map) <= 200);
    assert!(interior_walls(&map) >= 1);
    let old = new_map();
    assert_eq!((old.width(), old.height()), (40, 30));
    assert!(interior_walls(&old) <= 50);
    assert!(interior_walls(&old) >= 1);
}

#[test]
fn center_is_player_start() {
    let map = GridMap::new();
    assert_eq!(map.center(), pos(20, 15));
    assert_eq!(cell_to_world(map.center()), (8, 8));
    let small = GridMap::with_walls(3, 4, &vec![]);
    assert_eq!(small.center(), pos(1, 2));
}

#[test]
fn in_bounds_checks_both_axes() {
    let map = GridMap::with_walls(4, 3, &vec![]);
    assert!(map.in_bounds(pos(0, 0)));
    assert!(map.in_bounds(pos(3, 2)));
    assert!(!map.in_bounds(pos(4, 0)));
    assert!(!map.in_bounds(pos(0, 3)));
    assert!(!map.in_bounds(pos(-1, 1)));
    assert!(!map.in_bounds(pos(1, -1)));
}

#[test]
fn cell_to_world_is_affine() {
    assert_eq!(cell_to_world(pos(0, 0)), (-312, -232));
    assert_eq!(cell_to_world(pos(1, 0)), (-296, -232));
    assert_eq!(cell_to_world(pos(0, 1)), (-312, -216));
    assert_eq!(cell_to_world(pos(39, 29)), (312, 232));
    assert_eq!(cell_to_world(pos(-1, -2)), (-328, -264));
}

#[test]
fn spawn_map_tiles_walks_cells_in_storage_order() {
    let map = GridMap::with_walls(4, 3, &vec![]);
    let sprites = spawn_map_tiles(&map);
    assert_eq!(sprites.len(), 12);
    assert_eq!(sprites[0].cell, pos(0, 0));
    assert_eq!((sprites[0].world_x, sprites[0].world_y), (-312, -232));
    assert_eq!(sprites[0].sprite, 16);
    assert!(sprites[0].blocking);
    assert_eq!(sprites[5].cell, pos(1, 1));
    assert_eq!((sprites[5].world_x, sprites[5].world_y), (-296, -216));
    assert_eq!(sprites[5].sprite, 50);
    assert!(!sprites[5].blocking);
    assert_eq!(sprites[11].cell, pos(3, 2));
    assert_eq!((sprites[11].world_x, sprites[11].world_y), (-264, -200));
}

#[test]
fn game_map_blocks_exactly_the_walls() {
    let map = GridMap::with_walls(5, 4, &vec![pos(2, 1)]);
    let level = GameMap::new(map);
    for y in 0..4 {
        for x in 0..5 {
            let p = pos(x, y);
            let wall = level.map().tile(p) == TileType::Wall;
            assert_eq!(level.occupancy().is_blocked(p), wall);
            assert_eq!(level.occupancy().blockers_at(p), if wall { 1 } else { 0 });
        }
    }
    assert_eq!(level.occupancy().width(), 5);
    assert_eq!(level.occupancy().height(), 4);
}

#[test]
fn spawned_tiles_map_back_to_storage_index() {
    let map = GridMap::new();
    let sprites = spawn_map_tiles(&map);
    assert_eq!(sprites.len(), 1200);
    for (i, s) in sprites.iter().enumerate() {
        assert!((s.world_x + 312) % 16 == 0 && (s.world_y + 232) % 16 == 0);
        let col = ((s.world_x + 312) / 16) as i32;
        let row = ((s.world_y + 232) / 16) as i32;
        assert_eq!(map_idx(col, row), i);
        assert_eq!(s.cell, pos(col, row));
    }
    assert_eq!((sprites[40].world_x, sprites[40].world_y), (-312, -216));
}

#[test]
fn game_map_tracks_added_and_removed_blockers() {
    let mut level = GameMap::new(GridMap::with_walls(6, 5, &vec![]));
    let monster = pos(2, 2);
    assert!(!level.occupancy().is_blocked(monster));
    level.add_blocker(monster);
    assert_eq!(level.occupancy().blockers_at(monster), 1);
    level.add_blocker(pos(0, 0));
    assert_eq!(level.occupancy().blockers_at(pos(0, 0)), 2);
    level.remove_blocker(monster);
    assert!(!level.occupancy().is_blocked(monster));
    assert_eq!(level.map().tile(monster), TileType::Floor);
}
