use bevy_rogue::components::Position;
use bevy_rogue::map_builder::gamemap::GameMap;
use bevy_rogue::map_builder::map::{GridMap, TileType};
use bevy_rogue::systems::occupancy::Occupancy;
use bevy_rogue::systems::player_input::{player_input, try_move, Blocked, Direction};

fn pos(x: i32, y: i32) -> Position {
    Position { x, y }
}

fn open_level(w: usize, h: usize) -> GameMap {
    GameMap::new(GridMap::with_walls(w, h, &vec![]))
}

/// Fifty interior walls on a 40 by 30 map, one of them at (4, 2) and none at (3, 2).
fn scenario_walls() -> Vec<Position> {
    let mut cells = vec![pos(4, 2)];
    let mut k = 0;
    while cells.len() < 50 {
        cells.push(pos(10 + k % 25, 10 + k / 25));
        k += 1;
    }
    cells
}

#[test]
fn move_right_then_blocked_by_wall() {
    let map = GridMap::with_walls(40, 30, &scenario_walls());
    assert_eq!(map.tile(pos(3, 2)), TileType::Floor);
    assert_eq!(map.tile(pos(4, 2)), TileType::Wall);
    let level = GameMap::new(map);
    let mut player = pos(2, 2);
    assert_eq!(try_move(player, Direction::Right, level.map(), level.occupancy()), Ok(pos(3, 2)));
    player_input(&mut player, Some(Direction::Right), &level);
    assert_eq!(player, pos(3, 2));
    assert_eq!(try_move(player, Direction::Right, level.map(), level.occupancy()), Err(Blocked));
    player_input(&mut player, Some(Direction::Right), &level);
    assert_eq!(player, pos(3, 2));
}

#[test]
fn corner_presses_against_border_stay() {
    let level = GameMap::new(GridMap::with_walls(40, 30, &scenario_walls()));
    let mut player = pos(1, 1);
    player_input(&mut player, Some(Direction::Up), &level);
    assert_eq!(player, pos(1, 1));
    player_input(&mut player, Some(Direction::Left), &level);
    assert_eq!(player, pos(1, 1));
}

#[test]
fn no_key_leaves_player() {
    let level = open_level(6, 6);
    let mut player = pos(2, 3);
    player_input(&mut player, None, &level);
    assert_eq!(player, pos(2, 3));
}

#[test]
fn each_direction_is_one_step() {
    let level = open_level(7, 7);
    let m = level.map();
    let o = level.occupancy();
    assert_eq!(try_move(pos(3, 3), Direction::Up, m, o), Ok(pos(3, 2)));
    assert_eq!(try_move(pos(3, 3), Direction::Down, m, o), Ok(pos(3, 4)));
    assert_eq!(try_move(pos(3, 3), Direction::Left, m, o), Ok(pos(2, 3)));
    assert_eq!(try_move(pos(3, 3), Direction::Right, m, o), Ok(pos(4, 3)));
}

#[test]
fn presses_toward_edge_converge_and_stay() {
    let level = open_level(10, 8);
    let mut player = pos(2, 3);
    let mut trail = vec![];
    for _ in 0..10 {
        player_input(&mut player, Some(Direction::Right), &level);
        trail.push(player.x);
    }
    assert_eq!(trail, vec![3, 4, 5, 6, 7, 8, 8, 8, 8, 8]);
    assert_eq!(player, pos(8, 3));
    for _ in 0..5 {
        player_input(&mut player, Some(Direction::Down), &level);
    }
    assert_eq!(player, pos(8, 6));
    for _ in 0..9 {
        player_input(&mut player, Some(Direction::Left), &level);
    }
    assert_eq!(player, pos(1, 6));
    for _ in 0..9 {
        player_input(&mut player, Some(Direction::Up), &level);
    }
    assert_eq!(player, pos(1, 1));
}

#[test]
fn blocked_move_leaves_position() {
    let map = GridMap::with_walls(6, 6, &vec![pos(3, 2)]);
    let level = GameMap::new(map);
    let mut player = pos(2, 2);
    assert_eq!(try_move(player, Direction::Right, level.map(), level.occupancy()), Err(Blocked));
    player_input(&mut player, Some(Direction::Right), &level);
    assert_eq!(player, pos(2, 2));
}

#[test]
fn clamped_target_is_checked_for_blocking() {
    // From a border cell the step is clamped back inside before the lookup.
    let map = GridMap::with_walls(6, 6, &vec![pos(1, 2)]);
    let level = GameMap::new(map);
    assert_eq!(try_move(pos(0, 2), Direction::Left, level.map(), level.occupancy()), Err(Blocked));
    assert_eq!(try_move(pos(0, 3), Direction::Left, level.map(), level.occupancy()), Ok(pos(1, 3)));
    assert_eq!(try_move(pos(0, 0), Direction::Down, level.map(), level.occupancy()), Ok(pos(1, 1)));
}

#[test]
fn unblocked_move_goes_to_clamped_target() {
    let level = open_level(5, 5);
    let m = level.map();
    let o = level.occupancy();
    assert_eq!(try_move(pos(3, 3), Direction::Right, m, o), Ok(pos(3, 3)));
    assert_eq!(try_move(pos(3, 3), Direction::Down, m, o), Ok(pos(3, 3)));
    assert_eq!(try_move(pos(2, 1), Direction::Up, m, o), Ok(pos(2, 1)));
    assert_eq!(try_move(pos(1, 2), Direction::Right, m, o), Ok(pos(2, 2)));
}

#[test]
fn player_position_is_before_or_target() {
    let map = GridMap::with_walls(8, 8, &vec![pos(4, 4), pos(5, 3)]);
    let level = GameMap::new(map);
    for start in [pos(3, 4), pos(4, 3), pos(5, 4), pos(1, 1), pos(6, 6)] {
        for d in [Direction::Up, Direction::Down, Direction::Left, Direction::Right] {
            let mut player = start;
            let result = try_move(start, d, level.map(), level.occupancy());
            player_input(&mut player, Some(d), &level);
            match result {
                Ok(target) => assert_eq!(player, target),
                Err(Blocked) => assert_eq!(player, start),
            }
        }
    }
}

#[test]
fn occupants_added_and_removed_change_blocking() {
    let map = GridMap::with_walls(6, 6, &vec![]);
    let mut occupancy = Occupancy::from_map(&map);
    let monster = pos(3, 2);
    assert!(!occupancy.is_blocked(monster));
    occupancy.add_blocker(monster);
    occupancy.add_blocker(monster);
    assert_eq!(occupancy.blockers_at(monster), 2);
    assert_eq!(try_move(pos(2, 2), Direction::Right, &map, &occupancy), Err(Blocked));
    occupancy.remove_blocker(monster);
    assert!(occupancy.is_blocked(monster));
    occupancy.remove_blocker(monster);
    assert!(!occupancy.is_blocked(monster));
    assert_eq!(try_move(pos(2, 2), Direction::Right, &map, &occupancy), Ok(monster));
    assert_eq!(occupancy.blockers_at(pos(0, 0)), 1);
}

#[test]
fn left_presses_stop_at_first_interior_column() {
    let map = GridMap::with_walls(40, 30, &vec![pos(20, 5)]);
    let level = GameMap::new(map);
    let mut player = pos(3, 7);
    for _ in 0..2 {
        player_input(&mut player, Some(Direction::Left), &level);
    }
    assert_eq!(player, pos(1, 7));
    for _ in 0..5 {
        player_input(&mut player, Some(Direction::Left), &level);
        assert_eq!(player, pos(1, 7));
    }
    let mut far = pos(38, 12);
    for _ in 0..37 {
        player_input(&mut far, Some(Direction::Left), &level);
    }
    assert_eq!(far, pos(1, 12));
}
