use crate::components::Position;
use crate::map_builder::gamemap::GameMap;
use crate::map_builder::map::{in_interior, GridMap, GridView};
use crate::systems::occupancy::{Occupancy, OccupancyView};
use vstd::prelude::*;

verus! {

/// One axis-aligned unit step. `Up` lowers the row and `Down` raises it.
#[derive(Clone, Copy, Debug, PartialEq, Eq, Structural, Hash)]
pub enum Direction {
    Up,
    Down,
    Left,
    Right,
}

/// A move was refused because its target cell holds a blocking occupant.
#[derive(Clone, Copy, Debug, PartialEq, Eq, Structural)]
pub struct Blocked;

/// Column and row offsets of one step in direction `d`.
pub open spec fn step(d: Direction) -> (int, int) {
    match d {
        Direction::Up => (0, -1),
        Direction::Down => (0, 1),
        Direction::Left => (-1, 0),
        Direction::Right => (1, 0),
    }
}

pub open spec fn clamp(v: int, lo: int, hi: int) -> int {
    if v < lo {
        lo
    } else if v > hi {
        hi
    } else {
        v
    }
}

/// The cell one step from `p` in direction `d`, clamped to the map's
/// interior so that it never lands on the outer band.
pub open spec fn candidate(map: GridView, p: Position, d: Direction) -> Position {
    Position {
        x: clamp(p.x + step(d).0, 1, map.width - 2) as i32,
        y: clamp(p.y + step(d).1, 1, map.height - 2) as i32,
    }
}

/// The outcome of asking to move from `p` in direction `d`: refused when the
/// candidate cell holds a blocking occupant, else the candidate cell.
pub open spec fn move_result(
    map: GridView,
    occupancy: OccupancyView,
    p: Position,
    d: Direction,
) -> Result<Position, Blocked> {
    let c = candidate(map, p, d);
    if occupancy.blocked(c.x as int, c.y as int) {
        Err(Blocked)
    } else {
        Ok(c)
    }
}

/// Where an actor at `p` stands after asking to move in direction `d`.
pub open spec fn position_after(
    map: GridView,
    occupancy: OccupancyView,
    p: Position,
    d: Direction,
) -> Position {
    match move_result(map, occupancy, p, d) {
        Ok(c) => c,
        Err(_) => p,
    }
}

/// Where an actor at `p` stands after `n` presses of direction `d`.
pub open spec fn after_presses(
    map: GridView,
    occupancy: OccupancyView,
    p: Position,
    d: Direction,
    n: nat,
) -> Position
    decreases n,
{
    if n == 0 {
        p
    } else {
        after_presses(map, occupancy, position_after(map, occupancy, p, d), d, (n - 1) as nat)
    }
}

/// Number of steps from `p` to the edge of the map's interior in direction `d`.
pub open spec fn distance_to_edge(map: GridView, p: Position, d: Direction) -> int {
    match d {
        Direction::Up => p.y - 1,
        Direction::Down => map.height - 2 - p.y,
        Direction::Left => p.x - 1,
        Direction::Right => map.width - 2 - p.x,
    }
}

/// The cell `k` steps from `p` in direction `d`.
pub open spec fn shifted(p: Position, d: Direction, k: int) -> Position {
    match d {
        Direction::Up => Position { x: p.x, y: (p.y - k) as i32 },
        Direction::Down => Position { x: p.x, y: (p.y + k) as i32 },
        Direction::Left => Position { x: (p.x - k) as i32, y: p.y },
        Direction::Right => Position { x: (p.x + k) as i32, y: p.y },
    }
}

/// Once an actor stands on the edge of the interior in direction `d`, pressing
/// `d` any number of times leaves it where it is, whatever blocks around it.
pub proof fn lemma_presses_at_edge_stay(
    map: GridView,
    occupancy: OccupancyView,
    p: Position,
    d: Direction,
    n: nat,
)
    requires
        map.wf(),
        in_interior(map.width, map.height, p.x as int, p.y as int),
        distance_to_edge(map, p, d) == 0,
    ensures
        after_presses(map, occupancy, p, d, n) == p,
    decreases n,
{
    assert(candidate(map, p, d) == p);
    if n > 0 {
        lemma_presses_at_edge_stay(map, occupancy, p, d, (n - 1) as nat);
    }
}

/// Pressing `d` repeatedly from an interior cell, with no blocking occupant
/// between it and the edge of the interior, reaches that edge after as many
/// presses as it is steps away, and stays there on any further press.
pub proof fn lemma_presses_reach_edge(
    map: GridView,
    occupancy: OccupancyView,
    p: Position,
    d: Direction,
    n: nat,
)
    requires
        map.wf(),
        occupancy.wf(),
        occupancy.width == map.width,
        occupancy.height == map.height,
        in_interior(map.width, map.height, p.x as int, p.y as int),
        n >= distance_to_edge(map, p, d),
        forall|k: int|
            1 <= k <= distance_to_edge(map, p, d) ==> !occupancy.blocked(
                #[trigger] shifted(p, d, k).x as int,
                shifted(p, d, k).y as int,
            ),
    ensures
        after_presses(map, occupancy, p, d, n) == shifted(p, d, distance_to_edge(map, p, d)),
    decreases n,
{
    let dist = distance_to_edge(map, p, d);
    if dist == 0 {
        assert(shifted(p, d, 0) == p);
        lemma_presses_at_edge_stay(map, occupancy, p, d, n);
    } else {
        let q = shifted(p, d, 1);
        assert(candidate(map, p, d) == q);
        assert(!occupancy.blocked(shifted(p, d, 1).x as int, shifted(p, d, 1).y as int));
        assert(position_after(map, occupancy, p, d) == q);
        assert(distance_to_edge(map, q, d) == dist - 1);
        assert forall|k: int| 1 <= k <= dist - 1 implies !occupancy.blocked(
            #[trigger] shifted(q, d, k).x as int,
            shifted(q, d, k).y as int,
        ) by {
            assert(shifted(q, d, k) == shifted(p, d, k + 1));
            assert(!occupancy.blocked(
                shifted(p, d, k + 1).x as int,
                shifted(p, d, k + 1).y as int,
            ));
        }
        lemma_presses_reach_edge(map, occupancy, q, d, (n - 1) as nat);
        assert(shifted(q, d, dist - 1) == shifted(p, d, dist));
    }
}

/// Resolves one move request of an actor at `position`: the unit step in
/// `direction`, clamped to the interior, is taken unless a blocking occupant
/// stands on the cell it reaches. Nothing slides or turns aside.
pub fn try_move(
    position: Position,
    direction: Direction,
    map: &GridMap,
    occupancy: &Occupancy,
) -> (r: Result<Position, Blocked>)
    requires
        map@.wf(),
        occupancy@.wf(),
        occupancy@.width == map@.width,
        occupancy@.height == map@.height,
    ensures
        r == move_result(map@, occupancy@, position, direction),
        ({
            let c = candidate(map@, position, direction);
            &&& occupancy@.blocked(c.x as int, c.y as int) ==> r == Err::<Position, Blocked>(Blocked)
            &&& !occupancy@.blocked(c.x as int, c.y as int) ==> r == Ok::<Position, Blocked>(c)
        }),
{
    let (dx, dy): (i64, i64) = match direction {
        Direction::Up => (0, -1),
        Direction::Down => (0, 1),
        Direction::Left => (-1, 0),
        Direction::Right => (1, 0),
    };
    let max_x: i64 = map.width() as i64 - 2;
    let max_y: i64 = map.height() as i64 - 2;
    let mut x: i64 = position.x as i64 + dx;
    let mut y: i64 = position.y as i64 + dy;
    if x < 1 {
        x = 1;
    } else if x > max_x {
        x = max_x;
    }
    if y < 1 {
        y = 1;
    } else if y > max_y {
        y = max_y;
    }
    let target = Position { x: x as i32, y: y as i32 };
    if occupancy.is_blocked(target) {
        Err(Blocked)
    } else {
        Ok(target)
    }
}

/// Applies the direction key newly pressed this tick, if any, to the player's
/// position. The position is written once, with either its old value or the
/// move's target, so no reader sees any third value.
pub fn player_input(player: &mut Position, key: Option<Direction>, level: &GameMap)
    requires
        level@.wf(),
    ensures
        key matches None ==> *final(player) == *old(player),
        key matches Some(d) ==> *final(player) == position_after(
            level@.map,
            level@.occupancy,
            *old(player),
            d,
        ),
        key matches Some(d) ==> {
            let c = candidate(level@.map, *old(player), d);
            &&& level@.occupancy.blocked(c.x as int, c.y as int) ==> *final(player) == *old(player)
            &&& !level@.occupancy.blocked(c.x as int, c.y as int) ==> *final(player) == c
            &&& *final(player) == *old(player) || *final(player) == c
        },
{
    if let Some(direction) = key {
        if let Ok(target) = try_move(*player, direction, level.map(), level.occupancy()) {
            *player = target;
        }
    }
}

} // verus!
