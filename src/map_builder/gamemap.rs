use crate::components::Position;
use crate::map_builder::map::{
    cell_index, in_interior, lemma_cell_of_index, layout, walls_in, GridMap, GridView, TileType, MAP_HEIGHT, MAP_WIDTH,
};
use crate::systems::occupancy::OccupancyView;
use crate::systems::occupancy::Occupancy;
use vstd::prelude::*;

verus! {

/// Number of walls that `new_map` scatters inside the border.
pub const NEW_MAP_WALLS: usize = 50;

/// Abstract value of a level: its map and the blocking occupants on it.
pub struct LevelView {
    pub map: GridView,
    pub occupancy: OccupancyView,
}

impl LevelView {
    pub open spec fn wf(self) -> bool {
        &&& self.map.wf()
        &&& self.occupancy.wf()
        &&& self.occupancy.width == self.map.width
        &&& self.occupancy.height == self.map.height
    }
}

/// The context of one level: it owns the map, which stays fixed for the
/// level's lifetime, and the index of blocking occupants on it.
pub struct GameMap {
    map: GridMap,
    occupancy: Occupancy,
}

impl View for GameMap {
    type V = LevelView;

    closed spec fn view(&self) -> LevelView {
        LevelView { map: self.map@, occupancy: self.occupancy@ }
    }
}

impl GameMap {
    /// Starts a level on `map`: every wall is one blocking occupant at its cell.
    pub fn new(map: GridMap) -> (r: GameMap)
        requires
            map@.wf(),
        ensures
            r@.wf(),
            r@.map == map@,
            forall|i: int|
                0 <= i < r@.occupancy.blockers.len() ==> #[trigger] r@.occupancy.blockers[i]
                    == if map@.tiles[i] == TileType::Wall {
                    1u32
                } else {
                    0u32
                },
    {
        let occupancy = Occupancy::from_map(&map);
        GameMap { map, occupancy }
    }

    /// Read-only access to the level's map.
    pub fn map(&self) -> (r: &GridMap)
        ensures
            r@ == self@.map,
    {
        &self.map
    }

    /// Records a blocking occupant, such as a monster, arriving at `pos`.
    pub fn add_blocker(&mut self, pos: Position)
        requires
            old(self)@.wf(),
            old(self)@.occupancy.in_bounds(pos.x as int, pos.y as int),
            old(self)@.occupancy.count(pos.x as int, pos.y as int) < u32::MAX,
        ensures
            final(self)@.wf(),
            final(self)@.map == old(self)@.map,
            final(self)@.occupancy == (OccupancyView {
                blockers: old(self)@.occupancy.blockers.update(
                    cell_index(old(self)@.map.width, pos.x as int, pos.y as int),
                    (old(self)@.occupancy.count(pos.x as int, pos.y as int) + 1) as u32,
                ),
                ..old(self)@.occupancy
            }),
    {
        proof {
            lemma_cell_of_index(self@.map.width, self@.map.height, pos.x as int, pos.y as int);
        }
        self.occupancy.add_blocker(pos);
    }

    /// Records a blocking occupant leaving `pos`.
    pub fn remove_blocker(&mut self, pos: Position)
        requires
            old(self)@.wf(),
            old(self)@.occupancy.in_bounds(pos.x as int, pos.y as int),
            old(self)@.occupancy.blocked(pos.x as int, pos.y as int),
        ensures
            final(self)@.wf(),
            final(self)@.map == old(self)@.map,
            final(self)@.occupancy == (OccupancyView {
                blockers: old(self)@.occupancy.blockers.update(
                    cell_index(old(self)@.map.width, pos.x as int, pos.y as int),
                    (old(self)@.occupancy.count(pos.x as int, pos.y as int) - 1) as u32,
                ),
                ..old(self)@.occupancy
            }),
    {
        proof {
            lemma_cell_of_index(self@.map.width, self@.map.height, pos.x as int, pos.y as int);
        }
        self.occupancy.remove_blocker(pos);
    }

    /// Read-only access to the level's blocking occupants.
    pub fn occupancy(&self) -> (r: &Occupancy)
        ensures
            r@ == self@.occupancy,
    {
        &self.occupancy
    }
}

/// A standard-sized map with `NEW_MAP_WALLS` walls scattered inside its border.
pub fn new_map() -> (r: GridMap)
    ensures
        r@.wf(),
        r@.width == MAP_WIDTH,
        r@.height == MAP_HEIGHT,
        forall|x: int, y: int|
            r@.in_bounds(x, y) && crate::map_builder::map::on_perimeter(
                MAP_WIDTH as int,
                MAP_HEIGHT as int,
                x,
                y,
            ) ==> #[trigger] r@.tile(x, y) == TileType::Wall,
        2 * MAP_WIDTH + 2 * MAP_HEIGHT - 4 <= walls_in(r@.tiles),
        walls_in(r@.tiles) <= 2 * MAP_WIDTH + 2 * MAP_HEIGHT - 4 + NEW_MAP_WALLS,
        exists|walls: Seq<Position>|
            {
                &&& walls.len() == NEW_MAP_WALLS
                &&& forall|k: int|
                    0 <= k < walls.len() ==> in_interior(
                        MAP_WIDTH as int,
                        MAP_HEIGHT as int,
                        #[trigger] walls[k].x as int,
                        walls[k].y as int,
                    )
                &&& r@.tiles == layout(MAP_WIDTH as int, MAP_HEIGHT as int, walls)
            },
{
    GridMap::generate(MAP_WIDTH, MAP_HEIGHT, NEW_MAP_WALLS)
}

} // verus!
