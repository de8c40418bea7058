use crate::components::Position;
use crate::map_builder::map::{cell_index, index_in, GridMap, TileType};
use vstd::prelude::*;

verus! {

/// Abstract value of an occupancy index: the map's dimensions and, for each
/// cell in storage order, how many blocking occupants stand there.
pub struct OccupancyView {
    pub width: int,
    pub height: int,
    pub blockers: Seq<u32>,
}

impl OccupancyView {
    pub open spec fn wf(self) -> bool {
        &&& 0 <= self.width
        &&& 0 <= self.height
        &&& self.width * self.height <= usize::MAX
        &&& self.blockers.len() == self.width * self.height
    }

    pub open spec fn in_bounds(self, x: int, y: int) -> bool {
        0 <= x < self.width && 0 <= y < self.height
    }

    /// How many blocking occupants stand at `(x, y)`.
    pub open spec fn count(self, x: int, y: int) -> u32 {
        self.blockers[cell_index(self.width, x, y)]
    }

    /// Whether some blocking occupant stands at `(x, y)`.
    pub open spec fn blocked(self, x: int, y: int) -> bool {
        self.count(x, y) > 0
    }
}

/// For each cell of a map, the number of blocking occupants that stand there,
/// looked up by exact cell in constant time.
pub struct Occupancy {
    width: usize,
    height: usize,
    blockers: Vec<u32>,
}

impl View for Occupancy {
    type V = OccupancyView;

    closed spec fn view(&self) -> OccupancyView {
        OccupancyView {
            width: self.width as int,
            height: self.height as int,
            blockers: self.blockers@,
        }
    }
}

impl Occupancy {
    /// The index of a freshly built level: each wall of `map` is one blocking
    /// occupant at its cell, and no other cell holds one.
    pub fn from_map(map: &GridMap) -> (r: Occupancy)
        requires
            map@.wf(),
        ensures
            r@.wf(),
            r@.width == map@.width,
            r@.height == map@.height,
            forall|i: int|
                0 <= i < r@.blockers.len() ==> #[trigger] r@.blockers[i] == if map@.tiles[i]
                    == TileType::Wall {
                    1u32
                } else {
                    0u32
                },
    {
        let tiles = map.tiles();
        let mut blockers: Vec<u32> = Vec::new();
        let mut i: usize = 0;
        while i < tiles.len()
            invariant
                i <= tiles@.len(),
                tiles@ == map@.tiles,
                blockers@.len() == i,
                forall|j: int|
                    0 <= j < i ==> #[trigger] blockers@[j] == if tiles@[j] == TileType::Wall {
                        1u32
                    } else {
                        0u32
                    },
            decreases tiles@.len() - i,
        {
            let n: u32 = if tiles[i] == TileType::Wall {
                1
            } else {
                0
            };
            blockers.push(n);
            i += 1;
        }
        Occupancy { width: map.width(), height: map.height(), blockers }
    }

    pub fn width(&self) -> (r: usize)
        ensures
            r == self@.width,
    {
        self.width
    }

    pub fn height(&self) -> (r: usize)
        ensures
            r == self@.height,
    {
        self.height
    }

    /// How many blocking occupants stand at `pos`.
    pub fn blockers_at(&self, pos: Position) -> (r: u32)
        requires
            self@.wf(),
            self@.in_bounds(pos.x as int, pos.y as int),
        ensures
            r == self@.count(pos.x as int, pos.y as int),
    {
        self.blockers[index_in(self.width, self.height, pos)]
    }

    /// Whether some blocking occupant stands at `pos`.
    pub fn is_blocked(&self, pos: Position) -> (r: bool)
        requires
            self@.wf(),
            self@.in_bounds(pos.x as int, pos.y as int),
        ensures
            r == self@.blocked(pos.x as int, pos.y as int),
    {
        self.blockers_at(pos) > 0
    }

    /// Records one more blocking occupant at `pos`.
    pub fn add_blocker(&mut self, pos: Position)
        requires
            old(self)@.wf(),
            old(self)@.in_bounds(pos.x as int, pos.y as int),
            old(self)@.count(pos.x as int, pos.y as int) < u32::MAX,
        ensures
            final(self)@ == (OccupancyView {
                blockers: old(self)@.blockers.update(
                    cell_index(old(self)@.width, pos.x as int, pos.y as int),
                    (old(self)@.count(pos.x as int, pos.y as int) + 1) as u32,
                ),
                ..old(self)@
            }),
    {
        let i: usize = index_in(self.width, self.height, pos);
        let n: u32 = self.blockers[i];
        self.blockers.set(i, n + 1);
    }

    /// Records that one blocking occupant has left `pos`.
    pub fn remove_blocker(&mut self, pos: Position)
        requires
            old(self)@.wf(),
            old(self)@.in_bounds(pos.x as int, pos.y as int),
            old(self)@.blocked(pos.x as int, pos.y as int),
        ensures
            final(self)@ == (OccupancyView {
                blockers: old(self)@.blockers.update(
                    cell_index(old(self)@.width, pos.x as int, pos.y as int),
                    (old(self)@.count(pos.x as int, pos.y as int) - 1) as u32,
                ),
                ..old(self)@
            }),
    {
        let i: usize = index_in(self.width, self.height, pos);
        let n: u32 = self.blockers[i];
        self.blockers.set(i, n - 1);
    }
}

} // verus!
