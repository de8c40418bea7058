use crate::components::Position;
use crate::map_builder::counting::{
    count_where, lemma_count_all, lemma_count_at_most_one, lemma_count_mono, lemma_count_none,
    lemma_count_split, lemma_count_union,
};
use crate::resources::{SCREEN_HEIGHT, SCREEN_WIDTH, SHEET_COLUMNS, SPRITE_BUFFER, SPRITE_SIZE};
use rand::Rng;
use vstd::arithmetic::div_mod::{lemma_fundamental_div_mod, lemma_fundamental_div_mod_converse};
use vstd::prelude::*;

verus! {

/// What a cell of the map holds.
#[derive(PartialEq, Eq, Structural, Clone, Copy, Debug)]
pub enum TileType {
    Wall,
    Floor,
}

/// Columns of the standard map: one per tile across the screen.
pub const MAP_WIDTH: usize = 40;

/// Rows of the standard map: one per tile down the screen.
pub const MAP_HEIGHT: usize = 30;

/// Storage index of cell `(x, y)` in a standard map, row by row.
pub fn map_idx(x: i32, y: i32) -> (r: usize)
    requires
        0 <= x < MAP_WIDTH,
        0 <= y < MAP_HEIGHT,
    ensures
        r == y * MAP_WIDTH + x,
{
    (y as usize) * MAP_WIDTH + x as usize
}

/// Index of the sprite in column `x` and row `y` of the sprite sheet.
pub fn sprite_idx(x: i32, y: i32) -> (r: usize)
    requires
        0 <= x,
        0 <= y,
        y * SHEET_COLUMNS + x <= usize::MAX,
    ensures
        r == y * SHEET_COLUMNS + x,
{
    (y as usize) * SHEET_COLUMNS + x as usize
}

/// Number of walls that the standard map scatters inside its border.
pub const MAP_WALLS: usize = 200;

/// Storage index of cell `(x, y)` in a map `width` cells wide, row by row.
pub open spec fn cell_index(width: int, x: int, y: int) -> int {
    y * width + x
}

/// Whether `(x, y)` lies on the outer band of a `width` by `height` map.
pub open spec fn on_perimeter(width: int, height: int, x: int, y: int) -> bool {
    x == 0 || x == width - 1 || y == 0 || y == height - 1
}

/// Whether `(x, y)` lies strictly inside the outer band of the map.
pub open spec fn in_interior(width: int, height: int, x: int, y: int) -> bool {
    1 <= x <= width - 2 && 1 <= y <= height - 2
}

/// Whether `cells` names the cell `(x, y)`.
pub open spec fn lists_cell(cells: Seq<Position>, x: int, y: int) -> bool {
    exists|k: int| 0 <= k < cells.len() && cells[k].x == x && cells[k].y == y
}

/// The tiles of a `width` by `height` map, row by row, whose border is wall,
/// whose cells named in `walls` are wall, and whose other cells are floor.
pub open spec fn layout(width: int, height: int, walls: Seq<Position>) -> Seq<TileType> {
    Seq::new(
        (width * height) as nat,
        |i: int|
            if on_perimeter(width, height, i % width, i / width) || lists_cell(
                walls,
                i % width,
                i / width,
            ) {
                TileType::Wall
            } else {
                TileType::Floor
            },
    )
}

/// The number of walls among `tiles`.
pub open spec fn walls_in(tiles: Seq<TileType>) -> nat {
    count_where(tiles.len() as int, |i: int| tiles[i] == TileType::Wall)
}

/// The number of cells on the outer band of a `width` by `height` map.
pub open spec fn perimeter_count(width: int, height: int) -> nat {
    count_where(width * height, |i: int| on_perimeter(width, height, i % width, i / width))
}

/// Abstract value of a map: its dimensions and its tiles, row by row.
pub struct GridView {
    pub width: int,
    pub height: int,
    pub tiles: Seq<TileType>,
}

impl GridView {
    /// Dimensions that enclose at least one interior cell, with a tile for every cell.
    pub open spec fn wf(self) -> bool {
        &&& 3 <= self.width <= i32::MAX
        &&& 3 <= self.height <= i32::MAX
        &&& self.width * self.height <= usize::MAX
        &&& self.tiles.len() == self.width * self.height
    }

    pub open spec fn in_bounds(self, x: int, y: int) -> bool {
        0 <= x < self.width && 0 <= y < self.height
    }

    pub open spec fn tile(self, x: int, y: int) -> TileType {
        self.tiles[cell_index(self.width, x, y)]
    }
}

/// A rectangular grid of tiles, fixed once built.
pub struct GridMap {
    tiles: Vec<TileType>,
    width: usize,
    height: usize,
}

impl View for GridMap {
    type V = GridView;

    closed spec fn view(&self) -> GridView {
        GridView { width: self.width as int, height: self.height as int, tiles: self.tiles@ }
    }
}

/// Relies on rand's `thread_rng().gen_range(lo..hi)`: a value drawn from `lo..hi`.
/// It panics on an empty range, which `requires` leaves out.
#[verifier::external_body]
fn gen_range(lo: i32, hi: i32) -> (r: i32)
    requires
        lo < hi,
    ensures
        lo <= r < hi,
{
    rand::thread_rng().gen_range(lo..hi)
}

pub(crate) proof fn lemma_cell_of_index(width: int, height: int, x: int, y: int)
    requires
        0 <= x < width,
        0 <= y < height,
    ensures
        0 <= cell_index(width, x, y) < width * height,
        cell_index(width, x, y) % width == x,
        cell_index(width, x, y) / width == y,
{
    assert(0 <= y * width <= (height - 1) * width) by (nonlinear_arith)
        requires
            0 <= y < height,
            0 < width,
    ;
    assert((height - 1) * width + width == width * height) by (nonlinear_arith);
    lemma_fundamental_div_mod_converse(cell_index(width, x, y), width, y, x);
}

pub(crate) proof fn lemma_index_of_cell(width: int, i: int, x: int, y: int)
    requires
        0 < width,
        i % width == x,
        i / width == y,
    ensures
        i == cell_index(width, x, y),
{
    lemma_fundamental_div_mod(i, width);
    assert(width * y == y * width) by (nonlinear_arith);
}

proof fn lemma_lists_cell_take(cells: Seq<Position>, k: int, x: int, y: int)
    requires
        0 <= k < cells.len(),
    ensures
        lists_cell(cells.take(k + 1), x, y) == (lists_cell(cells.take(k), x, y) || (cells[k].x
            == x && cells[k].y == y)),
{
    let next = cells.take(k + 1);
    let prev = cells.take(k);
    if lists_cell(next, x, y) {
        let j = choose|j: int| 0 <= j < next.len() && next[j].x == x && next[j].y == y;
        if j < k {
            assert(prev[j] == next[j]);
        }
    }
    if lists_cell(prev, x, y) {
        let j = choose|j: int| 0 <= j < prev.len() && prev[j].x == x && prev[j].y == y;
        assert(next[j] == prev[j]);
    }
    if cells[k].x == x && cells[k].y == y {
        assert(next[k] == cells[k]);
    }
}

/// The cells of a `width`-wide map named in `walls` number at most `walls.len()`.
proof fn lemma_listed_count(width: int, n: int, walls: Seq<Position>)
    requires
        0 < width,
    ensures
        count_where(n, |i: int| lists_cell(walls, i % width, i / width)) <= walls.len(),
    decreases walls.len(),
{
    let listed = |i: int| lists_cell(walls, i % width, i / width);
    if walls.len() == 0 {
        lemma_count_none(n, listed);
    } else {
        let rest = walls.drop_last();
        let c = walls.last();
        let earlier = |i: int| lists_cell(rest, i % width, i / width);
        let at_last = |i: int| i % width == c.x && i / width == c.y;
        lemma_listed_count(width, n, rest);
        assert forall|i: int| 0 <= i < n && #[trigger] listed(i) implies earlier(i) || at_last(i) by {
            let k = choose|k: int|
                0 <= k < walls.len() && walls[k].x == i % width && walls[k].y == i / width;
            if k < walls.len() - 1 {
                assert(rest[k] == walls[k]);
            }
        }
        lemma_count_union(n, earlier, at_last, listed);
        assert forall|i: int, j: int|
            0 <= i < n && 0 <= j < n && #[trigger] at_last(i) && #[trigger] at_last(j) implies i
            == j by {
            lemma_index_of_cell(width, i, c.x as int, c.y as int);
            lemma_index_of_cell(width, j, c.x as int, c.y as int);
        }
        lemma_count_at_most_one(n, at_last);
    }
}

/// Row `r` of a `width` by `height` map holds `width` border cells if it is
/// the first or last row, and two otherwise.
proof fn lemma_row_border_count(width: int, height: int, r: int, row: spec_fn(int) -> bool)
    requires
        3 <= width,
        3 <= height,
        0 <= r < height,
        forall|x: int| 0 <= x < width ==> #[trigger] row(x) == on_perimeter(width, height, x, r),
    ensures
        count_where(width, row) == if r == 0 || r == height - 1 {
            width
        } else {
            2
        },
{
    if r == 0 || r == height - 1 {
        lemma_count_all(width, row);
    } else {
        let inner = |i: int| row(1 + i);
        let last = |i: int| inner(width - 2 + i);
        lemma_count_split(1, width - 1, row);
        assert(row(0));
        assert(count_where(0, row) == 0);
        assert(count_where(1, row) == 1);
        lemma_count_split(width - 2, 1, inner);
        assert forall|i: int| 0 <= i < width - 2 implies !#[trigger] inner(i) by {
            assert(row(1 + i) == on_perimeter(width, height, 1 + i, r));
        }
        lemma_count_none(width - 2, inner);
        assert(last(0) == row(width - 1));
        assert(count_where(0, last) == 0);
        assert(count_where(1, last) == 1);
    }
}

/// The first `k` rows of a `width` by `height` map hold this many border cells.
proof fn lemma_border_rows(width: int, height: int, k: int)
    requires
        3 <= width,
        3 <= height,
        0 <= k <= height,
    ensures
        count_where(k * width, |i: int| on_perimeter(width, height, i % width, i / width))
            == if k == 0 {
            0
        } else if k < height {
            width + 2 * (k - 1)
        } else {
            2 * width + 2 * height - 4
        },
    decreases k,
{
    let border = |i: int| on_perimeter(width, height, i % width, i / width);
    if k > 0 {
        let j = k - 1;
        lemma_border_rows(width, height, j);
        assert(k * width == j * width + width) by (nonlinear_arith)
            requires
                j == k - 1,
        ;
        assert(0 <= j * width) by (nonlinear_arith)
            requires
                0 <= j,
                0 <= width,
        ;
        lemma_count_split(j * width, width, border);
        let row = |x: int| border(j * width + x);
        assert forall|x: int| 0 <= x < width implies #[trigger] row(x) == on_perimeter(
            width,
            height,
            x,
            j,
        ) by {
            lemma_fundamental_div_mod_converse(j * width + x, width, j, x);
        }
        lemma_row_border_count(width, height, j, row);
    }
}

/// The outer band of a `width` by `height` map has `2 * width + 2 * height - 4` cells.
pub proof fn lemma_perimeter_count(width: int, height: int)
    requires
        3 <= width,
        3 <= height,
    ensures
        perimeter_count(width, height) == 2 * width + 2 * height - 4,
{
    lemma_border_rows(width, height, height);
    assert(height * width == width * height) by (nonlinear_arith);
}

/// Every cell on the outer band of a generated layout is a wall.
pub proof fn lemma_perimeter_is_wall(width: int, height: int, walls: Seq<Position>, x: int, y: int)
    requires
        3 <= width,
        3 <= height,
        0 <= x < width,
        0 <= y < height,
        on_perimeter(width, height, x, y),
    ensures
        layout(width, height, walls)[cell_index(width, x, y)] == TileType::Wall,
{
    lemma_cell_of_index(width, height, x, y);
}

/// A generated layout holds at least as many walls as its outer band has cells,
/// and at most that many plus the number of cells drawn for scattering.
pub proof fn lemma_wall_count_bounds(width: int, height: int, walls: Seq<Position>)
    requires
        3 <= width,
        3 <= height,
    ensures
        perimeter_count(width, height) == 2 * width + 2 * height - 4,
        perimeter_count(width, height) <= walls_in(layout(width, height, walls)),
        walls_in(layout(width, height, walls)) <= perimeter_count(width, height) + walls.len(),
{
    let tiles = layout(width, height, walls);
    let n = width * height;
    assert(n == tiles.len()) by (nonlinear_arith)
        requires
            3 <= width,
            3 <= height,
            n == width * height,
            tiles.len() == (width * height) as nat,
    ;
    let is_wall = |i: int| tiles[i] == TileType::Wall;
    let border = |i: int| on_perimeter(width, height, i % width, i / width);
    let listed = |i: int| lists_cell(walls, i % width, i / width);
    lemma_count_mono(n, border, is_wall);
    lemma_count_union(n, border, listed, is_wall);
    lemma_listed_count(width, n, walls);
    lemma_perimeter_count(width, height);
}

/// Column and row of the cell stored at index `i` of a map `width` cells wide.
pub open spec fn cell_at(width: int, i: int) -> Position {
    Position { x: (i % width) as i32, y: (i / width) as i32 }
}

/// World coordinates of the centre of a cell: one tile per cell, with world
/// `x` growing by one tile per column and world `y` by one tile per row, the
/// map's first column and row at the screen's lower-left corner. Since `Up`
/// lowers the row, an `Up` step is drawn one tile lower on the screen.
pub open spec fn world_of(pos: Position) -> (int, int) {
    (
        pos.x * SPRITE_SIZE - SCREEN_WIDTH / 2 + SPRITE_BUFFER,
        pos.y * SPRITE_SIZE - SCREEN_HEIGHT / 2 + SPRITE_BUFFER,
    )
}

/// Sprite sheet cell `(2, 3)`: the floor.
pub const FLOOR_SPRITE: usize = 50;

/// Sprite sheet cell `(0, 1)`: the wall.
pub const WALL_SPRITE: usize = 16;

/// Sprite sheet cell `(4, 8)`: the player.
pub const PLAYER_SPRITE: usize = 132;

pub open spec fn tile_sprite(tile: TileType) -> usize {
    match tile {
        TileType::Wall => WALL_SPRITE,
        TileType::Floor => FLOOR_SPRITE,
    }
}

/// What the renderer spawns for one cell of the map.
#[derive(Clone, Copy, Debug, PartialEq, Eq, Structural)]
pub struct TileSprite {
    pub cell: Position,
    pub world_x: i64,
    pub world_y: i64,
    pub sprite: usize,
    /// Walls spawn a blocking occupant at their cell.
    pub blocking: bool,
}

/// World coordinates of the centre of cell `pos`.
pub fn cell_to_world(pos: Position) -> (r: (i64, i64))
    ensures
        r.0 == world_of(pos).0,
        r.1 == world_of(pos).1,
{
    (
        pos.x as i64 * SPRITE_SIZE - SCREEN_WIDTH / 2 + SPRITE_BUFFER,
        pos.y as i64 * SPRITE_SIZE - SCREEN_HEIGHT / 2 + SPRITE_BUFFER,
    )
}

/// Storage index of an in-bounds cell of a `width` by `height` map.
pub(crate) fn index_in(width: usize, height: usize, pos: Position) -> (r: usize)
    requires
        0 <= pos.x < width,
        0 <= pos.y < height,
        width * height <= usize::MAX,
    ensures
        r == cell_index(width as int, pos.x as int, pos.y as int),
        r < width * height,
{
    proof {
        lemma_cell_of_index(width as int, height as int, pos.x as int, pos.y as int);
    }
    (pos.y as usize) * width + pos.x as usize
}

/// What the renderer spawns for each tile of `map`, in storage order: the
/// cell, its world coordinates, the tile's sprite, and whether it blocks.
pub fn spawn_map_tiles(map: &GridMap) -> (r: Vec<TileSprite>)
    requires
        map@.wf(),
    ensures
        r@.len() == map@.tiles.len(),
        forall|i: int|
            0 <= i < r@.len() ==> {
                let cell = cell_at(map@.width, i);
                &&& (#[trigger] r@[i]).cell == cell
                &&& r@[i].world_x == world_of(cell).0
                &&& r@[i].world_y == world_of(cell).1
                &&& r@[i].sprite == tile_sprite(map@.tiles[i])
                &&& r@[i].blocking == (map@.tiles[i] == TileType::Wall)
            },
{
    let width = map.width();
    let height = map.height();
    let tiles = map.tiles();
    let mut sprites: Vec<TileSprite> = Vec::new();
    let mut i: usize = 0;
    while i < tiles.len()
        invariant
            i <= tiles@.len(),
            map@.wf(),
            width == map@.width,
            height == map@.height,
            tiles@ == map@.tiles,
            sprites@.len() == i,
            forall|j: int|
                0 <= j < i ==> {
                    let cell = cell_at(map@.width, j);
                    &&& (#[trigger] sprites@[j]).cell == cell
                    &&& sprites@[j].world_x == world_of(cell).0
                    &&& sprites@[j].world_y == world_of(cell).1
                    &&& sprites@[j].sprite == tile_sprite(map@.tiles[j])
                    &&& sprites@[j].blocking == (map@.tiles[j] == TileType::Wall)
                },
        decreases tiles@.len() - i,
    {
        let x: usize = i % width;
        let y: usize = i / width;
        proof {
            let (w, h, k) = (width as int, height as int, i as int);
            lemma_fundamental_div_mod(k, w);
            assert(y < h) by (nonlinear_arith)
                requires
                    k == w * y + x,
                    0 <= x,
                    k < w * h,
                    0 < w,
            ;
        }
        let cell = Position { x: x as i32, y: y as i32 };
        let (world_x, world_y) = cell_to_world(cell);
        let tile = tiles[i];
        let sprite = match tile {
            TileType::Wall => sprite_idx(0, 1),
            TileType::Floor => sprite_idx(2, 3),
        };
        sprites.push(TileSprite { cell, world_x, world_y, sprite, blocking: tile == TileType::Wall });
        i += 1;
    }
    sprites
}

impl GridMap {
    pub fn width(&self) -> (r: usize)
        ensures
            r == self@.width,
    {
        self.width
    }

    pub fn height(&self) -> (r: usize)
        ensures
            r == self@.height,
    {
        self.height
    }

    /// The tiles, row by row.
    pub fn tiles(&self) -> (r: &Vec<TileType>)
        ensures
            r@ == self@.tiles,
    {
        &self.tiles
    }

    /// Whether `pos` is a cell of this map.
    pub fn in_bounds(&self, pos: Position) -> (r: bool)
        ensures
            r == self@.in_bounds(pos.x as int, pos.y as int),
    {
        0 <= pos.x && (pos.x as usize) < self.width && 0 <= pos.y && (pos.y as usize) < self.height
    }

    /// The tile at cell `pos`.
    pub fn tile(&self, pos: Position) -> (r: TileType)
        requires
            self@.wf(),
            self@.in_bounds(pos.x as int, pos.y as int),
        ensures
            r == self@.tile(pos.x as int, pos.y as int),
    {
        self.tiles[index_in(self.width, self.height, pos)]
    }

    /// The cell at the middle of the map, where the player starts.
    pub fn center(&self) -> (r: Position)
        requires
            self@.wf(),
        ensures
            r.x == self@.width / 2,
            r.y == self@.height / 2,
            self@.in_bounds(r.x as int, r.y as int),
    {
        Position { x: (self.width / 2) as i32, y: (self.height / 2) as i32 }
    }

    /// Builds a `width` by `height` map whose border is wall, whose cells
    /// named in `walls` are wall, and whose other cells are floor.
    pub fn with_walls(width: usize, height: usize, walls: &Vec<Position>) -> (map: GridMap)
        requires
            3 <= width <= i32::MAX,
            3 <= height <= i32::MAX,
            width * height <= usize::MAX,
            forall|k: int|
                0 <= k < walls@.len() ==> in_interior(
                    width as int,
                    height as int,
                    #[trigger] walls@[k].x as int,
                    walls@[k].y as int,
                ),
        ensures
            map@.wf(),
            map@.width == width,
            map@.height == height,
            map@.tiles == layout(width as int, height as int, walls@),
    {
        let n: usize = width * height;
        let ghost w = width as int;
        let ghost h = height as int;
        let mut tiles: Vec<TileType> = Vec::new();
        let mut i: usize = 0;
        while i < n
            invariant
                i <= n,
                n == w * h,
                w == width,
                h == height,
                3 <= width,
                tiles@ =~= layout(w, h, Seq::empty()).take(i as int),
            decreases n - i,
        {
            let x: usize = i % width;
            let y: usize = i / width;
            let t = if x == 0 || x == width - 1 || y == 0 || y == height - 1 {
                TileType::Wall
            } else {
                TileType::Floor
            };
            tiles.push(t);
            i += 1;
        }
        assert(walls@.take(0) =~= Seq::<Position>::empty());
        let mut k: usize = 0;
        while k < walls.len()
            invariant
                0 <= k <= walls@.len(),
                n == w * h,
                w == width,
                h == height,
                3 <= width <= i32::MAX,
                3 <= height <= i32::MAX,
                forall|j: int|
                    0 <= j < walls@.len() ==> in_interior(
                        w,
                        h,
                        #[trigger] walls@[j].x as int,
                        walls@[j].y as int,
                    ),
                tiles@ =~= layout(w, h, walls@.take(k as int)),
            decreases walls@.len() - k,
        {
            let c = walls[k];
            proof {
                assert(in_interior(w, h, walls@[k as int].x as int, walls@[k as int].y as int));
                lemma_cell_of_index(w, h, c.x as int, c.y as int);
            }
            let idx: usize = (c.y as usize) * width + c.x as usize;
            tiles.set(idx, TileType::Wall);
            proof {
                let before = layout(w, h, walls@.take(k as int));
                let after = layout(w, h, walls@.take(k + 1));
                assert forall|j: int| 0 <= j < n implies #[trigger] tiles@[j] == after[j] by {
                    lemma_lists_cell_take(walls@, k as int, j % w, j / w);
                    if c.x == j % w && c.y == j / w {
                        lemma_index_of_cell(w, j, c.x as int, c.y as int);
                    }
                }
                assert(tiles@ =~= after);
            }
            k += 1;
        }
        assert(walls@.take(walls@.len() as int) =~= walls@);
        GridMap { tiles, width, height }
    }
    /// Builds a `width` by `height` map: walls along the whole border, and
    /// `wall_count` further walls at interior cells drawn uniformly at random,
    /// with replacement, so that a cell drawn twice is one wall.
    pub fn generate(width: usize, height: usize, wall_count: usize) -> (map: GridMap)
        requires
            3 <= width <= i32::MAX,
            3 <= height <= i32::MAX,
            width * height <= usize::MAX,
        ensures
            map@.wf(),
            map@.width == width,
            map@.height == height,
            exists|walls: Seq<Position>|
                {
                    &&& walls.len() == wall_count
                    &&& forall|k: int|
                        0 <= k < walls.len() ==> in_interior(
                            width as int,
                            height as int,
                            #[trigger] walls[k].x as int,
                            walls[k].y as int,
                        )
                    &&& map@.tiles == layout(width as int, height as int, walls)
                },
            forall|x: int, y: int|
                map@.in_bounds(x, y) && on_perimeter(width as int, height as int, x, y)
                    ==> #[trigger] map@.tile(x, y) == TileType::Wall,
            2 * width + 2 * height - 4 <= walls_in(map@.tiles),
            walls_in(map@.tiles) <= 2 * width + 2 * height - 4 + wall_count,
    {
        let mut walls: Vec<Position> = Vec::new();
        let mut k: usize = 0;
        while k < wall_count
            invariant
                k <= wall_count,
                walls@.len() == k,
                3 <= width <= i32::MAX,
                3 <= height <= i32::MAX,
                forall|j: int|
                    0 <= j < walls@.len() ==> in_interior(
                        width as int,
                        height as int,
                        #[trigger] walls@[j].x as int,
                        walls@[j].y as int,
                    ),
            decreases wall_count - k,
        {
            let x: i32 = gen_range(1, (width - 1) as i32);
            let y: i32 = gen_range(1, (height - 1) as i32);
            walls.push(Position { x, y });
            k += 1;
        }
        let map = GridMap::with_walls(width, height, &walls);
        proof {
            let (w, h) = (width as int, height as int);
            assert forall|x: int, y: int|
                map@.in_bounds(x, y) && on_perimeter(w, h, x, y) implies #[trigger] map@.tile(x, y)
                == TileType::Wall by {
                lemma_perimeter_is_wall(w, h, walls@, x, y);
            }
            lemma_wall_count_bounds(w, h, walls@);
        }
        map
    }

    /// The standard map: one cell per tile of the screen, with its border
    /// walled and `MAP_WALLS` walls scattered inside.
    pub fn new() -> (map: GridMap)
        ensures
            map@.wf(),
            map@.width == MAP_WIDTH,
            map@.height == MAP_HEIGHT,
            forall|x: int, y: int|
                map@.in_bounds(x, y) && on_perimeter(MAP_WIDTH as int, MAP_HEIGHT as int, x, y)
                    ==> #[trigger] map@.tile(x, y) == TileType::Wall,
            2 * MAP_WIDTH + 2 * MAP_HEIGHT - 4 <= walls_in(map@.tiles),
            walls_in(map@.tiles) <= 2 * MAP_WIDTH + 2 * MAP_HEIGHT - 4 + MAP_WALLS,
            exists|walls: Seq<Position>|
                {
                    &&& walls.len() == MAP_WALLS
                    &&& forall|k: int|
                        0 <= k < walls.len() ==> in_interior(
                            MAP_WIDTH as int,
                            MAP_HEIGHT as int,
                            #[trigger] walls[k].x as int,
                            walls[k].y as int,
                        )
                    &&& map@.tiles == layout(MAP_WIDTH as int, MAP_HEIGHT as int, walls)
                },
    {
        GridMap::generate(MAP_WIDTH, MAP_HEIGHT, MAP_WALLS)
    }
}

} // verus!
