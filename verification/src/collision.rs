use vstd::prelude::*;

verus! {

/// Kind of ground or obstacle occupying one cell of the map.
#[derive(Clone, Copy, Debug, PartialEq, Eq, Structural, Hash)]
pub enum TileType {
    Dirt,
    Grass,
    YellowGrass,
    Shore,
    Water,
    Tree,
    Rock,
    Empty,
}

/// Whether characters may stand on a tile: water, trees and rocks block them.
pub open spec fn spec_is_walkable(tile: TileType) -> bool {
    match tile {
        TileType::Water | TileType::Tree | TileType::Rock => false,
        _ => true,
    }
}

impl TileType {
    /// Whether characters may stand on this tile.
    pub fn is_walkable(&self) -> (walkable: bool)
        ensures
            walkable == spec_is_walkable(*self),
    {
        match self {
            TileType::Water | TileType::Tree | TileType::Rock => false,
            _ => true,
        }
    }
}

/// Exactly three kinds of tile block movement: water, trees and rocks; dirt,
/// grass, yellow grass, shore and empty cells can be walked on.
pub proof fn lemma_blocking_tiles(tile: TileType)
    ensures
        !spec_is_walkable(tile) <==> (tile == TileType::Water || tile == TileType::Tree || tile == TileType::Rock),
{
}

/// Mathematical picture of a collision grid: its size and its cells in
/// row-major order.
pub struct GridModel {
    pub width: int,
    pub height: int,
    pub tiles: Seq<TileType>,
}

impl GridModel {
    /// Whether `(x, y)` names a cell of the grid.
    pub open spec fn in_bounds(self, x: int, y: int) -> bool {
        0 <= x < self.width && 0 <= y < self.height
    }

    /// Row-major index of cell `(x, y)`.
    pub open spec fn index(self, x: int, y: int) -> int {
        y * self.width + x
    }

    /// The tile at `(x, y)`, if the cell exists.
    pub open spec fn tile(self, x: int, y: int) -> Option<TileType> {
        if self.in_bounds(x, y) {
            Some(self.tiles[self.index(x, y)])
        } else {
            None
        }
    }

    /// The grid after `tile` is written at `(x, y)`; writes outside the grid
    /// change nothing.
    pub open spec fn set(self, x: int, y: int, tile: TileType) -> GridModel {
        if self.in_bounds(x, y) {
            GridModel { tiles: self.tiles.update(self.index(x, y), tile), ..self }
        } else {
            self
        }
    }

    /// Whether a character may stand on cell `(x, y)`.
    pub open spec fn walkable(self, x: int, y: int) -> bool {
        self.tile(x, y) matches Some(t) && spec_is_walkable(t)
    }
}

/// Grid of tiles telling which cells of the map block movement.
pub struct CollisionMap {
    tiles: Vec<TileType>,
    width: i32,
    height: i32,
}

impl View for CollisionMap {
    type V = GridModel;

    closed spec fn view(&self) -> GridModel {
        GridModel { width: self.width as int, height: self.height as int, tiles: self.tiles@ }
    }
}

proof fn lemma_index_in_range(width: int, height: int, x: int, y: int)
    requires
        0 <= x < width,
        0 <= y < height,
    ensures
        0 <= y * width,
        0 <= y * width + x < width * height,
{
    assert(y * width <= (height - 1) * width) by (nonlinear_arith)
        requires 0 <= y < height, 0 < width;
    assert((height - 1) * width + width == height * width) by (nonlinear_arith);
    assert(0 <= y * width) by (nonlinear_arith)
        requires 0 <= y, 0 < width;
    assert(width * height == height * width) by (nonlinear_arith);
}

impl CollisionMap {
    /// The grid holds exactly one tile per cell.
    pub closed spec fn wf(&self) -> bool {
        &&& self.tiles@.len() == self.width * self.height
        &&& 0 <= self.width * self.height <= i32::MAX
    }

    /// A well-formed grid has one tile per cell in its model.
    pub proof fn lemma_cell_count(&self)
        requires
            self.wf(),
        ensures
            self@.tiles.len() == self@.width * self@.height,
    {
    }

    /// A `width` × `height` grid whose cells are all empty.
    pub fn new(width: i32, height: i32) -> (map: CollisionMap)
        requires
            0 <= width * height <= i32::MAX,
        ensures
            map.wf(),
            map@.width == width,
            map@.height == height,
            map@.tiles.len() == width * height,
            forall|i: int| 0 <= i < map@.tiles.len() ==> map@.tiles[i] == TileType::Empty,
    {
        let size = (width * height) as usize;
        let mut tiles: Vec<TileType> = Vec::new();
        let mut i: usize = 0;
        while i < size
            invariant
                i <= size,
                tiles@.len() == i,
                forall|j: int| 0 <= j < i ==> tiles@[j] == TileType::Empty,
            decreases size - i,
        {
            tiles.push(TileType::Empty);
            i = i + 1;
        }
        CollisionMap { tiles, width, height }
    }

    /// Row-major index of an in-bounds cell.
    fn xy_to_idx(&self, x: i32, y: i32) -> (idx: usize)
        requires
            self.wf(),
            self@.in_bounds(x as int, y as int),
        ensures
            idx == self@.index(x as int, y as int),
            idx < self@.tiles.len(),
    {
        proof {
            lemma_index_in_range(self.width as int, self.height as int, x as int, y as int);
        }
        (y * self.width + x) as usize
    }

    /// Whether `(x, y)` names a cell of the grid.
    pub fn in_bounds(&self, x: i32, y: i32) -> (inside: bool)
        ensures
            inside == self@.in_bounds(x as int, y as int),
    {
        x >= 0 && x < self.width && y >= 0 && y < self.height
    }

    /// The tile at `(x, y)`, or `None` outside the grid.
    pub fn get_tile(&self, x: i32, y: i32) -> (tile: Option<TileType>)
        requires
            self.wf(),
        ensures
            tile == self@.tile(x as int, y as int),
    {
        if self.in_bounds(x, y) {
            Some(self.tiles[self.xy_to_idx(x, y)])
        } else {
            None
        }
    }

    /// Puts `tile_type` at `(x, y)`; outside the grid nothing changes.
    pub fn set_tile(&mut self, x: i32, y: i32, tile_type: TileType)
        requires
            old(self).wf(),
        ensures
            final(self).wf(),
            final(self)@ == old(self)@.set(x as int, y as int, tile_type),
    {
        if self.in_bounds(x, y) {
            let idx = self.xy_to_idx(x, y);
            self.tiles.set(idx, tile_type);
        }
    }

    /// Whether a character may stand on cell `(x, y)`; cells outside the grid
    /// are never walkable.
    pub fn is_walkable(&self, x: i32, y: i32) -> (walkable: bool)
        requires
            self.wf(),
        ensures
            walkable == self@.walkable(x as int, y as int),
    {
        match self.get_tile(x, y) {
            Some(t) => t.is_walkable(),
            None => false,
        }
    }

    /// Whether a region of cells lets a body through: every cell from
    /// `(min_x, min_y)` to `(max_x, max_y)` (both included) must lie inside
    /// the grid, and every blocking tile among them must not touch the body,
    /// as `touches` tells for the cell's coordinates and tile. Cells are
    /// examined row by row and the first failure settles the answer.
    pub fn region_clear<F: Fn(i32, i32, TileType) -> bool>(
        &self,
        min_x: i32,
        max_x: i32,
        min_y: i32,
        max_y: i32,
        touches: F,
    ) -> (clear: bool)
        requires
            self.wf(),
            forall|x: i32, y: i32, t: TileType| touches.requires((x, y, t)),
        ensures
            clear ==> forall|x: int, y: int| min_x <= x <= max_x && min_y <= y <= max_y ==> self@.in_bounds(x, y),
            clear ==> forall|x: i32, y: i32| min_x <= x <= max_x && min_y <= y <= max_y
                && !spec_is_walkable(#[trigger] self@.tiles[self@.index(x as int, y as int)])
                ==> touches.ensures((x, y, self@.tiles[self@.index(x as int, y as int)]), false),
            !clear ==> exists|x: i32, y: i32| min_x <= x <= max_x && min_y <= y <= max_y && (
                !self@.in_bounds(x as int, y as int) || (
                    !spec_is_walkable(self@.tiles[self@.index(x as int, y as int)])
                    && touches.ensures((x, y, self@.tiles[self@.index(x as int, y as int)]), true))),
    {
        let mut y: i64 = min_y as i64;
        while y <= max_y as i64
            invariant
                self.wf(),
                forall|x: i32, y: i32, t: TileType| touches.requires((x, y, t)),
                min_y <= y <= max_y as int + 1 || (y == min_y && min_y > max_y),
                forall|cx: int, cy: int| min_x <= cx <= max_x && min_y <= cy < y ==> self@.in_bounds(cx, cy),
                forall|cx: i32, cy: i32| min_x <= cx <= max_x && min_y <= cy < y
                    && !spec_is_walkable(#[trigger] self@.tiles[self@.index(cx as int, cy as int)])
                    ==> touches.ensures((cx, cy, self@.tiles[self@.index(cx as int, cy as int)]), false),
            decreases max_y as int + 1 - y,
        {
            let gy = y as i32;
            let mut x: i64 = min_x as i64;
            while x <= max_x as i64
                invariant
                    self.wf(),
                    forall|x: i32, y: i32, t: TileType| touches.requires((x, y, t)),
                    min_y <= gy <= max_y,
                    gy == y,
                    min_x <= x <= max_x as int + 1 || (x == min_x && min_x > max_x),
                    forall|cx: int, cy: int| min_x <= cx <= max_x && min_y <= cy < y ==> self@.in_bounds(cx, cy),
                    forall|cx: i32, cy: i32| min_x <= cx <= max_x && min_y <= cy < y
                        && !spec_is_walkable(#[trigger] self@.tiles[self@.index(cx as int, cy as int)])
                        ==> touches.ensures((cx, cy, self@.tiles[self@.index(cx as int, cy as int)]), false),
                    forall|cx: int| min_x <= cx < x ==> self@.in_bounds(cx, gy as int),
                    forall|cx: i32| min_x <= cx < x
                        && !spec_is_walkable(#[trigger] self@.tiles[self@.index(cx as int, gy as int)])
                        ==> touches.ensures((cx, gy, self@.tiles[self@.index(cx as int, gy as int)]), false),
                decreases max_x as int + 1 - x,
            {
                let gx = x as i32;
                if !self.in_bounds(gx, gy) {
                    return false;
                }
                let tile = self.tiles[self.xy_to_idx(gx, gy)];
                if !tile.is_walkable() {
                    if touches(gx, gy, tile) {
                        return false;
                    }
                }
                x = x + 1;
            }
            y = y + 1;
        }
        true
    }

    /// Number of columns.
    pub fn width(&self) -> (w: i32)
        ensures
            w == self@.width,
    {
        self.width
    }

    /// Number of rows.
    pub fn height(&self) -> (h: i32)
        ensures
            h == self@.height,
    {
        self.height
    }
}

/// Reading a cell gives back what was last written there, writing a cell
/// leaves every other cell as it was, and writes never resize the grid.
pub proof fn lemma_set_then_get(grid: GridModel, x: int, y: int, tile: TileType, qx: int, qy: int)
    requires
        grid.tiles.len() == grid.width * grid.height,
    ensures
        grid.in_bounds(x, y) ==> grid.set(x, y, tile).tile(x, y) == Some(tile),
        (qx != x || qy != y) ==> grid.set(x, y, tile).tile(qx, qy) == grid.tile(qx, qy),
        grid.set(x, y, tile).in_bounds(qx, qy) == grid.in_bounds(qx, qy),
        grid.set(x, y, tile).tiles.len() == grid.tiles.len(),
{
    if grid.in_bounds(x, y) {
        lemma_index_in_range(grid.width, grid.height, x, y);
        if grid.in_bounds(qx, qy) && (qx != x || qy != y) {
            lemma_index_in_range(grid.width, grid.height, qx, qy);
            if grid.index(qx, qy) == grid.index(x, y) {
                lemma_index_injective(grid.width, x, y, qx, qy);
            }
        }
    }
}

proof fn lemma_index_injective(width: int, x: int, y: int, qx: int, qy: int)
    requires
        0 <= x < width,
        0 <= qx < width,
        y * width + x == qy * width + qx,
    ensures
        x == qx && y == qy,
{
    if y < qy {
        assert(y * width + width <= qy * width) by (nonlinear_arith)
            requires y < qy, 0 < width;
    } else if y > qy {
        assert(qy * width + width <= y * width) by (nonlinear_arith)
            requires qy < y, 0 < width;
    }
}

/// A cell is walkable only inside the grid, and there exactly when its tile
/// lets characters through.
pub proof fn lemma_walkable_cells(grid: GridModel, x: int, y: int)
    ensures
        grid.walkable(x, y) <==> grid.in_bounds(x, y) && spec_is_walkable(grid.tiles[grid.index(x, y)]),
{
}

} // verus!
