//! The tile-grid decoder: from the pixel buffer of the floor image to the
//! occupancy grid, and from the grid to the floor tiles.

use vstd::prelude::*;
use crate::kinds::{all_of, all_placed};
use crate::tile::{placed, PlacedTile, TileKind, FLOOR_TILE_INDEX};

verus! {

/// Number of cells in one row of the grid.
pub const GRID_WIDTH: usize = 23;

/// Number of bytes per pixel of the buffer. Only the first is read.
pub const CHANNELS: usize = 4;

/// The cell value that stands for a solid floor tile.
pub const SOLID_FLOOR: u8 = 1;

/// What a cell holds.
#[derive(Clone, Copy, Debug, PartialEq, Eq, Structural)]
pub enum Cell {
    Empty,
    SolidFloor,
}

/// The occupancy grid of the floor layer: one value per pixel, row by row.
/// A grid is decoded as a whole and never changed afterwards.
#[derive(Debug, PartialEq, Eq)]
pub struct OccupancyGrid {
    cells: Vec<u8>,
}

/// Number of pixels that start in a buffer of `len` bytes.
pub open spec fn pixel_count(len: nat) -> nat {
    ((len + CHANNELS - 1) / (CHANNELS as int)) as nat
}

/// The cell values in a pixel buffer: the first channel of every pixel.
pub open spec fn decoded(data: Seq<u8>) -> Seq<u8> {
    Seq::new(pixel_count(data.len()), |i: int| data[CHANNELS * i])
}

/// The class of a cell value: exactly `SOLID_FLOOR` is solid floor.
pub open spec fn classify(value: u8) -> Cell {
    if value == SOLID_FLOOR {
        Cell::SolidFloor
    } else {
        Cell::Empty
    }
}

/// Grid column of the cell with linear index `i`.
pub open spec fn column_of(i: int) -> int {
    i % (GRID_WIDTH as int)
}

/// Grid row of the cell with linear index `i`.
pub open spec fn row_of(i: int) -> int {
    i / (GRID_WIDTH as int)
}

/// Linear index of the cell in column `x` of row `y`.
pub open spec fn linear_index(x: int, y: int) -> int {
    y * GRID_WIDTH + x
}

/// The floor tile for the cell with linear index `i`.
pub open spec fn floor_tile_at(i: int) -> PlacedTile {
    placed(
        TileKind::Floor,
        FLOOR_TILE_INDEX,
        column_of(i) as usize,
        row_of(i) as usize,
        None,
    )
}

/// The linear indices of the solid cells, in rising order.
pub open spec fn solid_indices(cells: Seq<u8>) -> Seq<int> {
    Seq::new(cells.len(), |i: int| i).filter(|i: int| cells[i] == SOLID_FLOOR)
}

/// The floor tiles of a grid: one for every solid cell, in the order of the
/// cells.
pub open spec fn floor_tiles(cells: Seq<u8>) -> Seq<PlacedTile> {
    solid_indices(cells).map_values(|i: int| floor_tile_at(i))
}

/// The floor tiles that a pixel buffer stands for.
pub open spec fn floor_layer(data: Seq<u8>) -> Seq<PlacedTile> {
    floor_tiles(decoded(data))
}

impl View for OccupancyGrid {
    type V = Seq<u8>;

    closed spec fn view(&self) -> Seq<u8> {
        self.cells@
    }
}

impl OccupancyGrid {
    /// Decodes a pixel buffer: cell `i` is the first channel of pixel `i`.
    /// A buffer that ends inside a pixel still yields that pixel's cell.
    pub fn decode(data: &[u8]) -> (grid: OccupancyGrid)
        ensures
            grid@ == decoded(data@),
    {
        let len = data.len();
        let count = if len % CHANNELS == 0 {
            len / CHANNELS
        } else {
            len / CHANNELS + 1
        };
        let mut cells: Vec<u8> = Vec::new();
        let mut i: usize = 0;
        while i < count
            invariant
                i <= count,
                len == data@.len(),
                count == pixel_count(data@.len()),
                cells@ == decoded(data@).take(i as int),
            decreases count - i,
        {
            cells.push(data[CHANNELS * i]);
            assert(decoded(data@).take(i + 1) =~= decoded(data@).take(i as int).push(
                decoded(data@)[i as int],
            ));
            i += 1;
        }
        assert(decoded(data@).take(count as int) =~= decoded(data@));
        OccupancyGrid { cells }
    }

    /// Number of cells.
    pub fn len(&self) -> (n: usize)
        ensures
            n == self@.len(),
    {
        self.cells.len()
    }

    /// Number of rows, the last of which may be incomplete.
    pub fn rows(&self) -> (n: usize)
        ensures
            n == (self@.len() + GRID_WIDTH - 1) / (GRID_WIDTH as int),
    {
        let len = self.cells.len();
        if len % GRID_WIDTH == 0 {
            len / GRID_WIDTH
        } else {
            len / GRID_WIDTH + 1
        }
    }

    /// The value of the cell in column `x` of row `y`, if the grid has it.
    pub fn value(&self, x: usize, y: usize) -> (value: Option<u8>)
        ensures
            value == if x < GRID_WIDTH && linear_index(x as int, y as int) < self@.len() {
                Some(self@[linear_index(x as int, y as int)])
            } else {
                None
            },
    {
        let len = self.cells.len();
        if x >= GRID_WIDTH || y > len / GRID_WIDTH {
            return None;
        }
        let row_start = y * GRID_WIDTH;
        if x >= len - row_start {
            return None;
        }
        Some(self.cells[row_start + x])
    }

    /// The class of the cell in column `x` of row `y`; what lies outside
    /// the grid is empty.
    pub fn cell(&self, x: usize, y: usize) -> (cell: Cell)
        ensures
            cell == if x < GRID_WIDTH && linear_index(x as int, y as int) < self@.len() {
                classify(self@[linear_index(x as int, y as int)])
            } else {
                Cell::Empty
            },
    {
        match self.value(x, y) {
            Some(v) => if v == SOLID_FLOOR {
                Cell::SolidFloor
            } else {
                Cell::Empty
            },
            None => Cell::Empty,
        }
    }

    /// Places one floor tile for every solid cell, in the order of the
    /// cells: the cell with linear index `i` lies in column `i % 23` of row
    /// `i / 23`.
    pub fn floor_tiles(&self) -> (tiles: Vec<PlacedTile>)
        ensures
            tiles@ == floor_tiles(self@),
    {
        let mut tiles: Vec<PlacedTile> = Vec::new();
        let ghost indices = Seq::new(self@.len(), |i: int| i);
        let ghost solid = |i: int| self@[i] == SOLID_FLOOR;
        let ghost tile = |i: int| floor_tile_at(i);
        let mut i: usize = 0;
        proof {
            assert(indices.take(0) =~= Seq::<int>::empty());
            assert(Seq::<int>::empty().filter(solid) =~= Seq::<int>::empty()) by {
                reveal(Seq::filter);
            }
        }
        while i < self.cells.len()
            invariant
                i <= self.cells.len(),
                self.cells@ == self@,
                indices == Seq::new(self@.len(), |i: int| i),
                solid == |i: int| self@[i] == SOLID_FLOOR,
                tile == |i: int| floor_tile_at(i),
                tiles@ == indices.take(i as int).filter(solid).map_values(tile),
            decreases self.cells.len() - i,
        {
            let ghost before = indices.take(i as int);
            proof {
                assert(indices.take(i + 1) =~= before.push(i as int));
                before.lemma_filter_push(i as int, solid);
            }
            if self.cells[i] == SOLID_FLOOR {
                proof {
                    before.filter(solid).lemma_push_map_commute(tile, i as int);
                }
                tiles.push(
                    PlacedTile::place(
                        TileKind::Floor,
                        FLOOR_TILE_INDEX,
                        i % GRID_WIDTH,
                        i / GRID_WIDTH,
                        None,
                    ),
                );
            }
            i += 1;
        }
        assert(indices.take(self@.len() as int) =~= indices);
        tiles
    }
}

/// Decodes the pixel buffer of the floor image and places its floor tiles.
pub fn generate_map(data: &[u8]) -> (tiles: Vec<PlacedTile>)
    ensures
        tiles@ == floor_layer(data@),
{
    OccupancyGrid::decode(data).floor_tiles()
}

/// Decoding is a function of the buffer: equal buffers give equal grids and
/// equal floor tiles.
pub proof fn decoding_is_deterministic(first: Seq<u8>, second: Seq<u8>)
    requires
        first == second,
    ensures
        decoded(first) == decoded(second),
        floor_layer(first) == floor_layer(second),
{
}

/// Only the first channel of a pixel counts: buffers of one length that
/// agree on every first channel decode alike.
pub proof fn other_channels_are_ignored(first: Seq<u8>, second: Seq<u8>)
    requires
        first.len() == second.len(),
        forall|i: int| 0 <= i < first.len() && i % (CHANNELS as int) == 0 ==> first[i] == second[i],
    ensures
        decoded(first) == decoded(second),
        floor_layer(first) == floor_layer(second),
{
    assert(decoded(first) =~= decoded(second));
}

/// Cell (`x`, `y`) is the pixel with linear index `y * 23 + x`, and back:
/// the two ways of addressing a cell agree.
pub proof fn cell_addressing(i: int, x: int, y: int)
    requires
        0 <= i,
        0 <= x < GRID_WIDTH,
        0 <= y,
    ensures
        0 <= column_of(i) < GRID_WIDTH,
        linear_index(column_of(i), row_of(i)) == i,
        column_of(linear_index(x, y)) == x,
        row_of(linear_index(x, y)) == y,
{
}

/// A floor tile is placed exactly for the solid cells: the tile of cell `i`
/// is among the floor tiles if and only if the cell's value is
/// `SOLID_FLOOR`. This holds of every grid that fits in memory.
pub proof fn floor_tile_iff_solid(cells: Seq<u8>, i: int)
    requires
        cells.len() <= usize::MAX,
        0 <= i < cells.len(),
    ensures
        floor_tiles(cells).contains(floor_tile_at(i)) <==> cells[i] == SOLID_FLOOR,
{
    let indices = Seq::new(cells.len(), |k: int| k);
    let solid = |k: int| cells[k] == SOLID_FLOOR;
    let tile = |k: int| floor_tile_at(k);
    let kept = indices.filter(solid);
    if cells[i] == SOLID_FLOOR {
        assert(indices[i] == i);
        indices.lemma_filter_contains(solid, i);
        let j = choose|j: int| 0 <= j < kept.len() && kept[j] == i;
        assert(kept.map_values(tile)[j] == floor_tile_at(i));
    }
    if floor_tiles(cells).contains(floor_tile_at(i)) {
        let j = choose|j: int|
            0 <= j < floor_tiles(cells).len() && floor_tiles(cells)[j] == floor_tile_at(i);
        let k = kept[j];
        assert(kept.contains(k));
        indices.lemma_filter_contains_rev(solid, k);
        indices.lemma_filter_pred(solid, j);
        assert(0 <= k < cells.len());
        assert(floor_tile_at(k) == floor_tile_at(i));
        cell_addressing(k, 0, 0);
        cell_addressing(i, 0, 0);
        assert(column_of(k) as usize == column_of(i) as usize);
        assert(row_of(k) as usize == row_of(i) as usize);
        assert(0 <= row_of(k) <= k && 0 <= row_of(i) <= i);
        assert(k == i);
    }
}

/// Every floor tile is a well-formed tile of kind floor.
pub proof fn floor_tiles_are_tagged(cells: Seq<u8>, j: int)
    requires
        0 <= j < floor_tiles(cells).len(),
    ensures
        floor_tiles(cells)[j].kind == TileKind::Floor,
        floor_tiles(cells)[j].wf(),
{
}

/// A floor layer consists of well-formed floor tiles only.
pub proof fn floor_layer_by_kind(data: Seq<u8>)
    ensures
        all_of(floor_layer(data), TileKind::Floor),
        all_placed(floor_layer(data)),
{
    let floor = floor_layer(data);
    assert forall|i: int| 0 <= i < floor.len() implies (#[trigger] floor[i]).kind
        == TileKind::Floor && floor[i].wf() by {
        floor_tiles_are_tagged(decoded(data), i);
    }
}

} // verus!
