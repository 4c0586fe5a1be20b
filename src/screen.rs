//! Placement of grid positions on the screen, and the draw requests of a map.

use crate::grid::{cell_of, Cell, Grid};
use vstd::prelude::*;

verus! {

/// A position in grid units; `x` grows to the right, `y` upwards.
#[derive(Clone, Copy, Debug, PartialEq, Eq, Structural)]
pub struct Coord {
    pub x: i64,
    pub y: i64,
}

/// Where a tile is drawn: its pixel position and its uniform scale.
#[derive(Clone, Copy, Debug, PartialEq, Eq, Structural)]
pub struct ScreenPlacement {
    pub x: i128,
    pub y: i128,
    pub scale: i64,
}

/// The colour that a map tile is drawn with.
#[derive(Clone, Copy, Debug, PartialEq, Eq, Structural)]
pub enum TileColor {
    Black,
    White,
}

/// One request to the renderer: a square tile at a placement, in a colour.
#[derive(Clone, Copy, Debug, PartialEq, Eq, Structural)]
pub struct TileDraw {
    pub placement: ScreenPlacement,
    pub color: TileColor,
}

/// The placement of grid position `pos` with tiles `tile_size` pixels wide:
/// each coordinate times `tile_size`, and `tile_size` as the scale.
pub open spec fn placement_of(pos: Coord, tile_size: i64) -> ScreenPlacement {
    ScreenPlacement {
        x: (pos.x * tile_size) as i128,
        y: (pos.y * tile_size) as i128,
        scale: tile_size,
    }
}

/// Walls are drawn black, everything else white.
pub open spec fn color_of(cell: Cell) -> TileColor {
    match cell {
        Cell::Wall => TileColor::Black,
        Cell::Empty => TileColor::White,
    }
}

/// The request that draws the cell at `(x, y)` of `grid`.
pub open spec fn cell_draw(grid: Grid, x: int, y: int, tile_size: i64) -> TileDraw {
    TileDraw {
        placement: placement_of(Coord { x: x as i64, y: y as i64 }, tile_size),
        color: color_of(cell_of(grid@[x][y])),
    }
}

/// Maps a grid position to its screen placement.
pub fn to_screen(pos: Coord, tile_size: i64) -> (r: ScreenPlacement)
    ensures
        r == placement_of(pos, tile_size),
{
    let t = tile_size as i128;
    let x = pos.x as i128;
    let y = pos.y as i128;
    assert(-0x8000_0000_0000_0000 * 0x8000_0000_0000_0000 <= x * t <= 0x8000_0000_0000_0000
        * 0x8000_0000_0000_0000) by (nonlinear_arith)
        requires
            -0x8000_0000_0000_0000 <= x < 0x8000_0000_0000_0000,
            -0x8000_0000_0000_0000 <= t < 0x8000_0000_0000_0000,
    ;
    assert(-0x8000_0000_0000_0000 * 0x8000_0000_0000_0000 <= y * t <= 0x8000_0000_0000_0000
        * 0x8000_0000_0000_0000) by (nonlinear_arith)
        requires
            -0x8000_0000_0000_0000 <= y < 0x8000_0000_0000_0000,
            -0x8000_0000_0000_0000 <= t < 0x8000_0000_0000_0000,
    ;
    ScreenPlacement { x: x * t, y: y * t, scale: tile_size }
}

/// Mapping a position is a function of its arguments alone: two mappings of
/// the same position with the same tile size give the same placement.
pub proof fn to_screen_is_pure(pos: Coord, tile_size: i64, first: ScreenPlacement, second: ScreenPlacement)
    requires
        first == placement_of(pos, tile_size),
        second == placement_of(pos, tile_size),
    ensures
        first == second,
{
}

/// One draw request per cell of `grid`, indexed `[x][y]`: the tile at the
/// cell's placement, black for a wall and white otherwise.
pub fn board_draws(grid: &Grid, tile_size: i64) -> (r: Vec<Vec<TileDraw>>)
    requires
        grid.wf(),
    ensures
        r@.len() == grid.spec_width(),
        forall|x: int| 0 <= x < r@.len() ==> #[trigger] r@[x]@.len() == grid.spec_height(),
        forall|x: int, y: int|
            0 <= x < grid.spec_width() && 0 <= y < grid.spec_height() ==> #[trigger] r@[x]@[y]
                == cell_draw(*grid, x, y, tile_size),
{
    let width = grid.width();
    let height = grid.height();
    let mut columns: Vec<Vec<TileDraw>> = Vec::new();
    for i in 0..width
        invariant
            grid.wf(),
            width == grid.spec_width(),
            height == grid.spec_height(),
            columns@.len() == i,
            forall|x: int| 0 <= x < i ==> #[trigger] columns@[x]@.len() == height,
            forall|x: int, y: int|
                0 <= x < i && 0 <= y < height ==> #[trigger] columns@[x]@[y] == cell_draw(
                    *grid,
                    x,
                    y,
                    tile_size,
                ),
    {
        let mut column: Vec<TileDraw> = Vec::new();
        for j in 0..height
            invariant
                grid.wf(),
                width == grid.spec_width(),
                height == grid.spec_height(),
                i < width,
                column@.len() == j,
                forall|y: int| 0 <= y < j ==> #[trigger] column@[y] == cell_draw(*grid, i as int, y, tile_size),
        {
            let pos = Coord { x: i as i64, y: j as i64 };
            let color = match grid.cell(i, j) {
                Cell::Wall => TileColor::Black,
                Cell::Empty => TileColor::White,
            };
            column.push(TileDraw { placement: to_screen(pos, tile_size), color });
        }
        columns.push(column);
    }
    columns
}

} // verus!
