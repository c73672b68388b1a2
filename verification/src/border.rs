//! The border renderer: the one-time paint over every cell on the perimeter
//! of the screen extent, as the exact sequence of cells it visits.

use vstd::prelude::*;

verus! {

/// One screen cell, addressed by column `x` and row `y`.
#[derive(Clone, Copy, PartialEq, Eq, Structural, Debug)]
pub struct Cell {
    pub x: u16,
    pub y: u16,
}

/// The cell lies on the one-cell-thick rectangular frame of the extent:
/// in the leftmost or rightmost column, or in the top or bottom row.
pub open spec fn on_perimeter(c: Cell, width: u16, height: u16) -> bool {
    c.x == 0 || c.x == width - 1 || c.y == 0 || c.y == height - 1
}

/// The `k`-th cell the border paint visits: first, for each column `i`, the
/// top-row cell `(i, 0)` then the bottom-row cell `(i, height - 1)`; after
/// those `2 * width` cells, for each row `j`, the left-column cell `(0, j)`
/// then the right-column cell `(width - 1, j)`.
pub open spec fn border_cell(width: u16, height: u16, k: int) -> Cell {
    if k < 2 * width {
        if k % 2 == 0 {
            Cell { x: (k / 2) as u16, y: 0 }
        } else {
            Cell { x: (k / 2) as u16, y: (height - 1) as u16 }
        }
    } else {
        let j = k - 2 * width;
        if j % 2 == 0 {
            Cell { x: 0, y: (j / 2) as u16 }
        } else {
            Cell { x: (width - 1) as u16, y: (j / 2) as u16 }
        }
    }
}

/// The full sequence of cells the border paint visits, in order. Corner
/// cells appear more than once; painting them twice with the same glyph is
/// harmless.
pub fn border_cells(width: u16, height: u16) -> (cells: Vec<Cell>)
    requires
        width >= 1,
        height >= 1,
    ensures
        cells@.len() == 2 * width + 2 * height,
        forall|k: int| 0 <= k < cells@.len() ==> cells@[k] == border_cell(width, height, k),
{
    let mut cells: Vec<Cell> = Vec::new();
    let mut i: u16 = 0;
    while i < width
        invariant
            width >= 1,
            height >= 1,
            i <= width,
            cells@.len() == 2 * i,
            forall|k: int| 0 <= k < cells@.len() ==> cells@[k] == border_cell(width, height, k),
        decreases width - i,
    {
        cells.push(Cell { x: i, y: 0 });
        cells.push(Cell { x: i, y: height - 1 });
        i = i + 1;
    }
    let mut j: u16 = 0;
    while j < height
        invariant
            width >= 1,
            height >= 1,
            j <= height,
            cells@.len() == 2 * width + 2 * j,
            forall|k: int| 0 <= k < cells@.len() ==> cells@[k] == border_cell(width, height, k),
        decreases height - j,
    {
        cells.push(Cell { x: 0, y: j });
        cells.push(Cell { x: width - 1, y: j });
        j = j + 1;
    }
    cells
}

/// Every cell the border paint visits lies on the perimeter.
pub proof fn lemma_border_cells_on_perimeter(width: u16, height: u16)
    requires
        width >= 1,
        height >= 1,
    ensures
        forall|k: int|
            0 <= k < 2 * width + 2 * height ==> on_perimeter(
                border_cell(width, height, k),
                width,
                height,
            ),
{
}

/// Every cell on the perimeter is visited by the border paint: the frame
/// is painted in full.
pub proof fn lemma_border_covers_perimeter(width: u16, height: u16, c: Cell)
    requires
        width >= 1,
        height >= 1,
        c.x < width,
        c.y < height,
        on_perimeter(c, width, height),
    ensures
        exists|k: int| 0 <= k < 2 * width + 2 * height && border_cell(width, height, k) == c,
{
    if c.y == 0 {
        let k = 2 * (c.x as int);
        assert(0 <= k < 2 * width + 2 * height && border_cell(width, height, k) == c);
    } else if c.y == height - 1 {
        let k = 2 * (c.x as int) + 1;
        assert(0 <= k < 2 * width + 2 * height && border_cell(width, height, k) == c);
    } else if c.x == 0 {
        let k = 2 * (width as int) + 2 * (c.y as int);
        assert(0 <= k < 2 * width + 2 * height && border_cell(width, height, k) == c);
    } else {
        let k = 2 * (width as int) + 2 * (c.y as int) + 1;
        assert(0 <= k < 2 * width + 2 * height && border_cell(width, height, k) == c);
    }
}

} // verus!
