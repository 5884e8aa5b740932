//! Layout arithmetic for a fixed grid of cells.
//!
//! The toolkit view that renders the grid walks its cells row by row and
//! binds each to one element of the underlying collection. The mapping it
//! uses — row-major cell order, `index = row * columns + col` — is what this
//! module computes and proves.

use vstd::arithmetic::div_mod::lemma_fundamental_div_mod_converse;
use vstd::arithmetic::mul::lemma_mul_is_distributive_add_other_way;
use vstd::prelude::*;

verus! {

/// Dimensions of a grid view: `rows` rows of `columns` cells.
#[derive(Clone, Copy, Debug, PartialEq, Eq, Structural)]
pub struct Grid {
    pub columns: usize,
    pub rows: usize,
}

/// One cell of the grid, with its position and the index of the collection
/// element it shows.
#[derive(Clone, Copy, Debug, PartialEq, Eq, Structural)]
pub struct GridCell {
    pub row: usize,
    pub col: usize,
    pub index: usize,
}

/// The (row, col) position selected in a grid.
#[derive(Clone, Copy, Debug)]
pub struct GridData {
    pub selected: (usize, usize),
}

impl Grid {
    /// How many cells the grid holds.
    pub open spec fn cell_count(self) -> int {
        self.rows * self.columns
    }

    /// The cell standing at position `k` of the row-major walk.
    pub open spec fn cell_at(self, k: int) -> GridCell
        recommends
            self.columns > 0,
    {
        GridCell {
            row: (k / self.columns as int) as usize,
            col: (k % self.columns as int) as usize,
            index: k as usize,
        }
    }

    /// A grid of the given dimensions.
    pub fn new(columns: usize, rows: usize) -> (r: Self)
        ensures
            r == (Grid { columns, rows }),
    {
        Grid { columns, rows }
    }

    /// The collection index bound to the cell at `(row, col)`: the grid is
    /// filled row-major.
    pub fn cell_index(&self, row: usize, col: usize) -> (r: usize)
        requires
            row < self.rows,
            col < self.columns,
            self.rows * self.columns <= usize::MAX,
        ensures
            r == row * self.columns + col,
            r < self.cell_count(),
    {
        proof {
            lemma_row_major_bound(row as int, col as int, self.rows as int, self.columns as int);
        }
        row * self.columns + col
    }

    /// Every cell in row-major order: cell `k` sits at row `k / columns`,
    /// column `k % columns`, and shows element `k`.
    pub fn cells(&self) -> (r: Vec<GridCell>)
        requires
            self.rows * self.columns <= usize::MAX,
        ensures
            r@.len() == self.cell_count(),
            forall|k: int| 0 <= k < r@.len() ==> r@[k] == self.cell_at(k),
    {
        let mut cells: Vec<GridCell> = Vec::new();
        let mut idx: usize = 0;
        let mut row: usize = 0;
        while row < self.rows
            invariant
                row <= self.rows,
                idx == row * self.columns,
                self.rows * self.columns <= usize::MAX,
                cells@.len() == idx,
                forall|k: int| 0 <= k < idx ==> cells@[k] == self.cell_at(k),
            decreases self.rows - row,
        {
            let mut col: usize = 0;
            while col < self.columns
                invariant
                    row < self.rows,
                    col <= self.columns,
                    idx == row * self.columns + col,
                    self.rows * self.columns <= usize::MAX,
                    cells@.len() == idx,
                    forall|k: int| 0 <= k < idx ==> cells@[k] == self.cell_at(k),
                decreases self.columns - col,
            {
                proof {
                    lemma_row_major_bound(
                        row as int,
                        col as int,
                        self.rows as int,
                        self.columns as int,
                    );
                    lemma_fundamental_div_mod_converse(
                        idx as int,
                        self.columns as int,
                        row as int,
                        col as int,
                    );
                }
                cells.push(GridCell { row, col, index: idx });
                idx = idx + 1;
                col = col + 1;
            }
            proof {
                lemma_mul_is_distributive_add_other_way(
                    self.columns as int,
                    row as int,
                    1,
                );
            }
            row = row + 1;
        }
        cells
    }
}

/// In a grid of `rows * columns` cells, the row-major index of a cell in
/// range lies below the cell count.
pub proof fn lemma_row_major_bound(row: int, col: int, rows: int, columns: int)
    by (nonlinear_arith)
    requires
        0 <= row < rows,
        0 <= col < columns,
    ensures
        row * columns + col < rows * columns,
{
}

} // verus!
