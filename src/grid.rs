//! The grid: a row-major buffer of cells, with bounded (non-wrapping)
//! neighbour counting.

use vstd::prelude::*;
use crate::cell::{Cell, DeathState, LivingState, next_state, next_state_spec};

verus! {

/// A flat, row-major grid: the cell at `(row, col)` stands at `row * width + col`.
pub type Grid = Vec<Cell>;

/// The shape that every grid of the game keeps.
pub open spec fn grid_wf(g: Seq<Cell>, width: int, height: int) -> bool {
    &&& width > 0
    &&& height > 0
    &&& g.len() == width * height
}

/// 1 if `(row, col)` lies on the grid and holds a living cell, else 0.
pub open spec fn alive_at(g: Seq<Cell>, width: int, height: int, row: int, col: int) -> int {
    if 0 <= row < height && 0 <= col < width && g[row * width + col] is Alive {
        1
    } else {
        0
    }
}

/// The number of living cells among the up to eight cells around `(row, col)`.
pub open spec fn neighbour_count(g: Seq<Cell>, width: int, height: int, row: int, col: int) -> int {
    alive_at(g, width, height, row - 1, col - 1) + alive_at(g, width, height, row - 1, col)
        + alive_at(g, width, height, row - 1, col + 1) + alive_at(g, width, height, row, col - 1)
        + alive_at(g, width, height, row, col + 1) + alive_at(g, width, height, row + 1, col - 1)
        + alive_at(g, width, height, row + 1, col) + alive_at(g, width, height, row + 1, col + 1)
}

/// What the cell at index `i` becomes in the next generation.
pub open spec fn next_cell_spec(g: Seq<Cell>, width: int, height: int, i: int) -> Cell {
    next_state_spec(g[i], neighbour_count(g, width, height, i / width, i % width))
}

/// The next generation of the whole grid.
pub open spec fn next_grid(g: Seq<Cell>, width: int, height: int) -> Seq<Cell> {
    Seq::new(g.len(), |i: int| next_cell_spec(g, width, height, i))
}

/// The grid after `n` generations.
pub open spec fn generation(g: Seq<Cell>, width: int, height: int, n: nat) -> Seq<Cell>
    decreases n,
{
    if n == 0 {
        g
    } else {
        next_grid(generation(g, width, height, (n - 1) as nat), width, height)
    }
}

proof fn lemma_index_in_grid(row: int, col: int, width: int, height: int)
    requires
        0 <= row < height,
        0 <= col < width,
    ensures
        0 <= row * width <= row * width + col < width * height,
{
    assert(0 <= row * width) by (nonlinear_arith)
        requires
            0 <= row,
            0 <= col < width,
    ;
    assert(row * width + col < width * height) by (nonlinear_arith)
        requires
            0 <= row < height,
            0 <= col < width,
    ;
}

proof fn lemma_row_col(i: int, width: int, height: int)
    requires
        0 <= i < width * height,
        width > 0,
    ensures
        0 <= i / width < height,
        0 <= i % width < width,
        (i / width) * width + i % width == i,
{
    vstd::arithmetic::div_mod::lemma_fundamental_div_mod(i, width);
    vstd::arithmetic::div_mod::lemma_div_pos_is_pos(i, width);
    vstd::arithmetic::div_mod::lemma_mod_bound(i, width);
    let q = i / width;
    vstd::arithmetic::mul::lemma_mul_is_commutative(width, q);
    assert(q < height) by (nonlinear_arith)
        requires
            q * width <= i,
            i < width * height,
            width > 0,
    ;
}

/// Whether the cell at `(row, col)` is alive.
fn alive_cell(grid: &Grid, width: usize, height: usize, row: usize, col: usize) -> (r: bool)
    requires
        grid@.len() == width * height,
        row < height,
        col < width,
    ensures
        r == (alive_at(grid@, width as int, height as int, row as int, col as int) == 1),
{
    let n = grid.len();
    proof {
        lemma_index_in_grid(row as int, col as int, width as int, height as int);
    }
    crate::cell::is_alive(&grid[row * width + col])
}

/// Counts the living cells among the neighbours of `(row, col)`, clipped at
/// the edges of the grid.
pub fn live_neighbour_count(grid: &Grid, width: usize, height: usize, row: usize, col: usize) -> (r: u8)
    requires
        grid@.len() == width * height,
        row < height,
        col < width,
    ensures
        r as int == neighbour_count(grid@, width as int, height as int, row as int, col as int),
{
    let ghost g = grid@;
    let ghost (w, h, i, j) = (width as int, height as int, row as int, col as int);
    let mut count: u8 = 0;
    if col > 0 {
        if row > 0 && alive_cell(grid, width, height, row - 1, col - 1) {
            count += 1;
        }
        if alive_cell(grid, width, height, row, col - 1) {
            count += 1;
        }
        if row + 1 < height && alive_cell(grid, width, height, row + 1, col - 1) {
            count += 1;
        }
    }
    assert(count == alive_at(g, w, h, i - 1, j - 1) + alive_at(g, w, h, i, j - 1) + alive_at(g, w, h, i + 1, j - 1));
    if col + 1 < width {
        if row > 0 && alive_cell(grid, width, height, row - 1, col + 1) {
            count += 1;
        }
        if alive_cell(grid, width, height, row, col + 1) {
            count += 1;
        }
        if row + 1 < height && alive_cell(grid, width, height, row + 1, col + 1) {
            count += 1;
        }
    }
    if row + 1 < height && alive_cell(grid, width, height, row + 1, col) {
        count += 1;
    }
    if row > 0 && alive_cell(grid, width, height, row - 1, col) {
        count += 1;
    }
    count
}

/// What the cell at `index` becomes in the next generation, read from the
/// unchanged snapshot `grid`.
pub fn next_cell_at(grid: &Grid, width: usize, height: usize, index: usize) -> (r: Cell)
    requires
        grid_wf(grid@, width as int, height as int),
        index < grid@.len(),
    ensures
        r == next_cell_spec(grid@, width as int, height as int, index as int),
{
    proof {
        lemma_row_col(index as int, width as int, height as int);
    }
    let row = index / width;
    let col = index % width;
    let count = live_neighbour_count(grid, width, height, row, col);
    next_state(grid[index], count)
}

/// A dead cell with exactly three living neighbours is born by
/// reproduction; with two or four it stays dead, its cause settled to
/// `Remains`.
pub proof fn lemma_reproduction(g: Seq<Cell>, width: int, height: int, i: int)
    requires
        grid_wf(g, width, height),
        0 <= i < g.len(),
        g[i] is Dead,
    ensures
        neighbour_count(g, width, height, i / width, i % width) == 3 ==> next_grid(g, width, height)[i]
            == Cell::Alive(LivingState::Reproduction),
        neighbour_count(g, width, height, i / width, i % width) == 2 ==> next_grid(g, width, height)[i]
            == Cell::Dead(DeathState::Remains),
        neighbour_count(g, width, height, i / width, i % width) == 4 ==> next_grid(g, width, height)[i]
            == Cell::Dead(DeathState::Remains),
{
}

/// A cell born in the last generation that survives (two or three living
/// neighbours) is next reported as `Alive(Remains)`.
pub proof fn lemma_survival_settles(g: Seq<Cell>, width: int, height: int, i: int)
    requires
        grid_wf(g, width, height),
        0 <= i < g.len(),
        g[i] == Cell::Alive(LivingState::Reproduction),
        2 <= neighbour_count(g, width, height, i / width, i % width) <= 3,
    ensures
        next_grid(g, width, height)[i] == Cell::Alive(LivingState::Remains),
{
}

/// After any number of generations the grid still holds exactly
/// `width * height` cells.
pub proof fn lemma_length_invariant(g: Seq<Cell>, width: int, height: int, n: nat)
    requires
        grid_wf(g, width, height),
    ensures
        grid_wf(generation(g, width, height, n), width, height),
    decreases n,
{
    if n > 0 {
        lemma_length_invariant(g, width, height, (n - 1) as nat);
    }
}

} // verus!
