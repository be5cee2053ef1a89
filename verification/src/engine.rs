//! The Game of Life rule: one generation of a 2-D boolean grid to the next.
//!
//! A grid is a sequence of rows of cells; rows may differ in length. A
//! neighbor position outside the grid — a negative index, a row past the last
//! one, or a column past the end of that particular row — always counts as a
//! dead cell, never as an error.

use vstd::prelude::*;

verus! {

/// The mathematical contents of a grid: one sequence of booleans per row.
pub open spec fn grid_view(rows: Seq<Vec<bool>>) -> Seq<Seq<bool>> {
    rows.map_values(|row: Vec<bool>| row@)
}

/// True when (r, c) lies inside the grid and holds a live cell; every
/// out-of-bounds position counts as dead.
pub open spec fn alive_at(g: Seq<Seq<bool>>, r: int, c: int) -> bool {
    0 <= r < g.len() && 0 <= c < g[r].len() && g[r][c]
}

pub open spec fn one_if(b: bool) -> int {
    if b {
        1
    } else {
        0
    }
}

/// The number of live cells among the eight positions surrounding (r, c).
pub open spec fn neighbor_count(g: Seq<Seq<bool>>, r: int, c: int) -> int {
    one_if(alive_at(g, r - 1, c - 1)) + one_if(alive_at(g, r - 1, c)) + one_if(
        alive_at(g, r - 1, c + 1),
    ) + one_if(alive_at(g, r, c - 1)) + one_if(alive_at(g, r, c + 1)) + one_if(
        alive_at(g, r + 1, c - 1),
    ) + one_if(alive_at(g, r + 1, c)) + one_if(alive_at(g, r + 1, c + 1))
}

/// The rule for a single cell: a live cell survives with two or three live
/// neighbors and dies otherwise; a dead cell is born with exactly three.
pub open spec fn next_cell(alive: bool, neighbors: int) -> bool {
    if alive {
        neighbors == 2 || neighbors == 3
    } else {
        neighbors == 3
    }
}

/// Row r of the next generation; it keeps the length of row r of g.
pub open spec fn next_row(g: Seq<Seq<bool>>, r: int) -> Seq<bool> {
    Seq::new(g[r].len(), |c: int| next_cell(g[r][c], neighbor_count(g, r, c)))
}

/// The next generation: the same shape as g, every cell stepped by the rule,
/// each from generation-g data alone.
pub open spec fn next_generation(g: Seq<Seq<bool>>) -> Seq<Seq<bool>> {
    Seq::new(g.len(), |r: int| next_row(g, r))
}

/// Whether (row, col) holds a live cell, with out-of-range positions dead.
fn cell_alive(data: &[Vec<bool>], row: usize, col: usize) -> (b: bool)
    ensures
        b == alive_at(grid_view(data@), row as int, col as int),
{
    row < data.len() && col < data[row].len() && data[row][col]
}

/// Count the live neighbors of (row, col).
fn count_neighbors(data: &[Vec<bool>], row: usize, col: usize) -> (n: u8)
    requires
        row < data@.len(),
        col < data@[row as int]@.len(),
    ensures
        n as int == neighbor_count(grid_view(data@), row as int, col as int),
{
    // Reading the row's length pins it to usize, so col + 1 cannot overflow.
    let _row_len: usize = data[row].len();
    let mut n: u8 = 0;
    if row > 0 {
        if col > 0 && cell_alive(data, row - 1, col - 1) {
            n = n + 1;
        }
        if cell_alive(data, row - 1, col) {
            n = n + 1;
        }
        if cell_alive(data, row - 1, col + 1) {
            n = n + 1;
        }
    }
    if col > 0 && cell_alive(data, row, col - 1) {
        n = n + 1;
    }
    if cell_alive(data, row, col + 1) {
        n = n + 1;
    }
    if cell_alive(data, row + 1, col) {
        n = n + 1;
    }
    if col > 0 && cell_alive(data, row + 1, col - 1) {
        n = n + 1;
    }
    if cell_alive(data, row + 1, col + 1) {
        n = n + 1;
    }
    n
}

/// One row of the next generation, computed from the whole current grid.
pub fn next_state_of_line(data: &[Vec<bool>], row: usize) -> (line: Vec<bool>)
    requires
        row < data@.len(),
    ensures
        line@ == next_row(grid_view(data@), row as int),
{
    let width = data[row].len();
    let mut line: Vec<bool> = Vec::new();
    let mut i: usize = 0;
    while i < width
        invariant
            row < data@.len(),
            width == data@[row as int]@.len(),
            i <= width,
            line@.len() == i as int,
            forall|j: int|
                0 <= j < i as int ==> line@[j] == next_cell(
                    grid_view(data@)[row as int][j],
                    neighbor_count(grid_view(data@), row as int, j),
                ),
        decreases width - i,
    {
        let alive = data[row][i];
        let n = count_neighbors(data, row, i);
        let stepped = if alive {
            n == 2 || n == 3
        } else {
            n == 3
        };
        line.push(stepped);
        i = i + 1;
    }
    proof {
        assert(line@ =~= next_row(grid_view(data@), row as int));
    }
    line
}

/// The next generation of the whole grid. The input is only read, never
/// changed; the result has the same shape, row for row.
pub fn compute_next_generation(grid: &Vec<Vec<bool>>) -> (next: Vec<Vec<bool>>)
    ensures
        grid_view(next@) == next_generation(grid_view(grid@)),
{
    let mut next: Vec<Vec<bool>> = Vec::new();
    let mut r: usize = 0;
    while r < grid.len()
        invariant
            r <= grid@.len(),
            next@.len() == r as int,
            forall|k: int| 0 <= k < r as int ==> next@[k]@ == next_row(grid_view(grid@), k),
        decreases grid@.len() - r,
    {
        let line = next_state_of_line(grid.as_slice(), r);
        next.push(line);
        r = r + 1;
    }
    proof {
        assert(grid_view(next@) =~= next_generation(grid_view(grid@)));
    }
    next
}

/// The next generation keeps the shape of the grid it came from: the same
/// number of rows, and each row its own length.
pub proof fn lemma_next_generation_shape(g: Seq<Seq<bool>>)
    ensures
        next_generation(g).len() == g.len(),
        forall|r: int| 0 <= r < g.len() ==> #[trigger] next_generation(g)[r].len() == g[r].len(),
{
}

/// A position outside the grid — a negative index, a row past the last one,
/// or a column past the end of its own row — never counts as alive.
pub proof fn lemma_out_of_bounds_dead(g: Seq<Seq<bool>>, r: int, c: int)
    requires
        !(0 <= r < g.len() && 0 <= c < g[r].len()),
    ensures
        !alive_at(g, r, c),
{
}

/// A grid with no live cell at all steps to a grid with no live cell.
pub proof fn lemma_dead_grid_stays_dead(g: Seq<Seq<bool>>)
    requires
        forall|r: int, c: int| 0 <= r < g.len() && 0 <= c < g[r].len() ==> !(#[trigger] g[r][c]),
    ensures
        forall|r: int, c: int|
            0 <= r < g.len() && 0 <= c < g[r].len() ==> !(#[trigger] next_generation(g)[r][c]),
{
    assert forall|r: int, c: int|
        0 <= r < g.len() && 0 <= c < g[r].len() implies !(#[trigger] next_generation(g)[r][c]) by {
        assert forall|rr: int, cc: int| !alive_at(g, rr, cc) by {
            if 0 <= rr < g.len() && 0 <= cc < g[rr].len() {
                assert(!g[rr][cc]);
            }
        }
        assert(neighbor_count(g, r, c) == 0);
        assert(!alive_at(g, r, c));
    }
}

/// Underpopulation: a live cell with at most one live neighbor is dead in
/// the next generation.
pub proof fn lemma_underpopulation(g: Seq<Seq<bool>>, r: int, c: int)
    requires
        0 <= r < g.len(),
        0 <= c < g[r].len(),
        g[r][c],
        neighbor_count(g, r, c) <= 1,
    ensures
        !next_generation(g)[r][c],
{
}

/// Birth: a cell with exactly three live neighbors is alive in the next
/// generation, whatever its own state was.
pub proof fn lemma_three_neighbors_alive(g: Seq<Seq<bool>>, r: int, c: int)
    requires
        0 <= r < g.len(),
        0 <= c < g[r].len(),
        neighbor_count(g, r, c) == 3,
    ensures
        next_generation(g)[r][c],
{
}

/// Overpopulation: a cell with exactly four live neighbors is dead in the
/// next generation — a live one dies, a dead one stays dead.
pub proof fn lemma_four_neighbors_dead(g: Seq<Seq<bool>>, r: int, c: int)
    requires
        0 <= r < g.len(),
        0 <= c < g[r].len(),
        neighbor_count(g, r, c) == 4,
    ensures
        !next_generation(g)[r][c],
{
}

} // verus!
