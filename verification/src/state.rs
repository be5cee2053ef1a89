//! The single current grid and its display text.
//!
//! `CurrentState` owns exactly one grid at a time. Every step replaces the
//! stored grid with a complete new generation — no partial update is ever
//! stored. Rendering writes one character per cell, 'o' for a live cell and a
//! space for a dead one, with rows joined by newline and no trailing newline;
//! an empty grid renders as the empty string.

use crate::engine::{compute_next_generation, grid_view, next_generation};
use vstd::prelude::*;

verus! {

/// One character per cell: 'o' for a live cell, ' ' for a dead one.
pub open spec fn render_row_text(row: Seq<bool>) -> Seq<char> {
    Seq::new(
        row.len(),
        |c: int|
            if row[c] {
                'o'
            } else {
                ' '
            },
    )
}

/// The display text of a grid: each row rendered, rows joined by a single
/// newline, nothing after the last row.
pub open spec fn render_grid_text(g: Seq<Seq<bool>>) -> Seq<char>
    decreases g.len(),
{
    if g.len() == 0 {
        Seq::empty()
    } else if g.len() == 1 {
        render_row_text(g[0])
    } else {
        render_grid_text(g.drop_last()) + seq!['\n'] + render_row_text(g.last())
    }
}

/// The display text of one row of cells.
#[verifier::loop_isolation(false)]
fn render_line_text(row: &Vec<bool>) -> (s: String)
    ensures
        s@ == render_row_text(row@),
{
    let mut s = String::new();
    proof {
        reveal_strlit("o");
        reveal_strlit(" ");
        assert("o"@ =~= seq!['o']);
        assert(" "@ =~= seq![' ']);
    }
    let mut c: usize = 0;
    while c < row.len()
        invariant
            c <= row@.len(),
            s@.len() == c as int,
            forall|j: int|
                0 <= j < c as int ==> s@[j] == (if row@[j] {
                    'o'
                } else {
                    ' '
                }),
        decreases row@.len() - c,
    {
        if row[c] {
            s.append("o");
        } else {
            s.append(" ");
        }
        c = c + 1;
    }
    proof {
        assert(s@ =~= render_row_text(row@));
    }
    s
}

/// The display text of a whole grid.
#[verifier::loop_isolation(false)]
fn render_cells_text(grid: &Vec<Vec<bool>>) -> (out: String)
    ensures
        out@ == render_grid_text(grid_view(grid@)),
{
    let ghost gv = grid_view(grid@);
    let mut out = String::new();
    proof {
        reveal_strlit("\n");
        assert("\n"@ =~= seq!['\n']);
    }
    let mut r: usize = 0;
    while r < grid.len()
        invariant
            r <= grid@.len(),
            out@ == render_grid_text(gv.subrange(0, r as int)),
        decreases grid@.len() - r,
    {
        if r > 0 {
            out.append("\n");
        }
        let line = render_line_text(&grid[r]);
        out.append(line.as_str());
        proof {
            let stepped = gv.subrange(0, r as int + 1);
            assert(stepped.drop_last() =~= gv.subrange(0, r as int));
            assert(stepped.last() == gv[r as int]);
            assert(out@ =~= render_grid_text(stepped));
        }
        r = r + 1;
    }
    proof {
        assert(gv.subrange(0, grid@.len() as int) =~= gv);
    }
    out
}

/// The one grid this process serves, replaced wholesale on every step.
pub struct CurrentState {
    pub states: Vec<Vec<bool>>,
}

impl CurrentState {
    /// A state holding no rows at all; it renders as the empty string.
    pub fn new() -> (s: CurrentState)
        ensures
            s.states@.len() == 0,
    {
        CurrentState { states: Vec::new() }
    }

    /// Render the stored grid as display text without advancing it.
    pub fn to_string(&self) -> (out: String)
        ensures
            out@ == render_grid_text(grid_view(self.states@)),
    {
        render_cells_text(&self.states)
    }

    /// Advance the supplied grid one generation, store the result as the new
    /// current grid, and return the new grid's display text.
    pub fn refresh_cells(&mut self, req: &Vec<Vec<bool>>) -> (out: String)
        ensures
            grid_view(final(self).states@) == next_generation(grid_view(req@)),
            out@ == render_grid_text(next_generation(grid_view(req@))),
    {
        let next = compute_next_generation(req);
        self.states = next;
        self.to_string()
    }

    /// Advance the stored grid one generation and return the new display text.
    pub fn next_state(&mut self) -> (out: String)
        ensures
            grid_view(final(self).states@) == next_generation(grid_view(old(self).states@)),
            out@ == render_grid_text(next_generation(grid_view(old(self).states@))),
    {
        let next = compute_next_generation(&self.states);
        self.states = next;
        self.to_string()
    }

    /// Convert an integer grid — 1 means alive, any other value dead — and
    /// advance it as `refresh_cells` does.
    pub fn refresh_digit_cells(&mut self, req: &Vec<Vec<i32>>) -> (out: String)
        ensures
            grid_view(final(self).states@) == next_generation(
                cells_of_digits(digit_grid_view(req@)),
            ),
            out@ == render_grid_text(next_generation(cells_of_digits(digit_grid_view(req@)))),
    {
        let cells = digit_grid_to_cells(req);
        self.refresh_cells(&cells)
    }

    /// Render the stored grid; a read-only query, the grid does not advance.
    pub fn current_state(&self) -> (out: String)
        ensures
            out@ == render_grid_text(grid_view(self.states@)),
    {
        self.to_string()
    }
}

/// The mathematical contents of an integer grid.
pub open spec fn digit_grid_view(rows: Seq<Vec<i32>>) -> Seq<Seq<i32>> {
    rows.map_values(|row: Vec<i32>| row@)
}

/// The boolean grid an integer grid stands for: 1 is alive, all else dead.
pub open spec fn cells_of_digits(d: Seq<Seq<i32>>) -> Seq<Seq<bool>> {
    Seq::new(d.len(), |r: int| Seq::new(d[r].len(), |c: int| d[r][c] == 1))
}

/// Convert an integer grid to the boolean grid it stands for.
#[verifier::loop_isolation(false)]
pub fn digit_grid_to_cells(req: &Vec<Vec<i32>>) -> (cells: Vec<Vec<bool>>)
    ensures
        grid_view(cells@) == cells_of_digits(digit_grid_view(req@)),
{
    let mut cells: Vec<Vec<bool>> = Vec::new();
    let mut r: usize = 0;
    while r < req.len()
        invariant
            r <= req@.len(),
            cells@.len() == r as int,
            forall|k: int|
                0 <= k < r as int ==> cells@[k]@ == cells_of_digits(digit_grid_view(req@))[k],
        decreases req@.len() - r,
    {
        let row = &req[r];
        let mut line: Vec<bool> = Vec::new();
        let mut c: usize = 0;
        while c < row.len()
            invariant
                c <= row@.len(),
                line@.len() == c as int,
                forall|j: int| 0 <= j < c as int ==> line@[j] == (row@[j] == 1),
            decreases row@.len() - c,
        {
            line.push(row[c] == 1);
            c = c + 1;
        }
        proof {
            assert(line@ =~= cells_of_digits(digit_grid_view(req@))[r as int]);
        }
        cells.push(line);
        r = r + 1;
    }
    proof {
        assert(grid_view(cells@) =~= cells_of_digits(digit_grid_view(req@)));
    }
    cells
}

} // verus!
