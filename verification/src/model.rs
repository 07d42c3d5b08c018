//! Mathematical model of the toroidal grid and the transition rule.
//!
//! A grid state is a `Seq<bool>` of length `width * height`, row-major:
//! the cell at `(row, col)` sits at index `row * width + col`. All neighbor
//! arithmetic wraps around the edges.

use vstd::prelude::*;
use vstd::arithmetic::div_mod::lemma_fundamental_div_mod_converse_div;
use vstd::arithmetic::div_mod::lemma_fundamental_div_mod_converse_mod;
use vstd::arithmetic::div_mod::lemma_fundamental_div_mod;

verus! {

/// 1 for a live cell, 0 for a dead one.
pub open spec fn live(b: bool) -> nat {
    if b { 1nat } else { 0nat }
}

/// The predecessor of `i` on a cycle of length `n`.
pub open spec fn wrap_dec(i: nat, n: nat) -> nat {
    if i == 0 { (n - 1) as nat } else { (i - 1) as nat }
}

/// The successor of `i` on a cycle of length `n`.
pub open spec fn wrap_inc(i: nat, n: nat) -> nat {
    if i + 1 == n { 0nat } else { i + 1 }
}

/// Row-major index of the cell at `(row, col)` on a grid `width` wide.
pub open spec fn index_of(width: nat, row: nat, col: nat) -> nat {
    row * width + col
}

/// The cell at `(row, col)` of a row-major grid state.
pub open spec fn cell_at(g: Seq<bool>, width: nat, row: nat, col: nat) -> bool {
    g[index_of(width, row, col) as int]
}

/// Number of live cells among the 8 toroidal neighbors of `(row, col)`.
pub open spec fn neighbor_count(g: Seq<bool>, width: nat, height: nat, row: nat, col: nat) -> nat {
    let north = wrap_dec(row, height);
    let south = wrap_inc(row, height);
    let west = wrap_dec(col, width);
    let east = wrap_inc(col, width);
    live(cell_at(g, width, north, west)) + live(cell_at(g, width, north, col))
        + live(cell_at(g, width, north, east)) + live(cell_at(g, width, row, west))
        + live(cell_at(g, width, row, east)) + live(cell_at(g, width, south, west))
        + live(cell_at(g, width, south, col)) + live(cell_at(g, width, south, east))
}

/// The standard rule: a live cell survives with 2 or 3 live neighbors,
/// a dead cell is born with exactly 3; every other cell is dead next.
pub open spec fn next_state(alive: bool, neighbors: nat) -> bool {
    if alive {
        neighbors == 2 || neighbors == 3
    } else {
        neighbors == 3
    }
}

/// One generation: every cell transitions at once, each judged by the
/// neighbor counts of the state before the step.
pub open spec fn step_spec(g: Seq<bool>, width: nat, height: nat) -> Seq<bool> {
    Seq::new(
        g.len(),
        |i: int|
            next_state(
                g[i],
                neighbor_count(g, width, height, (i / width as int) as nat, (i % width as int) as nat),
            ),
    )
}

/// The grid with the cell at flat index `i` inverted.
pub open spec fn toggled(g: Seq<bool>, i: int) -> Seq<bool> {
    g.update(i, !g[i])
}

/// The grid after setting each listed `(row, col)` cell alive, in order.
pub open spec fn set_live(g: Seq<bool>, width: nat, coords: Seq<(u32, u32)>) -> Seq<bool>
    decreases coords.len(),
{
    if coords.len() == 0 {
        g
    } else {
        let prev = set_live(g, width, coords.drop_last());
        let last = coords.last();
        prev.update(index_of(width, last.0 as nat, last.1 as nat) as int, true)
    }
}

/// A cell's row-major index lies below the grid size.
pub proof fn lemma_index_bound(width: nat, height: nat, row: nat, col: nat)
    requires
        row < height,
        col < width,
    ensures
        row * width + col < width * height,
{
    assert(row * width + col < width * height) by (nonlinear_arith)
        requires
            row < height,
            col < width,
    ;
}

/// A grid whose sides fit in 32 bits has a size that fits in 64.
pub proof fn lemma_size_bound(width: nat, height: nat)
    requires
        width < 0x1_0000_0000,
        height < 0x1_0000_0000,
    ensures
        width * height < 0x1_0000_0000_0000_0000,
{
    assert(width * height < 0x1_0000_0000_0000_0000) by (nonlinear_arith)
        requires
            width < 0x1_0000_0000,
            height < 0x1_0000_0000,
    ;
}

/// Row-major indexing is injective on in-range columns.
pub proof fn lemma_index_injective(width: nat, r1: nat, c1: nat, r2: nat, c2: nat)
    requires
        c1 < width,
        c2 < width,
        r1 * width + c1 == r2 * width + c2,
    ensures
        r1 == r2,
        c1 == c2,
{
    assert(r1 == r2 && c1 == c2) by (nonlinear_arith)
        requires
            c1 < width,
            c2 < width,
            r1 * width + c1 == r2 * width + c2,
    ;
}

/// Division and remainder by the width recover a cell's row and column.
pub proof fn lemma_index_div_mod(width: nat, row: nat, col: nat)
    requires
        col < width,
    ensures
        (row * width + col) as int / width as int == row,
        (row * width + col) as int % width as int == col,
{
    lemma_fundamental_div_mod_converse_div(
        (row * width + col) as int,
        width as int,
        row as int,
        col as int,
    );
    lemma_fundamental_div_mod_converse_mod(
        (row * width + col) as int,
        width as int,
        row as int,
        col as int,
    );
}

/// Every flat index below `width * height` splits into an in-range row
/// and column, of which it is the row-major index.
pub proof fn lemma_flat_split(width: nat, height: nat, i: int)
    requires
        width >= 1,
        0 <= i < width * height,
    ensures
        0 <= (i / width as int) < height,
        0 <= (i % width as int) < width,
        i == (i / width as int) * width + i % width as int,
{
    lemma_fundamental_div_mod(i, width as int);
    assert((i / width as int) * width == width * (i / width as int)) by (nonlinear_arith);
    assert((i / width as int) < height) by (nonlinear_arith)
        requires
            width >= 1,
            0 <= i < width * height,
            i == width * (i / width as int) + i % width as int,
            0 <= (i % width as int) < width,
    ;
}

/// What one step makes of the cell at `(row, col)`: the transition rule
/// applied to its own state and its toroidal neighbor count.
pub proof fn lemma_step_cell(g: Seq<bool>, width: nat, height: nat, row: nat, col: nat)
    requires
        g.len() == width * height,
        row < height,
        col < width,
    ensures
        step_spec(g, width, height)[index_of(width, row, col) as int] == next_state(
            cell_at(g, width, row, col),
            neighbor_count(g, width, height, row, col),
        ),
{
    lemma_index_bound(width, height, row, col);
    lemma_index_div_mod(width, row, col);
}

} // verus!
