//! Grid-level laws of the transition rule: a still life, an oscillator,
//! the rule by cases, and the self-inverse edit.

use vstd::prelude::*;
use crate::model::cell_at;
use crate::model::index_of;
use crate::model::lemma_flat_split;
use crate::model::lemma_index_bound;
use crate::model::lemma_index_injective;
use crate::model::lemma_step_cell;
use crate::model::next_state;
use crate::model::step_spec;
use crate::model::toggled;
use crate::model::wrap_dec;
use crate::model::wrap_inc;

verus! {

/// Whether flat index `i` belongs to the 2x2 block whose top-left cell
/// is `(r, c)`.
pub open spec fn is_block_cell(width: nat, r: nat, c: nat, i: int) -> bool {
    ||| i == index_of(width, r, c)
    ||| i == index_of(width, r, c + 1)
    ||| i == index_of(width, r + 1, c)
    ||| i == index_of(width, r + 1, c + 1)
}

/// The grid holding exactly a 2x2 block of live cells at `(r, c)`.
pub open spec fn block_grid(width: nat, height: nat, r: nat, c: nat) -> Seq<bool> {
    Seq::new(width * height, |i: int| is_block_cell(width, r, c, i))
}

proof fn lemma_block_cell_at(width: nat, height: nat, r: nat, c: nat, rr: nat, cc: nat)
    requires
        r + 1 < height,
        c + 1 < width,
        rr < height,
        cc < width,
    ensures
        cell_at(block_grid(width, height, r, c), width, rr, cc) == ((rr == r || rr == r + 1) && (
        cc == c || cc == c + 1)),
{
    lemma_index_bound(width, height, rr, cc);
    let i = index_of(width, rr, cc) as int;
    if i == index_of(width, r, c) {
        lemma_index_injective(width, rr, cc, r, c);
    }
    if i == index_of(width, r, c + 1) {
        lemma_index_injective(width, rr, cc, r, c + 1);
    }
    if i == index_of(width, r + 1, c) {
        lemma_index_injective(width, rr, cc, r + 1, c);
    }
    if i == index_of(width, r + 1, c + 1) {
        lemma_index_injective(width, rr, cc, r + 1, c + 1);
    }
}

/// A 2x2 block of live cells, alone on a grid of at least 4 x 4, is a
/// still life: one step leaves the grid unchanged. Each block cell has
/// exactly three live neighbors, and no dead cell has three.
#[verifier::rlimit(100)]
pub proof fn lemma_block_still_life(width: nat, height: nat, r: nat, c: nat)
    requires
        width >= 4,
        height >= 4,
        r + 1 < height,
        c + 1 < width,
    ensures
        step_spec(block_grid(width, height, r, c), width, height) == block_grid(
            width,
            height,
            r,
            c,
        ),
{
    let g = block_grid(width, height, r, c);
    assert forall|i: int| 0 <= i < g.len() implies step_spec(g, width, height)[i] == g[i] by {
        lemma_flat_split(width, height, i);
        let row = (i / width as int) as nat;
        let col = (i % width as int) as nat;
        lemma_step_cell(g, width, height, row, col);
        let rn = wrap_dec(row, height);
        let rs = wrap_inc(row, height);
        let cw = wrap_dec(col, width);
        let ce = wrap_inc(col, width);
        lemma_block_cell_at(width, height, r, c, row, col);
        lemma_block_cell_at(width, height, r, c, rn, cw);
        lemma_block_cell_at(width, height, r, c, rn, col);
        lemma_block_cell_at(width, height, r, c, rn, ce);
        lemma_block_cell_at(width, height, r, c, row, cw);
        lemma_block_cell_at(width, height, r, c, row, ce);
        lemma_block_cell_at(width, height, r, c, rs, cw);
        lemma_block_cell_at(width, height, r, c, rs, col);
        lemma_block_cell_at(width, height, r, c, rs, ce);
    }
    assert(step_spec(g, width, height) =~= g);
}

/// Whether flat index `i` belongs to the horizontal blinker centered at
/// `(r, c)`: three live cells in a row.
pub open spec fn is_blinker_h_cell(width: nat, r: nat, c: nat, i: int) -> bool {
    ||| i == index_of(width, r, (c - 1) as nat)
    ||| i == index_of(width, r, c)
    ||| i == index_of(width, r, c + 1)
}

/// The grid holding exactly a horizontal blinker centered at `(r, c)`.
pub open spec fn blinker_h_grid(width: nat, height: nat, r: nat, c: nat) -> Seq<bool> {
    Seq::new(width * height, |i: int| is_blinker_h_cell(width, r, c, i))
}

/// Whether flat index `i` belongs to the vertical blinker centered at
/// `(r, c)`: three live cells in a column.
pub open spec fn is_blinker_v_cell(width: nat, r: nat, c: nat, i: int) -> bool {
    ||| i == index_of(width, (r - 1) as nat, c)
    ||| i == index_of(width, r, c)
    ||| i == index_of(width, r + 1, c)
}

/// The grid holding exactly a vertical blinker centered at `(r, c)`.
pub open spec fn blinker_v_grid(width: nat, height: nat, r: nat, c: nat) -> Seq<bool> {
    Seq::new(width * height, |i: int| is_blinker_v_cell(width, r, c, i))
}

proof fn lemma_blinker_h_cell_at(width: nat, height: nat, r: nat, c: nat, rr: nat, cc: nat)
    requires
        r < height,
        1 <= c,
        c + 1 < width,
        rr < height,
        cc < width,
    ensures
        cell_at(blinker_h_grid(width, height, r, c), width, rr, cc) == (rr == r && (cc + 1 == c
            || cc == c || cc == c + 1)),
{
    lemma_index_bound(width, height, rr, cc);
    let i = index_of(width, rr, cc) as int;
    if i == index_of(width, r, (c - 1) as nat) {
        lemma_index_injective(width, rr, cc, r, (c - 1) as nat);
    }
    if i == index_of(width, r, c) {
        lemma_index_injective(width, rr, cc, r, c);
    }
    if i == index_of(width, r, c + 1) {
        lemma_index_injective(width, rr, cc, r, c + 1);
    }
}

proof fn lemma_blinker_v_cell_at(width: nat, height: nat, r: nat, c: nat, rr: nat, cc: nat)
    requires
        1 <= r,
        r + 1 < height,
        c < width,
        rr < height,
        cc < width,
    ensures
        cell_at(blinker_v_grid(width, height, r, c), width, rr, cc) == (cc == c && (rr + 1 == r
            || rr == r || rr == r + 1)),
{
    lemma_index_bound(width, height, rr, cc);
    let i = index_of(width, rr, cc) as int;
    if i == index_of(width, (r - 1) as nat, c) {
        lemma_index_injective(width, rr, cc, (r - 1) as nat, c);
    }
    if i == index_of(width, r, c) {
        lemma_index_injective(width, rr, cc, r, c);
    }
    if i == index_of(width, r + 1, c) {
        lemma_index_injective(width, rr, cc, r + 1, c);
    }
}

/// One step turns a horizontal blinker, padded by dead cells on a grid of
/// at least 5 x 5, into the vertical blinker with the same center.
#[verifier::rlimit(100)]
pub proof fn lemma_blinker_h_step(width: nat, height: nat, r: nat, c: nat)
    requires
        2 <= r,
        r + 2 < height,
        2 <= c,
        c + 2 < width,
    ensures
        step_spec(blinker_h_grid(width, height, r, c), width, height) == blinker_v_grid(
            width,
            height,
            r,
            c,
        ),
{
    let g = blinker_h_grid(width, height, r, c);
    let v = blinker_v_grid(width, height, r, c);
    assert forall|i: int| 0 <= i < g.len() implies step_spec(g, width, height)[i] == v[i] by {
        lemma_flat_split(width, height, i);
        let row = (i / width as int) as nat;
        let col = (i % width as int) as nat;
        lemma_step_cell(g, width, height, row, col);
        let rn = wrap_dec(row, height);
        let rs = wrap_inc(row, height);
        let cw = wrap_dec(col, width);
        let ce = wrap_inc(col, width);
        lemma_blinker_h_cell_at(width, height, r, c, row, col);
        lemma_blinker_h_cell_at(width, height, r, c, rn, cw);
        lemma_blinker_h_cell_at(width, height, r, c, rn, col);
        lemma_blinker_h_cell_at(width, height, r, c, rn, ce);
        lemma_blinker_h_cell_at(width, height, r, c, row, cw);
        lemma_blinker_h_cell_at(width, height, r, c, row, ce);
        lemma_blinker_h_cell_at(width, height, r, c, rs, cw);
        lemma_blinker_h_cell_at(width, height, r, c, rs, col);
        lemma_blinker_h_cell_at(width, height, r, c, rs, ce);
        lemma_blinker_v_cell_at(width, height, r, c, row, col);
    }
    assert(step_spec(g, width, height) =~= v);
}

/// One step turns a vertical blinker, padded by dead cells on a grid of
/// at least 5 x 5, back into the horizontal blinker with the same center.
#[verifier::rlimit(100)]
pub proof fn lemma_blinker_v_step(width: nat, height: nat, r: nat, c: nat)
    requires
        2 <= r,
        r + 2 < height,
        2 <= c,
        c + 2 < width,
    ensures
        step_spec(blinker_v_grid(width, height, r, c), width, height) == blinker_h_grid(
            width,
            height,
            r,
            c,
        ),
{
    let g = blinker_v_grid(width, height, r, c);
    let hz = blinker_h_grid(width, height, r, c);
    assert forall|i: int| 0 <= i < g.len() implies step_spec(g, width, height)[i] == hz[i] by {
        lemma_flat_split(width, height, i);
        let row = (i / width as int) as nat;
        let col = (i % width as int) as nat;
        lemma_step_cell(g, width, height, row, col);
        let rn = wrap_dec(row, height);
        let rs = wrap_inc(row, height);
        let cw = wrap_dec(col, width);
        let ce = wrap_inc(col, width);
        lemma_blinker_v_cell_at(width, height, r, c, row, col);
        lemma_blinker_v_cell_at(width, height, r, c, rn, cw);
        lemma_blinker_v_cell_at(width, height, r, c, rn, col);
        lemma_blinker_v_cell_at(width, height, r, c, rn, ce);
        lemma_blinker_v_cell_at(width, height, r, c, row, cw);
        lemma_blinker_v_cell_at(width, height, r, c, row, ce);
        lemma_blinker_v_cell_at(width, height, r, c, rs, cw);
        lemma_blinker_v_cell_at(width, height, r, c, rs, col);
        lemma_blinker_v_cell_at(width, height, r, c, rs, ce);
        lemma_blinker_h_cell_at(width, height, r, c, row, col);
    }
    assert(step_spec(g, width, height) =~= hz);
}

/// A blinker oscillates with period two: one step turns the horizontal
/// form into the vertical one, and a second step restores the original
/// grid exactly.
pub proof fn lemma_blinker_period_two(width: nat, height: nat, r: nat, c: nat)
    requires
        2 <= r,
        r + 2 < height,
        2 <= c,
        c + 2 < width,
    ensures
        step_spec(blinker_h_grid(width, height, r, c), width, height) == blinker_v_grid(
            width,
            height,
            r,
            c,
        ),
        step_spec(
            step_spec(blinker_h_grid(width, height, r, c), width, height),
            width,
            height,
        ) == blinker_h_grid(width, height, r, c),
{
    lemma_blinker_h_step(width, height, r, c);
    lemma_blinker_v_step(width, height, r, c);
}

/// Underpopulation, survival, overpopulation, and birth, as the rule
/// decides them cell by cell.
pub proof fn lemma_transition_rule(alive: bool, neighbors: nat)
    ensures
        alive && neighbors < 2 ==> !next_state(alive, neighbors),
        alive && (neighbors == 2 || neighbors == 3) ==> next_state(alive, neighbors),
        alive && neighbors > 3 ==> !next_state(alive, neighbors),
        !alive ==> (next_state(alive, neighbors) <==> neighbors == 3),
{
}

/// Toggling one cell twice restores the grid exactly.
pub proof fn lemma_toggle_twice(g: Seq<bool>, i: int)
    requires
        0 <= i < g.len(),
    ensures
        toggled(toggled(g, i), i) == g,
{
    assert(toggled(toggled(g, i), i) =~= g);
}

} // verus!
