//! The grid engine: a toroidal Game of Life universe with bit-packed,
//! row-major cell storage.

use vstd::prelude::*;
use fixedbitset::FixedBitSet;
use crate::GridError;
use crate::bitgrid::bits_of;
use crate::bitgrid::fbs_as_slice;
use crate::bitgrid::fbs_clone;
use crate::bitgrid::fbs_contains;
use crate::bitgrid::fbs_set;
use crate::bitgrid::fbs_toggle;
use crate::bitgrid::fbs_with_capacity;
use crate::model::index_of;
use crate::model::lemma_index_bound;
use crate::model::lemma_size_bound;
use crate::model::lemma_step_cell;
use crate::model::neighbor_count;
use crate::model::set_live;
use crate::model::step_spec;
use crate::model::toggled;
use crate::model::wrap_dec;
use crate::model::wrap_inc;

verus! {

/// Which cells a glider seed lights, as flat indices modulo the grid size:
/// five offsets from a base index, wrapping around the end of the array.
pub open spec fn glider_cell(base: nat, width: nat, size: nat, i: int) -> bool {
    ||| i == (base + 1) as int % size as int
    ||| i == (base + 2 + width) as int % size as int
    ||| i == (base + 2 * width) as int % size as int
    ||| i == (base + 1 + 2 * width) as int % size as int
    ||| i == (base + 2 + 2 * width) as int % size as int
}

/// Which cells a middleweight-spaceship seed lights, as flat indices
/// modulo the grid size: eleven offsets from a base index.
pub open spec fn mwss_cell(base: nat, width: nat, size: nat, i: int) -> bool {
    ||| i == (base + 1) as int % size as int
    ||| i == (base + 2) as int % size as int
    ||| i == (base + 3) as int % size as int
    ||| i == (base + 4) as int % size as int
    ||| i == (base + 5) as int % size as int
    ||| i == (base + width) as int % size as int
    ||| i == (base + 5 + width) as int % size as int
    ||| i == (base + 5 + 2 * width) as int % size as int
    ||| i == (base + 3 * width) as int % size as int
    ||| i == (base + 4 + 3 * width) as int % size as int
    ||| i == (base + 2 + 4 * width) as int % size as int
}

/// A Game of Life grid on a torus: `width * height` cells, one bit each,
/// row-major, whose edges wrap for neighbor lookups.
pub struct Universe {
    width: u32,
    height: u32,
    cells: FixedBitSet,
}

impl Universe {
    /// The grid state: one boolean per cell, row-major.
    pub closed spec fn grid(self) -> Seq<bool> {
        bits_of(self.cells)
    }

    /// The grid width, in cells.
    pub closed spec fn spec_width(self) -> nat {
        self.width as nat
    }

    /// The grid height, in cells.
    pub closed spec fn spec_height(self) -> nat {
        self.height as nat
    }

    /// Well-formed: positive dimensions, a size that fits the machine,
    /// and exactly one bit per cell.
    pub open spec fn wf(self) -> bool {
        &&& self.spec_width() >= 1
        &&& self.spec_height() >= 1
        &&& self.spec_width() * self.spec_height() <= usize::MAX as nat
        &&& self.grid().len() == self.spec_width() * self.spec_height()
    }

    /// Flat row-major index of the cell at `(row, column)`.
    fn get_index(&self, row: u32, column: u32) -> (r: usize)
        requires
            self.wf(),
            row < self.spec_height(),
            column < self.spec_width(),
        ensures
            r == index_of(self.spec_width(), row as nat, column as nat),
            r < self.grid().len(),
    {
        proof {
            lemma_index_bound(self.spec_width(), self.spec_height(), row as nat, column as nat);
        }
        (row as usize) * (self.width as usize) + (column as usize)
    }

    /// How many of the 8 toroidal neighbors of `(row, column)` are alive.
    #[verifier::rlimit(60)]
    pub fn live_neighbor_count(&self, row: u32, column: u32) -> (count: u8)
        requires
            self.wf(),
            row < self.spec_height(),
            column < self.spec_width(),
        ensures
            count as nat == neighbor_count(
                self.grid(),
                self.spec_width(),
                self.spec_height(),
                row as nat,
                column as nat,
            ),
            count <= 8,
    {
        let north = if row == 0 { self.height - 1 } else { row - 1 };
        let south = if row == self.height - 1 { 0 } else { row + 1 };
        let east = if column == self.width - 1 { 0 } else { column + 1 };
        let west = if column == 0 { self.width - 1 } else { column - 1 };
        proof {
            assert(north as nat == wrap_dec(row as nat, self.spec_height()));
            assert(south as nat == wrap_inc(row as nat, self.spec_height()));
            assert(west as nat == wrap_dec(column as nat, self.spec_width()));
            assert(east as nat == wrap_inc(column as nat, self.spec_width()));
        }
        let mut count: u8 = 0;
        if fbs_contains(&self.cells, self.get_index(north, west)) {
            count += 1;
        }
        if fbs_contains(&self.cells, self.get_index(north, column)) {
            count += 1;
        }
        if fbs_contains(&self.cells, self.get_index(north, east)) {
            count += 1;
        }
        if fbs_contains(&self.cells, self.get_index(row, west)) {
            count += 1;
        }
        if fbs_contains(&self.cells, self.get_index(row, east)) {
            count += 1;
        }
        if fbs_contains(&self.cells, self.get_index(south, west)) {
            count += 1;
        }
        if fbs_contains(&self.cells, self.get_index(south, column)) {
            count += 1;
        }
        if fbs_contains(&self.cells, self.get_index(south, east)) {
            count += 1;
        }
        count
    }

    /// A 128 x 128 grid seeded with the deterministic default pattern:
    /// cell `i` is alive iff `i % 2 == 0` or `i % 7 == 0`.
    pub fn new() -> (u: Universe)
        ensures
            u.wf(),
            u.spec_width() == 128,
            u.spec_height() == 128,
            forall|i: int| 0 <= i < u.grid().len() ==> u.grid()[i] == (i % 2 == 0 || i % 7 == 0),
    {
        let size: usize = 128 * 128;
        let mut cells = fbs_with_capacity(size);
        let mut i: usize = 0;
        while i < size
            invariant
                size == 16384,
                i <= size,
                bits_of(cells).len() == size,
                forall|j: int| 0 <= j < i ==> bits_of(cells)[j] == (j % 2 == 0 || j % 7 == 0),
            decreases size - i,
        {
            fbs_set(&mut cells, i, i % 2 == 0 || i % 7 == 0);
            i += 1;
        }
        Universe { width: 128, height: 128, cells }
    }

    /// A 64 x 64 grid whose cells are taken one-for-one from `bits`, one
    /// boolean per cell in row-major order; meant to be fed from an
    /// external random source, one draw per cell.
    pub fn random(bits: &[bool]) -> (u: Universe)
        requires
            bits@.len() == 64 * 64,
        ensures
            u.wf(),
            u.spec_width() == 64,
            u.spec_height() == 64,
            u.grid() == bits@,
    {
        let size: usize = 64 * 64;
        let mut cells = fbs_with_capacity(size);
        let mut i: usize = 0;
        while i < size
            invariant
                size == 4096,
                bits@.len() == size,
                i <= size,
                bits_of(cells).len() == size,
                forall|j: int| 0 <= j < i ==> bits_of(cells)[j] == bits@[j],
            decreases size - i,
        {
            let alive = bits[i];
            fbs_set(&mut cells, i, alive);
            i += 1;
        }
        proof {
            assert(bits_of(cells) =~= bits@);
        }
        Universe { width: 64, height: 64, cells }
    }

    /// A 64 x 64 grid holding only a glider seed placed at a base flat
    /// index, each of its five cells taken modulo the grid size. A base
    /// near the end of the array wraps the shape discontinuously around
    /// the torus rather than rejecting the placement.
    pub fn glider(base: u32) -> (u: Universe)
        ensures
            u.wf(),
            u.spec_width() == 64,
            u.spec_height() == 64,
            forall|i: int|
                0 <= i < u.grid().len() ==> u.grid()[i] == glider_cell(base as nat, 64, 4096, i),
    {
        let size: usize = 64 * 64;
        let b: u64 = base as u64;
        let m: u64 = 4096;
        let mut cells = fbs_with_capacity(size);
        fbs_set(&mut cells, ((b + 1) % m) as usize, true);
        fbs_set(&mut cells, ((b + 2 + 64) % m) as usize, true);
        fbs_set(&mut cells, ((b + 2 * 64) % m) as usize, true);
        fbs_set(&mut cells, ((b + 1 + 2 * 64) % m) as usize, true);
        fbs_set(&mut cells, ((b + 2 + 2 * 64) % m) as usize, true);
        Universe { width: 64, height: 64, cells }
    }

    /// A 64 x 64 grid holding only a middleweight-spaceship seed placed
    /// at a base flat index, each of its eleven cells taken modulo the
    /// grid size, wrapping around the end of the array like the glider
    /// seed.
    pub fn middleweight_spaceship(base: u32) -> (u: Universe)
        ensures
            u.wf(),
            u.spec_width() == 64,
            u.spec_height() == 64,
            forall|i: int|
                0 <= i < u.grid().len() ==> u.grid()[i] == mwss_cell(base as nat, 64, 4096, i),
    {
        let size: usize = 64 * 64;
        let b: u64 = base as u64;
        let m: u64 = 4096;
        let mut cells = fbs_with_capacity(size);
        fbs_set(&mut cells, ((b + 1) % m) as usize, true);
        fbs_set(&mut cells, ((b + 2) % m) as usize, true);
        fbs_set(&mut cells, ((b + 3) % m) as usize, true);
        fbs_set(&mut cells, ((b + 4) % m) as usize, true);
        fbs_set(&mut cells, ((b + 5) % m) as usize, true);
        fbs_set(&mut cells, ((b + 64) % m) as usize, true);
        fbs_set(&mut cells, ((b + 5 + 64) % m) as usize, true);
        fbs_set(&mut cells, ((b + 5 + 2 * 64) % m) as usize, true);
        fbs_set(&mut cells, ((b + 3 * 64) % m) as usize, true);
        fbs_set(&mut cells, ((b + 4 + 3 * 64) % m) as usize, true);
        fbs_set(&mut cells, ((b + 2 + 4 * 64) % m) as usize, true);
        Universe { width: 64, height: 64, cells }
    }

    /// Advance the grid by exactly one generation. Every cell of the new
    /// grid is judged by the neighbor counts of the old one, and the grid
    /// is replaced only once the whole new generation is computed.
    pub fn tick(&mut self)
        requires
            old(self).wf(),
        ensures
            final(self).wf(),
            final(self).spec_width() == old(self).spec_width(),
            final(self).spec_height() == old(self).spec_height(),
            final(self).grid() == step_spec(
                old(self).grid(),
                old(self).spec_width(),
                old(self).spec_height(),
            ),
    {
        let mut next = fbs_clone(&self.cells);
        let mut row: u32 = 0;
        while row < self.height
            invariant
                *self == *old(self),
                self.wf(),
                row <= self.height,
                bits_of(next).len() == self.spec_width() * self.spec_height(),
                forall|i: int|
                    0 <= i < row as nat * self.spec_width() ==> bits_of(next)[i] == step_spec(
                        self.grid(),
                        self.spec_width(),
                        self.spec_height(),
                    )[i],
            decreases self.height - row,
        {
            let mut column: u32 = 0;
            while column < self.width
                invariant
                    *self == *old(self),
                    self.wf(),
                    row < self.spec_height(),
                    column <= self.width,
                    bits_of(next).len() == self.spec_width() * self.spec_height(),
                    forall|i: int|
                        0 <= i < row as nat * self.spec_width() + column as nat ==> bits_of(
                            next,
                        )[i] == step_spec(self.grid(), self.spec_width(), self.spec_height())[i],
                decreases self.width - column,
            {
                let idx = self.get_index(row, column);
                let cell = fbs_contains(&self.cells, idx);
                let n = self.live_neighbor_count(row, column);
                let next_cell = if cell {
                    n == 2 || n == 3
                } else {
                    n == 3
                };
                proof {
                    lemma_step_cell(
                        self.grid(),
                        self.spec_width(),
                        self.spec_height(),
                        row as nat,
                        column as nat,
                    );
                }
                fbs_set(&mut next, idx, next_cell);
                column += 1;
            }
            proof {
                assert((row as nat + 1) * self.spec_width() == row as nat * self.spec_width()
                    + self.spec_width()) by (nonlinear_arith);
            }
            row += 1;
        }
        proof {
            assert(bits_of(next) =~= step_spec(
                self.grid(),
                self.spec_width(),
                self.spec_height(),
            ));
        }
        self.cells = next;
    }

    /// The grid width, in cells.
    pub fn width(&self) -> (w: u32)
        ensures
            w as nat == self.spec_width(),
    {
        self.width
    }

    /// The grid height, in cells.
    pub fn height(&self) -> (h: u32)
        ensures
            h as nat == self.spec_height(),
    {
        self.height
    }

    /// The packed cell words: bit `i` of the grid sits in word `i / 32`
    /// at position `i % 32`. A read-only view, valid until the next
    /// mutating call.
    pub fn get_cells(&self) -> (r: &[u32])
        ensures
            r@.len() == (self.grid().len() + 31) / 32,
            forall|i: int|
                0 <= i < self.grid().len() ==> (self.grid()[i] == ((r@[i / 32] >> ((i % 32) as u32))
                    & 1u32 == 1u32)),
    {
        fbs_as_slice(&self.cells)
    }

    /// Set the grid width. A successful resize reallocates the cell
    /// array and clears every cell to dead; a zero width is rejected and
    /// leaves the grid untouched.
    pub fn set_width(&mut self, width: u32) -> (r: Result<(), GridError>)
        requires
            old(self).wf(),
            width as nat * old(self).spec_height() <= usize::MAX as nat,
        ensures
            match r {
                Ok(()) => {
                    &&& width >= 1
                    &&& final(self).wf()
                    &&& final(self).spec_width() == width as nat
                    &&& final(self).spec_height() == old(self).spec_height()
                    &&& forall|i: int| 0 <= i < final(self).grid().len() ==> !final(self).grid()[i]
                },
                Err(e) => {
                    &&& e == GridError::InvalidDimensions
                    &&& width == 0
                    &&& *final(self) == *old(self)
                },
            },
    {
        if width == 0 {
            return Err(GridError::InvalidDimensions);
        }
        proof {
            lemma_size_bound(width as nat, self.spec_height());
        }
        let size_words: u64 = (width as u64) * (self.height as u64);
        self.width = width;
        self.cells = fbs_with_capacity(size_words as usize);
        Ok(())
    }

    /// Set the grid height. A successful resize reallocates the cell
    /// array and clears every cell to dead; a zero height is rejected and
    /// leaves the grid untouched.
    pub fn set_height(&mut self, height: u32) -> (r: Result<(), GridError>)
        requires
            old(self).wf(),
            old(self).spec_width() * height as nat <= usize::MAX as nat,
        ensures
            match r {
                Ok(()) => {
                    &&& height >= 1
                    &&& final(self).wf()
                    &&& final(self).spec_width() == old(self).spec_width()
                    &&& final(self).spec_height() == height as nat
                    &&& forall|i: int| 0 <= i < final(self).grid().len() ==> !final(self).grid()[i]
                },
                Err(e) => {
                    &&& e == GridError::InvalidDimensions
                    &&& height == 0
                    &&& *final(self) == *old(self)
                },
            },
    {
        if height == 0 {
            return Err(GridError::InvalidDimensions);
        }
        proof {
            lemma_size_bound(self.spec_width(), height as nat);
        }
        let size_words: u64 = (self.width as u64) * (height as u64);
        self.height = height;
        self.cells = fbs_with_capacity(size_words as usize);
        Ok(())
    }

    /// Set each listed `(row, column)` cell alive, leaving every other
    /// cell as it was. If any coordinate is out of range, nothing is
    /// changed and `OutOfRange` is returned.
    pub fn set_cells(&mut self, coords: &[(u32, u32)]) -> (r: Result<(), GridError>)
        requires
            old(self).wf(),
        ensures
            final(self).wf(),
            final(self).spec_width() == old(self).spec_width(),
            final(self).spec_height() == old(self).spec_height(),
            match r {
                Ok(()) => {
                    &&& forall|k: int|
                        0 <= k < coords@.len() ==> ((coords@[k].0 as nat) < old(self).spec_height()
                            && (coords@[k].1 as nat) < old(self).spec_width())
                    &&& final(self).grid() == set_live(
                        old(self).grid(),
                        old(self).spec_width(),
                        coords@,
                    )
                },
                Err(e) => {
                    &&& e == GridError::OutOfRange
                    &&& exists|k: int|
                        0 <= k < coords@.len() && !((coords@[k].0 as nat) < old(self).spec_height()
                            && (coords@[k].1 as nat) < old(self).spec_width())
                    &&& *final(self) == *old(self)
                },
            },
    {
        let mut k: usize = 0;
        while k < coords.len()
            invariant
                *self == *old(self),
                self.wf(),
                k <= coords@.len(),
                forall|j: int|
                    0 <= j < k ==> ((coords@[j].0 as nat) < self.spec_height()
                        && (coords@[j].1 as nat) < self.spec_width()),
            decreases coords@.len() - k,
        {
            let (row, column) = coords[k];
            if !(row < self.height && column < self.width) {
                return Err(GridError::OutOfRange);
            }
            k += 1;
        }
        let mut k: usize = 0;
        while k < coords.len()
            invariant
                old(self).wf(),
                self.wf(),
                self.spec_width() == old(self).spec_width(),
                self.spec_height() == old(self).spec_height(),
                k <= coords@.len(),
                forall|j: int|
                    0 <= j < coords@.len() ==> ((coords@[j].0 as nat) < self.spec_height()
                        && (coords@[j].1 as nat) < self.spec_width()),
                bits_of(self.cells) == set_live(
                    old(self).grid(),
                    old(self).spec_width(),
                    coords@.take(k as int),
                ),
            decreases coords@.len() - k,
        {
            let (row, column) = coords[k];
            let idx = self.get_index(row, column);
            fbs_set(&mut self.cells, idx, true);
            proof {
                assert(coords@.take(k as int + 1).drop_last() =~= coords@.take(k as int));
                assert(coords@.take(k as int + 1).last() == coords@[k as int]);
            }
            k += 1;
        }
        proof {
            assert(coords@.take(coords@.len() as int) =~= coords@);
        }
        Ok(())
    }

    /// Flip the one cell at `(row, column)` between alive and dead. An
    /// out-of-range coordinate changes nothing and returns `OutOfRange`.
    pub fn toggle_cell(&mut self, row: u32, column: u32) -> (r: Result<(), GridError>)
        requires
            old(self).wf(),
        ensures
            final(self).wf(),
            final(self).spec_width() == old(self).spec_width(),
            final(self).spec_height() == old(self).spec_height(),
            match r {
                Ok(()) => {
                    &&& (row as nat) < old(self).spec_height()
                    &&& (column as nat) < old(self).spec_width()
                    &&& final(self).grid() == toggled(
                        old(self).grid(),
                        index_of(old(self).spec_width(), row as nat, column as nat) as int,
                    )
                },
                Err(e) => {
                    &&& e == GridError::OutOfRange
                    &&& !((row as nat) < old(self).spec_height() && (column as nat) < old(
                        self,
                    ).spec_width())
                    &&& *final(self) == *old(self)
                },
            },
    {
        if row < self.height && column < self.width {
            let idx = self.get_index(row, column);
            fbs_toggle(&mut self.cells, idx);
            Ok(())
        } else {
            Err(GridError::OutOfRange)
        }
    }
}

} // verus!
