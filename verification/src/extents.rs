//! The size of a volume, and where each of its cells stands in memory.

use vstd::prelude::*;

verus! {

/// The size of a volume, in cells along each axis.
#[derive(Clone, Copy, PartialEq, Eq, Debug, Structural)]
pub struct Extents {
    pub width: u32,
    pub height: u32,
    pub depth: u32,
}

impl Extents {
    /// The number of cells.
    pub open spec fn cells(self) -> nat {
        (self.width * self.height * self.depth) as nat
    }

    /// Whether `(x, y, z)` names a cell.
    pub open spec fn holds(self, x: int, y: int, z: int) -> bool {
        0 <= x < self.width && 0 <= y < self.height && 0 <= z < self.depth
    }

    /// Where cell `(x, y, z)` stands in the volume's sequence of cells: `x`
    /// runs fastest, then `y`, then `z`.
    pub open spec fn index(self, x: int, y: int, z: int) -> int {
        (z * self.height + y) * self.width + x
    }

    /// Every cell has a place in the sequence.
    pub proof fn lemma_index_in_range(self, x: int, y: int, z: int)
        requires
            self.holds(x, y, z),
        ensures
            0 <= self.index(x, y, z) < self.cells(),
    {
        let w = self.width as int;
        let h = self.height as int;
        let d = self.depth as int;
        let row = z * h + y;
        assert(0 <= z * h && z * h <= (d - 1) * h) by (nonlinear_arith)
            requires
                0 <= z <= d - 1,
                0 <= h,
        ;
        assert((d - 1) * h == d * h - h) by (nonlinear_arith);
        assert(0 <= row <= d * h - 1);
        assert(0 <= row * w && row * w <= (d * h - 1) * w) by (nonlinear_arith)
            requires
                0 <= row <= d * h - 1,
                0 <= w,
        ;
        assert((d * h - 1) * w == w * h * d - w) by (nonlinear_arith);
    }

    /// No two cells share a place in the sequence.
    pub proof fn lemma_index_distinct(self, x: int, y: int, z: int, x2: int, y2: int, z2: int)
        requires
            self.holds(x, y, z),
            self.holds(x2, y2, z2),
            x != x2 || y != y2 || z != z2,
        ensures
            self.index(x, y, z) != self.index(x2, y2, z2),
    {
        let w = self.width as int;
        let h = self.height as int;
        let row = z * h + y;
        let row2 = z2 * h + y2;
        if row != row2 {
            assert(row * w + x != row2 * w + x2) by (nonlinear_arith)
                requires
                    row != row2,
                    0 <= x < w,
                    0 <= x2 < w,
            ;
        } else if z != z2 {
            assert(z * h + y != z2 * h + y2) by (nonlinear_arith)
                requires
                    z != z2,
                    0 <= y < h,
                    0 <= y2 < h,
            ;
        }
    }

    /// Every place in the sequence belongs to a cell.
    pub proof fn lemma_index_reaches(self, i: int) -> (at: (u32, u32, u32))
        requires
            0 <= i < self.cells(),
        ensures
            self.holds(at.0 as int, at.1 as int, at.2 as int),
            self.index(at.0 as int, at.1 as int, at.2 as int) == i,
    {
        let w = self.width as int;
        let h = self.height as int;
        let d = self.depth as int;
        assert(w > 0 && h > 0 && d > 0) by (nonlinear_arith)
            requires
                0 < w * h * d,
                0 <= w,
                0 <= h,
                0 <= d,
        ;
        let row = i / w;
        let x = i % w;
        vstd::arithmetic::div_mod::lemma_fundamental_div_mod(i, w);
        vstd::arithmetic::div_mod::lemma_mod_bound(i, w);
        vstd::arithmetic::div_mod::lemma_div_pos_is_pos(i, w);
        assert(w * h * d == w * (h * d)) by (nonlinear_arith);
        vstd::arithmetic::div_mod::lemma_multiply_divide_lt(i, w, h * d);
        let z = row / h;
        let y = row % h;
        vstd::arithmetic::div_mod::lemma_fundamental_div_mod(row, h);
        vstd::arithmetic::div_mod::lemma_mod_bound(row, h);
        vstd::arithmetic::div_mod::lemma_div_pos_is_pos(row, h);
        vstd::arithmetic::div_mod::lemma_multiply_divide_lt(row, h, d);
        assert(h * z == z * h) by (nonlinear_arith);
        assert(w * row == row * w) by (nonlinear_arith);
        (x as u32, y as u32, z as u32)
    }

    /// The number of cells, unless it is more than a `usize` holds.
    pub fn cell_count(&self) -> (n: Option<usize>)
        ensures
            match n {
                Some(count) => count == self.cells(),
                None => self.cells() > usize::MAX,
            },
    {
        assert(0 <= (self.width as int) * (self.height as int) <= 0x1_0000_0000_0000_0000)
            by (nonlinear_arith)
            requires
                0 <= self.width as int <= 0x1_0000_0000,
                0 <= self.height as int <= 0x1_0000_0000,
        ;
        let area: u128 = (self.width as u128) * (self.height as u128);
        assert(0 <= (area as int) * (self.depth as int) <= 0x1_0000_0000_0000_0000_0000_0000)
            by (nonlinear_arith)
            requires
                0 <= area as int <= 0x1_0000_0000_0000_0000,
                0 <= self.depth as int <= 0x1_0000_0000,
        ;
        let count: u128 = area * (self.depth as u128);
        if count <= usize::MAX as u128 {
            Some(count as usize)
        } else {
            None
        }
    }

    /// Whether `(x, y, z)` names a cell.
    pub fn contains(&self, x: u32, y: u32, z: u32) -> (inside: bool)
        ensures
            inside == self.holds(x as int, y as int, z as int),
    {
        x < self.width && y < self.height && z < self.depth
    }

    /// Where cell `(x, y, z)` stands in the volume's sequence of cells.
    pub fn offset(&self, x: u32, y: u32, z: u32) -> (i: usize)
        requires
            self.holds(x as int, y as int, z as int),
            self.cells() <= usize::MAX,
        ensures
            i == self.index(x as int, y as int, z as int),
            i < self.cells(),
    {
        proof {
            self.lemma_index_in_range(x as int, y as int, z as int);
        }
        assert(0 <= (z as int) * (self.height as int) <= 0x1_0000_0000_0000_0000)
            by (nonlinear_arith)
            requires
                0 <= z as int <= 0x1_0000_0000,
                0 <= self.height as int <= 0x1_0000_0000,
        ;
        let row: u128 = (z as u128) * (self.height as u128) + (y as u128);
        assert(0 <= (row as int) * (self.width as int) <= 0x2_0000_0000_0000_0000_0000_0000)
            by (nonlinear_arith)
            requires
                0 <= row as int <= 0x2_0000_0000_0000_0000,
                0 <= self.width as int <= 0x1_0000_0000,
        ;
        let place: u128 = row * (self.width as u128) + (x as u128);
        place as usize
    }
}

} // verus!
