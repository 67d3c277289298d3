//! The square grid on which a reset places the dynamic bodies.
//!
//! A grid of `n` by `n` bodies is walked row by row: body `k` stands in
//! column `k % n` of row `k / n`. Along either axis, index `i` lies at the
//! normalized coordinate `(i / n) * 2 - 1 + 1 / n`, which is the fraction
//! `(2 i + 1 - n) / n`: the centres of `n` equal cells that tile `[-1, 1]`.
//!
//! The host rounds those `n` fractions to scalars once and hands them over as
//! the layout's axis; which body gets which of them is decided here.

use vstd::prelude::*;
use vstd::arithmetic::div_mod::{lemma_fundamental_div_mod_converse, lemma_fundamental_div_mod};
use crate::scalar::{Scalar, Vec3};

verus! {

/// The largest grid side a layout may have: with it, the handle of every
/// body of the world still fits in 32 bits.
pub const MAX_PER_ROW: usize = 65535;

/// The grid side that the engine uses where nothing else is configured.
pub const DEFAULT_PER_ROW: u32 = 10;

/// An exact fraction `num / den` with a positive denominator.
#[derive(Clone, Copy, Debug, PartialEq, Eq, Structural)]
pub struct Ratio {
    pub num: i64,
    pub den: i64,
}

/// A position on the grid.
#[derive(Clone, Copy, Debug, PartialEq, Eq, Structural)]
pub struct GridCell {
    pub col: u32,
    pub row: u32,
}

/// The numerator of the coordinate of index `i` on an axis of `per_row`
/// cells; the denominator is `per_row`.
pub open spec fn coordinate_num(per_row: int, i: int) -> int {
    2 * i + 1 - per_row
}

/// The column of body `k` in a grid of side `per_row`.
pub open spec fn grid_col(per_row: int, k: int) -> int {
    k % per_row
}

/// The row of body `k` in a grid of side `per_row`.
pub open spec fn grid_row(per_row: int, k: int) -> int {
    k / per_row
}

/// Where body `k` is placed, given the scalars of the axis: its column picks
/// x, its row picks y, and z is zero.
pub open spec fn grid_translation(axis: Seq<Scalar>, k: int) -> Vec3 {
    Vec3 {
        x: axis[grid_col(axis.len() as int, k)],
        y: axis[grid_row(axis.len() as int, k)],
        z: Scalar::spec_zero(),
    }
}

/// The exact coordinate of index `i` on an axis of `per_row` cells, or
/// nothing if the axis has no such index.
pub fn coordinate(per_row: u32, i: u32) -> (c: Option<Ratio>)
    ensures
        c.is_some() == (i < per_row),
        c matches Some(r) ==> r.num == coordinate_num(per_row as int, i as int) && r.den
            == per_row,
{
    if i < per_row {
        let twice: i64 = 2 * (i as i64);
        Some(Ratio { num: twice + 1 - (per_row as i64), den: per_row as i64 })
    } else {
        None
    }
}

/// Every coordinate lies strictly inside `(-1, 1)`; coordinates grow with
/// the index, by two cells' halves each step; and the axis is symmetric
/// about zero.
pub proof fn lemma_coordinates(per_row: int, i: int)
    requires
        0 <= i < per_row,
    ensures
        -per_row < coordinate_num(per_row, i) < per_row,
        i + 1 < per_row ==> coordinate_num(per_row, i + 1) == coordinate_num(per_row, i) + 2,
        coordinate_num(per_row, per_row - 1 - i) == -coordinate_num(per_row, i),
        coordinate_num(per_row, 0) == 1 - per_row,
        coordinate_num(per_row, per_row - 1) == per_row - 1,
{
}

/// Row-major numbering is a bijection between the bodies `0 .. n * n` and
/// the cells of the grid.
pub proof fn lemma_row_major(per_row: int, k: int)
    requires
        0 < per_row,
        0 <= k < per_row * per_row,
    ensures
        0 <= grid_col(per_row, k) < per_row,
        0 <= grid_row(per_row, k) < per_row,
        grid_row(per_row, k) * per_row + grid_col(per_row, k) == k,
{
    lemma_fundamental_div_mod(k, per_row);
    let r = k / per_row;
    let c = k % per_row;
    assert(0 <= c < per_row);
    assert(k == per_row * r + c);
    assert(r < per_row) by (nonlinear_arith)
        requires
            k == per_row * r + c,
            0 <= c,
            k < per_row * per_row,
            0 < per_row,
    ;
    assert(0 <= r) by (nonlinear_arith)
        requires
            k == per_row * r + c,
            c < per_row,
            0 <= k,
            0 < per_row,
    ;
    assert(r * per_row == per_row * r) by (nonlinear_arith);
}

/// The body that stands in column `col` of row `row` is `row * n + col`.
pub proof fn lemma_cell_index(per_row: int, row: int, col: int)
    requires
        0 <= col < per_row,
        0 <= row < per_row,
    ensures
        0 <= row * per_row + col < per_row * per_row,
        grid_col(per_row, row * per_row + col) == col,
        grid_row(per_row, row * per_row + col) == row,
{
    assert(row * per_row + col < per_row * per_row) by (nonlinear_arith)
        requires
            0 <= col < per_row,
            0 <= row < per_row,
    ;
    assert(0 <= row * per_row + col) by (nonlinear_arith)
        requires
            0 <= col,
            0 <= row,
            0 < per_row,
    ;
    assert(row * per_row == per_row * row) by (nonlinear_arith);
    lemma_fundamental_div_mod_converse(row * per_row + col, per_row, row, col);
}

/// The scalars of one axis of the grid, index by index. The same axis is
/// used for x and for y.
#[derive(Debug)]
pub struct GridLayout {
    axis: Vec<Scalar>,
}

impl View for GridLayout {
    type V = Seq<Scalar>;

    closed spec fn view(&self) -> Seq<Scalar> {
        self.axis@
    }
}

impl GridLayout {
    /// Whether an axis of this length makes a layout.
    pub open spec fn valid_side(len: int) -> bool {
        1 <= len <= MAX_PER_ROW
    }

    /// The invariant: the side is at least one and at most `MAX_PER_ROW`.
    pub open spec fn wf(&self) -> bool {
        Self::valid_side(self@.len() as int)
    }

    /// The layout with the given axis, if its length is a valid side.
    pub fn from_axis(axis: Vec<Scalar>) -> (layout: Option<GridLayout>)
        ensures
            layout.is_some() == Self::valid_side(axis@.len() as int),
            layout matches Some(l) ==> l@ == axis@ && l.wf(),
    {
        if 1 <= axis.len() && axis.len() <= MAX_PER_ROW {
            Some(GridLayout { axis })
        } else {
            None
        }
    }

    /// A second layout with the same axis.
    pub fn duplicate(&self) -> (copy: GridLayout)
        ensures
            copy@ == self@,
    {
        let mut axis: Vec<Scalar> = Vec::new();
        let mut i: usize = 0;
        while i < self.axis.len()
            invariant
                i <= self.axis.len(),
                axis@ == self.axis@.take(i as int),
            decreases self.axis.len() - i,
        {
            axis.push(self.axis[i]);
            assert(self.axis@.take(i + 1) =~= self.axis@.take(i as int).push(self.axis@[i as int]));
            i += 1;
        }
        assert(self.axis@.take(self.axis@.len() as int) =~= self.axis@);
        GridLayout { axis }
    }

    /// The grid's side.
    pub fn per_row(&self) -> (n: u32)
        requires
            self.wf(),
        ensures
            n == self@.len(),
    {
        self.axis.len() as u32
    }

    /// The number of bodies on the grid: the square of the side.
    pub fn body_count(&self) -> (count: u32)
        requires
            self.wf(),
        ensures
            count == self@.len() * self@.len(),
    {
        let n: u32 = self.axis.len() as u32;
        assert(n * n <= 65535 * 65535) by (nonlinear_arith)
            requires
                n <= 65535,
        ;
        n * n
    }

    /// The scalars of the axis, index by index.
    pub fn axis(&self) -> (axis: &Vec<Scalar>)
        ensures
            axis@ == self@,
    {
        &self.axis
    }

    /// The scalar at index `i` of the axis, if there is one.
    pub fn axis_value(&self, i: u32) -> (value: Option<Scalar>)
        ensures
            value.is_some() == (i < self@.len()),
            value matches Some(v) ==> v == self@[i as int],
    {
        if (i as usize) < self.axis.len() {
            Some(self.axis[i as usize])
        } else {
            None
        }
    }

    /// The cell of body `k`, if the grid has that many bodies.
    pub fn cell(&self, k: u32) -> (cell: Option<GridCell>)
        requires
            self.wf(),
        ensures
            cell.is_some() == (k < self@.len() * self@.len()),
            cell matches Some(c) ==> c.col == grid_col(self@.len() as int, k as int) && c.row
                == grid_row(self@.len() as int, k as int) && c.col < self@.len() && c.row
                < self@.len(),
    {
        let n = self.per_row();
        let count = self.body_count();
        if k < count {
            proof {
                lemma_row_major(n as int, k as int);
            }
            Some(GridCell { col: k % n, row: k / n })
        } else {
            None
        }
    }

    /// The body that stands in `cell`, if the cell is on the grid.
    pub fn index_of(&self, cell: GridCell) -> (k: Option<u32>)
        requires
            self.wf(),
        ensures
            k.is_some() == (cell.col < self@.len() && cell.row < self@.len()),
            k matches Some(i) ==> i == cell.row * self@.len() + cell.col && i < self@.len()
                * self@.len(),
    {
        let n = self.per_row();
        if cell.col < n && cell.row < n {
            proof {
                lemma_cell_index(n as int, cell.row as int, cell.col as int);
            }
            assert(cell.row * n <= 65535 * 65535) by (nonlinear_arith)
                requires
                    cell.row < n,
                    n <= 65535,
            ;
            Some(cell.row * n + cell.col)
        } else {
            None
        }
    }

    /// Where body `k` is placed, if the grid has that many bodies.
    pub fn translation(&self, k: u32) -> (t: Option<Vec3>)
        requires
            self.wf(),
        ensures
            t.is_some() == (k < self@.len() * self@.len()),
            t matches Some(v) ==> v == grid_translation(self@, k as int),
    {
        match self.cell(k) {
            Some(cell) => Some(
                Vec3 {
                    x: self.axis[cell.col as usize],
                    y: self.axis[cell.row as usize],
                    z: Scalar::zero(),
                },
            ),
            None => None,
        }
    }
}

} // verus!
