//! Storage of the alignment body: a dense two-dimensional byte grid, kept in
//! an `ndarray` array exactly as rows are handed in. The grid's contents are
//! named by `grid_rows_of` (the rows, oldest first) and `grid_cols_of` (the
//! column count fixed at creation); every access goes through the wrappers
//! below, whose contracts speak over those two names.

use vstd::prelude::*;

verus! {

/// A byte matrix backed by `ndarray::Array2<u8>`. The array is opaque to the
/// verifier (declaring `ndarray::ArrayBase` directly founders on its `RawData`
/// bound), so it is held whole in this hidden struct and reached only through
/// the wrappers below.
#[verifier::external_body]
pub struct SymbolGrid {
    inner: ndarray::Array2<u8>,
}

/// The rows the grid holds, in the order they were pushed.
pub uninterp spec fn grid_rows_of(g: SymbolGrid) -> Seq<Seq<u8>>;

/// The column count the grid was created with; every held row has this length.
pub uninterp spec fn grid_cols_of(g: SymbolGrid) -> nat;

/// Relies on ndarray::Array2::zeros: a fresh array with zero rows and
/// `width` columns holds no row at all.
#[verifier::external_body]
pub(crate) fn grid_new(width: usize) -> (g: SymbolGrid)
    ensures
        grid_rows_of(g) == Seq::<Seq<u8>>::empty(),
        grid_cols_of(g) == width,
{
    SymbolGrid { inner: ndarray::Array2::zeros((0, width)) }
}

/// Relies on ndarray::ArrayBase::push_row: appending a row whose length
/// equals the column count succeeds and adds exactly that row at the end.
#[verifier::external_body]
pub(crate) fn grid_push_row(g: &mut SymbolGrid, row: &Vec<u8>)
    requires
        row@.len() == grid_cols_of(*old(g)),
    ensures
        grid_rows_of(*final(g)) == grid_rows_of(*old(g)).push(row@),
        grid_cols_of(*final(g)) == grid_cols_of(*old(g)),
{
    g.inner.push_row(ndarray::ArrayView::from(row.as_slice())).unwrap();
}

/// Relies on ndarray::ArrayBase::nrows: the number of rows held.
#[verifier::external_body]
pub(crate) fn grid_nrows(g: &SymbolGrid) -> (n: usize)
    ensures
        n == grid_rows_of(*g).len(),
{
    g.inner.nrows()
}

/// Relies on ndarray::ArrayBase::ncols: the column count.
#[verifier::external_body]
pub(crate) fn grid_ncols(g: &SymbolGrid) -> (n: usize)
    ensures
        n == grid_cols_of(*g),
{
    g.inner.ncols()
}

/// Relies on indexing (ndarray's `Index` impl): the element at row `r`,
/// column `c` of the grid.
#[verifier::external_body]
pub(crate) fn grid_at(g: &SymbolGrid, r: usize, c: usize) -> (b: u8)
    requires
        r < grid_rows_of(*g).len(),
        c < grid_rows_of(*g)[r as int].len(),
    ensures
        b == grid_rows_of(*g)[r as int][c as int],
{
    g.inner[[r, c]]
}

} // verus!
