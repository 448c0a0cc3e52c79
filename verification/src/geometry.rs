//! Runs of cells along one axis, and how rectangles made of two runs meet.

use vstd::prelude::*;

verus! {

/// A run of cells along one axis: where it starts and how many cells it holds.
pub type Range = (usize, usize);

/// The cell just past the end of a run.
pub open spec fn range_end(r: Range) -> int {
    r.0 + r.1
}

/// The half-open intervals `[a0, a1)` and `[b0, b1)` meet.
pub open spec fn spec_overlap(a0: int, a1: int, b0: int, b1: int) -> bool {
    a0 < b1 && b0 < a1
}

/// The rectangle `range_x` by `range_y` meets the rectangle `this_x` by `this_y`
/// on both axes.
pub open spec fn spec_in_range_range(
    range_x: Range,
    range_y: Range,
    this_x: Range,
    this_y: Range,
) -> bool {
    &&& spec_overlap(this_x.0 as int, range_end(this_x), range_x.0 as int, range_end(range_x))
    &&& spec_overlap(this_y.0 as int, range_end(this_y), range_y.0 as int, range_end(range_y))
}

/// The cell `(x, y)` lies in the rectangle `this_x` by `this_y`, the far edge
/// on each axis counted in.
pub open spec fn spec_in_range_single(x: usize, y: usize, this_x: Range, this_y: Range) -> bool {
    &&& this_x.0 <= x <= range_end(this_x)
    &&& this_y.0 <= y <= range_end(this_y)
}

/// A span of `blob_len` cells that starts at `reference` lies inside `range`.
pub open spec fn spec_blob_fit(reference: int, blob_len: int, range: Range) -> bool {
    range.0 <= reference && reference + blob_len <= range_end(range)
}

/// Whether two half-open intervals, each given by its two ends, meet.
pub fn overlap(a0: usize, a1: usize, b0: usize, b1: usize) -> (r: bool)
    ensures
        r == spec_overlap(a0 as int, a1 as int, b0 as int, b1 as int),
{
    a0 < b1 && b0 < a1
}

/// Whether `point` lies before the end of `run`, computed without ever forming
/// the end itself.
fn before_end(point: usize, run: Range) -> (r: bool)
    ensures
        r == (point < range_end(run)),
{
    point < run.0 || point - run.0 < run.1
}

/// Whether `point` lies at or before the end of `run`.
fn within_end(point: usize, run: Range) -> (r: bool)
    ensures
        r == (point <= range_end(run)),
{
    point < run.0 || point - run.0 <= run.1
}

/// Whether two rectangles meet. Exact for every input: no end is ever added up
/// in machine integers.
pub fn in_range_range(range_x: Range, range_y: Range, this_x: Range, this_y: Range) -> (r: bool)
    ensures
        r == spec_in_range_range(range_x, range_y, this_x, this_y),
{
    before_end(this_x.0, range_x) && before_end(range_x.0, this_x) && before_end(
        this_y.0,
        range_y,
    ) && before_end(range_y.0, this_y)
}

/// Whether a cell lies in a rectangle whose far edges count as inside.
pub fn in_range_single(x: usize, y: usize, this_x: Range, this_y: Range) -> (r: bool)
    ensures
        r == spec_in_range_single(x, y, this_x, this_y),
{
    !(x < this_x.0 || !within_end(x, this_x) || y < this_y.0 || !within_end(y, this_y))
}

/// Whether `blob_len` cells starting at `reference` stay inside `range`.
pub fn blob_fit(reference: usize, blob_len: usize, range: Range) -> (r: bool)
    ensures
        r == spec_blob_fit(reference as int, blob_len as int, range),
{
    reference >= range.0 && blob_len <= range.1 && reference - range.0 <= range.1 - blob_len
}

/// Meeting is symmetric: neither rectangle is the first.
pub proof fn in_range_range_symmetric(ax: Range, ay: Range, bx: Range, by: Range)
    ensures
        spec_in_range_range(ax, ay, bx, by) == spec_in_range_range(bx, by, ax, ay),
{
}

} // verus!
