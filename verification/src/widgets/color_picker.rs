//! The layout of the color picker: swatches in rows of five.

use vstd::prelude::*;

verus! {

/// The number of swatches in a row of the color picker.
pub const SWATCH_COLUMNS: usize = 5;

/// The grid cell `(row, column)` of the swatch at position `index` of the palette.
pub fn swatch_cell(index: usize) -> (r: (i32, i32))
    ensures
        r.0 == (index / SWATCH_COLUMNS) as i32,
        r.1 == index % SWATCH_COLUMNS,
{
    (#[verifier::truncate] ((index / SWATCH_COLUMNS) as i32), (index % SWATCH_COLUMNS) as i32)
}

} // verus!
