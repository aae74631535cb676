//! Measures of the boxed terminal report.

use vstd::prelude::*;

verus! {

/// Inner width of a report box, in characters.
pub const BOX_WIDTH: usize = 61;

} // verus!
