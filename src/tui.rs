//! Terminal geometry.
use vstd::prelude::*;

verus! {

/// A rectangular size in number of columns and rows.
#[derive(Clone, Copy, Debug, PartialEq, Eq, Structural)]
pub struct Size {
    /// Number of columns
    pub width: u16,
    /// Number of rows
    pub height: u16,
}

} // verus!
