//! Plain data carried by the picker's grid of results.
//!
//! The grid widget itself is presentation and lives outside the library;
//! these are the values it exchanges with the selection logic in `ui`.

use vstd::prelude::*;

verus! {

/// Per-item context handed to the grid's render function.
pub struct GridViewItemCtx {
    /// Position of the item within the grid's backing list.
    pub index: usize,
}

/// State the grid renders: the backing list and the selected index.
pub struct GridViewState<T> {
    pub items: T,
    pub x: usize,
}

} // verus!
