//! The ways in which computing a layout can fail.

use vstd::prelude::*;

verus! {

/// Why a layout could not be computed. A failed computation returns no
/// partial layout.
#[derive(Clone, Copy, Debug, PartialEq, Eq)]
pub enum LayoutError {
    /// A computed or requested footprint exceeds the largest index.
    Overflow,
    /// A configuration value is structurally invalid for its adapter; the
    /// text says why.
    InvalidSize(&'static str),
}

} // verus!
