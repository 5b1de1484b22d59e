//! Packs hierarchically described records into one flat buffer of uniform
//! elements and hands out typed read and write views over that packing.
//!
//! A packable type implements [`Contig`]: from a configuration it computes a
//! layout, and from a layout and a buffer slice of exactly the layout's length
//! it builds views. Offsets and lengths count elements, never bytes; parts are
//! packed densely, in declaration order, without padding.
//!
//! Contracts speak of a mutable view through the elements that it shows now
//! and the elements that its buffer holds once the view's borrow has ended.
//! Verified callers bring [`group_views_resolved`] into scope to learn that
//! the two agree when a view is dropped.

use vstd::prelude::*;

pub mod contig;
pub mod cursor;
pub mod dyn_array;
pub mod error;
pub mod na_types;
pub mod prelude;
pub mod record;
pub mod scalar;
pub mod vec3;

pub use contig::Contig;
pub use cursor::TakeCursor;
pub use dyn_array::{Dyn, DynArrayConfig, DynArrayConstView, DynArrayLayout, DynArrayMutView};
pub use error::LayoutError;
pub use na_types::{
    DynMatrixConfig, DynMatrixLayout, DynMatrixView, DynMatrixViewMut, DynVectorConfig,
    DynVectorLayout, DynVectorView, DynVectorViewMut, NaDMatrix, NaDVector, NaMatrixView,
    NaMatrixViewMut, NaVectorView, NaVectorViewMut, RawMatrixView, RawMatrixViewMut,
    RawVectorView, RawVectorViewMut,
};
pub use record::{Pair, PairConfig, PairConstView, PairLayout, PairMutView};
pub use scalar::ScalarLayout;
pub use vec3::{Vec3, Vec3Layout, Vec3View, Vec3ViewMut};

verus! {

/// For every mutable view of this crate: once a view is no longer used, the
/// region that it borrows is not written again, so what the view shows last
/// is what its buffer holds when the borrow ends.
pub broadcast group group_views_resolved {
    dyn_array::DynArrayMutView::lemma_resolved,
    record::PairMutView::lemma_resolved,
    vec3::Vec3ViewMut::lemma_resolved,
    na_types::DynVectorViewMut::lemma_resolved,
    na_types::DynMatrixViewMut::lemma_resolved,
}

} // verus!
