//! Convenience re-exports for building contiguous layouts.

pub use crate::contig::Contig;
pub use crate::cursor::TakeCursor;
pub use crate::dyn_array::{
    Dyn, DynArrayConfig, DynArrayConstView, DynArrayLayout, DynArrayMutView,
};
pub use crate::error::LayoutError;
pub use crate::na_types::{
    DynMatrixConfig, DynMatrixLayout, DynMatrixView, DynMatrixViewMut, DynVectorConfig,
    DynVectorLayout, DynVectorView, DynVectorViewMut, NaDMatrix, NaDVector, NaMatrixView,
    NaMatrixViewMut, NaVectorView, NaVectorViewMut, RawMatrixView, RawMatrixViewMut,
    RawVectorView, RawVectorViewMut,
};
pub use crate::record::{Pair, PairConfig, PairConstView, PairLayout, PairMutView};
pub use crate::scalar::ScalarLayout;
pub use crate::vec3::{Vec3, Vec3Layout, Vec3View, Vec3ViewMut};
