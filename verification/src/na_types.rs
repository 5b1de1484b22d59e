//! Adapters that lay out dense `nalgebra` vectors and matrices.
//!
//! A configuration carries a length or a `(rows, cols)` pair, the layout
//! caches that shape, and a view hands the addressed elements to `nalgebra`
//! as a column vector or a column-major matrix. A shape is accepted only if
//! `nalgebra` can check it against a buffer without overflow.

use crate::contig::Contig;
use crate::error::LayoutError;
use core::marker::PhantomData;
use vstd::prelude::*;

verus! {

/// Why a vector length is refused.
pub const VECTOR_TOO_LONG: &'static str =
    "twice the vector length plus one exceeds the largest index";

/// Why a matrix shape is refused although its footprint is representable.
pub const MATRIX_TOO_TALL: &'static str =
    "rows * cols + rows + 1 exceeds the largest index";

/// Configuration for a dynamic-column vector view.
#[derive(Clone, Copy, Debug)]
pub struct DynVectorConfig {
    /// Total number of elements in the vector.
    pub len: usize,
}

/// Layout metadata for a dynamic-column vector view.
#[derive(Clone, Copy, Debug)]
pub struct DynVectorLayout {
    /// Total number of elements in the vector.
    pub len: usize,
}

/// Marker type that adapts `nalgebra::DVector` to [`Contig`].
pub struct NaDVector<F>(PhantomData<F>);

/// Configuration for a dynamic matrix view.
#[derive(Clone, Copy, Debug)]
pub struct DynMatrixConfig {
    /// Number of rows in the matrix.
    pub rows: usize,
    /// Number of columns in the matrix.
    pub cols: usize,
}

/// Layout metadata for a dynamic matrix view.
#[derive(Clone, Copy, Debug)]
pub struct DynMatrixLayout {
    /// Number of rows in the matrix.
    pub rows: usize,
    /// Number of columns in the matrix.
    pub cols: usize,
}

/// Marker type that adapts `nalgebra::DMatrix` to [`Contig`].
pub struct NaDMatrix<F>(PhantomData<F>);

/// A read-only `nalgebra` column vector over the elements of a view. The
/// verifier sees nothing of what it holds.
#[verifier::external_body]
#[verifier::reject_recursive_types(F)]
pub struct RawVectorView<'a, F: 'static>(pub nalgebra::DVectorView<'a, F>);

/// A mutable `nalgebra` column vector over the elements of a view. The
/// verifier sees nothing of what it holds.
#[verifier::external_body]
#[verifier::reject_recursive_types(F)]
pub struct RawVectorViewMut<'a, F: 'static>(pub nalgebra::DVectorViewMut<'a, F>);

/// A read-only `nalgebra` column-major matrix over the elements of a view.
/// The verifier sees nothing of what it holds.
#[verifier::external_body]
#[verifier::reject_recursive_types(F)]
pub struct RawMatrixView<'a, F: 'static>(pub nalgebra::DMatrixView<'a, F>);

/// A mutable `nalgebra` column-major matrix over the elements of a view.
/// The verifier sees nothing of what it holds.
#[verifier::external_body]
#[verifier::reject_recursive_types(F)]
pub struct RawMatrixViewMut<'a, F: 'static>(pub nalgebra::DMatrixViewMut<'a, F>);

/// Calls `nalgebra::DVectorView::from_slice`, which asserts that
/// `buf.len() + len + 1 >= len + len + 1` and panics otherwise; both sums
/// are computed in `usize`. The contract leaves out the inputs on which the
/// assertion fails or a sum overflows, and claims nothing of the result.
#[verifier::external_body]
fn na_vector_view<'a, F: 'static + Clone + PartialEq + core::fmt::Debug>(
    buf: &'a [F],
    len: usize,
) -> (m: RawVectorView<'a, F>)
    requires
        len <= buf@.len(),
        buf@.len() + len + 1 <= usize::MAX,
        len + len + 1 <= usize::MAX,
{
    RawVectorView(nalgebra::DVectorView::from_slice(buf, len))
}

/// Calls `nalgebra::DVectorViewMut::from_slice`, which makes the same
/// assertion as the read-only constructor and a second one, that no two
/// indices share a position; with row stride 1 and column stride `len`
/// the second one holds of every `len`. The contract leaves out the
/// inputs on which the first assertion fails or a sum overflows, and
/// claims of the buffer only that it keeps its length, as every mutable
/// slice does.
#[verifier::external_body]
fn na_vector_view_mut<'a, F: 'static + Clone + PartialEq + core::fmt::Debug>(
    buf: &'a mut [F],
    len: usize,
) -> (m: RawVectorViewMut<'a, F>)
    requires
        len <= old(buf)@.len(),
        old(buf)@.len() + len + 1 <= usize::MAX,
        len + len + 1 <= usize::MAX,
    ensures
        final(buf)@.len() == old(buf)@.len(),
{
    RawVectorViewMut(nalgebra::DVectorViewMut::from_slice(buf, len))
}

/// Calls `nalgebra::DMatrixView::from_slice_generic`, which asserts that
/// `buf.len() + rows + 1 >= cols * rows + rows + 1` and panics otherwise;
/// both sides are computed in `usize`. The contract leaves out the inputs
/// on which the assertion fails or a side overflows, and claims nothing of
/// the result.
#[verifier::external_body]
fn na_matrix_view<'a, F: 'static + Clone + PartialEq + core::fmt::Debug>(
    buf: &'a [F],
    rows: usize,
    cols: usize,
) -> (m: RawMatrixView<'a, F>)
    requires
        rows * cols <= buf@.len(),
        buf@.len() + rows + 1 <= usize::MAX,
        rows * cols + rows + 1 <= usize::MAX,
{
    RawMatrixView(
        nalgebra::DMatrixView::from_slice_generic(buf, nalgebra::Dyn(rows), nalgebra::Dyn(cols)),
    )
}

/// Calls `nalgebra::DMatrixViewMut::from_slice_generic`, which makes the
/// same assertion as the read-only constructor and a second one, that no
/// two indices share a position; with row stride 1 and column stride
/// `rows` the second one holds of every shape whose `rows * cols` does
/// not overflow. The contract leaves out the inputs on which the first
/// assertion fails or a side overflows, and claims of the buffer only
/// that it keeps its length, as every mutable slice does.
#[verifier::external_body]
fn na_matrix_view_mut<'a, F: 'static + Clone + PartialEq + core::fmt::Debug>(
    buf: &'a mut [F],
    rows: usize,
    cols: usize,
) -> (m: RawMatrixViewMut<'a, F>)
    requires
        rows * cols <= old(buf)@.len(),
        old(buf)@.len() + rows + 1 <= usize::MAX,
        rows * cols + rows + 1 <= usize::MAX,
    ensures
        final(buf)@.len() == old(buf)@.len(),
{
    RawMatrixViewMut(
        nalgebra::DMatrixViewMut::from_slice_generic(
            buf,
            nalgebra::Dyn(rows),
            nalgebra::Dyn(cols),
        ),
    )
}

/// Read-only view of the elements of one vector.
pub struct DynVectorView<'a, F> {
    base: &'a [F],
    len: usize,
}

/// Mutable view of the elements of one vector.
pub struct DynVectorViewMut<'a, F> {
    base: &'a mut [F],
    len: usize,
}

/// Read-only view of the elements of one matrix, column after column.
pub struct DynMatrixView<'a, F> {
    base: &'a [F],
    rows: usize,
    cols: usize,
}

/// Mutable view of the elements of one matrix, column after column.
pub struct DynMatrixViewMut<'a, F> {
    base: &'a mut [F],
    rows: usize,
    cols: usize,
}

impl<'a, F: 'static> DynVectorView<'a, F> {
    /// The layout that this view was built with.
    pub closed spec fn layout(&self) -> DynVectorLayout {
        DynVectorLayout { len: self.len }
    }

    /// The elements that this view shows.
    pub closed spec fn elems(&self) -> Seq<F> {
        self.base@
    }

    /// The view's layout is valid and it shows exactly the layout's
    /// footprint. Every read-only view is well formed.
    #[verifier::type_invariant]
    pub open spec fn wf(&self) -> bool {
        &&& NaDVector::<F>::valid(&self.layout())
        &&& self.elems().len() == NaDVector::<F>::footprint(&self.layout())
    }

    /// Hands the elements to `nalgebra` as a column vector of the layout's
    /// length. The bounds on `F` make it a `nalgebra` scalar.
    pub fn as_na(&self) -> (m: NaVectorView<'_, F>) where
        F: Clone + PartialEq + core::fmt::Debug,
        ensures
            m.layout() == self.layout(),
            m.elems() == self.elems(),
    {
        proof { use_type_invariant(self); }
        NaVectorView::over(self, na_vector_view(self.base, self.len))
    }
}

impl<'a, F: 'static> DynVectorViewMut<'a, F> {
    /// The layout that this view was built with.
    pub closed spec fn layout(&self) -> DynVectorLayout {
        DynVectorLayout { len: self.len }
    }

    /// The borrow of the buffer that this view holds.
    pub closed spec fn region(&self) -> &'a mut [F] {
        self.base
    }

    /// The elements that this view shows now.
    pub open spec fn elems(&self) -> Seq<F> {
        self.region()@
    }

    /// The view's layout is valid and it shows exactly the layout's
    /// footprint.
    pub open spec fn wf(&self) -> bool {
        &&& NaDVector::<F>::valid(&self.layout())
        &&& self.elems().len() == NaDVector::<F>::footprint(&self.layout())
    }

    /// Once the view is no longer used, its region is not written again.
    pub broadcast proof fn lemma_resolved(self)
        ensures
            #[trigger] has_resolved(self) ==> has_resolved(self.region()),
    {
    }

    /// Hands the elements to `nalgebra` as a mutable column vector of the
    /// layout's length. What is written through it is not known here; this
    /// view keeps its layout and its length.
    pub fn as_na_mut(&mut self) -> (m: NaVectorViewMut<'_, F>) where
        F: Clone + PartialEq + core::fmt::Debug,
        requires
            old(self).wf(),
        ensures
            m.layout() == old(self).layout() && m.elems() == old(self).elems(),
            final(self).layout() == old(self).layout(),
            final(self).elems().len() == old(self).elems().len(),
            final(final(self).region())@ == final(old(self).region())@,
    {
        let ghost made_over = (self.layout(), self.elems());
        NaVectorViewMut::over(Ghost(made_over), na_vector_view_mut(&mut *self.base, self.len))
    }
}

impl<'a, F: 'static> DynMatrixView<'a, F> {
    /// The layout that this view was built with.
    pub closed spec fn layout(&self) -> DynMatrixLayout {
        DynMatrixLayout { rows: self.rows, cols: self.cols }
    }

    /// The elements that this view shows.
    pub closed spec fn elems(&self) -> Seq<F> {
        self.base@
    }

    /// Every read-only view is well formed: its layout is valid and it
    /// shows exactly the layout's footprint.
    #[verifier::type_invariant]
    pub open spec fn wf(&self) -> bool {
        &&& NaDMatrix::<F>::valid(&self.layout())
        &&& self.elems().len() == NaDMatrix::<F>::footprint(&self.layout())
    }

    /// Hands the elements to `nalgebra` as a matrix of the layout's shape.
    pub fn as_na(&self) -> (m: NaMatrixView<'_, F>) where
        F: Clone + PartialEq + core::fmt::Debug,
        ensures
            m.layout() == self.layout(),
            m.elems() == self.elems(),
    {
        proof { use_type_invariant(self); }
        NaMatrixView::over(self, na_matrix_view(self.base, self.rows, self.cols))
    }
}

impl<'a, F: 'static> DynMatrixViewMut<'a, F> {
    /// The layout that this view was built with.
    pub closed spec fn layout(&self) -> DynMatrixLayout {
        DynMatrixLayout { rows: self.rows, cols: self.cols }
    }

    /// The borrow of the buffer that this view holds.
    pub closed spec fn region(&self) -> &'a mut [F] {
        self.base
    }

    /// The elements that this view shows now.
    pub open spec fn elems(&self) -> Seq<F> {
        self.region()@
    }

    /// The view's layout is valid and it shows exactly the layout's
    /// footprint.
    pub open spec fn wf(&self) -> bool {
        &&& NaDMatrix::<F>::valid(&self.layout())
        &&& self.elems().len() == NaDMatrix::<F>::footprint(&self.layout())
    }

    /// Once the view is no longer used, its region is not written again.
    pub broadcast proof fn lemma_resolved(self)
        ensures
            #[trigger] has_resolved(self) ==> has_resolved(self.region()),
    {
    }

    /// Hands the elements to `nalgebra` as a mutable column-major matrix of
    /// the layout's shape. What is written through it is not known here;
    /// this view keeps its layout and its length.
    pub fn as_na_mut(&mut self) -> (m: NaMatrixViewMut<'_, F>) where
        F: Clone + PartialEq + core::fmt::Debug,
        requires
            old(self).wf(),
        ensures
            m.layout() == old(self).layout() && m.elems() == old(self).elems(),
            final(self).layout() == old(self).layout(),
            final(self).elems().len() == old(self).elems().len(),
            final(final(self).region())@ == final(old(self).region())@,
    {
        let ghost made_over = (self.layout(), self.elems());
        NaMatrixViewMut::over(
            Ghost(made_over),
            na_matrix_view_mut(&mut *self.base, self.rows, self.cols),
        )
    }
}

impl<F: 'static> Contig<F> for NaDVector<F> {
    type Config = DynVectorConfig;

    type Layout = DynVectorLayout;

    type ConstView<'a> = DynVectorView<'a, F>;

    type MutView<'a> = DynVectorViewMut<'a, F>;

    type Region = [F];

    /// A length is accepted when `nalgebra` can check it against a buffer
    /// without overflow.
    open spec fn layout_of(config: &DynVectorConfig) -> Result<DynVectorLayout, LayoutError> {
        if config.len + config.len + 1 <= usize::MAX {
            Ok(DynVectorLayout { len: config.len })
        } else {
            Err(LayoutError::InvalidSize(VECTOR_TOO_LONG))
        }
    }

    open spec fn valid(layout: &DynVectorLayout) -> bool {
        layout.len + layout.len + 1 <= usize::MAX
    }

    open spec fn footprint(layout: &DynVectorLayout) -> nat {
        layout.len as nat
    }

    open spec fn const_layout(v: &Self::ConstView<'_>) -> DynVectorLayout {
        v.layout()
    }

    open spec fn const_elems(v: &Self::ConstView<'_>) -> Seq<F> {
        v.elems()
    }

    open spec fn mut_layout(v: &Self::MutView<'_>) -> DynVectorLayout {
        v.layout()
    }

    open spec fn region<'a>(v: &Self::MutView<'a>) -> &'a mut [F] {
        v.region()
    }

    open spec fn region_elems(r: &[F]) -> Seq<F> {
        r@
    }

    proof fn lemma_layout_of_valid(config: &DynVectorConfig) {
    }

    proof fn lemma_footprint_bounded(layout: &DynVectorLayout) {
    }

    fn layout(config: &DynVectorConfig) -> (r: Result<DynVectorLayout, LayoutError>) {
        if config.len <= (usize::MAX - 1) / 2 {
            Ok(DynVectorLayout { len: config.len })
        } else {
            Err(LayoutError::InvalidSize(VECTOR_TOO_LONG))
        }
    }

    fn len(layout: &DynVectorLayout) -> (n: usize) {
        layout.len
    }

    fn view<'a>(layout: &'a DynVectorLayout, buf: &'a [F]) -> (v: Self::ConstView<'a>) {
        DynVectorView { base: buf, len: layout.len }
    }

    fn view_mut<'a>(layout: &'a DynVectorLayout, buf: &'a mut [F]) -> (v: Self::MutView<'a>) {
        DynVectorViewMut { base: buf, len: layout.len }
    }
}

impl<F: 'static> Contig<F> for NaDMatrix<F> {
    type Config = DynMatrixConfig;

    type Layout = DynMatrixLayout;

    type ConstView<'a> = DynMatrixView<'a, F>;

    type MutView<'a> = DynMatrixViewMut<'a, F>;

    type Region = [F];

    /// A shape whose footprint `rows * cols` is no representable index
    /// overflows; one whose footprint is representable is accepted when
    /// `nalgebra` can check it against a buffer without overflow.
    open spec fn layout_of(config: &DynMatrixConfig) -> Result<DynMatrixLayout, LayoutError> {
        if config.rows * config.cols > usize::MAX {
            Err(LayoutError::Overflow)
        } else if config.rows * config.cols + config.rows + 1 > usize::MAX {
            Err(LayoutError::InvalidSize(MATRIX_TOO_TALL))
        } else {
            Ok(DynMatrixLayout { rows: config.rows, cols: config.cols })
        }
    }

    open spec fn valid(layout: &DynMatrixLayout) -> bool {
        layout.rows * layout.cols + layout.rows + 1 <= usize::MAX
    }

    open spec fn footprint(layout: &DynMatrixLayout) -> nat {
        (layout.rows * layout.cols) as nat
    }

    open spec fn const_layout(v: &Self::ConstView<'_>) -> DynMatrixLayout {
        v.layout()
    }

    open spec fn const_elems(v: &Self::ConstView<'_>) -> Seq<F> {
        v.elems()
    }

    open spec fn mut_layout(v: &Self::MutView<'_>) -> DynMatrixLayout {
        v.layout()
    }

    open spec fn region<'a>(v: &Self::MutView<'a>) -> &'a mut [F] {
        v.region()
    }

    open spec fn region_elems(r: &[F]) -> Seq<F> {
        r@
    }

    proof fn lemma_layout_of_valid(config: &DynMatrixConfig) {
    }

    proof fn lemma_footprint_bounded(layout: &DynMatrixLayout) {
    }

    fn layout(config: &DynMatrixConfig) -> (r: Result<DynMatrixLayout, LayoutError>) {
        match config.rows.checked_mul(config.cols) {
            None => Err(LayoutError::Overflow),
            Some(cells) => match cells.checked_add(config.rows) {
                Some(sum) if sum < usize::MAX => Ok(
                    DynMatrixLayout { rows: config.rows, cols: config.cols },
                ),
                _ => Err(LayoutError::InvalidSize(MATRIX_TOO_TALL)),
            },
        }
    }

    fn len(layout: &DynMatrixLayout) -> (n: usize) {
        layout.rows * layout.cols
    }

    fn view<'a>(layout: &'a DynMatrixLayout, buf: &'a [F]) -> (v: Self::ConstView<'a>) {
        DynMatrixView { base: buf, rows: layout.rows, cols: layout.cols }
    }

    fn view_mut<'a>(layout: &'a DynMatrixLayout, buf: &'a mut [F]) -> (v: Self::MutView<'a>) {
        DynMatrixViewMut { base: buf, rows: layout.rows, cols: layout.cols }
    }
}

/// A read-only `nalgebra` column vector together with a record of what
/// was handed to `nalgebra` to make it: the elements it covers, in buffer
/// order, and the layout whose length it has.
#[verifier::reject_recursive_types(F)]
pub struct NaVectorView<'a, F: 'static> {
    /// The `nalgebra` view itself.
    pub raw: RawVectorView<'a, F>,
    layout: Ghost<DynVectorLayout>,
    elems: Ghost<Seq<F>>,
}

/// A mutable `nalgebra` column vector together with a record of what was
/// handed to `nalgebra` to make it: the elements it covered then, in
/// buffer order, and the layout whose length it has.
#[verifier::reject_recursive_types(F)]
pub struct NaVectorViewMut<'a, F: 'static> {
    /// The `nalgebra` view itself.
    pub raw: RawVectorViewMut<'a, F>,
    layout: Ghost<DynVectorLayout>,
    elems: Ghost<Seq<F>>,
}

/// A read-only `nalgebra` matrix together with a record of what was handed
/// to `nalgebra` to make it: the elements it covers, column after column,
/// and the layout whose shape it has.
#[verifier::reject_recursive_types(F)]
pub struct NaMatrixView<'a, F: 'static> {
    /// The `nalgebra` view itself.
    pub raw: RawMatrixView<'a, F>,
    layout: Ghost<DynMatrixLayout>,
    elems: Ghost<Seq<F>>,
}

/// A mutable `nalgebra` matrix together with a record of what was handed
/// to `nalgebra` to make it: the elements it covered then, column after
/// column, and the layout whose shape it has.
#[verifier::reject_recursive_types(F)]
pub struct NaMatrixViewMut<'a, F: 'static> {
    /// The `nalgebra` view itself.
    pub raw: RawMatrixViewMut<'a, F>,
    layout: Ghost<DynMatrixLayout>,
    elems: Ghost<Seq<F>>,
}

impl<'a, F: 'static> NaVectorView<'a, F> {
    /// The layout whose length the vector has.
    pub closed spec fn layout(&self) -> DynVectorLayout {
        self.layout@
    }

    /// The elements that the vector covers, in buffer order.
    pub closed spec fn elems(&self) -> Seq<F> {
        self.elems@
    }

    /// Pairs the vector that `nalgebra` made over `view` with the record of
    /// `view`.
    fn over(view: &DynVectorView<'_, F>, raw: RawVectorView<'a, F>) -> (m: Self)
        ensures
            m.layout() == view.layout(),
            m.elems() == view.elems(),
    {
        NaVectorView { raw, layout: Ghost(view.layout()), elems: Ghost(view.elems()) }
    }
}

impl<'a, F: 'static> NaVectorViewMut<'a, F> {
    /// The layout whose length the vector has.
    pub closed spec fn layout(&self) -> DynVectorLayout {
        self.layout@
    }

    /// The elements that the vector covered when it was made, in buffer
    /// order.
    pub closed spec fn elems(&self) -> Seq<F> {
        self.elems@
    }

    /// Pairs the vector that `nalgebra` made with the record of what it
    /// was made over.
    fn over(
        made_over: Ghost<(DynVectorLayout, Seq<F>)>,
        raw: RawVectorViewMut<'a, F>,
    ) -> (m: Self)
        ensures
            m.layout() == made_over@.0,
            m.elems() == made_over@.1,
    {
        NaVectorViewMut { raw, layout: Ghost(made_over@.0), elems: Ghost(made_over@.1) }
    }
}

impl<'a, F: 'static> NaMatrixView<'a, F> {
    /// The layout whose shape the matrix has.
    pub closed spec fn layout(&self) -> DynMatrixLayout {
        self.layout@
    }

    /// The elements that the matrix covers, column after column.
    pub closed spec fn elems(&self) -> Seq<F> {
        self.elems@
    }

    /// Pairs the matrix that `nalgebra` made over `view` with the record of
    /// `view`.
    fn over(view: &DynMatrixView<'_, F>, raw: RawMatrixView<'a, F>) -> (m: Self)
        ensures
            m.layout() == view.layout(),
            m.elems() == view.elems(),
    {
        NaMatrixView { raw, layout: Ghost(view.layout()), elems: Ghost(view.elems()) }
    }
}

impl<'a, F: 'static> NaMatrixViewMut<'a, F> {
    /// The layout whose shape the matrix has.
    pub closed spec fn layout(&self) -> DynMatrixLayout {
        self.layout@
    }

    /// The elements that the matrix covered when it was made, column after
    /// column.
    pub closed spec fn elems(&self) -> Seq<F> {
        self.elems@
    }

    /// Pairs the matrix that `nalgebra` made with the record of what it
    /// was made over.
    fn over(
        made_over: Ghost<(DynMatrixLayout, Seq<F>)>,
        raw: RawMatrixViewMut<'a, F>,
    ) -> (m: Self)
        ensures
            m.layout() == made_over@.0,
            m.elems() == made_over@.1,
    {
        NaMatrixViewMut { raw, layout: Ghost(made_over@.0), elems: Ghost(made_over@.1) }
    }
}

} // verus!
