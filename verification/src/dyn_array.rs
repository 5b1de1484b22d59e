//! Runtime-sized arrays of any packable element type, nested arrays
//! included.
//!
//! An array of `count` elements of footprint `elem_len` occupies exactly
//! `count * elem_len` consecutive buffer elements; element `i` occupies
//! `[i * elem_len, (i + 1) * elem_len)`. The element's layout is computed
//! once, when the array's layout is, and every access goes through it.

use crate::contig::Contig;
use crate::error::LayoutError;
use core::marker::PhantomData;
use vstd::prelude::*;

verus! {

/// Marker type representing a runtime-sized slice of contiguous `T` values.
pub struct Dyn<T: ?Sized>(PhantomData<T>);

/// Configuration for a runtime-sized contiguous array of `T`.
#[derive(Clone, Copy, Debug)]
pub struct DynArrayConfig<TCfg> {
    /// Number of `T` elements to expose through the view.
    pub len: usize,
    /// Nested configuration used to size a single element.
    pub elem: TCfg,
}

/// Fully computed layout information for a runtime-sized array of `T`.
#[derive(Clone, Debug)]
pub struct DynArrayLayout<TLayout> {
    /// Number of elements contained in this layout.
    pub len: usize,
    /// Cached element layout metadata (reused when producing views).
    pub elem_layout: TLayout,
    /// Element footprint of a single element.
    pub elem_len: usize,
}

impl<TLayout> DynArrayLayout<TLayout> {
    /// Whether `i` is the index of an element of the array.
    pub open spec fn has_index(&self, i: usize) -> bool {
        i < self.len
    }
}

/// The part of `elems` that element `i` occupies when every element
/// occupies `elem_len` positions.
pub open spec fn elem_slot<F>(elems: Seq<F>, elem_len: int, i: int) -> Seq<F> {
    elems.subrange(i * elem_len, i * elem_len + elem_len)
}

/// `elems` with the part that element `i` occupies replaced by `slot`.
pub open spec fn with_elem_slot<F>(elems: Seq<F>, elem_len: int, i: int, slot: Seq<F>) -> Seq<F> {
    elems.subrange(0, i * elem_len) + slot + elems.subrange(
        i * elem_len + elem_len,
        elems.len() as int,
    )
}

/// Position `k` of element `i` is position `i * elem_len + k` of the
/// buffer.
pub proof fn lemma_elem_slot_index<F>(elems: Seq<F>, count: int, elem_len: int, i: int, k: int)
    requires
        elems.len() == count * elem_len,
        0 <= i < count,
        0 <= k < elem_len,
    ensures
        elem_slot(elems, elem_len, i).len() == elem_len,
        0 <= i * elem_len + k < elems.len(),
        elem_slot(elems, elem_len, i)[k] == elems[i * elem_len + k],
{
    lemma_slot_in_bounds(count as nat, elem_len as nat, i as nat);
}

/// Writing an element and reading it back: after the positions of element
/// `i` are replaced by `slot`, element `i` reads as `slot`, every other
/// element reads as before, and the buffer is as long as before.
pub proof fn lemma_write_then_read<F>(
    elems: Seq<F>,
    count: int,
    elem_len: int,
    i: int,
    j: int,
    slot: Seq<F>,
)
    requires
        elems.len() == count * elem_len,
        0 <= elem_len,
        0 <= i < count,
        0 <= j < count,
        slot.len() == elem_len,
    ensures
        with_elem_slot(elems, elem_len, i, slot).len() == elems.len(),
        j == i ==> elem_slot(with_elem_slot(elems, elem_len, i, slot), elem_len, j) == slot,
        j != i ==> elem_slot(with_elem_slot(elems, elem_len, i, slot), elem_len, j) == elem_slot(
            elems,
            elem_len,
            j,
        ),
{
    lemma_slot_in_bounds(count as nat, elem_len as nat, i as nat);
    lemma_slot_in_bounds(count as nat, elem_len as nat, j as nat);
    let written = with_elem_slot(elems, elem_len, i, slot);
    if j < i {
        assert((j + 1) * elem_len <= i * elem_len) by (nonlinear_arith)
            requires
                j + 1 <= i,
                0 <= elem_len,
        ;
        assert(j * elem_len + elem_len == (j + 1) * elem_len) by (nonlinear_arith);
    } else if j > i {
        assert((i + 1) * elem_len <= j * elem_len) by (nonlinear_arith)
            requires
                i + 1 <= j,
                0 <= elem_len,
        ;
        assert(i * elem_len + elem_len == (i + 1) * elem_len) by (nonlinear_arith);
    }
    assert(elem_slot(written, elem_len, j) =~= if j == i {
        slot
    } else {
        elem_slot(elems, elem_len, j)
    });
}

/// Immutable view into a contiguous run of `count` elements of type `T`.
pub struct DynArrayConstView<'a, F: 'static, T: Contig<F>> {
    base: &'a [F],
    count: usize,
    elem_layout: &'a T::Layout,
    elem_len: usize,
}

/// Mutable view into a contiguous run of `count` elements of type `T`.
pub struct DynArrayMutView<'a, F: 'static, T: Contig<F>> {
    base: &'a mut [F],
    count: usize,
    elem_layout: &'a T::Layout,
    elem_len: usize,
}

/// Element `i` of `count` elements of length `elem_len` lies inside a
/// buffer of `count * elem_len` elements.
proof fn lemma_slot_in_bounds(count: nat, elem_len: nat, i: nat)
    requires
        i < count,
    ensures
        0 <= i * elem_len,
        i * elem_len + elem_len <= count * elem_len,
{
    assert(i * elem_len + elem_len == (i + 1) * elem_len) by (nonlinear_arith);
    assert((i + 1) * elem_len <= count * elem_len) by (nonlinear_arith)
        requires
            i + 1 <= count,
    ;
    assert(0 <= i * elem_len) by (nonlinear_arith);
}

impl<'a, F: 'static, T: Contig<F>> DynArrayConstView<'a, F, T> {
    /// The layout that this view was built with.
    pub closed spec fn layout(&self) -> DynArrayLayout<T::Layout> {
        DynArrayLayout { len: self.count, elem_layout: *self.elem_layout, elem_len: self.elem_len }
    }

    /// The elements that this view shows.
    pub closed spec fn elems(&self) -> Seq<F> {
        self.base@
    }

    /// The view's layout is valid and it shows exactly the layout's
    /// footprint. Every read-only view is well formed.
    #[verifier::type_invariant]
    pub open spec fn wf(&self) -> bool {
        &&& Dyn::<[T]>::valid(&self.layout())
        &&& self.elems().len() == Dyn::<[T]>::footprint(&self.layout())
    }

    /// Number of elements contained in this view.
    #[inline]
    pub fn len(&self) -> (n: usize)
        ensures
            n == self.layout().len,
    {
        self.count
    }

    /// Fetch a read-only view for element `i`, built with the cached
    /// element layout over the positions that element `i` occupies.
    #[inline]
    pub fn get(&self, i: usize) -> (r: T::ConstView<'_>)
        requires
            self.layout().has_index(i),
        ensures
            T::const_layout(&r) == self.layout().elem_layout,
            T::const_elems(&r) == elem_slot(
                self.elems(),
                self.layout().elem_len as int,
                i as int,
            ),
    {
        proof {
            use_type_invariant(self);
            lemma_slot_in_bounds(self.count as nat, self.elem_len as nat, i as nat);
        }
        let start = i * self.elem_len;
        let end = start + self.elem_len;
        T::view(self.elem_layout, &self.base[start..end])
    }
}

impl<'a, F: 'static, T: Contig<F>> DynArrayMutView<'a, F, T> {
    /// The layout that this view was built with.
    pub closed spec fn layout(&self) -> DynArrayLayout<T::Layout> {
        DynArrayLayout { len: self.count, elem_layout: *self.elem_layout, elem_len: self.elem_len }
    }

    /// The borrow of the buffer that this view holds.
    pub closed spec fn region(&self) -> &'a mut [F] {
        self.base
    }

    /// The elements that this view shows now.
    pub open spec fn elems(&self) -> Seq<F> {
        self.region()@
    }

    /// The view's layout is valid and it shows exactly the layout's
    /// footprint.
    pub open spec fn wf(&self) -> bool {
        &&& Dyn::<[T]>::valid(&self.layout())
        &&& self.elems().len() == Dyn::<[T]>::footprint(&self.layout())
    }

    /// Once the view is no longer used, its region is not written again.
    pub broadcast proof fn lemma_resolved(self)
        ensures
            #[trigger] has_resolved(self) ==> has_resolved(self.region()),
    {
    }

    /// Number of elements contained in this view.
    #[inline]
    pub fn len(&self) -> (n: usize)
        ensures
            n == self.layout().len,
    {
        self.count
    }

    /// Fetch a mutable view for element `i`, built with the cached element
    /// layout over the positions that element `i` occupies. When the
    /// returned view's borrow ends, this view shows what it showed before,
    /// with the positions of element `i` replaced by what the returned
    /// view's region holds then.
    #[inline]
    pub fn get_mut(&mut self, i: usize) -> (r: T::MutView<'_>)
        requires
            old(self).wf(),
            old(self).layout().has_index(i),
        ensures
            T::mut_layout(&r) == old(self).layout().elem_layout,
            T::region_elems(&*T::region(&r)) == elem_slot(
                old(self).elems(),
                old(self).layout().elem_len as int,
                i as int,
            ),
            final(self).layout() == old(self).layout(),
            final(self).elems() == with_elem_slot(
                old(self).elems(),
                old(self).layout().elem_len as int,
                i as int,
                T::region_elems(final(T::region(&r))),
            ),
            final(final(self).region())@ == final(old(self).region())@,
    {
        proof {
            lemma_slot_in_bounds(self.count as nat, self.elem_len as nat, i as nat);
        }
        let start = i * self.elem_len;
        let (_, rest) = self.base.split_at_mut(start);
        let (slot, _) = rest.split_at_mut(self.elem_len);
        T::view_mut(self.elem_layout, slot)
    }

    /// Fetch a read-only view for element `i`, built with the cached
    /// element layout over the positions that element `i` occupies.
    #[inline]
    pub fn get(&self, i: usize) -> (r: T::ConstView<'_>)
        requires
            self.wf(),
            self.layout().has_index(i),
        ensures
            T::const_layout(&r) == self.layout().elem_layout,
            T::const_elems(&r) == elem_slot(
                self.elems(),
                self.layout().elem_len as int,
                i as int,
            ),
    {
        proof {
            lemma_slot_in_bounds(self.count as nat, self.elem_len as nat, i as nat);
        }
        let start = i * self.elem_len;
        let end = start + self.elem_len;
        T::view(self.elem_layout, &self.base[start..end])
    }
}

impl<F: 'static, T: Contig<F>> Contig<F> for Dyn<[T]> {
    type Config = DynArrayConfig<T::Config>;

    type Layout = DynArrayLayout<T::Layout>;

    type ConstView<'a> = DynArrayConstView<'a, F, T>;

    type MutView<'a> = DynArrayMutView<'a, F, T>;

    type Region = [F];

    /// The element's layout is computed first, whatever the count, and its
    /// failure is the array's; then the total `count * elem_len` must be a
    /// representable index.
    open spec fn layout_of(config: &Self::Config) -> Result<Self::Layout, LayoutError> {
        match T::layout_of(&config.elem) {
            Err(e) => Err(e),
            Ok(elem_layout) => if config.len * T::footprint(&elem_layout) <= usize::MAX {
                Ok(
                    DynArrayLayout {
                        len: config.len,
                        elem_layout,
                        elem_len: T::footprint(&elem_layout) as usize,
                    },
                )
            } else {
                Err(LayoutError::Overflow)
            },
        }
    }

    open spec fn valid(layout: &Self::Layout) -> bool {
        &&& T::valid(&layout.elem_layout)
        &&& layout.elem_len == T::footprint(&layout.elem_layout)
        &&& layout.len * layout.elem_len <= usize::MAX
    }

    open spec fn footprint(layout: &Self::Layout) -> nat {
        (layout.len * layout.elem_len) as nat
    }

    open spec fn const_layout(v: &Self::ConstView<'_>) -> Self::Layout {
        v.layout()
    }

    open spec fn const_elems(v: &Self::ConstView<'_>) -> Seq<F> {
        v.elems()
    }

    open spec fn mut_layout(v: &Self::MutView<'_>) -> Self::Layout {
        v.layout()
    }

    open spec fn region<'a>(v: &Self::MutView<'a>) -> &'a mut [F] {
        v.region()
    }

    open spec fn region_elems(r: &[F]) -> Seq<F> {
        r@
    }

    proof fn lemma_layout_of_valid(config: &Self::Config) {
        T::lemma_layout_of_valid(&config.elem);
        if let Ok(elem_layout) = T::layout_of(&config.elem) {
            T::lemma_footprint_bounded(&elem_layout);
        }
    }

    proof fn lemma_footprint_bounded(layout: &Self::Layout) {
    }

    fn layout(config: &Self::Config) -> (r: Result<Self::Layout, LayoutError>) {
        let elem_layout = match T::layout(&config.elem) {
            Ok(elem_layout) => elem_layout,
            Err(e) => {
                return Err(e);
            },
        };
        let elem_len = T::len(&elem_layout);
        match config.len.checked_mul(elem_len) {
            Some(_) => Ok(DynArrayLayout { len: config.len, elem_layout, elem_len }),
            None => Err(LayoutError::Overflow),
        }
    }

    fn len(layout: &Self::Layout) -> (n: usize) {
        layout.len * layout.elem_len
    }

    fn view<'a>(layout: &'a Self::Layout, buf: &'a [F]) -> (v: Self::ConstView<'a>) {
        DynArrayConstView {
            base: buf,
            count: layout.len,
            elem_layout: &layout.elem_layout,
            elem_len: layout.elem_len,
        }
    }

    fn view_mut<'a>(layout: &'a Self::Layout, buf: &'a mut [F]) -> (v: Self::MutView<'a>) {
        DynArrayMutView {
            base: buf,
            count: layout.len,
            elem_layout: &layout.elem_layout,
            elem_len: layout.elem_len,
        }
    }
}

/// An array's layout caches the count and the element's layout, and its
/// footprint is the count times the element's footprint.
pub proof fn lemma_array_footprint<F: 'static, T: Contig<F>>(config: DynArrayConfig<T::Config>)
    requires
        Dyn::<[T]>::layout_of(&config) is Ok,
    ensures
        T::layout_of(&config.elem) is Ok,
        Dyn::<[T]>::layout_of(&config).unwrap().len == config.len,
        Dyn::<[T]>::layout_of(&config).unwrap().elem_layout == T::layout_of(&config.elem).unwrap(),
        Dyn::<[T]>::footprint(&Dyn::<[T]>::layout_of(&config).unwrap()) == config.len
            * T::footprint(&T::layout_of(&config.elem).unwrap()),
{
    T::lemma_layout_of_valid(&config.elem);
    T::lemma_footprint_bounded(&T::layout_of(&config.elem).unwrap());
}

/// An array of no elements: its layout fails only where the element's
/// does; otherwise it occupies nothing and no index is in bounds.
pub proof fn lemma_empty_array<F: 'static, T: Contig<F>>(config: DynArrayConfig<T::Config>)
    requires
        config.len == 0,
    ensures
        T::layout_of(&config.elem) matches Err(e) ==> Dyn::<[T]>::layout_of(&config) == Err::<
            DynArrayLayout<T::Layout>,
            LayoutError,
        >(e),
        T::layout_of(&config.elem) is Ok ==> {
            &&& Dyn::<[T]>::layout_of(&config) matches Ok(layout)
            &&& layout.len == 0
            &&& Dyn::<[T]>::footprint(&layout) == 0
            &&& forall|i: usize| !#[trigger] layout.has_index(i)
        },
{
    assert(0 * T::footprint(&T::layout_of(&config.elem).unwrap()) == 0);
}

/// An array of arrays occupies the product of the two counts times the
/// innermost element's footprint, and every inner array has the one cached
/// inner layout, whatever its position.
pub proof fn lemma_nested_footprint<F: 'static, T: Contig<F>>(
    layout: DynArrayLayout<DynArrayLayout<T::Layout>>,
)
    requires
        Dyn::<[Dyn<[T]>]>::valid(&layout),
    ensures
        Dyn::<[T]>::valid(&layout.elem_layout),
        Dyn::<[Dyn<[T]>]>::footprint(&layout) == layout.len * (layout.elem_layout.len
            * T::footprint(&layout.elem_layout.elem_layout)),
{
}

} // verus!
