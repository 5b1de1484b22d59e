//! Records: fixed composites whose parts are packed one after the other.
//!
//! A record of two parts gives each part the range that a [`TakeCursor`]
//! hands out for it, in declaration order, and caches each part's layout
//! beside its range. Records nest, and a record is itself packable, so it
//! can be the element type of a dynamic array.

use crate::contig::Contig;
use crate::cursor::{tiles, TakeCursor};
use crate::error::LayoutError;
use core::marker::PhantomData;
use core::ops::Range;
use vstd::prelude::*;

verus! {

/// Marker type representing a record of an `A` followed by a `B`.
pub struct Pair<A, B>(PhantomData<A>, PhantomData<B>);

/// Configuration for a record: one configuration per part.
#[derive(Clone, Copy, Debug)]
pub struct PairConfig<ACfg, BCfg> {
    /// Runtime configuration for the first part.
    pub first: ACfg,
    /// Runtime configuration for the second part.
    pub second: BCfg,
}

/// Layout metadata for a record: each part's range and layout, and the
/// total length.
#[derive(Debug)]
pub struct PairLayout<ALayout, BLayout> {
    /// Range covering the first part inside the buffer.
    pub off_first: Range<usize>,
    /// Layout metadata for the first part.
    pub layout_first: ALayout,
    /// Range covering the second part inside the buffer.
    pub off_second: Range<usize>,
    /// Layout metadata for the second part.
    pub layout_second: BLayout,
    /// Total elements spanned by this layout.
    pub len: usize,
}

impl<ALayout: Clone, BLayout: Clone> Clone for PairLayout<ALayout, BLayout> {
    fn clone(&self) -> (copy: Self)
        ensures
            copy.off_first == self.off_first,
            copy.off_second == self.off_second,
            copy.len == self.len,
    {
        PairLayout {
            off_first: self.off_first.start..self.off_first.end,
            layout_first: self.layout_first.clone(),
            off_second: self.off_second.start..self.off_second.end,
            layout_second: self.layout_second.clone(),
            len: self.len,
        }
    }
}

impl<ALayout, BLayout> PairLayout<ALayout, BLayout> {
    /// Total element footprint of this layout.
    #[inline]
    pub fn len(&self) -> (n: usize)
        ensures
            n == self.len,
    {
        self.len
    }
}

/// Read-only view over a record borrowed from a contiguous buffer.
pub struct PairConstView<'a, F: 'static, A: Contig<F>, B: Contig<F>> {
    base: &'a [F],
    layout: &'a PairLayout<A::Layout, B::Layout>,
}

/// Mutable view over a record borrowed from a contiguous buffer.
pub struct PairMutView<'a, F: 'static, A: Contig<F>, B: Contig<F>> {
    base: &'a mut [F],
    layout: &'a PairLayout<A::Layout, B::Layout>,
}

impl<'a, F: 'static, A: Contig<F>, B: Contig<F>> PairConstView<'a, F, A, B> {
    /// The layout that this view was built with.
    pub closed spec fn layout(&self) -> PairLayout<A::Layout, B::Layout> {
        *self.layout
    }

    /// The elements that this view shows.
    pub closed spec fn elems(&self) -> Seq<F> {
        self.base@
    }

    /// The view's layout is valid and it shows exactly the layout's
    /// footprint. Every read-only view is well formed.
    #[verifier::type_invariant]
    pub open spec fn wf(&self) -> bool {
        &&& Pair::<A, B>::valid(&self.layout())
        &&& self.elems().len() == Pair::<A, B>::footprint(&self.layout())
    }

    /// Expose the underlying immutable slice backing this view.
    #[inline]
    pub fn as_slice(&self) -> (s: &[F])
        ensures
            s@ == self.elems(),
    {
        self.base
    }

    /// Borrow a read-only view into the first part: the part's own view
    /// over the part's range.
    pub fn first(&self) -> (r: A::ConstView<'_>)
        ensures
            A::const_layout(&r) == self.layout().layout_first,
            A::const_elems(&r) == self.elems().subrange(
                0,
                A::footprint(&self.layout().layout_first) as int,
            ),
    {
        proof {
            use_type_invariant(self);
        }
        A::view(
            &self.layout.layout_first,
            &self.base[self.layout.off_first.start..self.layout.off_first.end],
        )
    }

    /// Borrow a read-only view into the second part: the part's own view
    /// over the part's range.
    pub fn second(&self) -> (r: B::ConstView<'_>)
        ensures
            B::const_layout(&r) == self.layout().layout_second,
            B::const_elems(&r) == self.elems().subrange(
                A::footprint(&self.layout().layout_first) as int,
                self.elems().len() as int,
            ),
    {
        proof {
            use_type_invariant(self);
        }
        B::view(
            &self.layout.layout_second,
            &self.base[self.layout.off_second.start..self.layout.off_second.end],
        )
    }
}

impl<'a, F: 'static, A: Contig<F>, B: Contig<F>> PairMutView<'a, F, A, B> {
    /// The layout that this view was built with.
    pub closed spec fn layout(&self) -> PairLayout<A::Layout, B::Layout> {
        *self.layout
    }

    /// The borrow of the buffer that this view holds.
    pub closed spec fn region(&self) -> &'a mut [F] {
        self.base
    }

    /// The elements that this view shows now.
    pub open spec fn elems(&self) -> Seq<F> {
        self.region()@
    }

    /// The view's layout is valid and it shows exactly the layout's
    /// footprint.
    pub open spec fn wf(&self) -> bool {
        &&& Pair::<A, B>::valid(&self.layout())
        &&& self.elems().len() == Pair::<A, B>::footprint(&self.layout())
    }

    /// Once the view is no longer used, its region is not written again.
    pub broadcast proof fn lemma_resolved(self)
        ensures
            #[trigger] has_resolved(self) ==> has_resolved(self.region()),
    {
    }

    /// Expose the underlying mutable slice backing this view.
    #[inline]
    pub fn as_mut_slice(&mut self) -> (s: &mut [F])
        ensures
            s@ == old(self).elems(),
            final(self).layout() == old(self).layout(),
            final(self).elems() == final(s)@,
            final(final(self).region())@ == final(old(self).region())@,
    {
        &mut *self.base
    }

    /// Borrow a mutable view into the first part: the part's own view over
    /// the part's range. When its borrow ends, this view shows what the
    /// part's region holds then, followed by the second part as it was.
    pub fn first(&mut self) -> (r: A::MutView<'_>)
        requires
            old(self).wf(),
        ensures
            A::mut_layout(&r) == old(self).layout().layout_first,
            A::region_elems(&*A::region(&r)) == old(self).elems().subrange(
                0,
                A::footprint(&old(self).layout().layout_first) as int,
            ),
            final(self).layout() == old(self).layout(),
            final(self).elems() == A::region_elems(final(A::region(&r))) + old(
                self,
            ).elems().subrange(
                A::footprint(&old(self).layout().layout_first) as int,
                old(self).elems().len() as int,
            ),
            final(final(self).region())@ == final(old(self).region())@,
    {
        let (part, _) = self.base.split_at_mut(self.layout.off_first.end);
        A::view_mut(&self.layout.layout_first, part)
    }

    /// Borrow a mutable view into the second part: the part's own view
    /// over the part's range. When its borrow ends, this view shows the
    /// first part as it was, followed by what the part's region holds
    /// then.
    pub fn second(&mut self) -> (r: B::MutView<'_>)
        requires
            old(self).wf(),
        ensures
            B::mut_layout(&r) == old(self).layout().layout_second,
            B::region_elems(&*B::region(&r)) == old(self).elems().subrange(
                A::footprint(&old(self).layout().layout_first) as int,
                old(self).elems().len() as int,
            ),
            final(self).layout() == old(self).layout(),
            final(self).elems() == old(self).elems().subrange(
                0,
                A::footprint(&old(self).layout().layout_first) as int,
            ) + B::region_elems(final(B::region(&r))),
            final(final(self).region())@ == final(old(self).region())@,
    {
        let (_, part) = self.base.split_at_mut(self.layout.off_second.start);
        B::view_mut(&self.layout.layout_second, part)
    }
}

impl<F: 'static, A: Contig<F>, B: Contig<F>> Contig<F> for Pair<A, B> {
    type Config = PairConfig<A::Config, B::Config>;

    type Layout = PairLayout<A::Layout, B::Layout>;

    type ConstView<'a> = PairConstView<'a, F, A, B>;

    type MutView<'a> = PairMutView<'a, F, A, B>;

    type Region = [F];

    /// The parts' layouts are computed in declaration order and the first
    /// failure is the record's; then the sum of the parts' footprints must
    /// be a representable index.
    open spec fn layout_of(config: &Self::Config) -> Result<Self::Layout, LayoutError> {
        match A::layout_of(&config.first) {
            Err(e) => Err(e),
            Ok(layout_first) => match B::layout_of(&config.second) {
                Err(e) => Err(e),
                Ok(layout_second) => {
                    let mid = A::footprint(&layout_first);
                    let end = mid + B::footprint(&layout_second);
                    if end <= usize::MAX {
                        Ok(
                            PairLayout {
                                off_first: Range { start: 0, end: mid as usize },
                                layout_first,
                                off_second: Range { start: mid as usize, end: end as usize },
                                layout_second,
                                len: end as usize,
                            },
                        )
                    } else {
                        Err(LayoutError::Overflow)
                    }
                },
            },
        }
    }

    open spec fn valid(layout: &Self::Layout) -> bool {
        &&& A::valid(&layout.layout_first)
        &&& B::valid(&layout.layout_second)
        &&& layout.off_first.start == 0
        &&& layout.off_first.end == A::footprint(&layout.layout_first)
        &&& layout.off_second.start == layout.off_first.end
        &&& layout.off_second.end == layout.off_first.end + B::footprint(&layout.layout_second)
        &&& layout.len == layout.off_second.end
    }

    open spec fn footprint(layout: &Self::Layout) -> nat {
        layout.len as nat
    }

    open spec fn const_layout(v: &Self::ConstView<'_>) -> Self::Layout {
        v.layout()
    }

    open spec fn const_elems(v: &Self::ConstView<'_>) -> Seq<F> {
        v.elems()
    }

    open spec fn mut_layout(v: &Self::MutView<'_>) -> Self::Layout {
        v.layout()
    }

    open spec fn region<'a>(v: &Self::MutView<'a>) -> &'a mut [F] {
        v.region()
    }

    open spec fn region_elems(r: &[F]) -> Seq<F> {
        r@
    }

    proof fn lemma_layout_of_valid(config: &Self::Config) {
        A::lemma_layout_of_valid(&config.first);
        B::lemma_layout_of_valid(&config.second);
    }

    proof fn lemma_footprint_bounded(layout: &Self::Layout) {
    }

    fn layout(config: &Self::Config) -> (r: Result<Self::Layout, LayoutError>) {
        let mut cursor = TakeCursor::new();
        let layout_first = match A::layout(&config.first) {
            Ok(layout) => layout,
            Err(e) => {
                return Err(e);
            },
        };
        let off_first = match cursor.take_range(A::len(&layout_first)) {
            Ok(range) => range,
            Err(e) => {
                return Err(e);
            },
        };
        let layout_second = match B::layout(&config.second) {
            Ok(layout) => layout,
            Err(e) => {
                return Err(e);
            },
        };
        let off_second = match cursor.take_range(B::len(&layout_second)) {
            Ok(range) => range,
            Err(e) => {
                return Err(e);
            },
        };
        let len = cursor.finish();
        Ok(PairLayout { off_first, layout_first, off_second, layout_second, len })
    }

    fn len(layout: &Self::Layout) -> (n: usize) {
        layout.len()
    }

    fn view<'a>(layout: &'a Self::Layout, buf: &'a [F]) -> (v: Self::ConstView<'a>) {
        PairConstView { base: buf, layout }
    }

    fn view_mut<'a>(layout: &'a Self::Layout, buf: &'a mut [F]) -> (v: Self::MutView<'a>) {
        PairMutView { base: buf, layout }
    }
}

/// A record's layout caches its parts' layouts, its footprint is the sum
/// of the parts' footprints, and the parts' ranges, in declaration order,
/// tile `[0, len)`.
pub proof fn lemma_pair_footprint<F: 'static, A: Contig<F>, B: Contig<F>>(
    config: PairConfig<A::Config, B::Config>,
)
    requires
        Pair::<A, B>::layout_of(&config) is Ok,
    ensures
        A::layout_of(&config.first) is Ok,
        B::layout_of(&config.second) is Ok,
        ({
            let layout = Pair::<A, B>::layout_of(&config).unwrap();
            &&& layout.layout_first == A::layout_of(&config.first).unwrap()
            &&& layout.layout_second == B::layout_of(&config.second).unwrap()
            &&& Pair::<A, B>::footprint(&layout) == A::footprint(&layout.layout_first)
                + B::footprint(&layout.layout_second)
            &&& tiles(
                seq![
                    (layout.off_first.start as int, layout.off_first.end as int),
                    (layout.off_second.start as int, layout.off_second.end as int),
                ],
                layout.len as int,
            )
        }),
{
}

/// Writing one part and reading the parts back: after the first `mid`
/// elements are replaced by `part`, the first part reads as `part` and the
/// second as before; after the elements from `mid` on are replaced by
/// `part`, the second part reads as `part` and the first as before.
pub proof fn lemma_pair_write_then_read<F>(elems: Seq<F>, mid: int, part: Seq<F>)
    requires
        0 <= mid <= elems.len(),
    ensures
        part.len() == mid ==> {
            let written = part + elems.subrange(mid, elems.len() as int);
            &&& written.len() == elems.len()
            &&& written.subrange(0, mid) == part
            &&& written.subrange(mid, written.len() as int) == elems.subrange(
                mid,
                elems.len() as int,
            )
        },
        part.len() == elems.len() - mid ==> {
            let written = elems.subrange(0, mid) + part;
            &&& written.len() == elems.len()
            &&& written.subrange(0, mid) == elems.subrange(0, mid)
            &&& written.subrange(mid, written.len() as int) == part
        },
{
    if part.len() == mid {
        let written = part + elems.subrange(mid, elems.len() as int);
        assert(written.subrange(0, mid) =~= part);
        assert(written.subrange(mid, written.len() as int) =~= elems.subrange(
            mid,
            elems.len() as int,
        ));
    }
    if part.len() == elems.len() - mid {
        let written = elems.subrange(0, mid) + part;
        assert(written.subrange(0, mid) =~= elems.subrange(0, mid));
        assert(written.subrange(mid, written.len() as int) =~= part);
    }
}

} // verus!
