//! A fixed group of three elements, viewed through named components.

use crate::contig::Contig;
use crate::error::LayoutError;
use core::marker::PhantomData;
use vstd::prelude::*;

verus! {

/// Marker type representing a fixed `[F; 3]` contiguous vector.
#[derive(Debug)]
pub struct Vec3<F>(PhantomData<F>);

/// Read-only view across three consecutive elements laid out as `x`, `y`,
/// `z`.
#[derive(Debug)]
pub struct Vec3View<'a, F> {
    slice: &'a [F],
}

impl<'a, F> Clone for Vec3View<'a, F> {
    fn clone(&self) -> (copy: Self)
        ensures
            copy == *self,
    {
        *self
    }
}

impl<'a, F> Copy for Vec3View<'a, F> {

}

/// Mutable view across three consecutive elements laid out as `x`, `y`,
/// `z`.
#[derive(Debug)]
pub struct Vec3ViewMut<'a, F> {
    slice: &'a mut [F],
}

/// Layout metadata marker for [`Vec3`]; it carries no additional
/// information.
#[derive(Clone, Copy, Debug, Default)]
pub struct Vec3Layout;

impl<'a, F> Vec3View<'a, F> {
    /// The elements that this view shows.
    pub closed spec fn elems(&self) -> Seq<F> {
        self.slice@
    }

    /// The view shows exactly three elements. Every read-only view is well
    /// formed.
    #[verifier::type_invariant]
    pub open spec fn wf(&self) -> bool {
        self.elems().len() == 3
    }

    /// The first component.
    #[inline]
    pub fn x(&self) -> (r: &F)
        ensures
            *r == self.elems()[0],
    {
        proof {
            use_type_invariant(self);
        }
        &self.slice[0]
    }

    /// The second component.
    #[inline]
    pub fn y(&self) -> (r: &F)
        ensures
            *r == self.elems()[1],
    {
        proof {
            use_type_invariant(self);
        }
        &self.slice[1]
    }

    /// The third component.
    #[inline]
    pub fn z(&self) -> (r: &F)
        ensures
            *r == self.elems()[2],
    {
        proof {
            use_type_invariant(self);
        }
        &self.slice[2]
    }
}

impl<'a, F> Vec3ViewMut<'a, F> {
    /// The borrow of the buffer that this view holds.
    pub closed spec fn region(&self) -> &'a mut [F] {
        self.slice
    }

    /// The elements that this view shows now.
    pub open spec fn elems(&self) -> Seq<F> {
        self.region()@
    }

    /// The view shows exactly three elements.
    pub open spec fn wf(&self) -> bool {
        self.elems().len() == 3
    }

    /// Once the view is no longer used, its region is not written again.
    pub broadcast proof fn lemma_resolved(self)
        ensures
            #[trigger] has_resolved(self) ==> has_resolved(self.region()),
    {
    }

    /// The first component, for writing.
    #[inline]
    pub fn x(&mut self) -> (r: &mut F)
        requires
            old(self).wf(),
        ensures
            *r == old(self).elems()[0],
            final(self).elems() == old(self).elems().update(0, *final(r)),
            final(final(self).region())@ == final(old(self).region())@,
    {
        &mut self.slice[0]
    }

    /// The second component, for writing.
    #[inline]
    pub fn y(&mut self) -> (r: &mut F)
        requires
            old(self).wf(),
        ensures
            *r == old(self).elems()[1],
            final(self).elems() == old(self).elems().update(1, *final(r)),
            final(final(self).region())@ == final(old(self).region())@,
    {
        &mut self.slice[1]
    }

    /// The third component, for writing.
    #[inline]
    pub fn z(&mut self) -> (r: &mut F)
        requires
            old(self).wf(),
        ensures
            *r == old(self).elems()[2],
            final(self).elems() == old(self).elems().update(2, *final(r)),
            final(final(self).region())@ == final(old(self).region())@,
    {
        &mut self.slice[2]
    }

    /// Write all three components.
    #[inline]
    pub fn set(&mut self, x: F, y: F, z: F) where F: Copy
        requires
            old(self).wf(),
        ensures
            final(self).elems() == seq![x, y, z],
            final(final(self).region())@ == final(old(self).region())@,
    {
        self.slice[0] = x;
        self.slice[1] = y;
        self.slice[2] = z;
    }
}

impl<F: 'static> Contig<F> for Vec3<F> {
    type Config = ();

    type Layout = Vec3Layout;

    type ConstView<'a> = Vec3View<'a, F>;

    type MutView<'a> = Vec3ViewMut<'a, F>;

    type Region = [F];

    open spec fn layout_of(config: &()) -> Result<Vec3Layout, LayoutError> {
        Ok(Vec3Layout)
    }

    open spec fn valid(layout: &Vec3Layout) -> bool {
        true
    }

    open spec fn footprint(layout: &Vec3Layout) -> nat {
        3
    }

    open spec fn const_layout(v: &Self::ConstView<'_>) -> Vec3Layout {
        Vec3Layout
    }

    open spec fn const_elems(v: &Self::ConstView<'_>) -> Seq<F> {
        v.elems()
    }

    open spec fn mut_layout(v: &Self::MutView<'_>) -> Vec3Layout {
        Vec3Layout
    }

    open spec fn region<'a>(v: &Self::MutView<'a>) -> &'a mut [F] {
        v.region()
    }

    open spec fn region_elems(r: &[F]) -> Seq<F> {
        r@
    }

    proof fn lemma_layout_of_valid(config: &()) {
    }

    proof fn lemma_footprint_bounded(layout: &Vec3Layout) {
    }

    fn layout(config: &()) -> (r: Result<Vec3Layout, LayoutError>) {
        Ok(Vec3Layout)
    }

    fn len(layout: &Vec3Layout) -> (n: usize) {
        3
    }

    fn view<'a>(layout: &'a Vec3Layout, buf: &'a [F]) -> (v: Self::ConstView<'a>) {
        Vec3View { slice: buf }
    }

    fn view_mut<'a>(layout: &'a Vec3Layout, buf: &'a mut [F]) -> (v: Self::MutView<'a>) {
        Vec3ViewMut { slice: buf }
    }
}

/// Writing components and reading them back: after all three are set,
/// each reads as it was set; after one is written, it reads as written and
/// the other two as before.
pub proof fn lemma_vec3_write_then_read<F>(elems: Seq<F>, x: F, y: F, z: F, i: int, value: F)
    requires
        elems.len() == 3,
        0 <= i < 3,
    ensures
        seq![x, y, z].len() == 3,
        seq![x, y, z][0] == x,
        seq![x, y, z][1] == y,
        seq![x, y, z][2] == z,
        elems.update(i, value).len() == 3,
        elems.update(i, value)[i] == value,
        forall|j: int| 0 <= j < 3 && j != i ==> elems.update(i, value)[j] == elems[j],
{
}

} // verus!
