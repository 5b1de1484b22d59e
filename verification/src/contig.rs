//! The interface that every packable type implements.

use crate::error::LayoutError;
use vstd::prelude::*;

verus! {

/// Describes how a value occupies and views a region inside a flat `[F]`
/// slice.
///
/// An implementation sizes a value at run time from a configuration, says
/// how many elements it occupies, and builds read-only and mutable views
/// into a backing slice of exactly that many elements.
///
/// The spec functions are the mathematical model over which the contracts
/// are stated: a layout has a footprint, a read-only view shows a layout and
/// a sequence of elements, and a mutable view borrows a region that holds a
/// sequence of elements now and another one when the borrow ends.
pub trait Contig<F: 'static> {
    /// Runtime configuration required to size this value (e.g. lengths,
    /// nested configurations).
    type Config;

    /// Fully computed layout metadata; independent of any buffer.
    type Layout: 'static;

    /// Read-only view borrowing from the backing slice.
    type ConstView<'a>;

    /// Mutable view borrowing from the backing slice.
    type MutView<'a>;

    /// What a mutable view holds a mutable borrow of.
    type Region: ?Sized;

    /// The layout that a configuration yields, or why it yields none.
    spec fn layout_of(config: &Self::Config) -> Result<Self::Layout, LayoutError>;

    /// Whether the layout's cached metadata is consistent.
    spec fn valid(layout: &Self::Layout) -> bool;

    /// The number of elements that a value with this layout occupies.
    spec fn footprint(layout: &Self::Layout) -> nat;

    /// The layout that a read-only view was built with.
    spec fn const_layout(v: &Self::ConstView<'_>) -> Self::Layout;

    /// The elements that a read-only view shows.
    spec fn const_elems(v: &Self::ConstView<'_>) -> Seq<F>;

    /// The layout that a mutable view was built with.
    spec fn mut_layout(v: &Self::MutView<'_>) -> Self::Layout;

    /// The borrow that a mutable view holds.
    spec fn region<'a>(v: &Self::MutView<'a>) -> &'a mut Self::Region;

    /// The elements that a region holds.
    spec fn region_elems(r: &Self::Region) -> Seq<F>;

    /// Every layout that a configuration yields is valid.
    proof fn lemma_layout_of_valid(config: &Self::Config)
        ensures
            Self::layout_of(config) matches Ok(layout) ==> Self::valid(&layout),
    ;

    /// The footprint of a valid layout is a representable index.
    proof fn lemma_footprint_bounded(layout: &Self::Layout)
        requires
            Self::valid(layout),
        ensures
            Self::footprint(layout) <= usize::MAX,
    ;

    /// Compute layout metadata from configuration. Never touches a buffer;
    /// on failure no partial layout is returned.
    fn layout(config: &Self::Config) -> (r: Result<Self::Layout, LayoutError>)
        ensures
            r == Self::layout_of(config),
            r matches Ok(layout) ==> Self::valid(&layout),
    ;

    /// Total element footprint required by a value with this layout.
    fn len(layout: &Self::Layout) -> (n: usize)
        requires
            Self::valid(layout),
        ensures
            n == Self::footprint(layout),
    ;

    /// Build a read-only view into `buf`, which holds exactly the layout's
    /// footprint.
    fn view<'a>(layout: &'a Self::Layout, buf: &'a [F]) -> (v: Self::ConstView<'a>)
        requires
            Self::valid(layout),
            buf@.len() == Self::footprint(layout),
        ensures
            Self::const_layout(&v) == *layout,
            Self::const_elems(&v) == buf@,
    ;

    /// Build a mutable view into `buf`, which holds exactly the layout's
    /// footprint. When the view's borrow ends, `buf` holds what the view's
    /// region holds then.
    fn view_mut<'a>(layout: &'a Self::Layout, buf: &'a mut [F]) -> (v: Self::MutView<'a>)
        requires
            Self::valid(layout),
            old(buf)@.len() == Self::footprint(layout),
        ensures
            Self::mut_layout(&v) == *layout,
            Self::region_elems(&*Self::region(&v)) == old(buf)@,
            final(buf)@ == Self::region_elems(final(Self::region(&v))),
    ;
}

} // verus!
