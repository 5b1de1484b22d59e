//! The single-element adapter: every `Copy` element type packs as one
//! element of itself.

use crate::contig::Contig;
use crate::error::LayoutError;
use vstd::prelude::*;

verus! {

/// Trivial layout marker for scalar types, whose layout carries no
/// information.
#[derive(Clone, Copy, Debug, Default)]
pub struct ScalarLayout;

impl<F: Copy + 'static> Contig<F> for F {
    type Config = ();

    type Layout = ScalarLayout;

    type ConstView<'a> = &'a F;

    type MutView<'a> = &'a mut F;

    type Region = F;

    open spec fn layout_of(config: &()) -> Result<ScalarLayout, LayoutError> {
        Ok(ScalarLayout)
    }

    open spec fn valid(layout: &ScalarLayout) -> bool {
        true
    }

    open spec fn footprint(layout: &ScalarLayout) -> nat {
        1
    }

    open spec fn const_layout(v: &Self::ConstView<'_>) -> ScalarLayout {
        ScalarLayout
    }

    open spec fn const_elems(v: &Self::ConstView<'_>) -> Seq<F> {
        seq![**v]
    }

    open spec fn mut_layout(v: &Self::MutView<'_>) -> ScalarLayout {
        ScalarLayout
    }

    open spec fn region<'a>(v: &Self::MutView<'a>) -> &'a mut F {
        *v
    }

    open spec fn region_elems(r: &F) -> Seq<F> {
        seq![*r]
    }

    proof fn lemma_layout_of_valid(config: &()) {
    }

    proof fn lemma_footprint_bounded(layout: &ScalarLayout) {
    }

    fn layout(config: &()) -> (r: Result<ScalarLayout, LayoutError>) {
        Ok(ScalarLayout)
    }

    fn len(layout: &ScalarLayout) -> (n: usize) {
        1
    }

    fn view<'a>(layout: &'a ScalarLayout, buf: &'a [F]) -> (v: Self::ConstView<'a>)
        ensures
            *v == buf@[0],
    {
        &buf[0]
    }

    fn view_mut<'a>(layout: &'a ScalarLayout, buf: &'a mut [F]) -> (v: Self::MutView<'a>)
        ensures
            *v == old(buf)@[0],
            final(buf)@ == seq![*final(v)],
    {
        &mut buf[0]
    }
}

} // verus!
