//! Resize planning: the pixel dimensions an output gets from its source's
//! dimensions and the requested width and height.

use vstd::prelude::*;

verus! {

/// The requested output size; each side is optional.
#[derive(Clone, Copy, Debug, PartialEq, Eq, Structural)]
pub struct ResizeSpec {
    pub width: Option<u32>,
    pub height: Option<u32>,
}

impl ResizeSpec {
    /// Whether any resizing is asked for.
    pub open spec fn requested(self) -> bool {
        self.width is Some || self.height is Some
    }
}

/// The side derived from the given one so that the source's aspect ratio is
/// kept: `given * other_src / given_src`, truncated toward zero. A source with
/// no extent along the given side has no ratio to keep and yields 0; a
/// result past `u32::MAX` saturates there.
pub open spec fn derived_side(given: u32, other_src: u32, given_src: u32) -> u32 {
    if given_src == 0 {
        0
    } else if given as int * other_src as int / given_src as int > u32::MAX as int {
        u32::MAX
    } else {
        (given as int * other_src as int / given_src as int) as u32
    }
}

/// The output dimensions `(width, height)` for a source of `src_w` by `src_h`
/// pixels, or `None` where no resizing is asked for. Both sides given: the
/// image is stretched to exactly that size. One side given: the other is
/// derived from the source's aspect ratio.
pub open spec fn target_extent(src_w: u32, src_h: u32, spec: ResizeSpec) -> Option<(u32, u32)> {
    match (spec.width, spec.height) {
        (Some(w), Some(h)) => Some((w, h)),
        (Some(w), None) => Some((w, derived_side(w, src_h, src_w))),
        (None, Some(h)) => Some((derived_side(h, src_w, src_h), h)),
        (None, None) => None,
    }
}

proof fn lemma_side_product_fits(a: u32, b: u32)
    ensures
        a as int * b as int <= u64::MAX as int,
{
    assert(a as int * b as int <= u32::MAX as int * u32::MAX as int) by (nonlinear_arith)
        requires
            a <= u32::MAX,
            b <= u32::MAX,
    ;
}

/// Computes `derived_side`.
pub fn derive_side(given: u32, other_src: u32, given_src: u32) -> (r: u32)
    ensures
        r == derived_side(given, other_src, given_src),
{
    if given_src == 0 {
        return 0;
    }
    proof {
        lemma_side_product_fits(given, other_src);
    }
    let product: u64 = given as u64 * other_src as u64;
    let quotient: u64 = product / given_src as u64;
    if quotient > u32::MAX as u64 {
        u32::MAX
    } else {
        quotient as u32
    }
}

/// The dimensions an output gets: exact when both sides are given, aspect
/// preserving when one is, `None` (keep the source's) when neither is.
pub fn target_dimensions(src_w: u32, src_h: u32, spec: ResizeSpec) -> (r: Option<(u32, u32)>)
    ensures
        r == target_extent(src_w, src_h, spec),
        spec.width is Some && spec.height is Some ==> r == Some(
            (spec.width->Some_0, spec.height->Some_0),
        ),
        spec.width is Some && spec.height is None ==> r == Some(
            (spec.width->Some_0, derived_side(spec.width->Some_0, src_h, src_w)),
        ),
        spec.width is None && spec.height is Some ==> r == Some(
            (derived_side(spec.height->Some_0, src_w, src_h), spec.height->Some_0),
        ),
        !spec.requested() <==> r is None,
{
    match (spec.width, spec.height) {
        (Some(w), Some(h)) => Some((w, h)),
        (Some(w), None) => Some((w, derive_side(w, src_h, src_w))),
        (None, Some(h)) => Some((derive_side(h, src_w, src_h), h)),
        (None, None) => None,
    }
}

} // verus!
