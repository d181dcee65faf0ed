//! Anti-aliased scan conversion: a supersampling coverage accumulator, shaders
//! that produce rows of colors, and compositors that blend shaded color into a
//! destination buffer through the accumulated coverage.
use vstd::prelude::*;

pub mod compositor;
pub mod coverage;
pub mod primitives;
pub mod shader;

verus! {

/// Something that consumes horizontal spans `[x1, x2)` of row `y`.
///
/// Each implementation states which spans it accepts and what a span does to it.
pub trait Blitter: Sized {
    /// The spans that `blit_span` accepts in this state.
    spec fn span_allowed(&self, y: i32, x1: i32, x2: i32) -> bool;

    /// `after` is the state that results from handling the span in this state.
    spec fn span_done(&self, after: &Self, y: i32, x1: i32, x2: i32) -> bool;

    fn blit_span(&mut self, y: i32, x1: i32, x2: i32)
        requires
            old(self).span_allowed(y, x1, x2),
        ensures
            old(self).span_done(&*final(self), y, x1, x2),
    ;
}

} // verus!
