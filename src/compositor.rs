//! Masked compositors: blend color into a destination buffer, attenuated per
//! pixel by a coverage buffer.
use vstd::prelude::*;

use crate::primitives::{alpha_of, over_in, over_in_exact, premultiplied};
use crate::shader::Shader;
use crate::Blitter;

verus! {

/// The pixel `dst` after blending `src` over it with coverage `alpha`: the blend
/// of the two, which is `dst` itself under zero coverage and `src` itself for an
/// opaque `src` under full coverage.
pub open spec fn blended(src: u32, dst: u32, alpha: u8, r: u32) -> bool {
    &&& r == over_in_exact(src, dst, alpha as u32)
    &&& alpha == 0 ==> r == dst
    &&& alpha == 255 && alpha_of(src) == 255 ==> r == src
}

/// Row `y` of a buffer with stride `stride` reaches column `x2` inside a buffer of
/// `len` cells, with every index below `i32::MAX`.
pub open spec fn row_in_bounds(y: int, x2: int, stride: int, len: int) -> bool {
    &&& 0 <= stride
    &&& y * stride + x2 <= len
    &&& y * stride + x2 <= i32::MAX
}

/// Blends the colors of a shader into `dest` through the coverage in `mask`.
pub struct ShaderBlitter<S: Shader> {
    pub shader: S,
    pub mask: Vec<u8>,
    pub dest: Vec<u32>,
    pub tmp: Vec<u32>,
    pub dest_stride: i32,
    pub mask_stride: i32,
}

impl<S: Shader> ShaderBlitter<S> {
    /// A compositor whose scratch row holds spans of up to `max_width` pixels.
    pub fn new(
        shader: S,
        mask: Vec<u8>,
        dest: Vec<u32>,
        dest_stride: i32,
        mask_stride: i32,
        max_width: usize,
    ) -> (r: ShaderBlitter<S>)
        ensures
            r.shader == shader,
            r.mask == mask,
            r.dest == dest,
            r.tmp@.len() == max_width,
            r.dest_stride == dest_stride,
            r.mask_stride == mask_stride,
    {
        ShaderBlitter { shader, mask, dest, tmp: vec![0u32; max_width], dest_stride, mask_stride }
    }
}

impl<S: Shader> Blitter for ShaderBlitter<S> {
    /// The span lies inside both buffers and the scratch row, and the shader's
    /// colors are premultiplied.
    open spec fn span_allowed(&self, y: i32, x1: i32, x2: i32) -> bool {
        &&& self.shader.wf()
        &&& self.shader.premultiplied_output()
        &&& self.shader.span_fits(x1, (x2 - x1) as usize)
        &&& 0 <= y
        &&& 0 <= x1 <= x2
        &&& x2 - x1 <= self.tmp@.len()
        &&& row_in_bounds(y as int, x2 as int, self.dest_stride as int, self.dest@.len() as int)
        &&& row_in_bounds(y as int, x2 as int, self.mask_stride as int, self.mask@.len() as int)
    }

    /// `tmp[k]` holds the shader's color for pixel `x1 + k` of row `y`, and
    /// pixel `x1 + k` of the destination row is that color blended over its old
    /// value with the coverage at the same place; nothing else in `dest` changes.
    open spec fn span_done(&self, after: &Self, y: i32, x1: i32, x2: i32) -> bool {
        let d = y * self.dest_stride + x1;
        let m = y * self.mask_stride + x1;
        &&& after.shader == self.shader
        &&& after.mask == self.mask
        &&& after.dest_stride == self.dest_stride
        &&& after.mask_stride == self.mask_stride
        &&& after.tmp@.len() == self.tmp@.len()
        &&& after.dest@.len() == self.dest@.len()
        &&& forall|k: int|
            0 <= k < x2 - x1 ==> self.shader.shades(x1 + k, y as int, #[trigger] after.tmp@[k])
                && blended(after.tmp@[k], self.dest@[d + k], self.mask@[m + k], after.dest@[d + k])
        &&& forall|i: int|
            0 <= i < self.dest@.len() && !(d <= i < d + (x2 - x1)) ==> #[trigger] after.dest@[i]
                == self.dest@[i]
    }

    fn blit_span(&mut self, y: i32, x1: i32, x2: i32) {
        let ghost pre = *self;
        assert(0 <= y * self.dest_stride) by (nonlinear_arith)
            requires
                0 <= y,
                0 <= self.dest_stride,
        ;
        assert(0 <= y * self.mask_stride) by (nonlinear_arith)
            requires
                0 <= y,
                0 <= self.mask_stride,
        ;
        let dest_row: i32 = y * self.dest_stride;
        let mask_row: i32 = y * self.mask_stride;
        let count: usize = (x2 - x1) as usize;
        self.shader.shade_span(x1, y, &mut self.tmp, count);
        let d: usize = (dest_row + x1) as usize;
        let m: usize = (mask_row + x1) as usize;
        let mut i: usize = 0;
        while i < count
            invariant
                i <= count,
                count == x2 - x1,
                count <= self.tmp@.len(),
                d == y * pre.dest_stride + x1,
                m == y * pre.mask_stride + x1,
                d + count <= pre.dest@.len(),
                m + count <= pre.mask@.len(),
                d + count <= i32::MAX,
                m + count <= i32::MAX,
                self.shader == pre.shader,
                self.mask == pre.mask,
                self.dest_stride == pre.dest_stride,
                self.mask_stride == pre.mask_stride,
                self.tmp@.len() == pre.tmp@.len(),
                self.dest@.len() == pre.dest@.len(),
                pre.shader.premultiplied_output(),
                forall|k: int|
                    0 <= k < count ==> pre.shader.shades(x1 + k, y as int, #[trigger] self.tmp@[k])
                        && premultiplied(self.tmp@[k]),
                forall|k: int|
                    0 <= k < i ==> #[trigger] blended(
                        self.tmp@[k],
                        pre.dest@[d + k],
                        pre.mask@[m + k],
                        self.dest@[d + k],
                    ),
                forall|j: int|
                    0 <= j < pre.dest@.len() && !(d <= j < d + i) ==> #[trigger] self.dest@[j]
                        == pre.dest@[j],
            decreases count - i,
        {
            let c: u32 = self.tmp[i];
            let v: u32 = over_in(c, self.dest[d + i], self.mask[m + i] as u32);
            self.dest.set(d + i, v);
            i = i + 1;
        }
        assert forall|k: int| 0 <= k < x2 - x1 implies pre.shader.shades(
            x1 + k,
            y as int,
            #[trigger] self.tmp@[k],
        ) && blended(self.tmp@[k], pre.dest@[d + k], pre.mask@[m + k], self.dest@[d + k]) by {
            assert(blended(self.tmp@[k], pre.dest@[d + k], pre.mask@[m + k], self.dest@[d + k]));
        }
    }
}

/// Blends one color into `dest` through the coverage in `mask`.
pub struct SolidBlitter {
    pub color: u32,
    pub mask: Vec<u8>,
    pub dest: Vec<u32>,
    pub dest_stride: i32,
    pub mask_stride: i32,
}

impl SolidBlitter {
    /// A compositor that fills with `color`.
    pub fn new(color: u32, mask: Vec<u8>, dest: Vec<u32>, dest_stride: i32, mask_stride: i32) -> (r:
        SolidBlitter)
        ensures
            r.color == color,
            r.mask == mask,
            r.dest == dest,
            r.dest_stride == dest_stride,
            r.mask_stride == mask_stride,
    {
        SolidBlitter { color, mask, dest, dest_stride, mask_stride }
    }
}

impl Blitter for SolidBlitter {
    /// The span lies inside both buffers and the color is premultiplied.
    open spec fn span_allowed(&self, y: i32, x1: i32, x2: i32) -> bool {
        &&& premultiplied(self.color)
        &&& 0 <= y
        &&& 0 <= x1 <= x2
        &&& row_in_bounds(y as int, x2 as int, self.dest_stride as int, self.dest@.len() as int)
        &&& row_in_bounds(y as int, x2 as int, self.mask_stride as int, self.mask@.len() as int)
    }

    /// Each pixel `x1 <= i < x2` of destination row `y` is the color blended over
    /// its old value with the coverage at the same place; nothing else changes.
    open spec fn span_done(&self, after: &Self, y: i32, x1: i32, x2: i32) -> bool {
        let d = y * self.dest_stride;
        let m = y * self.mask_stride;
        &&& after.color == self.color
        &&& after.mask == self.mask
        &&& after.dest_stride == self.dest_stride
        &&& after.mask_stride == self.mask_stride
        &&& after.dest@.len() == self.dest@.len()
        &&& forall|i: int|
            x1 <= i < x2 ==> #[trigger] blended(
                self.color,
                self.dest@[d + i],
                self.mask@[m + i],
                after.dest@[d + i],
            )
        &&& forall|i: int|
            0 <= i < self.dest@.len() && !(d + x1 <= i < d + x2) ==> #[trigger] after.dest@[i]
                == self.dest@[i]
    }

    fn blit_span(&mut self, y: i32, x1: i32, x2: i32) {
        let ghost pre = *self;
        assert(0 <= y * self.dest_stride) by (nonlinear_arith)
            requires
                0 <= y,
                0 <= self.dest_stride,
        ;
        assert(0 <= y * self.mask_stride) by (nonlinear_arith)
            requires
                0 <= y,
                0 <= self.mask_stride,
        ;
        let dest_row: i32 = y * self.dest_stride;
        let mask_row: i32 = y * self.mask_stride;
        let mut i: i32 = x1;
        while i < x2
            invariant
                0 <= x1 <= i <= x2,
                dest_row == y * pre.dest_stride,
                mask_row == y * pre.mask_stride,
                0 <= dest_row,
                0 <= mask_row,
                dest_row + x2 <= pre.dest@.len(),
                mask_row + x2 <= pre.mask@.len(),
                dest_row + x2 <= i32::MAX,
                mask_row + x2 <= i32::MAX,
                premultiplied(pre.color),
                self.color == pre.color,
                self.mask == pre.mask,
                self.dest_stride == pre.dest_stride,
                self.mask_stride == pre.mask_stride,
                self.dest@.len() == pre.dest@.len(),
                forall|k: int|
                    x1 <= k < i ==> #[trigger] blended(
                        pre.color,
                        pre.dest@[dest_row + k],
                        pre.mask@[mask_row + k],
                        self.dest@[dest_row + k],
                    ),
                forall|j: int|
                    0 <= j < pre.dest@.len() && !(dest_row + x1 <= j < dest_row + i)
                        ==> #[trigger] self.dest@[j] == pre.dest@[j],
            decreases x2 - i,
        {
            let di: usize = (dest_row + i) as usize;
            let mi: usize = (mask_row + i) as usize;
            let v: u32 = over_in(self.color, self.dest[di], self.mask[mi] as u32);
            self.dest.set(di, v);
            i = i + 1;
        }
    }
}

/// Blending a span whose coverage is zero everywhere leaves the destination as it
/// was.
pub proof fn lemma_zero_coverage_keeps_dest(
    before: SolidBlitter,
    after: SolidBlitter,
    y: i32,
    x1: i32,
    x2: i32,
)
    requires
        before.span_allowed(y, x1, x2),
        before.span_done(&after, y, x1, x2),
        forall|i: int| x1 <= i < x2 ==> #[trigger] before.mask@[y * before.mask_stride + i] == 0,
    ensures
        after.dest@ == before.dest@,
{
    let d = y * before.dest_stride;
    let m = y * before.mask_stride;
    assert forall|j: int| 0 <= j < before.dest@.len() implies after.dest@[j] == before.dest@[j] by {
        if d + x1 <= j < d + x2 {
            let i = j - d;
            assert(before.mask@[m + i] == 0);
            assert(blended(before.color, before.dest@[d + i], before.mask@[m + i], after.dest@[d + i]));
        }
    }
    assert(after.dest@ =~= before.dest@);
}

/// Blending an opaque color over a span whose coverage is full everywhere writes
/// the color to every pixel of the span.
pub proof fn lemma_full_coverage_writes_color(
    before: SolidBlitter,
    after: SolidBlitter,
    y: i32,
    x1: i32,
    x2: i32,
)
    requires
        before.span_allowed(y, x1, x2),
        before.span_done(&after, y, x1, x2),
        alpha_of(before.color) == 255,
        forall|i: int| x1 <= i < x2 ==> #[trigger] before.mask@[y * before.mask_stride + i] == 255,
    ensures
        forall|i: int| x1 <= i < x2 ==> #[trigger] after.dest@[y * before.dest_stride + i] == before.color,
{
    assert forall|i: int| x1 <= i < x2 implies #[trigger] after.dest@[y * before.dest_stride + i]
        == before.color by {
        assert(before.mask@[y * before.mask_stride + i] == 255);
        assert(blended(
            before.color,
            before.dest@[y * before.dest_stride + i],
            before.mask@[y * before.mask_stride + i],
            after.dest@[y * before.dest_stride + i],
        ));
    }
}

} // verus!
