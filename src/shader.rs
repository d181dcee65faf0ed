//! Shaders: each produces the colors of a horizontal run of device pixels.
use vstd::prelude::*;

use sw_composite::GradientSource;

use crate::primitives::{
    bilinear_of, fetch_bilinear_padded, premultiplied, radial_gradient_padded,
    transform_point, transform_x, transform_y, FixedMatrix, SourceImage,
};

verus! {

/// Produces a row of colors for device pixels `(x, y)`, `(x + 1, y)`, ...
pub trait Shader {
    /// The shader's own data is consistent.
    spec fn wf(&self) -> bool;

    /// `c` is what this shader gives for device pixel `(x, y)`.
    spec fn shades(&self, x: int, y: int, c: u32) -> bool;

    /// Every color the shader gives is premultiplied.
    spec fn premultiplied_output(&self) -> bool;

    /// Pixels `x .. x + count` can be shaded without the column overflowing.
    spec fn span_fits(&self, x: i32, count: usize) -> bool;

    /// Writes the colors of pixels `x .. x + count` of row `y` into `dest[0 .. count]`.
    fn shade_span(&self, x: i32, y: i32, dest: &mut Vec<u32>, count: usize)
        requires
            self.wf(),
            count <= old(dest)@.len(),
            self.span_fits(x, count),
        ensures
            final(dest)@.len() == old(dest)@.len(),
            forall|i: int|
                0 <= i < count ==> self.shades(x + i, y as int, #[trigger] final(dest)@[i]),
            forall|i: int|
                0 <= i < count && self.premultiplied_output() ==> premultiplied(
                    #[trigger] final(dest)@[i],
                ),
            forall|i: int| count <= i < old(dest)@.len() ==> #[trigger] final(dest)@[i] == old(dest)@[i],
    ;
}

/// One color everywhere.
pub struct SolidShader {
    pub color: u32,
}

impl Shader for SolidShader {
    open spec fn wf(&self) -> bool {
        true
    }

    open spec fn shades(&self, x: int, y: int, c: u32) -> bool {
        c == self.color
    }

    open spec fn premultiplied_output(&self) -> bool {
        premultiplied(self.color)
    }

    /// The color does not depend on the column, so every start fits.
    open spec fn span_fits(&self, x: i32, count: usize) -> bool {
        true
    }

    fn shade_span(&self, x: i32, y: i32, dest: &mut Vec<u32>, count: usize) {
        let mut i: usize = 0;
        while i < count
            invariant
                i <= count <= old(dest)@.len(),
                dest@.len() == old(dest)@.len(),
                forall|j: int| 0 <= j < i ==> #[trigger] dest@[j] == self.color,
                forall|j: int| i <= j < old(dest)@.len() ==> #[trigger] dest@[j] == old(dest)@[j],
            decreases count - i,
        {
            dest.set(i, self.color);
            i = i + 1;
        }
    }
}

/// Samples an image through a fixed-point transform.
pub struct ImageShader {
    pub image: SourceImage,
    pub xfm: FixedMatrix,
}

impl ImageShader {
    /// A shader that samples `image` at the image of each device pixel under `xfm`.
    pub fn new(image: SourceImage, xfm: FixedMatrix) -> (r: ImageShader)
        ensures
            r.image == image,
            r.xfm == xfm,
    {
        ImageShader { image, xfm }
    }
}

impl Shader for ImageShader {
    open spec fn wf(&self) -> bool {
        self.image.wf()
    }

    /// Device coordinates are taken as 16-bit unsigned values, as the transform reads them.
    open spec fn shades(&self, x: int, y: int, c: u32) -> bool {
        let sx = (x as u16) as int;
        let sy = (y as u16) as int;
        c == bilinear_of(
            self.image.width,
            self.image.height,
            self.image.data@,
            transform_x(self.xfm, sx, sy),
            transform_y(self.xfm, sx, sy),
        )
    }

    open spec fn premultiplied_output(&self) -> bool {
        self.image.all_premultiplied()
    }

    /// The column steps by one per pixel and stays an `i32`.
    open spec fn span_fits(&self, x: i32, count: usize) -> bool {
        x + count <= i32::MAX
    }

    fn shade_span(&self, x: i32, y: i32, dest: &mut Vec<u32>, count: usize) {
        let mut i: usize = 0;
        let mut px: i32 = x;
        while i < count
            invariant
                self.wf(),
                i <= count <= old(dest)@.len(),
                x + count <= i32::MAX,
                px == x + i,
                dest@.len() == old(dest)@.len(),
                forall|j: int| 0 <= j < i ==> self.shades(x + j, y as int, #[trigger] dest@[j]),
                forall|j: int|
                    0 <= j < i && self.premultiplied_output() ==> premultiplied(#[trigger] dest@[j]),
                forall|j: int| i <= j < old(dest)@.len() ==> #[trigger] dest@[j] == old(dest)@[j],
            decreases count - i,
        {
            let p = transform_point(
                &self.xfm,
                #[verifier::truncate] (px as u16),
                #[verifier::truncate] (y as u16),
            );
            let c: u32 = fetch_bilinear_padded(&self.image, p.0, p.1);
            dest.set(i, c);
            px = px + 1;
            i = i + 1;
        }
    }
}

/// Looks device pixels up in a radial gradient's color table.
pub struct GradientShader {
    pub gradient: Box<GradientSource>,
}

impl GradientShader {
    /// A shader over a gradient source whose table and transform are already built.
    pub fn new(gradient: Box<GradientSource>) -> (r: GradientShader)
        ensures
            r.gradient == gradient,
    {
        GradientShader { gradient }
    }
}

impl Shader for GradientShader {
    open spec fn wf(&self) -> bool {
        true
    }

    /// The table lookup is not described here: any color may come back.
    open spec fn shades(&self, x: int, y: int, c: u32) -> bool {
        true
    }

    open spec fn premultiplied_output(&self) -> bool {
        true
    }

    /// The column steps by one per pixel and stays an `i32`.
    open spec fn span_fits(&self, x: i32, count: usize) -> bool {
        x + count <= i32::MAX
    }

    fn shade_span(&self, x: i32, y: i32, dest: &mut Vec<u32>, count: usize) {
        let mut i: usize = 0;
        let mut px: i32 = x;
        while i < count
            invariant
                i <= count <= old(dest)@.len(),
                x + count <= i32::MAX,
                px == x + i,
                dest@.len() == old(dest)@.len(),
                forall|j: int| 0 <= j < i ==> premultiplied(#[trigger] dest@[j]),
                forall|j: int| i <= j < old(dest)@.len() ==> #[trigger] dest@[j] == old(dest)@[j],
            decreases count - i,
        {
            let c: u32 = radial_gradient_padded(
                &self.gradient,
                #[verifier::truncate] (px as u16),
                #[verifier::truncate] (y as u16),
            );
            dest.set(i, c);
            px = px + 1;
            i = i + 1;
        }
    }
}

} // verus!
