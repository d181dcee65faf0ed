//! The pixel primitives this library builds on: fixed-point transforms, bilinear
//! image sampling, gradient tables and the coverage-attenuated "over" operator,
//! all provided by `sw_composite`.
use vstd::prelude::*;

use sw_composite::{GradientSource, Image, MatrixFixedPoint, PadFetch, Spread};

verus! {

#[verifier::external_type_specification]
#[verifier::external_body]
pub struct ExGradientSource(GradientSource);

/// The alpha channel of a packed ARGB color.
pub open spec fn alpha_of(c: u32) -> u32 {
    c >> 24u32
}

/// Every color channel of `c` is at most its alpha, as in premultiplied ARGB.
pub open spec fn premultiplied(c: u32) -> bool {
    &&& (c >> 16u32) & 0xffu32 <= c >> 24u32
    &&& (c >> 8u32) & 0xffu32 <= c >> 24u32
    &&& c & 0xffu32 <= c >> 24u32
}

/// An affine map in 16.16 fixed point from device pixels to source space.
#[derive(Clone, Copy, Debug, PartialEq, Eq, Structural)]
pub struct FixedMatrix {
    pub xx: i32,
    pub xy: i32,
    pub yx: i32,
    pub yy: i32,
    pub x0: i32,
    pub y0: i32,
}

/// First coordinate of `(x, y)` under `m`, in wrapping 32-bit arithmetic.
pub open spec fn transform_x(m: FixedMatrix, x: int, y: int) -> i32 {
    (x * m.xx + m.xy * y + m.x0) as i32
}

/// Second coordinate of `(x, y)` under `m`, in wrapping 32-bit arithmetic.
pub open spec fn transform_y(m: FixedMatrix, x: int, y: int) -> i32 {
    (y * m.yy + m.yx * x + m.y0) as i32
}

/// Relies on `MatrixFixedPoint::transform`: `x * xx + xy * y + x0` and
/// `y * yy + yx * x + y0`, each with wrapping multiplies and adds.
#[verifier::external_body]
pub(crate) fn transform_point(m: &FixedMatrix, x: u16, y: u16) -> (r: (i32, i32))
    ensures
        r.0 == transform_x(*m, x as int, y as int),
        r.1 == transform_y(*m, x as int, y as int),
{
    let f = MatrixFixedPoint { xx: m.xx, xy: m.xy, yx: m.yx, yy: m.yy, x0: m.x0, y0: m.y0 };
    let p = f.transform(x, y);
    (p.x, p.y)
}

/// A row-major image of packed ARGB pixels.
pub struct SourceImage {
    pub width: i32,
    pub height: i32,
    pub data: Vec<u32>,
}

impl SourceImage {
    /// At least one pixel, and `data` holds all `width * height` of them.
    pub open spec fn wf(&self) -> bool {
        &&& 1 <= self.width
        &&& 1 <= self.height
        &&& self.width * self.height <= i32::MAX
        &&& self.width * self.height <= self.data@.len()
    }

    /// Every pixel is a premultiplied color.
    pub open spec fn all_premultiplied(&self) -> bool {
        forall|i: int| 0 <= i < self.data@.len() ==> premultiplied(#[trigger] self.data@[i])
    }
}

/// The bilinear sample of a `width` by `height` image with pixels `data` at the
/// 16.16 fixed-point point `(fx, fy)`, edges padded.
pub uninterp spec fn bilinear_of(width: i32, height: i32, data: Seq<u32>, fx: i32, fy: i32) -> u32;

/// Relies on `sw_composite::fetch_bilinear::<PadFetch>`: the sample depends on the
/// image and the point alone; it is a weighted mean of four pixels whose weights sum
/// to 256, so it keeps the premultiplied form of the pixels.
#[verifier::external_body]
pub(crate) fn fetch_bilinear_padded(image: &SourceImage, fx: i32, fy: i32) -> (r: u32)
    requires
        image.wf(),
    ensures
        r == bilinear_of(image.width, image.height, image.data@, fx, fy),
        image.all_premultiplied() ==> premultiplied(r),
{
    let img = Image { width: image.width, height: image.height, data: &image.data[..] };
    sw_composite::fetch_bilinear::<PadFetch>(&img, fx, fy)
}

/// Relies on `GradientSource::radial_gradient_eval` with `Spread::Pad`: an entry of
/// the source's color table, every one of which was premultiplied when the table
/// was built.
#[verifier::external_body]
pub(crate) fn radial_gradient_padded(source: &GradientSource, x: u16, y: u16) -> (r: u32)
    ensures
        premultiplied(r),
{
    source.radial_gradient_eval(x, y, Spread::Pad)
}

/// `src` over `dst`, the source attenuated by the coverage `alpha` in `[0, 255]`.
///
/// The source is weighted by `alpha + 1` out of 256 and the destination by 256
/// less the source alpha so weighted; red and blue, then alpha and green, are
/// summed two lanes at a time in one word before dropping the low 8 bits.
pub open spec fn over_in_exact(src: u32, dst: u32, alpha: u32) -> u32 {
    let sa = alpha + 1;
    let prod = alpha_of(src) * sa;
    let da = 256 - (prod + prod / 256) / 256;
    let src_rb = (src & 0xff00ffu32) * sa;
    let src_ag = ((src >> 8u32) & 0xff00ffu32) * sa;
    let dst_rb = (dst & 0xff00ffu32) * da;
    let dst_ag = ((dst >> 8u32) & 0xff00ffu32) * da;
    (((src_rb + dst_rb) / 256) as u32 & 0xff00ffu32) | ((src_ag + dst_ag) as u32 & 0xff00ff00u32)
}

/// Relies on `sw_composite::over_in`: premultiplied source over destination with
/// the source scaled by `alpha + 1` out of 256; for a premultiplied source each
/// 16-bit lane sum stays below 65536, so no step overflows. With `alpha == 0` the source is
/// scaled by 1/256 and drops out, leaving `dst`; an opaque source at `alpha == 255`
/// leaves the destination a weight of 1/256 that drops out, giving `src`.
#[verifier::external_body]
pub(crate) fn over_in(src: u32, dst: u32, alpha: u32) -> (r: u32)
    requires
        alpha <= 255,
        premultiplied(src),
    ensures
        r == over_in_exact(src, dst, alpha),
        alpha == 0 ==> r == dst,
        alpha == 255 && alpha_of(src) == 255 ==> r == src,
{
    sw_composite::over_in(src, dst, alpha)
}

} // verus!
