use aa_blitter::compositor::{ShaderBlitter, SolidBlitter};
use aa_blitter::primitives::{FixedMatrix, SourceImage};
use aa_blitter::shader::{GradientShader, ImageShader, Shader, SolidShader};
use aa_blitter::Blitter;
use sw_composite::{Color, Gradient, GradientStop, MatrixFixedPoint, Spread};

const IDENTITY: FixedMatrix = FixedMatrix { xx: 1 << 16, xy: 0, yx: 0, yy: 1 << 16, x0: 0, y0: 0 };

#[test]
fn zero_coverage_keeps_destination() {
    let dest = vec![0x80402010u32, 0xff00ff00];
    let mut b = SolidBlitter::new(0xff0000ff, vec![0, 0], dest.clone(), 2, 2);
    b.blit_span(0, 0, 2);
    assert_eq!(b.dest, dest);
}

#[test]
fn full_coverage_of_opaque_color_gives_the_color() {
    let mut b = SolidBlitter::new(0xff123456, vec![255, 255, 255], vec![0x80402010u32, 0, 0xffffffff], 3, 3);
    b.blit_span(0, 0, 3);
    assert_eq!(b.dest, vec![0xff123456u32; 3]);
}

#[test]
fn partial_coverage_mixes() {
    let mut b = SolidBlitter::new(0xffffffff, vec![128], vec![0xff000000u32], 1, 1);
    b.blit_span(0, 0, 1);
    let v = b.dest[0];
    assert_ne!(v, 0xff000000);
    assert_ne!(v, 0xffffffff);
    assert_eq!(v >> 24, 0xff);
}

#[test]
fn blending_twice_is_not_idempotent() {
    let mut b = SolidBlitter::new(0xffffffff, vec![128], vec![0u32], 1, 1);
    b.blit_span(0, 0, 1);
    let once = b.dest[0];
    b.blit_span(0, 0, 1);
    let twice = b.dest[0];
    assert_ne!(once, twice);
    assert!(twice >> 24 > once >> 24);
}

#[test]
fn solid_blit_touches_only_the_span() {
    let mask = vec![255u8; 8];
    let mut b = SolidBlitter::new(0xff00ff00, mask, vec![7u32; 8], 4, 4);
    b.blit_span(1, 1, 3);
    assert_eq!(b.dest, vec![7, 7, 7, 7, 7, 0xff00ff00, 0xff00ff00, 7]);
}

#[test]
fn solid_shader_row_of_five() {
    let s = SolidShader { color: 0x80402010 };
    let mut row = vec![1u32; 7];
    s.shade_span(-3, 12, &mut row, 5);
    assert_eq!(row, vec![0x80402010, 0x80402010, 0x80402010, 0x80402010, 0x80402010, 1, 1]);
}

#[test]
fn solid_shader_starts_anywhere() {
    let s = SolidShader { color: 0xff0000ff };
    let mut row = vec![0u32; 5];
    s.shade_span(i32::MAX - 1, i32::MIN, &mut row, 5);
    assert_eq!(row, vec![0xff0000ff; 5]);
}

#[test]
fn half_coverage_of_white_over_black() {
    let mut b = SolidBlitter::new(0xffffffff, vec![128], vec![0xff000000u32], 1, 1);
    b.blit_span(0, 0, 1);
    assert_eq!(b.dest[0], 0xff808080);
}

#[test]
fn shader_blitter_with_solid_shader_matches_solid_blitter() {
    let mask = vec![0u8, 64, 128, 255, 200, 10];
    let dest = vec![0xff102030u32, 0x80808080, 0, 0x40302010, 0xffffffff, 0x11111111];
    let mut a = SolidBlitter::new(0xc0604020, mask.clone(), dest.clone(), 3, 3);
    let mut b = ShaderBlitter::new(SolidShader { color: 0xc0604020 }, mask, dest, 3, 3, 4);
    a.blit_span(0, 1, 3);
    a.blit_span(1, 0, 3);
    b.blit_span(0, 1, 3);
    b.blit_span(1, 0, 3);
    assert_eq!(a.dest, b.dest);
    assert_eq!(b.tmp[0], 0xc0604020);
}

#[test]
fn image_shader_samples_single_pixel_image() {
    let image = SourceImage { width: 1, height: 1, data: vec![0xff336699] };
    let s = ImageShader::new(image, IDENTITY);
    let mut row = vec![0u32; 4];
    s.shade_span(2, 5, &mut row, 3);
    assert_eq!(row, vec![0xff336699, 0xff336699, 0xff336699, 0]);
}

#[test]
fn image_shader_follows_the_transform() {
    let image = SourceImage { width: 2, height: 1, data: vec![0xff000000, 0xffffffff] };
    let s = ImageShader::new(image, IDENTITY);
    let mut row = vec![0u32; 3];
    s.shade_span(0, 0, &mut row, 3);
    assert_eq!(row, vec![0xff000000, 0xffffffff, 0xffffffff]);
}

#[test]
fn image_shader_blit_writes_samples() {
    let image = SourceImage { width: 2, height: 1, data: vec![0xff000000, 0xffffffff] };
    let s = ImageShader::new(image, IDENTITY);
    let mut b = ShaderBlitter::new(s, vec![255u8, 255], vec![0u32, 0], 2, 2, 2);
    b.blit_span(0, 0, 2);
    assert_eq!(b.dest, vec![0xff000000, 0xffffffff]);
}

#[test]
fn gradient_shader_reads_its_table() {
    let gradient = Gradient {
        stops: vec![
            GradientStop { position: 0.0, color: Color::new(255, 255, 0, 0) },
            GradientStop { position: 1.0, color: Color::new(255, 0, 0, 255) },
        ],
    };
    let m = MatrixFixedPoint { xx: 1 << 16, xy: 0, yx: 0, yy: 1 << 16, x0: 0, y0: 0 };
    let expected = gradient.make_source(&m, 255);
    let s = GradientShader::new(gradient.make_source(&m, 255));
    let mut row = vec![0u32; 4];
    s.shade_span(0, 0, &mut row, 4);
    for i in 0..4u16 {
        assert_eq!(row[i as usize], expected.radial_gradient_eval(i, 0, Spread::Pad));
    }
    assert_eq!(row[0], 0xffff0000);
}
