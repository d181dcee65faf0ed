use aa_blitter::coverage::{coverage_to_alpha, MaskSuperBlitter};
use aa_blitter::Blitter;

#[test]
fn coverage_to_alpha_values() {
    assert_eq!(coverage_to_alpha(0), 0);
    assert_eq!(coverage_to_alpha(1), 16);
    assert_eq!(coverage_to_alpha(2), 31);
    assert_eq!(coverage_to_alpha(3), 47);
    assert_eq!(coverage_to_alpha(4), 62);
}

#[test]
fn coverage_to_alpha_full_pixel_is_biased_down() {
    let full = coverage_to_alpha(4) as i32;
    assert!(full >= (4 << 4) - 4);
    assert!(full <= 4 << 4);
}

#[test]
fn new_region_is_zero() {
    let m = MaskSuperBlitter::new(3, 2);
    assert_eq!(m.width(), 3);
    assert_eq!(m.height(), 2);
    assert_eq!(m.buf, vec![0u8; 6]);
}

#[test]
fn four_subrows_over_half_the_row() {
    let mut m = MaskSuperBlitter::new(8, 1);
    for y in 0..4 {
        m.blit_span(y, 0, 16);
    }
    assert_eq!(m.buf, vec![248, 255, 255, 255, 0, 0, 0, 0]);
}

#[test]
fn interior_pixels_of_full_run_reach_255() {
    let mut m = MaskSuperBlitter::new(8, 2);
    for y in 4..8 {
        m.blit_span(y, 2, 31);
    }
    assert_eq!(&m.buf[0..8], &[0u8; 8][..]);
    assert_eq!(m.buf[8], 4 * coverage_to_alpha(2));
    for c in 9..15 {
        assert_eq!(m.buf[c], 255);
    }
    assert_eq!(m.buf[15], 4 * coverage_to_alpha(3));
}

#[test]
fn last_subrow_weighs_63() {
    let mut m = MaskSuperBlitter::new(4, 1);
    m.blit_span(3, 0, 12);
    assert_eq!(m.buf, vec![62, 63, 63, 0]);
    let mut m = MaskSuperBlitter::new(4, 1);
    m.blit_span(1, 0, 12);
    assert_eq!(m.buf, vec![62, 64, 64, 0]);
}

#[test]
fn single_subrow_span_across_a_pixel_boundary() {
    let mut m = MaskSuperBlitter::new(4, 1);
    m.blit_span(0, 2, 6);
    assert_eq!(m.buf[0], coverage_to_alpha(2));
    assert_eq!(m.buf[1], coverage_to_alpha(2));
    assert_eq!(m.buf[2], 0);
    assert_eq!(m.buf[3], 0);
}

#[test]
fn span_inside_one_pixel() {
    let mut m = MaskSuperBlitter::new(3, 1);
    m.blit_span(2, 5, 7);
    assert_eq!(m.buf, vec![0, coverage_to_alpha(2), 0]);
}

#[test]
fn empty_span_adds_nothing() {
    let mut m = MaskSuperBlitter::new(3, 1);
    m.blit_span(0, 5, 5);
    assert_eq!(m.buf, vec![0, 0, 0]);
}

#[test]
fn span_on_second_row_leaves_first_row() {
    let mut m = MaskSuperBlitter::new(2, 2);
    m.blit_span(5, 0, 7);
    assert_eq!(m.buf, vec![0, 0, 62, 47]);
}

#[test]
fn checked_span_out_of_bounds() {
    let mut m = MaskSuperBlitter::new(2, 2);
    assert!(!m.try_blit_span(8, 0, 1));
    assert!(!m.try_blit_span(-1, 0, 1));
    assert!(!m.try_blit_span(0, 0, 8));
    assert!(!m.try_blit_span(0, 3, 2));
    assert!(!m.try_blit_span(0, -1, 2));
    assert_eq!(m.buf, vec![0, 0, 0, 0]);
}

#[test]
fn checked_span_refuses_overflow() {
    let mut m = MaskSuperBlitter::new(3, 1);
    for y in 0..4 {
        assert!(m.try_blit_span(y, 0, 11));
    }
    assert_eq!(m.buf, vec![248, 255, 47 * 4]);
    let before = m.buf.clone();
    assert!(!m.try_blit_span(0, 4, 8));
    assert_eq!(m.buf, before);
    assert!(m.try_blit_span(0, 8, 9));
    assert_eq!(m.buf, vec![248, 255, 47 * 4 + 16]);
}

#[test]
fn checked_span_refuses_inconsistent_buffer() {
    let mut m = MaskSuperBlitter::new(2, 1);
    m.buf.push(0);
    assert!(!m.try_blit_span(0, 0, 1));
}
