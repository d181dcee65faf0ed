//! The coverage accumulator: vertically and horizontally supersampled spans are
//! summed into one 8-bit coverage value per output pixel.
use vstd::prelude::*;

use crate::Blitter;

verus! {

/// log2 of the supersampling factor.
pub const SHIFT: i32 = 2;

/// The supersampling factor: sub-rows per output row, sub-columns per output column.
pub const SCALE: i32 = 4;

/// Mask of the sub-row (or sub-column) within one output row (or column).
pub const MASK: i32 = 3;

/// The weight of a sub-column count `aa` in `[0, SCALE]`: `aa` scaled by
/// `2^(8 - 2 * SHIFT)`, less that product shifted right by `8 - SHIFT - 1`.
pub open spec fn alpha_of_coverage(aa: int) -> int {
    let scaled = aa * 16;
    scaled - scaled / 32
}

/// The weight of one fully covered pixel on sub-row `y`: `64` on the first three
/// sub-rows of an output row and `63` on the last, so that a column covered on all
/// four sub-rows sums to `255`.
pub open spec fn row_max(y: int) -> int {
    64 - ((y % 4) + 1) / 4
}

/// What the span `[x1, x2)` on sub-row `y` adds to output column `c` of its row.
pub open spec fn span_contribution(y: int, x1: int, x2: int, c: int) -> int {
    let first = x1 / 4;
    let last = x2 / 4;
    if last <= first {
        if c == first { alpha_of_coverage(x2 % 4 - x1 % 4) } else { 0 }
    } else if c == first {
        alpha_of_coverage(4 - x1 % 4)
    } else if first < c && c < last {
        row_max(y)
    } else if c == last {
        alpha_of_coverage(x2 % 4)
    } else {
        0
    }
}

/// Converts a count of covered sub-columns into a coverage weight.
pub fn coverage_to_alpha(aa: i32) -> (r: u8)
    requires
        0 <= aa <= SCALE,
    ensures
        r as int == alpha_of_coverage(aa as int),
{
    let scaled: i32 = aa << (8 - 2 * SHIFT);
    assert(scaled == aa * 16) by (bit_vector)
        requires
            0 <= aa <= 4,
            scaled == aa << 4,
    ;
    let bias: i32 = scaled >> (8 - SHIFT - 1);
    assert(bias == scaled / 32) by (bit_vector)
        requires
            0 <= scaled <= 64,
            bias == scaled >> 5,
    ;
    let a: i32 = scaled - bias;
    a as u8
}


/// A column that lies strictly inside the spans of all four sub-rows of an output
/// row receives exactly 255 in total: 64 from each of the first three sub-rows and
/// 63 from the last, never 256.
pub proof fn lemma_interior_column_full(row: int, c: int, x1s: Seq<int>, x2s: Seq<int>)
    requires
        0 <= row,
        x1s.len() == 4,
        x2s.len() == 4,
        forall|k: int| 0 <= k < 4 ==> 0 <= #[trigger] x1s[k] && x1s[k] / 4 < c < x2s[k] / 4,
    ensures
        span_contribution(4 * row, x1s[0], x2s[0], c) + span_contribution(
            4 * row + 1,
            x1s[1],
            x2s[1],
            c,
        ) + span_contribution(4 * row + 2, x1s[2], x2s[2], c) + span_contribution(
            4 * row + 3,
            x1s[3],
            x2s[3],
            c,
        ) == 255,
{
    assert(0 <= x1s[0] && 0 <= x1s[1] && 0 <= x1s[2] && 0 <= x1s[3]);
    assert((4 * row) % 4 == 0 && (4 * row + 1) % 4 == 1 && (4 * row + 2) % 4 == 2 && (4 * row
        + 3) % 4 == 3);
}

/// No sub-column gives no weight, and a whole pixel's worth of sub-columns gives a
/// weight a little under `SCALE << (8 - 2 * SHIFT)`, that is within four of 64.
pub proof fn lemma_coverage_to_alpha_ends()
    ensures
        alpha_of_coverage(0) == 0,
        64 - 4 <= alpha_of_coverage(SCALE as int) <= 64,
{
}

/// For `0 <= v`, the masks and shifts used on supersampled coordinates are the
/// remainder and quotient by `SCALE`.
proof fn lemma_mask_shift(v: i32)
    requires
        0 <= v,
    ensures
        v & MASK == v % 4,
        v >> 2 == v / 4,
{
    assert(v & 3 == v % 4 && v >> 2 == v / 4) by (bit_vector)
        requires
            0 <= v,
    ;
}

/// Accumulates per-pixel coverage from supersampled spans.
///
/// The buffer holds `width * height` cells, row-major; sub-row `y` adds to
/// output row `y / SCALE`, sub-column `x` to output column `x / SCALE`.
pub struct MaskSuperBlitter {
    pub width: i32,
    pub height: i32,
    pub buf: Vec<u8>,
}

impl MaskSuperBlitter {
    /// Width of the region, in output pixels.
    pub open spec fn spec_width(&self) -> int {
        self.width as int
    }

    /// Height of the region, in output pixels.
    pub open spec fn spec_height(&self) -> int {
        self.height as int
    }

    /// The coverage cells, row-major.
    pub open spec fn cells(&self) -> Seq<u8> {
        self.buf@
    }

    /// The buffer holds exactly one cell per output pixel of the region.
    pub open spec fn wf(&self) -> bool {
        &&& 0 <= self.spec_width()
        &&& 0 <= self.spec_height()
        &&& self.spec_width() * self.spec_height() <= i32::MAX
        &&& self.cells().len() == self.spec_width() * self.spec_height()
    }

    /// The index in `buf` of output column `c` of output row `r`.
    pub open spec fn cell(&self, r: int, c: int) -> int {
        r * self.spec_width() + c
    }

    /// A region of `width * height` cells, all zero.
    pub fn new(width: i32, height: i32) -> (r: MaskSuperBlitter)
        requires
            0 <= width,
            0 <= height,
            width * height <= i32::MAX,
        ensures
            r.wf(),
            r.spec_width() == width,
            r.spec_height() == height,
            r.cells() == Seq::new((width * height) as nat, |i: int| 0u8),
    {
        let n: usize = (width * height) as usize;
        let buf: Vec<u8> = vec![0u8; n];
        assert(buf@ =~= Seq::new((width * height) as nat, |i: int| 0u8));
        MaskSuperBlitter { width, height, buf }
    }

    /// Width of the region, in output pixels.
    pub fn width(&self) -> (r: i32)
        ensures
            r == self.spec_width(),
    {
        self.width
    }

    /// Height of the region, in output pixels.
    pub fn height(&self) -> (r: i32)
        ensures
            r == self.spec_height(),
    {
        self.height
    }
}

/// What the span `[x1, x2)` on sub-row `y` adds to output column `c` of its row.
fn column_weight(y: i32, x1: i32, x2: i32, c: i32) -> (r: u8)
    requires
        0 <= y,
        0 <= x1 <= x2,
    ensures
        r as int == span_contribution(y as int, x1 as int, x2 as int, c as int),
{
    proof {
        lemma_mask_shift(y);
        lemma_mask_shift(x1);
        lemma_mask_shift(x2);
    }
    let first: i32 = x1 >> SHIFT;
    let last: i32 = x2 >> SHIFT;
    if last <= first {
        if c == first {
            coverage_to_alpha((x2 & MASK) - (x1 & MASK))
        } else {
            0
        }
    } else if c == first {
        coverage_to_alpha(SCALE - (x1 & MASK))
    } else if first < c && c < last {
        if (y & MASK) == MASK {
            63
        } else {
            64
        }
    } else if c == last {
        coverage_to_alpha(x2 & MASK)
    } else {
        0
    }
}

impl MaskSuperBlitter {
    /// Adds the span as `blit_span` does when the region is consistent, the span
    /// lies in it and no touched cell would pass 255; otherwise changes nothing and
    /// returns `false`.
    pub fn try_blit_span(&mut self, y: i32, x1: i32, x2: i32) -> (ok: bool)
        ensures
            ok == old(self).span_allowed(y, x1, x2),
            ok ==> old(self).span_done(&*final(self), y, x1, x2),
            !ok ==> *final(self) == *old(self),
    {
        if self.width < 0 || self.height < 0 {
            return false;
        }
        assert(self.width * self.height <= 0x7fff_ffff * 0x7fff_ffff) by (nonlinear_arith)
            requires
                0 <= self.width <= 0x7fff_ffff,
                0 <= self.height <= 0x7fff_ffff,
        ;
        let area: i64 = self.width as i64 * self.height as i64;
        if area > i32::MAX as i64 || self.buf.len() != area as usize {
            return false;
        }
        if y < 0 || y / SCALE >= self.height || x1 < 0 || x1 > x2 || x2 / SCALE >= self.width {
            return false;
        }
        assert(y < self.height * 4 && x2 < self.width * 4);
        assert(y / 4 * self.width <= (self.height - 1) * self.width) by (nonlinear_arith)
            requires
                0 <= y / 4 < self.height,
                0 <= self.width,
        ;
        assert((self.height - 1) * self.width + self.width == self.height * self.width)
            by (nonlinear_arith);
        assert(self.wf());
        let row_start: i32 = y / SCALE * self.width;
        let first: i32 = x1 / SCALE;
        let last: i32 = x2 / SCALE;
        let mut c: i32 = first;
        while c <= last
            invariant
                0 <= first <= c,
                first == x1 / 4,
                last == x2 / 4,
                last < self.width,
                0 <= y,
                0 <= x1 <= x2,
                row_start == self.cell(y / 4, 0),
                0 <= row_start,
                row_start + self.width <= self.buf@.len(),
                self.buf@.len() <= i32::MAX,
                forall|k: int|
                    0 <= k < c ==> self.cells()[self.cell(y / 4, k)] + #[trigger] span_contribution(
                        y as int,
                        x1 as int,
                        x2 as int,
                        k,
                    ) <= 255,
            decreases last + 1 - c,
        {
            let w: u8 = column_weight(y, x1, x2, c);
            if self.buf[(row_start + c) as usize] as u16 + w as u16 > 255 {
                return false;
            }
            c = c + 1;
        }
        assert forall|k: int| 0 <= k < self.spec_width() implies self.cells()[self.cell(y / 4, k)]
            + #[trigger] span_contribution(y as int, x1 as int, x2 as int, k) <= 255 by {
            if k > last {
                assert(span_contribution(y as int, x1 as int, x2 as int, k) == 0);
            }
        }
        self.blit_span(y, x1, x2);
        true
    }
}

impl Blitter for MaskSuperBlitter {
    /// The span lies in the region, and no cell it touches goes past 255.
    open spec fn span_allowed(&self, y: i32, x1: i32, x2: i32) -> bool {
        &&& self.wf()
        &&& 0 <= y < self.spec_height() * SCALE
        &&& 0 <= x1 <= x2 < self.spec_width() * SCALE
        &&& forall|c: int|
            0 <= c < self.spec_width() ==> self.cells()[self.cell(y / 4, c)]
                + #[trigger] span_contribution(y as int, x1 as int, x2 as int, c) <= 255
    }

    /// Each cell of output row `y / SCALE` grows by what the span contributes to
    /// its column; every other cell keeps its value.
    open spec fn span_done(&self, after: &Self, y: i32, x1: i32, x2: i32) -> bool {
        &&& after.wf()
        &&& after.spec_width() == self.spec_width()
        &&& after.spec_height() == self.spec_height()
        &&& after.cells().len() == self.cells().len()
        &&& forall|c: int|
            0 <= c < self.spec_width() ==> after.cells()[self.cell(y / 4, c)]
                == self.cells()[self.cell(y / 4, c)] + #[trigger] span_contribution(
                y as int,
                x1 as int,
                x2 as int,
                c,
            )
        &&& forall|i: int|
            0 <= i < self.cells().len() && !(self.cell(y / 4, 0) <= i < self.cell(y / 4 + 1, 0))
                ==> #[trigger] after.cells()[i] == self.cells()[i]
    }

    fn blit_span(&mut self, y: i32, x1: i32, x2: i32) {
        proof {
            lemma_mask_shift(y);
            lemma_mask_shift(x1);
            lemma_mask_shift(x2);
        }
        let ghost before = self.buf@;
        let ghost pre = *self;
        let ghost r = y / 4;
        let sub_row: i32 = (y & MASK) + 1;
        let last_step: i32 = sub_row >> SHIFT;
        assert(last_step == sub_row / 4) by (bit_vector)
            requires
                1 <= sub_row <= 4,
                last_step == sub_row >> 2,
        ;
        assert(1i32 << 6i32 == 64i32) by (bit_vector);
        let max: u8 = ((1 << (8 - SHIFT)) - last_step) as u8;
        assert(r < self.height);
        assert(r * self.width <= (self.height - 1) * self.width) by (nonlinear_arith)
            requires
                0 <= r < self.height,
                0 <= self.width,
        ;
        assert((self.height - 1) * self.width + self.width == self.height * self.width)
            by (nonlinear_arith);
        let row_start: usize = (y / SCALE * self.width) as usize;
        let fb: i32 = x1 & MASK;
        let fe: i32 = x2 & MASK;
        let first: i32 = x1 >> SHIFT;
        let last: i32 = x2 >> SHIFT;
        assert(last < self.width);
        assert(row_start + last < self.buf@.len());
        if last <= first {
            let i: usize = row_start + first as usize;
            assert(before[self.cell(r, first as int)] + span_contribution(
                y as int,
                x1 as int,
                x2 as int,
                first as int,
            ) <= 255);
            let v: u8 = self.buf[i] + coverage_to_alpha(fe - fb);
            self.buf.set(i, v);
        } else {
            let i: usize = row_start + first as usize;
            assert(before[self.cell(r, first as int)] + span_contribution(
                y as int,
                x1 as int,
                x2 as int,
                first as int,
            ) <= 255);
            let v: u8 = self.buf[i] + coverage_to_alpha(SCALE - fb);
            self.buf.set(i, v);
            let mut c: i32 = first + 1;
            while c < last
                invariant
                    self.wf(),
                    self.width == old(self).width,
                    self.height == old(self).height,
                    before == old(self).buf@,
                    old(self).span_allowed(y, x1, x2),
                    r == y / 4,
                    row_start == r * self.width,
                    first < c <= last < self.width,
                    row_start + last < self.buf@.len(),
                    first == x1 / 4,
                    last == x2 / 4,
                    max == row_max(y as int),
                    self.buf@.len() == before.len(),
                    forall|j: int|
                        0 <= j < before.len() && !(row_start + first <= j < row_start + c)
                            ==> #[trigger] self.buf@[j] == before[j],
                    forall|k: int|
                        first <= k < c ==> #[trigger] self.buf@[row_start + k] == before[row_start
                            + k] + span_contribution(y as int, x1 as int, x2 as int, k),
                decreases last - c,
            {
                let i: usize = row_start + c as usize;
                assert(before[self.cell(r, c as int)] + span_contribution(
                    y as int,
                    x1 as int,
                    x2 as int,
                    c as int,
                ) <= 255);
                let v: u8 = self.buf[i] + max;
                self.buf.set(i, v);
                c = c + 1;
            }
            let i: usize = row_start + last as usize;
            assert(before[self.cell(r, last as int)] + span_contribution(
                y as int,
                x1 as int,
                x2 as int,
                last as int,
            ) <= 255);
            let v: u8 = self.buf[i] + coverage_to_alpha(fe);
            self.buf.set(i, v);
        }
        assert((r + 1) * self.width == r * self.width + self.width) by (nonlinear_arith);
        assert forall|c: int| 0 <= c < pre.spec_width() implies self.cells()[pre.cell(y / 4, c)]
            == pre.cells()[pre.cell(y / 4, c)] + #[trigger] span_contribution(
            y as int,
            x1 as int,
            x2 as int,
            c,
        ) by {
            assert(pre.cell(y / 4, c) == row_start + c);
        }
    }
}

} // verus!
