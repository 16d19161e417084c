use vstd::prelude::*;
use vstd::arithmetic::div_mod::{lemma_basic_div, lemma_div_is_ordered, lemma_div_is_ordered_by_denominator};
use vstd::arithmetic::power2::{lemma2_to64, lemma_pow2_pos, lemma_pow2_strictly_increases, pow2};
use vstd::bits::lemma_u32_shr_is_div;

use crate::binary32::Binary32;

verus! {

/// Bytes per pixel: red, green, blue.
pub const CHANNELS: usize = 3;

/// The whole part of a finite, non-negative binary32 value. A normal value
/// is `(2^23 + fraction) * 2^(exponent - 150)`; a subnormal lies below one.
pub open spec fn whole_part(v: Binary32) -> nat {
    let m = 0x80_0000 + v.fraction();
    let e = v.exponent();
    if e == 0 {
        0
    } else if e >= 150 {
        m * pow2((e - 150) as nat)
    } else {
        m / pow2((150 - e) as nat)
    }
}

/// The byte `v as u8` gives: the value truncated toward zero and saturated
/// to `0..=255`, with NaN giving 0.
pub open spec fn channel_byte(v: Binary32) -> u8 {
    if v.nan() || v.is_negative() {
        0
    } else if whole_part(v) >= 255 {
        255
    } else {
        whole_part(v) as u8
    }
}

/// Quantizes one gamma-corrected channel, already scaled to `0..256`, to a
/// byte.
pub fn channel(v: Binary32) -> (r: u8)
    ensures
        r == channel_byte(v),
{
    if v.is_nan() || v.bits >= 0x8000_0000 {
        return 0;
    }
    let e: u32 = v.bits / 0x80_0000;
    let m: u32 = 0x80_0000 + v.bits % 0x80_0000;
    assert(e == v.exponent() && m == 0x80_0000 + v.fraction());
    if e < 127 {
        proof {
            if e > 0 {
                lemma2_to64();
                if e < 126 {
                    lemma_pow2_strictly_increases(24, (150 - e) as nat);
                }
                lemma_basic_div(m as int, pow2((150 - e) as nat) as int);
            }
        }
        return 0;
    }
    if e >= 135 {
        proof {
            lemma2_to64();
            if e >= 150 {
                lemma_pow2_pos((e - 150) as nat);
                assert(m * pow2((e - 150) as nat) >= m) by (nonlinear_arith)
                    requires
                        pow2((e - 150) as nat) >= 1,
                ;
            } else {
                if e > 135 {
                    lemma_pow2_strictly_increases((150 - e) as nat, 15);
                }
                lemma_pow2_pos((150 - e) as nat);
                lemma_div_is_ordered_by_denominator(m as int, pow2((150 - e) as nat) as int, 0x8000);
                lemma_div_is_ordered(0x80_0000, m as int, 0x8000);
            }
        }
        return 255;
    }
    let s: u32 = 150 - e;
    let w: u32 = m >> s;
    proof {
        lemma2_to64();
        lemma_u32_shr_is_div(m, s);
        if s > 16 {
            lemma_pow2_strictly_increases(16, s as nat);
        }
        lemma_div_is_ordered_by_denominator(m as int, 0x1_0000, pow2(s as nat) as int);
        lemma_div_is_ordered(m as int, 0xff_ffff, 0x1_0000);
    }
    w as u8
}

/// A row buffer of `width` black pixels.
pub fn row_buffer(width: usize) -> (r: Vec<u8>)
    requires
        width * CHANNELS <= usize::MAX,
    ensures
        r@ == Seq::new((width * CHANNELS) as nat, |i: int| 0u8),
{
    let n: usize = width * CHANNELS;
    let mut row: Vec<u8> = Vec::new();
    let mut i: usize = 0;
    while i < n
        invariant
            i <= n,
            row@ == Seq::new(i as nat, |j: int| 0u8),
        decreases n - i,
    {
        row.push(0u8);
        i += 1;
        assert(row@ =~= Seq::new(i as nat, |j: int| 0u8));
    }
    row
}

/// Writes the three channels of pixel `x` of a row.
pub fn set_pixel(row: &mut Vec<u8>, x: usize, rgb: (u8, u8, u8))
    requires
        x < old(row)@.len() / 3,
    ensures
        final(row)@ == old(row)@.update(3 * x, rgb.0).update(3 * x + 1, rgb.1).update(3 * x + 2, rgb.2),
{
    let n: usize = row.len();
    assert(3 * x + 2 < n) by (nonlinear_arith)
        requires
            x < n / 3,
    ;
    let i: usize = x * CHANNELS;
    row.set(i, rgb.0);
    row.set(i + 1, rgb.1);
    row.set(i + 2, rgb.2);
}

/// The frame buffer made of rows given bottom row first: the image is
/// stored top row first, so the last row comes first.
pub open spec fn frame_of(rows: Seq<Vec<u8>>) -> Seq<u8>
    decreases rows.len(),
{
    if rows.len() == 0 {
        Seq::empty()
    } else {
        frame_of(rows.drop_first()) + rows[0]@
    }
}

/// Joins the rows rendered for `y = 0, 1, ...` (bottom to top) into the
/// frame buffer, top row first.
pub fn assemble(rows: Vec<Vec<u8>>) -> (r: Vec<u8>)
    ensures
        r@ == frame_of(rows@),
{
    let ghost all = rows@;
    let mut rows = rows;
    let mut frame: Vec<u8> = Vec::new();
    while rows.len() > 0
        invariant
            rows@ == all.take(rows@.len() as int),
            rows@.len() <= all.len(),
            frame@ == frame_of(all.skip(rows@.len() as int)),
        decreases rows@.len(),
    {
        let k: usize = rows.len();
        let mut row = rows.pop().unwrap();
        assert(all.skip(k - 1).drop_first() =~= all.skip(k as int));
        assert(all.skip(k - 1)[0] == row);
        frame.append(&mut row);
        assert(rows@ =~= all.take(rows@.len() as int));
    }
    assert(all.skip(0) =~= all);
    frame
}

/// In a frame of `rows.len()` rows of `width` bytes each, byte `k` of row `y`
/// (counted from the bottom) stands at `(rows.len() - 1 - y) * width + k`.
pub proof fn lemma_row_placement(rows: Seq<Vec<u8>>, width: nat, y: int, k: int)
    requires
        forall|i: int| 0 <= i < rows.len() ==> (#[trigger] rows[i])@.len() == width,
        0 <= y < rows.len(),
        0 <= k < width,
    ensures
        frame_of(rows).len() == rows.len() * width,
        frame_of(rows)[(rows.len() - 1 - y) * width + k] == rows[y]@[k],
    decreases rows.len(),
{
    lemma_frame_len(rows, width);
    let rest = rows.drop_first();
    lemma_frame_len(rest, width);
    if y == 0 {
        assert(frame_of(rows) == frame_of(rest) + rows[0]@);
        assert((rows.len() - 1 - y) * width + k == rest.len() * width + k) by (nonlinear_arith)
            requires
                y == 0,
                rest.len() == rows.len() - 1,
        ;
    } else {
        lemma_row_placement(rest, width, y - 1, k);
        assert(rest[y - 1] == rows[y]);
        assert((rest.len() - 1 - (y - 1)) * width + k < rest.len() * width) by (nonlinear_arith)
            requires
                0 <= y - 1 < rest.len(),
                0 <= k < width,
        ;
    }
}

proof fn lemma_frame_len(rows: Seq<Vec<u8>>, width: nat)
    requires
        forall|i: int| 0 <= i < rows.len() ==> (#[trigger] rows[i])@.len() == width,
    ensures
        frame_of(rows).len() == rows.len() * width,
    decreases rows.len(),
{
    if rows.len() > 0 {
        let rest = rows.drop_first();
        assert forall|i: int| 0 <= i < rest.len() implies (#[trigger] rest[i])@.len() == width by {
            assert(rest[i] == rows[i + 1]);
        }
        lemma_frame_len(rest, width);
        assert(rows.len() * width == rest.len() * width + width) by (nonlinear_arith)
            requires
                rest.len() == rows.len() - 1,
        ;
    }
}

} // verus!
