//! The sample converter: reduces an interleaved 8-bit RGB frame to a
//! single-channel luma buffer in strict row-major order.
//!
//! Each pixel's luma is the Rec. 601 weighted sum `0.299*r + 0.587*g +
//! 0.114*b`, evaluated exactly as the detector's input pipeline evaluates
//! it: the three weights are the nearest IEEE 754 binary32 values, every
//! product and sum is rounded to 24 significant bits (round to nearest,
//! ties to even), and the total is truncated to a byte, saturating at 255.
//! All quantities involved are non-negative multiples of 2^-27 and well
//! below the binary32 overflow and subnormal ranges, so the whole
//! computation is carried out here on integers scaled by 2^27 and the
//! rounding is modelled directly on those integers.

use vstd::arithmetic::div_mod::{lemma_div_denominator, lemma_fundamental_div_mod};
use vstd::arithmetic::mul::lemma_mul_inequality;
use vstd::prelude::*;

verus! {

/// `0.299` as a binary32 value, scaled by 2^27: `10032775 * 2^-25 * 2^27`.
pub const WEIGHT_R: u64 = 40131100;
/// `0.587` as a binary32 value, scaled by 2^27: `9848226 * 2^-24 * 2^27`.
pub const WEIGHT_G: u64 = 78785808;
/// `0.114` as a binary32 value, scaled by 2^27: `15300821 * 2^-27 * 2^27`.
pub const WEIGHT_B: u64 = 15300821;

/// The unit in the last place of a 24-bit significand holding the value
/// `v`: 1 while `v` needs at most 24 bits, doubling with each further bit.
pub open spec fn ulp24(v: nat) -> nat
    decreases v,
{
    if v < 0x1000000 {
        1
    } else {
        2 * ulp24(v / 2)
    }
}

/// `v` rounded to 24 significant bits, to the nearest multiple of its ulp,
/// ties to the even quotient: binary32 rounding of a scaled integer.
pub open spec fn rne24(v: nat) -> nat {
    let u = ulp24(v);
    let q = v / u;
    let r = v % u;
    if 2 * r < u || (2 * r == u && q % 2 == 0) {
        q * u
    } else {
        (q + 1) * u
    }
}

/// The luma byte of one RGB pixel, computed in binary32 arithmetic:
/// three binary32 products, two binary32 sums, truncation saturating at
/// 255. Every value is scaled by 2^27.
pub open spec fn luma_value(r: u8, g: u8, b: u8) -> nat {
    let pr = rne24((WEIGHT_R * r) as nat);
    let pg = rne24((WEIGHT_G * g) as nat);
    let pb = rne24((WEIGHT_B * b) as nat);
    let total = rne24(rne24(pr + pg) + pb);
    let truncated = total / 0x8000000;
    if truncated > 255 {
        255
    } else {
        truncated
    }
}

/// Rounds `v` to 24 significant bits, exactly as `rne24` describes.
fn round24(v: u64) -> (r: u64)
    requires
        v < 0x10000000000,
    ensures
        r == rne24(v as nat),
        r <= v + v,
{
    let mut u: u64 = 1;
    let mut k: u64 = v;
    while k >= 0x1000000
        invariant
            v < 0x10000000000,
            1 <= u,
            k == v as nat / u as nat,
            ulp24(v as nat) == u * ulp24(k as nat),
            u == 1 || u * 0x800000 <= v,
        decreases k,
    {
        proof {
            lemma_fundamental_div_mod(v as int, u as int);
            lemma_mul_inequality(0x1000000, k as int, u as int);
            lemma_div_denominator(v as int, u as int, 2);
            assert(ulp24(k as nat) == 2 * ulp24(k as nat / 2));
            assert(u * (2 * ulp24(k as nat / 2)) == (u * 2) * ulp24(k as nat / 2))
                by (nonlinear_arith);
        }
        k = k / 2;
        u = u * 2;
    }
    proof {
        assert(ulp24(k as nat) == 1);
        assert(ulp24(v as nat) == u * ulp24(k as nat));
        assert(u * ulp24(k as nat) == u * 1);
        assert(ulp24(v as nat) == u);
        lemma_fundamental_div_mod(v as int, u as int);
    }
    let q = v / u;
    let r = v % u;
    let half = 2 * r;
    if half < u || (half == u && q % 2 == 0) {
        proof {
            assert(q * u <= q * u + r);
        }
        q * u
    } else {
        proof {
            assert((q + 1) * u == q * u + u) by (nonlinear_arith);
        }
        (q + 1) * u
    }
}

/// Luma conversion is deterministic and pure: the byte is a function of
/// the channel triple alone, so any two conversions of one triple agree.
pub proof fn lemma_luma_deterministic(r: u8, g: u8, b: u8, first: u8, second: u8)
    requires
        first == luma_value(r, g, b),
        second == luma_value(r, g, b),
    ensures
        first == second,
{
}

/// The luma byte of one RGB pixel; the result is exactly `luma_value`.
///
/// The conversion is pure: for a fixed triple the same byte comes back on
/// every call.
pub fn luma(r: u8, g: u8, b: u8) -> (y: u8)
    ensures
        y == luma_value(r, g, b),
{
    let pr = round24(WEIGHT_R * (r as u64));
    let pg = round24(WEIGHT_G * (g as u64));
    let pb = round24(WEIGHT_B * (b as u64));
    let s1 = round24(pr + pg);
    let total = round24(s1 + pb);
    let truncated = total / 0x8000000;
    if truncated > 255 {
        255u8
    } else {
        truncated as u8
    }
}

/// A width × height single-byte-per-pixel buffer in strict row-major
/// order: pixel (x, y) sits at offset `y * width + x`. This layout is the
/// contract with the marker detector.
pub struct LumaBuffer {
    pub data: Vec<u8>,
    pub width: usize,
    pub height: usize,
}

impl LumaBuffer {
    /// The buffer holds exactly one byte per pixel, and the dimensions
    /// stay within what the detector's image type computes in 32-bit
    /// arithmetic: it pads each row to a stride of at most `width + 95`
    /// bytes and sizes the allocation as `height * stride` in 32-bit
    /// words, so the stride must fit a 32-bit signed extent and the
    /// product must not wrap. Every real video frame is far inside these
    /// bounds.
    pub open spec fn wf(&self) -> bool {
        &&& self.data@.len() == self.width * self.height
        &&& self.width <= 0x7fffffa0
        &&& self.height * (self.width + 95) < 0x100000000
    }

    /// Reduces a 3-channel interleaved RGB frame, scanned row-major, to
    /// its luma buffer. Input and output use the same scan order, so the
    /// byte at offset `i` is the luma of the channel group starting at
    /// offset `3 * i`. A zero-area frame yields an empty buffer.
    pub fn from_rgb(rgb: &Vec<u8>, width: usize, height: usize) -> (out: LumaBuffer)
        requires
            rgb@.len() == 3 * (width * height),
            width <= 0x7fffffa0,
            height * (width + 95) < 0x100000000,
        ensures
            out.wf(),
            out.width == width,
            out.height == height,
            out.data@.len() == width * height,
            forall|i: int|
                0 <= i < width * height ==> out.data@[i] == luma_value(
                    rgb@[3 * i],
                    rgb@[3 * i + 1],
                    rgb@[3 * i + 2],
                ),
    {
        let len = rgb.len();
        let n = width * height;
        let mut data: Vec<u8> = Vec::new();
        let mut i: usize = 0;
        while i < n
            invariant
                n == width * height,
                len == rgb@.len(),
                rgb@.len() == 3 * (width * height),
                i <= n,
                data@.len() == i,
                forall|j: int|
                    0 <= j < i ==> data@[j] == luma_value(
                        rgb@[3 * j],
                        rgb@[3 * j + 1],
                        rgb@[3 * j + 2],
                    ),
            decreases n - i,
        {
            let y = luma(rgb[3 * i], rgb[3 * i + 1], rgb[3 * i + 2]);
            data.push(y);
            i = i + 1;
        }
        LumaBuffer { data, width, height }
    }
}

} // verus!
