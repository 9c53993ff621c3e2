use vstd::prelude::*;
use vstd::arithmetic::div_mod::{lemma_basic_div, lemma_div_is_ordered};
use vstd::arithmetic::power2::{
    lemma2_to64, lemma2_to64_rest, lemma_pow2_pos, lemma_pow2_strictly_increases,
    lemma_pow2_unfold, pow2,
};

verus! {

/// Points per inch.
pub const POINTS_PER_INCH: u32 = 72;

/// The largest pixel extent, along either axis, that the renderer accepts.
pub const MAX_PIXELS: u32 = 65535;

/// A page's size in points, each side held as the bit pattern of the IEEE 754
/// binary32 number that the parser reports.
#[derive(Debug, Clone, Copy, PartialEq, Eq, Structural)]
pub struct PageSize {
    pub width_bits: u32,
    pub height_bits: u32,
}

/// The pixel size of a rendered page.
#[derive(Debug, Clone, Copy, PartialEq, Eq, Structural)]
pub struct RasterPlan {
    pub width: u32,
    pub height: u32,
}

/// The sign bit of a binary32 bit pattern.
pub open spec fn sign_field(b: u32) -> nat {
    (b / 0x8000_0000) as nat
}

/// The biased exponent of a binary32 bit pattern.
pub open spec fn exponent_field(b: u32) -> nat {
    ((b / 0x80_0000) % 0x100) as nat
}

/// The stored fraction of a binary32 bit pattern.
pub open spec fn fraction_field(b: u32) -> nat {
    (b % 0x80_0000) as nat
}

/// The number is finite and greater than zero.
pub open spec fn is_positive_finite(b: u32) -> bool {
    &&& sign_field(b) == 0
    &&& exponent_field(b) != 0xff
    &&& !(exponent_field(b) == 0 && fraction_field(b) == 0)
}

/// The integer significand: the number is `significand(b) * 2^binary_exponent(b)`.
pub open spec fn significand(b: u32) -> nat {
    if exponent_field(b) == 0 {
        fraction_field(b)
    } else {
        fraction_field(b) + 0x80_0000
    }
}

/// The power of two that scales the significand.
pub open spec fn binary_exponent(b: u32) -> int {
    (if exponent_field(b) == 0 {
        1
    } else {
        exponent_field(b)
    }) - 150
}

/// The numerator of the exact value of a positive finite binary32 number.
pub open spec fn value_num(b: u32) -> nat {
    if binary_exponent(b) >= 0 {
        significand(b) * pow2(binary_exponent(b) as nat)
    } else {
        significand(b)
    }
}

/// The denominator of the exact value of a positive finite binary32 number.
pub open spec fn value_den(b: u32) -> nat {
    if binary_exponent(b) >= 0 {
        1
    } else {
        pow2((-binary_exponent(b)) as nat)
    }
}

/// `a / d` rounded to the nearest integer, halves rounded up.
pub open spec fn round_div(a: nat, d: nat) -> nat
    recommends
        d > 0,
{
    ((2 * a + d) / (2 * d)) as nat
}

/// The number of pixels that `b` points span at `dpi` dots per inch:
/// `round(b * dpi / 72)`, computed exactly.
pub open spec fn pixel_extent(b: u32, dpi: nat) -> nat {
    round_div(value_num(b) * dpi, value_den(b) * (POINTS_PER_INCH as nat))
}

/// Both sides of the page are positive and finite.
pub open spec fn is_valid_geometry(size: PageSize) -> bool {
    is_positive_finite(size.width_bits) && is_positive_finite(size.height_bits)
}

/// A side that rasterises to at least one and at most `MAX_PIXELS` pixels.
pub open spec fn extent_in_range(b: u32, dpi: nat) -> bool {
    is_positive_finite(b) && 1 <= pixel_extent(b, dpi) <= MAX_PIXELS
}

/// The pixel size of `size` at `dpi`, where both sides are in range.
pub open spec fn plan_of(size: PageSize, dpi: nat) -> Option<RasterPlan> {
    if extent_in_range(size.width_bits, dpi) && extent_in_range(size.height_bits, dpi) {
        Some(
            RasterPlan {
                width: pixel_extent(size.width_bits, dpi) as u32,
                height: pixel_extent(size.height_bits, dpi) as u32,
            },
        )
    } else {
        None
    }
}

proof fn lemma_large_side(b: u32, dpi: nat)
    requires
        is_positive_finite(b),
        binary_exponent(b) >= 0,
    ensures
        !(1 <= pixel_extent(b, dpi) <= MAX_PIXELS),
{
    let k = binary_exponent(b) as nat;
    let sig = significand(b);
    let num = value_num(b);
    if dpi == 0 {
        assert(num * dpi == 0);
        assert(pixel_extent(b, dpi) == 72nat / 144nat);
    } else {
        lemma_pow2_pos(k);
        assert(sig >= 0x80_0000);
        assert(num == sig * pow2(k));
        assert(sig * pow2(k) >= sig) by (nonlinear_arith)
            requires
                pow2(k) >= 1,
        ;
        assert(num * dpi >= num) by (nonlinear_arith)
            requires
                dpi >= 1,
        ;
        lemma_div_is_ordered((2 * 0x80_0000 + 72) as int, (2 * (num * dpi) + 72) as int, 144);
        assert((2 * 0x80_0000 + 72) / 144 > MAX_PIXELS as int);
    }
}

proof fn lemma_small_side(b: u32, dpi: nat)
    requires
        is_positive_finite(b),
        binary_exponent(b) <= -57,
        dpi <= u32::MAX,
    ensures
        pixel_extent(b, dpi) == 0,
{
    let s = (-binary_exponent(b)) as nat;
    let sig = significand(b);
    lemma2_to64_rest();
    if s > 57 {
        lemma_pow2_strictly_increases(57, s);
    }
    assert(sig < 0x100_0000);
    assert(sig * dpi < 0x100_0000_0000_0000) by (nonlinear_arith)
        requires
            sig < 0x100_0000,
            dpi <= 0xffff_ffff,
    ;
    let d = pow2(s) * (POINTS_PER_INCH as nat);
    assert(2 * (sig * dpi) + d < 2 * d);
    lemma_basic_div((2 * (sig * dpi) + d) as int, (2 * d) as int);
}

proof fn lemma_zero_dpi(b: u32)
    ensures
        pixel_extent(b, 0) == 0,
{
    if binary_exponent(b) < 0 {
        lemma_pow2_pos((-binary_exponent(b)) as nat);
    }
    let d = value_den(b) * (POINTS_PER_INCH as nat);
    assert(value_num(b) * 0 == 0);
    lemma_basic_div(d as int, (2 * d) as int);
}

/// The pixel count of one side, if it is in range.
fn side_pixels(b: u32, dpi: u32) -> (r: Option<u32>)
    ensures
        r == (if extent_in_range(b, dpi as nat) {
            Some(pixel_extent(b, dpi as nat) as u32)
        } else {
            None::<u32>
        }),
{
    let sign = b / 0x8000_0000;
    let exponent = (b / 0x80_0000) % 0x100;
    let fraction = b % 0x80_0000;
    if sign != 0 || exponent == 0xff || (exponent == 0 && fraction == 0) {
        return None;
    }
    let sig: u32 = if exponent == 0 {
        fraction
    } else {
        fraction + 0x80_0000
    };
    let e: u32 = if exponent == 0 {
        1
    } else {
        exponent
    };
    if e >= 150 {
        proof {
            lemma_large_side(b, dpi as nat);
        }
        return None;
    }
    let s: u32 = 150 - e;
    if s > 56 {
        proof {
            lemma_small_side(b, dpi as nat);
        }
        return None;
    }
    proof {
        lemma2_to64();
        lemma2_to64_rest();
    }
    let mut p: u128 = 1;
    let mut i: u32 = 0;
    while i < s
        invariant
            i <= s,
            s <= 56,
            p == pow2(i as nat),
        decreases s - i,
    {
        proof {
            lemma_pow2_unfold((i + 1) as nat);
            lemma2_to64_rest();
            if i < 55 {
                lemma_pow2_strictly_increases(i as nat, 55);
            }
        }
        p = p * 2;
        i = i + 1;
    }
    assert(value_den(b) == p);
    assert(value_num(b) == sig);
    assert((sig as u128) * (dpi as u128) <= 0xffff_ffff_u128 * 0xffff_ffff_u128) by (nonlinear_arith)
        requires
            sig <= 0xffff_ffff,
            dpi <= 0xffff_ffff,
    ;
    let a: u128 = (sig as u128) * (dpi as u128);
    let d: u128 = p * 72;
    let r: u128 = (2 * a + d) / (2 * d);
    assert(r == pixel_extent(b, dpi as nat));
    if r == 0 || r > MAX_PIXELS as u128 {
        None
    } else {
        Some(r as u32)
    }
}

/// The pixel size of a page rendered at `dpi` dots per inch: each side is
/// `round(points * dpi / 72)`. `None` where a side is not positive and finite,
/// or rounds to zero pixels or to more than `MAX_PIXELS`; a `dpi` of zero is
/// always `None`.
pub fn plan_raster(size: PageSize, dpi: u32) -> (r: Option<RasterPlan>)
    ensures
        r == plan_of(size, dpi as nat),
        r is Some ==> is_valid_geometry(size) && dpi > 0,
{
    let w = side_pixels(size.width_bits, dpi);
    let h = side_pixels(size.height_bits, dpi);
    if dpi == 0 {
        proof {
            lemma_zero_dpi(size.width_bits);
        }
    }
    match (w, h) {
        (Some(width), Some(height)) => Some(RasterPlan { width, height }),
        _ => None,
    }
}

/// Whether a page can be extracted as a vector page: both sides positive and finite.
pub fn is_valid_page_size(size: PageSize) -> (r: bool)
    ensures
        r == is_valid_geometry(size),
{
    positive_finite(size.width_bits) && positive_finite(size.height_bits)
}

fn positive_finite(b: u32) -> (r: bool)
    ensures
        r == is_positive_finite(b),
{
    let exponent = (b / 0x80_0000) % 0x100;
    b / 0x8000_0000 == 0 && exponent != 0xff && !(exponent == 0 && b % 0x80_0000 == 0)
}

} // verus!
