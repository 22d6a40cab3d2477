//! Packet drop rates.
//!
//! A drop rate, and the number drawn against it, are numbers of the binary32 format
//! of IEEE 754. The library holds each as the 32 bits that encode it: the sign in the
//! highest bit, then eight bits of exponent, then 23 bits of fraction.
use vstd::prelude::*;

verus! {

/// The encoding of 1.
pub const ONE: u32 = 0x3f80_0000;

/// Whether the bits encode a number, infinities included.
pub open spec fn is_number(bits: u32) -> bool {
    bits % 0x8000_0000 <= 0x7f80_0000
}

/// The number that 31 bits of exponent and fraction encode, in units of the smallest
/// positive number of the format (2 to the power -149). An infinity counts as the
/// number that would follow the largest one.
pub open spec fn magnitude_units(magnitude: int) -> int {
    let exponent = magnitude / 0x80_0000;
    let fraction = magnitude % 0x80_0000;
    if exponent == 0 {
        fraction
    } else {
        (0x80_0000 + fraction) * vstd::arithmetic::power2::pow2((exponent - 1) as nat)
    }
}

/// The number that the bits encode, in the same units.
pub open spec fn units(bits: u32) -> int {
    if bits < 0x8000_0000 {
        magnitude_units(bits as int)
    } else {
        -magnitude_units(bits - 0x8000_0000)
    }
}

/// Whether a number drawn against a drop rate calls for a drop: the rate is above zero, and the
/// number is at most the rate. Bits that encode no number compare with nothing.
pub open spec fn drops(draw: u32, pdr: u32) -> bool {
    is_number(draw) && is_number(pdr) && 0 < units(pdr) && units(draw) <= units(pdr)
}

/// The next larger magnitude encodes a larger number.
proof fn lemma_units_step(m: int)
    requires
        0 <= m,
    ensures
        magnitude_units(m) < magnitude_units(m + 1),
{
    let e = m / 0x80_0000;
    let f = m % 0x80_0000;
    if e > 0 {
        vstd::arithmetic::power2::lemma_pow2_pos((e - 1) as nat);
    }
    if f + 1 < 0x80_0000 {
        assert((m + 1) / 0x80_0000 == e && (m + 1) % 0x80_0000 == f + 1);
        if e > 0 {
            let p = vstd::arithmetic::power2::pow2((e - 1) as nat);
            assert((0x80_0000 + f) * p < (0x80_0000 + f + 1) * p) by (nonlinear_arith)
                requires
                    p > 0,
            ;
        }
    } else {
        assert((m + 1) / 0x80_0000 == e + 1 && (m + 1) % 0x80_0000 == 0);
        if e > 0 {
            let p = vstd::arithmetic::power2::pow2((e - 1) as nat);
            let q = vstd::arithmetic::power2::pow2(e as nat);
            vstd::arithmetic::power2::lemma_pow2_unfold(e as nat);
            assert((0x80_0000 + f) * p < (0x80_0000 + 0) * q) by (nonlinear_arith)
                requires
                    p > 0,
                    q == 2 * p,
                    f == 0x80_0000 - 1,
            ;
        } else {
            vstd::arithmetic::power2::lemma2_to64();
        }
    }
}

/// Larger magnitudes encode larger numbers.
proof fn lemma_units_increase(m: int, n: int)
    requires
        0 <= m < n,
    ensures
        magnitude_units(m) < magnitude_units(n),
    decreases n - m,
{
    lemma_units_step(n - 1);
    if m < n - 1 {
        lemma_units_increase(m, n - 1);
    }
}

/// The bits read as a sign and a magnitude.
pub open spec fn sign_magnitude(bits: u32) -> int {
    if bits < 0x8000_0000 {
        bits as int
    } else {
        -(bits - 0x8000_0000)
    }
}

/// Rates and draws compare as the bits that encode them do, read as a sign and a magnitude.
pub proof fn law_rates_compare_as_encodings(a: u32, b: u32)
    ensures
        units(a) <= units(b) <==> sign_magnitude(a) <= sign_magnitude(b),
{
    let ma = (a % 0x8000_0000) as int;
    let mb = (b % 0x8000_0000) as int;
    assert(magnitude_units(0) == 0);
    if ma > 0 {
        lemma_units_increase(0, ma);
    }
    if mb > 0 {
        lemma_units_increase(0, mb);
    }
    if ma < mb {
        lemma_units_increase(ma, mb);
    }
    if mb < ma {
        lemma_units_increase(mb, ma);
    }
}

/// Whether a packet is dropped: whether the drop rate is above zero, and the number drawn for the
/// packet is at most the rate.
pub fn should_drop(draw: u32, pdr: u32) -> (dropped: bool)
    ensures
        dropped == drops(draw, pdr),
{
    proof {
        law_rates_compare_as_encodings(draw, pdr);
        law_rates_compare_as_encodings(pdr, 0);
    }
    let draw_magnitude: u32 = draw % 0x8000_0000;
    if draw_magnitude > 0x7f80_0000 || pdr > 0x7f80_0000 || pdr == 0 {
        // No numbers, or a rate that is not above zero: the encodings above the one of infinity
        // are those of negative numbers and of no number.
        false
    } else if draw >= 0x8000_0000 {
        true
    } else {
        draw <= pdr
    }
}

} // verus!
