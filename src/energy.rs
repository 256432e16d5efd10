use vstd::prelude::*;

verus! {

/// Bits of the sign of an IEEE-754 binary64 value.
pub const SIGN_BIT: u64 = 0x8000_0000_0000_0000;

/// Bits of the exponent field of an IEEE-754 binary64 value.
pub const EXPONENT_MASK: u64 = 0x7ff0_0000_0000_0000;

/// An energy, given by its binary64 bit pattern, is finite when its exponent
/// field is not all ones (all ones encodes an infinity or a NaN).
pub open spec fn is_finite_bits_spec(bits: u64) -> bool {
    bits & EXPONENT_MASK != EXPONENT_MASK
}

/// The order key of an energy: negative values have all their bits flipped,
/// non-negative ones get the sign bit set. On finite energies the key order is
/// the numeric order, with -0 just below +0.
pub open spec fn energy_key_spec(bits: u64) -> u64 {
    if bits & SIGN_BIT == SIGN_BIT {
        !bits
    } else {
        bits | SIGN_BIT
    }
}

/// Tells whether the binary64 value with these bits is finite.
pub fn is_finite_bits(bits: u64) -> (r: bool)
    ensures
        r == is_finite_bits_spec(bits),
{
    bits & EXPONENT_MASK != EXPONENT_MASK
}

/// Maps the bit pattern of an energy to a key whose unsigned order is the
/// order of the energies.
pub fn energy_key(bits: u64) -> (r: u64)
    ensures
        r == energy_key_spec(bits),
{
    if bits & SIGN_BIT == SIGN_BIT {
        !bits
    } else {
        bits | SIGN_BIT
    }
}

/// The energy key of a finite energy after a check that it is finite: an
/// objective that returns an infinity or a NaN is refused here, before its
/// value reaches any comparison.
pub fn checked_energy_key(bits: u64) -> (r: Option<u64>)
    ensures
        r is Some <==> is_finite_bits_spec(bits),
        r is Some ==> r->0 == energy_key_spec(bits),
{
    if is_finite_bits(bits) {
        Some(energy_key(bits))
    } else {
        None
    }
}

/// Keys of positive energies follow the order of their bit patterns.
pub proof fn lemma_key_monotone_nonnegative(a: u64, b: u64)
    requires
        a & SIGN_BIT == 0,
        b & SIGN_BIT == 0,
        a <= b,
    ensures
        energy_key_spec(a) <= energy_key_spec(b),
{
    assert(a & 0x8000_0000_0000_0000u64 == 0 && b & 0x8000_0000_0000_0000u64 == 0 && a <= b
        ==> (a | 0x8000_0000_0000_0000u64) <= (b | 0x8000_0000_0000_0000u64)) by (bit_vector);
}

/// Keys of negative energies reverse the order of their bit patterns: a larger
/// magnitude is a lower energy.
pub proof fn lemma_key_antitone_negative(a: u64, b: u64)
    requires
        a & SIGN_BIT == SIGN_BIT,
        b & SIGN_BIT == SIGN_BIT,
        a <= b,
    ensures
        energy_key_spec(b) <= energy_key_spec(a),
{
    assert(a <= b ==> !b <= !a) by (bit_vector);
}

/// Every negative energy has a lower key than every non-negative one.
pub proof fn lemma_key_negative_below_nonnegative(a: u64, b: u64)
    requires
        a & SIGN_BIT == SIGN_BIT,
        b & SIGN_BIT == 0,
    ensures
        energy_key_spec(a) < energy_key_spec(b),
{
    assert(a & 0x8000_0000_0000_0000u64 == 0x8000_0000_0000_0000u64
        ==> !a < 0x8000_0000_0000_0000u64) by (bit_vector);
    assert((b | 0x8000_0000_0000_0000u64) >= 0x8000_0000_0000_0000u64) by (bit_vector);
}

} // verus!
