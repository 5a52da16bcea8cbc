//! Double-precision numbers by their IEEE 754 representation.

use vstd::prelude::*;
use vstd::arithmetic::power2::pow2;

verus! {

/// The sign of a double-precision number.
pub open spec fn is_negative(bits: u64) -> bool {
    bits >= 0x8000_0000_0000_0000
}

/// The 11 bits of the biased exponent.
pub open spec fn exponent_field(bits: u64) -> nat {
    (bits as nat / 0x10_0000_0000_0000) % 0x800
}

/// The 52 bits of the fraction.
pub open spec fn fraction_field(bits: u64) -> nat {
    bits as nat % 0x10_0000_0000_0000
}

pub open spec fn is_nan(bits: u64) -> bool {
    exponent_field(bits) == 0x7ff && fraction_field(bits) != 0
}

pub open spec fn is_infinite(bits: u64) -> bool {
    exponent_field(bits) == 0x7ff && fraction_field(bits) == 0
}

/// The magnitude of a finite number, counted in units of the smallest positive one,
/// which is two to the power of -1074.
pub open spec fn magnitude(bits: u64) -> nat {
    if exponent_field(bits) == 0 {
        fraction_field(bits)
    } else {
        (0x10_0000_0000_0000 + fraction_field(bits)) * pow2((exponent_field(bits) - 1) as nat)
    }
}

/// The number is at least the positive integer `k`.
pub open spec fn at_least(bits: u64, k: nat) -> bool {
    &&& !is_nan(bits)
    &&& !is_negative(bits)
    &&& is_infinite(bits) || magnitude(bits) >= k * pow2(1074)
}

} // verus!
