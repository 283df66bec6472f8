//! Decimal renderings used inside a signal: the plain decimal digits of a
//! number, and the ether-scaled form of a value in the chain's smallest
//! unit (the integer part, a dot, and exactly eighteen fractional digits).

use vstd::prelude::*;

verus! {

/// The ASCII digit for a value below ten.
pub open spec fn dec_digit(d: nat) -> u8 {
    (0x30 + d) as u8
}

/// The decimal digits of `n`, most significant first, no leading zeros,
/// a single `0` for zero.
pub open spec fn spec_dec(n: nat) -> Seq<u8>
    decreases n,
{
    if n < 10 {
        seq![dec_digit(n)]
    } else {
        spec_dec(n / 10).push(dec_digit(n % 10))
    }
}

/// The decimal digits of `n`, left-padded with zeros to `width` digits
/// (unpadded when already wider).
pub open spec fn spec_dec_padded(n: nat, width: nat) -> Seq<u8> {
    let digits = spec_dec(n);
    if digits.len() < width {
        Seq::new((width - digits.len()) as nat, |i: int| 0x30u8) + digits
    } else {
        digits
    }
}

/// One ether in the chain's smallest unit.
pub open spec fn ether_scale() -> nat {
    1_000_000_000_000_000_000
}

/// The ether-scaled decimal form of a value `v` of the smallest unit:
/// the integer part, `.`, then exactly eighteen fractional digits.
pub open spec fn spec_ether(v: nat) -> Seq<u8> {
    spec_dec(v / ether_scale()) + seq![0x2eu8] + spec_dec_padded(v % ether_scale(), 18)
}

} // verus!
