//! Trusted bindings to the ethereum toolkit: the signal digest and the two
//! decimal renderings the codec takes from it. Each contract states what the
//! called function's source shows of its result; the digest itself is only
//! named, never written out.

use vstd::prelude::*;
use crate::decfmt::{spec_dec, spec_ether};
use crate::u256::Uint256;

verus! {

/// The Keccak-256 digest of a byte string. A fixed function of the bytes
/// alone; its 32-byte value is given no further description here.
pub uninterp spec fn keccak_of(bytes: Seq<u8>) -> Seq<u8>;

/// Relies on `ethers::utils::keccak256`: the Keccak-256 digest, 32 bytes,
/// a function of the input bytes alone.
#[verifier::external_body]
pub(crate) fn keccak256_bytes(bytes: &Vec<u8>) -> (r: Vec<u8>)
    ensures
        r@ == keccak_of(bytes@),
        r@.len() == 32,
{
    ethers::utils::keccak256(bytes.as_slice()).to_vec()
}

/// Relies on `ethers::utils::format_ether` (via `format_units` with
/// eighteen decimals): the result is the decimal integer part of
/// `v / 10^18`, a dot, and the decimal of `v % 10^18` left-padded with
/// zeros to eighteen digits.
#[verifier::external_body]
pub(crate) fn ether_decimal(v: &Uint256) -> (r: Vec<u8>)
    ensures
        r@ == spec_ether(v.as_nat()),
{
    let u = ethers::types::U256([v.limb0, v.limb1, v.limb2, v.limb3]);
    ethers::utils::format_ether(u).into_bytes()
}

/// Relies on the `Display` of `ethers::types::U256`: plain decimal digits,
/// no leading zeros, a single `0` for zero.
#[verifier::external_body]
pub(crate) fn u256_decimal(v: &Uint256) -> (r: Vec<u8>)
    ensures
        r@ == spec_dec(v.as_nat()),
{
    let u = ethers::types::U256([v.limb0, v.limb1, v.limb2, v.limb3]);
    u.to_string().into_bytes()
}

} // verus!
