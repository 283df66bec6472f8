//! Canonical signal construction. A signal is a fixed ordered `|`-separated
//! concatenation of: the second pool address, the destination address, the
//! ether-scaled value, the first twenty hex digits of the payload, and the
//! transaction identity fields (hash, sender, the four gas parameters).
//!
//! Renderings are canonical: addresses and the hash are `0x`-prefixed
//! lower-case hex of the full byte string; gas parameters are plain decimal;
//! an absent address stands as the zero address, an absent gas parameter as
//! zero. A payload that encodes to fewer than twenty hex digits contributes
//! what it has (trimmed, never a failure). Gas parameters are part of the
//! signal, so of the dedup identity: two transactions that differ only in
//! gas price count as distinct signals.

use vstd::prelude::*;
use crate::decfmt::{spec_dec, spec_ether};
use crate::ethext::{ether_decimal, keccak_of, keccak256_bytes, u256_decimal};
use crate::hexcode::{clamp, push_hex, push_hex_prefix, spec_hex};
use crate::tx::{Config, PendingTransaction};
use crate::u256::Uint256;

verus! {

/// The all-zero address, standing in for an absent one.
pub open spec fn zero_addr() -> Seq<u8> {
    Seq::new(20, |i: int| 0u8)
}

/// A `0x`-prefixed lower-case hex rendering.
pub open spec fn spec_hex0x(bs: Seq<u8>) -> Seq<u8> {
    seq![0x30u8, 0x78u8] + spec_hex(bs)
}

/// The field separator.
pub open spec fn bar() -> Seq<u8> {
    seq![0x7cu8]
}

/// An optional address, the zero address when absent.
pub open spec fn spec_addr_or_zero(a: Option<Vec<u8>>) -> Seq<u8> {
    if a is Some {
        a->0@
    } else {
        zero_addr()
    }
}

/// An optional quantity, zero when absent.
pub open spec fn spec_nat_or_zero(v: Option<Uint256>) -> nat {
    if v is Some {
        v->0.as_nat()
    } else {
        0
    }
}

/// The canonical signal of a transaction under a configuration.
pub open spec fn spec_signal(tx: PendingTransaction, cfg: Config) -> Seq<u8> {
    spec_hex0x(cfg.pool2@) + bar() + spec_hex0x(spec_addr_or_zero(tx.to)) + bar() + spec_ether(
        tx.value.as_nat(),
    ) + bar() + spec_hex(tx.input@.take(clamp(10, tx.input@.len() as int))) + bar() + spec_hex0x(
        tx.hash@,
    ) + bar() + spec_hex0x(spec_addr_or_zero(tx.from)) + bar() + spec_dec(
        spec_nat_or_zero(tx.gas),
    ) + bar() + spec_dec(spec_nat_or_zero(tx.gas_price)) + bar() + spec_dec(
        spec_nat_or_zero(tx.max_fee_per_gas),
    ) + bar() + spec_dec(spec_nat_or_zero(tx.max_priority_fee_per_gas))
}

/// Twenty zero bytes.
fn zero20() -> (r: Vec<u8>)
    ensures
        r@ == zero_addr(),
{
    let mut out: Vec<u8> = Vec::new();
    let mut i: usize = 0;
    while i < 20
        invariant
            i <= 20,
            out@ == Seq::new(i as nat, |k: int| 0u8),
        decreases 20 - i,
    {
        out.push(0);
        i = i + 1;
        proof {
            assert(out@ =~= Seq::new(i as nat, |k: int| 0u8));
        }
    }
    proof {
        assert(out@ =~= zero_addr());
    }
    out
}

/// Appends the `0x`-prefixed hex of `bs`.
fn push_hex0x(out: &mut Vec<u8>, bs: &Vec<u8>)
    ensures
        final(out)@ == old(out)@ + spec_hex0x(bs@),
{
    out.push(0x30);
    out.push(0x78);
    push_hex(out, bs);
    proof {
        assert(out@ =~= old(out)@ + spec_hex0x(bs@));
    }
}

/// Appends the `0x`-prefixed hex of an optional address, the zero address
/// when absent.
fn push_addr_or_zero(out: &mut Vec<u8>, a: &Option<Vec<u8>>)
    ensures
        final(out)@ == old(out)@ + spec_hex0x(spec_addr_or_zero(*a)),
{
    match a {
        Option::Some(bs) => push_hex0x(out, bs),
        Option::None => {
            let z = zero20();
            push_hex0x(out, &z);
        },
    }
}

/// Appends the decimal of an optional quantity, `0` when absent.
fn push_dec_or_zero(out: &mut Vec<u8>, v: &Option<Uint256>)
    ensures
        final(out)@ == old(out)@ + spec_dec(spec_nat_or_zero(*v)),
{
    let mut digits = match v {
        Option::Some(q) => u256_decimal(q),
        Option::None => {
            let z = Uint256::zero();
            u256_decimal(&z)
        },
    };
    out.append(&mut digits);
}

/// Builds the canonical signal bytes of `tx` under `cfg`. Total: no field
/// combination is rejected; the canonical substitutes above stand in for
/// absent fields.
pub fn build_signal(tx: &PendingTransaction, cfg: &Config) -> (r: Vec<u8>)
    ensures
        r@ == spec_signal(*tx, *cfg),
{
    let mut out: Vec<u8> = Vec::new();
    push_hex0x(&mut out, &cfg.pool2);
    out.push(0x7c);
    push_addr_or_zero(&mut out, &tx.to);
    out.push(0x7c);
    let mut v = ether_decimal(&tx.value);
    out.append(&mut v);
    out.push(0x7c);
    push_hex_prefix(&mut out, &tx.input, 10);
    out.push(0x7c);
    push_hex0x(&mut out, &tx.hash);
    out.push(0x7c);
    push_addr_or_zero(&mut out, &tx.from);
    out.push(0x7c);
    push_dec_or_zero(&mut out, &tx.gas);
    out.push(0x7c);
    push_dec_or_zero(&mut out, &tx.gas_price);
    out.push(0x7c);
    push_dec_or_zero(&mut out, &tx.max_fee_per_gas);
    out.push(0x7c);
    push_dec_or_zero(&mut out, &tx.max_priority_fee_per_gas);
    proof {
        assert(out@ =~= spec_signal(*tx, *cfg));
    }
    out
}

/// Whether two transaction snapshots carry the same observed fields: the
/// same bytes in each byte-string field, the same presence and value of each
/// optional field.
pub open spec fn same_observation(a: PendingTransaction, b: PendingTransaction) -> bool {
    &&& (a.to is Some <==> b.to is Some)
    &&& (a.to is Some ==> a.to->0@ == b.to->0@)
    &&& (a.from is Some <==> b.from is Some)
    &&& (a.from is Some ==> a.from->0@ == b.from->0@)
    &&& a.input@ == b.input@
    &&& a.value == b.value
    &&& a.hash@ == b.hash@
    &&& a.gas == b.gas
    &&& a.gas_price == b.gas_price
    &&& a.max_fee_per_gas == b.max_fee_per_gas
    &&& a.max_priority_fee_per_gas == b.max_priority_fee_per_gas
}

/// Signal determinism: two transactions with the same observed fields yield
/// byte-identical signals under one configuration, and so the same digest.
pub proof fn lemma_signal_deterministic(
    a: PendingTransaction,
    b: PendingTransaction,
    cfg: Config,
)
    requires
        same_observation(a, b),
    ensures
        spec_signal(a, cfg) == spec_signal(b, cfg),
        keccak_of(spec_signal(a, cfg)) == keccak_of(spec_signal(b, cfg)),
{
    assert(spec_addr_or_zero(a.to) == spec_addr_or_zero(b.to));
    assert(spec_addr_or_zero(a.from) == spec_addr_or_zero(b.from));
    assert(spec_nat_or_zero(a.gas) == spec_nat_or_zero(b.gas));
    assert(spec_nat_or_zero(a.gas_price) == spec_nat_or_zero(b.gas_price));
    assert(spec_nat_or_zero(a.max_fee_per_gas) == spec_nat_or_zero(b.max_fee_per_gas));
    assert(spec_nat_or_zero(a.max_priority_fee_per_gas) == spec_nat_or_zero(
        b.max_priority_fee_per_gas,
    ));
}

/// The canonical signal of `tx` and its Keccak-256 digest, the dedup key.
pub fn signal_digest(tx: &PendingTransaction, cfg: &Config) -> (r: (Vec<u8>, Vec<u8>))
    ensures
        r.0@ == spec_signal(*tx, *cfg),
        r.1@ == keccak_of(spec_signal(*tx, *cfg)),
        r.1@.len() == 32,
{
    let signal = build_signal(tx, cfg);
    let digest = keccak256_bytes(&signal);
    (signal, digest)
}

} // verus!
