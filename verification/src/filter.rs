//! The selector filter: does a pending transaction qualify for a signal?
//!
//! The rules, evaluated in order and short-circuiting on the first failure:
//! a destination must be present, the payload non-empty, the value at least
//! the configured minimum, the destination one of the two pool addresses,
//! and the payload must begin with one of the accepted function selectors.
//!
//! Addresses and selectors are compared as raw bytes, which is exactly the
//! case-insensitive hex comparison of their encodings. A payload shorter
//! than a selector matches no selector. The filter is total: it decides
//! every transaction, whatever the field lengths, and never fails.

use vstd::prelude::*;
use crate::bytes::{bytes_eq, is_prefix_of};
use crate::tx::{Config, PendingTransaction};

verus! {

/// Whether `payload` begins with the selector `sel`.
pub open spec fn spec_selector_match(payload: Seq<u8>, sel: Seq<u8>) -> bool {
    sel.len() <= payload.len() && payload.take(sel.len() as int) == sel
}

/// Whether `payload` begins with any of the accepted selectors.
pub open spec fn spec_any_selector(payload: Seq<u8>, selectors: Seq<Vec<u8>>) -> bool {
    exists|i: int| 0 <= i < selectors.len() && spec_selector_match(payload, selectors[i]@)
}

/// The whole filtering predicate.
pub open spec fn spec_accepts(tx: PendingTransaction, cfg: Config) -> bool {
    &&& tx.to is Some
    &&& tx.input@.len() > 0
    &&& tx.value.as_nat() >= cfg.min_value.as_nat()
    &&& (tx.to->Some_0@ == cfg.pool1@ || tx.to->Some_0@ == cfg.pool2@)
    &&& spec_any_selector(tx.input@, cfg.selectors@)
}

/// Decides whether `tx` qualifies: destination present, payload non-empty,
/// value at least the minimum, destination one of the two pools, payload
/// prefixed by an accepted selector.
#[verifier::loop_isolation(false)]
pub fn accepts(tx: &PendingTransaction, cfg: &Config) -> (r: bool)
    ensures
        r == spec_accepts(*tx, *cfg),
{
    let to = match &tx.to {
        Option::None => {
            return false;
        },
        Option::Some(to) => to,
    };
    if tx.input.len() == 0 {
        return false;
    }
    if tx.value.lt(&cfg.min_value) {
        return false;
    }
    if !(bytes_eq(to, &cfg.pool1) || bytes_eq(to, &cfg.pool2)) {
        return false;
    }
    let mut i: usize = 0;
    while i < cfg.selectors.len()
        invariant
            i <= cfg.selectors.len(),
            forall|k: int|
                0 <= k < i ==> !spec_selector_match(tx.input@, cfg.selectors@[k]@),
        decreases cfg.selectors.len() - i,
    {
        if is_prefix_of(&cfg.selectors[i], &tx.input) {
            proof {
                assert(spec_selector_match(tx.input@, cfg.selectors@[i as int]@));
            }
            return true;
        }
        i = i + 1;
    }
    false
}

} // verus!
