//! The dedup cache: the process-lifetime set of signal digests already seen.
//! Its one operation, `insert_if_absent`, is the sole gate for dispatch;
//! entries are never removed. A lock around the whole cache serializes
//! concurrent callers, so the sequential contract here is what each caller
//! in turn observes.

use vstd::prelude::*;
use crate::bytes::bytes_eq;

verus! {

/// The set of signal digests seen so far. Viewed as the set of byte strings
/// it holds.
pub struct DedupCache {
    seen: Vec<Vec<u8>>,
}

impl View for DedupCache {
    type V = Set<Seq<u8>>;

    closed spec fn view(&self) -> Set<Seq<u8>> {
        Set::new(|s: Seq<u8>| exists|i: int| 0 <= i < self.seen@.len() && self.seen@[i]@ == s)
    }
}

impl DedupCache {
    /// An empty cache.
    pub fn new() -> (r: DedupCache)
        ensures
            r@ == Set::<Seq<u8>>::empty(),
    {
        let r = DedupCache { seen: Vec::new() };
        proof {
            assert(r@ =~= Set::<Seq<u8>>::empty());
        }
        r
    }

    /// Records `h` and reports whether it was new: true exactly when `h` was
    /// not yet present. Either way, `h` is present afterwards and nothing is
    /// ever removed.
    pub fn insert_if_absent(&mut self, h: Vec<u8>) -> (fresh: bool)
        ensures
            fresh == !old(self)@.contains(h@),
            final(self)@ == old(self)@.insert(h@),
    {
        let ghost hs = h@;
        let mut i: usize = 0;
        while i < self.seen.len()
            invariant
                i <= self.seen.len(),
                hs == h@,
                forall|k: int| 0 <= k < i ==> self.seen@[k]@ != hs,
            decreases self.seen.len() - i,
        {
            if bytes_eq(&self.seen[i], &h) {
                proof {
                    assert(self@.contains(hs));
                    assert(self@ =~= self@.insert(hs));
                }
                return false;
            }
            i = i + 1;
        }
        proof {
            assert(!self@.contains(hs));
        }
        let ghost before = self@;
        self.seen.push(h);
        proof {
            assert forall|s: Seq<u8>| self@.contains(s) <==> before.insert(hs).contains(s) by {
                if s == hs {
                    assert(self.seen@[self.seen@.len() - 1]@ == hs);
                } else if before.contains(s) {
                    let k = choose|k: int|
                        0 <= k < old(self).seen@.len() && old(self).seen@[k]@ == s;
                    assert(self.seen@[k]@ == s);
                }
            }
            assert(self@ =~= before.insert(hs));
        }
        true
    }
}

/// How many of `n` successive `insert_if_absent` calls with the same digest
/// `h`, starting from the seen-set `s`, answer true.
pub open spec fn spec_fresh_count(s: Set<Seq<u8>>, h: Seq<u8>, n: nat) -> nat
    decreases n,
{
    if n == 0 {
        0
    } else {
        (if s.contains(h) {
            0nat
        } else {
            1nat
        }) + spec_fresh_count(s.insert(h), h, (n - 1) as nat)
    }
}

/// Dedup idempotence: of any number of successive insertions of one digest,
/// exactly the first into a set not yet holding it answers true — one true
/// among `n` calls when the digest was absent, none when it was present.
pub proof fn lemma_dedup_idempotent(s: Set<Seq<u8>>, h: Seq<u8>, n: nat)
    ensures
        spec_fresh_count(s, h, n) == if n == 0 || s.contains(h) {
            0nat
        } else {
            1nat
        },
    decreases n,
{
    if n > 0 {
        assert(s.insert(h).contains(h));
        lemma_dedup_idempotent(s.insert(h), h, (n - 1) as nat);
    }
}

} // verus!
