//! The dispatcher: one transaction in, one decision out. It applies the
//! filter, builds the signal, consults the dedup cache, assigns the royalty
//! tier, and says what to do on chain. The chain calls themselves happen
//! outside; a caller walks the two-step sequence with `first_step` and
//! `next_step`, handing back whether each submission succeeded. A failed
//! submission ends the sequence — and never unmarks the signal as seen.

use vstd::prelude::*;
use crate::codec::{build_signal, spec_signal};
use crate::dedup::DedupCache;
use crate::ethext::{keccak_of, keccak256_bytes};
use crate::filter::{accepts, spec_accepts};
use crate::royalty::{royalty_bps, spec_royalty_bps};
use crate::tx::{Config, PendingTransaction};

verus! {

/// The decision for one observed transaction.
pub enum Outcome {
    /// The filter rejected it: nothing recorded, nothing dispatched.
    FilteredOut,
    /// The signal digest was already seen: nothing dispatched.
    Duplicate,
    /// A novel signal: dispatch the two-step sequence with these arguments.
    Dispatch { signal: Vec<u8>, royalty_bps: u64 },
}

/// The dedup key of a transaction under a configuration.
pub open spec fn spec_digest(tx: PendingTransaction, cfg: Config) -> Seq<u8> {
    keccak_of(spec_signal(tx, cfg))
}

/// Whether one delivery of `tx`, against the seen-set `seen`, dispatches:
/// it must qualify and its digest must be novel.
pub open spec fn spec_dispatches(seen: Set<Seq<u8>>, tx: PendingTransaction, cfg: Config) -> bool {
    spec_accepts(tx, cfg) && !seen.contains(spec_digest(tx, cfg))
}

/// The seen-set after one delivery of `tx`: a qualifying transaction's
/// digest is recorded — novel or not, and never removed again — while a
/// filtered-out transaction leaves no mark.
pub open spec fn spec_seen_after(
    seen: Set<Seq<u8>>,
    tx: PendingTransaction,
    cfg: Config,
) -> Set<Seq<u8>> {
    if spec_accepts(tx, cfg) {
        seen.insert(spec_digest(tx, cfg))
    } else {
        seen
    }
}

/// Decides one transaction. Exactly the qualifying transactions reach the
/// cache; exactly the novel digests among those come out as `Dispatch`,
/// carrying the canonical signal and its royalty tier; and the digest of a
/// qualifying transaction is recorded whether novel or not — a later failure
/// on chain does not unmark it.
pub fn process_transaction(
    tx: &PendingTransaction,
    cfg: &Config,
    cache: &mut DedupCache,
) -> (o: Outcome)
    ensures
        final(cache)@ == spec_seen_after(old(cache)@, *tx, *cfg),
        o is FilteredOut <==> !spec_accepts(*tx, *cfg),
        o is Duplicate <==> spec_accepts(*tx, *cfg) && old(cache)@.contains(
            spec_digest(*tx, *cfg),
        ),
        o is Dispatch <==> spec_dispatches(old(cache)@, *tx, *cfg),
        o is Dispatch ==> o->Dispatch_signal@ == spec_signal(*tx, *cfg)
            && o->Dispatch_royalty_bps == spec_royalty_bps(
            tx.value.as_nat(),
            cfg.royalty_threshold.as_nat(),
            cfg.default_bps,
            cfg.large_bps,
        ),
{
    if !accepts(tx, cfg) {
        return Outcome::FilteredOut;
    }
    let signal = build_signal(tx, cfg);
    let digest = keccak256_bytes(&signal);
    let bps = royalty_bps(&tx.value, cfg);
    if !cache.insert_if_absent(digest) {
        return Outcome::Duplicate;
    }
    Outcome::Dispatch { signal, royalty_bps: bps }
}

/// One step of the on-chain call sequence.
pub enum CallStep {
    /// Submit `emitCascade(signal, royalty_bps)`.
    EmitCascade { signal: Vec<u8>, royalty_bps: u64 },
    /// Submit `claimYield(signal)`.
    ClaimYield { signal: Vec<u8> },
    /// Nothing further.
    Done,
}

/// Where the call sequence starts for a decision: at `emitCascade` for a
/// dispatch, nowhere otherwise.
pub fn first_step(o: Outcome) -> (s: CallStep)
    ensures
        o is Dispatch ==> s is EmitCascade && s->EmitCascade_signal@ == o->Dispatch_signal@
            && s->EmitCascade_royalty_bps == o->Dispatch_royalty_bps,
        !(o is Dispatch) ==> s is Done,
{
    match o {
        Outcome::Dispatch { signal, royalty_bps } => CallStep::EmitCascade { signal, royalty_bps },
        _ => CallStep::Done,
    }
}

/// What follows a step whose submission reported `submitted`.
pub open spec fn spec_next_step(cur: CallStep, submitted: bool) -> CallStep {
    if cur is EmitCascade && submitted {
        CallStep::ClaimYield { signal: cur->EmitCascade_signal }
    } else {
        CallStep::Done
    }
}

/// Advances the call sequence: `claimYield` follows a successful
/// `emitCascade` submission, for the same signal; everything else — a failed
/// submission at either step, or a finished `claimYield` — ends the
/// sequence.
pub fn next_step(cur: CallStep, submitted: bool) -> (nxt: CallStep)
    ensures
        nxt == spec_next_step(cur, submitted),
{
    match cur {
        CallStep::EmitCascade { signal, royalty_bps } => {
            if submitted {
                CallStep::ClaimYield { signal }
            } else {
                CallStep::Done
            }
        },
        _ => CallStep::Done,
    }
}

/// Dispatch ordering: the only step from which `claimYield` is ever reached
/// is an `emitCascade` whose submission succeeded, and the claim carries
/// that cascade's signal.
pub proof fn lemma_claim_needs_cascade(cur: CallStep, submitted: bool)
    ensures
        spec_next_step(cur, submitted) is ClaimYield ==> cur is EmitCascade && submitted
            && spec_next_step(cur, submitted)->ClaimYield_signal == cur->EmitCascade_signal,
{
}

/// The steps a caller visits when it starts at `start` and each submission
/// in turn reports the corresponding entry of `outs`.
pub open spec fn spec_trace(start: CallStep, outs: Seq<bool>) -> Seq<CallStep>
    decreases outs.len(),
{
    if outs.len() == 0 {
        seq![start]
    } else {
        seq![start] + spec_trace(spec_next_step(start, outs[0]), outs.drop_first())
    }
}

/// Dispatch ordering over a whole run: wherever `claimYield` stands in a
/// trace, the step just before it is an `emitCascade` whose submission
/// succeeded.
pub proof fn lemma_trace_ordering(start: CallStep, outs: Seq<bool>, j: int)
    requires
        1 <= j < spec_trace(start, outs).len(),
        spec_trace(start, outs)[j] is ClaimYield,
    ensures
        spec_trace(start, outs)[j - 1] is EmitCascade && outs[j - 1],
    decreases outs.len(),
{
    lemma_trace_len(start, outs);
    let nxt = spec_next_step(start, outs[0]);
    assert(spec_trace(start, outs)[j] == spec_trace(nxt, outs.drop_first())[j - 1]);
    if j == 1 {
        lemma_claim_needs_cascade(start, outs[0]);
    } else {
        lemma_trace_len(nxt, outs.drop_first());
        lemma_trace_ordering(nxt, outs.drop_first(), j - 1);
        assert(spec_trace(start, outs)[j - 1] == spec_trace(nxt, outs.drop_first())[j - 2]);
        assert(outs.drop_first()[j - 2] == outs[j - 1]);
    }
}

/// A trace holds one step more than there are submission outcomes.
pub proof fn lemma_trace_len(start: CallStep, outs: Seq<bool>)
    ensures
        spec_trace(start, outs).len() == outs.len() + 1,
    decreases outs.len(),
{
    if outs.len() > 0 {
        lemma_trace_len(spec_next_step(start, outs[0]), outs.drop_first());
    }
}

/// How many of `n` deliveries of one transaction, arriving one after the
/// other against a seen-set `seen`, dispatch.
pub open spec fn spec_dispatch_count(
    seen: Set<Seq<u8>>,
    tx: PendingTransaction,
    cfg: Config,
    n: nat,
) -> nat
    decreases n,
{
    if n == 0 {
        0
    } else {
        (if spec_dispatches(seen, tx, cfg) {
            1nat
        } else {
            0nat
        }) + spec_dispatch_count(spec_seen_after(seen, tx, cfg), tx, cfg, (n - 1) as nat)
    }
}

/// At-most-once dispatch: however many times one transaction is delivered,
/// it dispatches exactly once when it qualifies and its digest is novel,
/// and never otherwise.
pub proof fn lemma_at_most_once_dispatch(
    seen: Set<Seq<u8>>,
    tx: PendingTransaction,
    cfg: Config,
    n: nat,
)
    ensures
        spec_dispatch_count(seen, tx, cfg, n) == if n > 0 && spec_dispatches(seen, tx, cfg) {
            1nat
        } else {
            0nat
        },
    decreases n,
{
    if n > 0 {
        lemma_at_most_once_dispatch(spec_seen_after(seen, tx, cfg), tx, cfg, (n - 1) as nat);
    }
}

} // verus!
