//! Evidence accumulation: the shared primitive that turns an ordered list of
//! weighted heuristic matches into one bounded confidence value plus a reason
//! list.
//!
//! Every detection module is structurally "accumulate independent weighted
//! signals, clamp to the unit interval, optionally threshold". The
//! accumulator keeps the raw (unclamped) total, because some modules compare
//! the raw total against a cutoff before clamping; the reported confidence is
//! always the clamped value.

use vstd::prelude::*;
use crate::clamp_permille;

verus! {

/// Accumulates weighted heuristic matches into a confidence score and an
/// ordered list of human-readable reasons.
pub struct EvidenceAccumulator {
    /// Raw per-mille sum of the weights of every matched heuristic.
    pub total: u64,
    /// One reason per matched heuristic, in evaluation order.
    pub reasons: Vec<String>,
}

impl EvidenceAccumulator {
    /// Fresh accumulator: no evidence, no reasons.
    pub fn new() -> (r: EvidenceAccumulator)
        ensures
            r.total == 0,
            r.reasons@ == Seq::<String>::empty(),
    {
        EvidenceAccumulator { total: 0, reasons: Vec::new() }
    }

    /// Record one heuristic check: when it matched, add its weight to the
    /// total and append its reason; otherwise leave the accumulator as it is.
    pub fn record(&mut self, matched: bool, weight: u32, reason: String)
        requires
            old(self).total + weight <= u64::MAX,
        ensures
            matched ==> final(self).total == old(self).total + weight,
            matched ==> final(self).reasons@ == old(self).reasons@.push(reason),
            !matched ==> *final(self) == *old(self),
    {
        if matched {
            self.total = self.total + weight as u64;
            self.reasons.push(reason);
        }
    }

    /// The accumulated confidence, clamped to the per-mille unit interval.
    pub fn confidence(&self) -> (r: u32)
        ensures
            r == clamp_permille(self.total as int),
            0 <= r <= 1000,
    {
        if self.total > 1000 {
            1000
        } else {
            self.total as u32
        }
    }

    /// Does the raw (unclamped) total strictly exceed `cutoff`?
    pub fn exceeds(&self, cutoff: u32) -> (r: bool)
        ensures
            r == (self.total > cutoff),
    {
        self.total > cutoff as u64
    }
}

/// Clamping a sum of non-negative contributions one step at a time gives the
/// same value as clamping the whole sum once.
pub proof fn lemma_clamp_step(a: int, b: int)
    requires
        0 <= a,
        0 <= b,
    ensures
        clamp_permille(clamp_permille(a) + b) == clamp_permille(a + b),
{
}

} // verus!
