//! Risk-fusion and orchestration engine for a proctored-session workstation
//! monitor.
//!
//! Five independent detection modules (process, overlay, audio, hardware,
//! virtualization) each yield a signal; this library turns those signals into
//! one bounded suspicion score with a human-readable reason list. All scores,
//! weights and thresholds are fixed-point values in per-mille: the value `n`
//! stands for the ratio `n / 1000`, so the unit interval is `0 ..= 1000`.
//!
//! The library holds only the decision logic: evidence accumulation, baseline
//! drift queries, process classification, fault-isolating orchestration and
//! the final weighted fusion. Gathering the raw evidence (enumerating
//! processes, windows, displays, network adapters, CPU features) is left to
//! the embedding program, which hands the observations in as plain values.

use vstd::prelude::*;

pub mod audio;
pub mod config;
pub mod detector;
pub mod evidence;
pub mod hardware;
pub mod overlay;
pub mod process;
pub mod vm;
pub mod text;

verus! {

/// Clamp an accumulated per-mille score to the unit interval.
///
/// Accumulated evidence may sum past 1.0; every score the library reports is
/// clamped with this function, never rejected.
pub open spec fn clamp_permille(total: int) -> int {
    if total > 1000 {
        1000int
    } else {
        total
    }
}

} // verus!
