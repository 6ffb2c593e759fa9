//! Streaming Peaks-Over-Threshold: the parts of the detector that are exact.
//!
//! - `ubend`: the fixed-capacity ring that keeps the most recent excesses.
//! - `stream`: the detector's counters and the rule that classifies a value.
//! - `markers`: the marker positions of the P² quantile estimator.
//! - `sort`: the five-value sorting network that seeds the P² markers.
//! - `status` and `error`: the values that a detector hands back.
//!
//! The statistics themselves (sums, GPD parameters, thresholds) are
//! floating-point values and are computed outside this crate, on top of it.

mod error;
mod markers;
mod sort;
mod status;
mod stream;
mod ubend;

pub use error::{SpotError, SpotResult};
pub use markers::{markers_ordered, positions_after_record, MarkerPositions};
pub use sort::{decides, sort5, sorted_by, strict_weak};
pub use status::SpotStatus;
pub use stream::{
    classify, counts_after_step, lemma_excesses_stay_within_observations,
    lemma_not_a_number_changes_nothing, lemma_step_deterministic, step_outcome, Counts, Reading,
};
pub use ubend::{last_values, lemma_ring_keeps_last_pushed, ring_after_pushes, ring_push, Ubend};

use vstd::prelude::*;

verus! {

/// The version of this library.
pub fn version() -> (r: String)
    ensures
        r@ == "0.1.0"@,
{
    "0.1.0".to_owned()
}

/// Prepares the library for use. Nothing needs preparing: every container
/// draws on the global allocator, so this does nothing and is kept for
/// callers that call it before anything else.
pub fn setup_allocators() {
}

} // verus!
