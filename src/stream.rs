use vstd::prelude::*;

use crate::error::SpotError;
use crate::status::SpotStatus;

verus! {

/// What is known of one observation when the detector decides on it: whether
/// it is a number at all and, if it is, where it lies against the two
/// thresholds, measured in the direction of the tail under watch.
#[derive(Debug, Clone, Copy, PartialEq, Eq, Structural)]
pub enum Reading {
    /// The observation is not a number.
    NotANumber,
    /// A number. `beyond_anomaly`: it lies strictly past the anomaly
    /// threshold. `reaches_excess`: it lies at or past the excess threshold.
    Number { beyond_anomaly: bool, reaches_excess: bool },
}

/// The class of a number: past the anomaly threshold it is an anomaly when
/// anomalies are kept out of the model; otherwise it is an excess when it
/// reaches the excess threshold, and normal when it does not.
pub open spec fn classify(
    discard_anomalies: bool,
    beyond_anomaly: bool,
    reaches_excess: bool,
) -> SpotStatus {
    if discard_anomalies && beyond_anomaly {
        SpotStatus::Anomaly
    } else if reaches_excess {
        SpotStatus::Excess
    } else {
        SpotStatus::Normal
    }
}

/// What deciding on `reading` returns.
pub open spec fn step_outcome(discard_anomalies: bool, reading: Reading) -> Result<
    SpotStatus,
    SpotError,
> {
    match reading {
        Reading::NotANumber => Err(SpotError::DataIsNaN),
        Reading::Number { beyond_anomaly, reaches_excess } => Ok(
            classify(discard_anomalies, beyond_anomaly, reaches_excess),
        ),
    }
}

/// The counts `(n, nt)` after deciding on `reading`: unchanged for something
/// that is not a number and for an anomaly kept out of the model, one more
/// observation otherwise, and one more excess for an excess.
pub open spec fn counts_after_step(
    n: nat,
    nt: nat,
    discard_anomalies: bool,
    reading: Reading,
) -> (nat, nat) {
    match step_outcome(discard_anomalies, reading) {
        Ok(SpotStatus::Excess) => (n + 1, nt + 1),
        Ok(SpotStatus::Normal) => (n + 1, nt),
        _ => (n, nt),
    }
}

/// Deciding is a function of the counts, the setting and the reading: two
/// detectors with equal counts that decide on the same reading with the same
/// setting return the same result and end with equal counts.
pub proof fn lemma_step_deterministic(
    n1: nat,
    nt1: nat,
    n2: nat,
    nt2: nat,
    discard_anomalies: bool,
    reading: Reading,
)
    requires
        n1 == n2,
        nt1 == nt2,
    ensures
        counts_after_step(n1, nt1, discard_anomalies, reading) == counts_after_step(
            n2,
            nt2,
            discard_anomalies,
            reading,
        ),
{
}

/// Something that is not a number is refused with `DataIsNaN` and leaves
/// both counts as they were, whatever the setting.
pub proof fn lemma_not_a_number_changes_nothing(n: nat, nt: nat, discard_anomalies: bool)
    ensures
        step_outcome(discard_anomalies, Reading::NotANumber) == Err::<SpotStatus, SpotError>(
            SpotError::DataIsNaN,
        ),
        counts_after_step(n, nt, discard_anomalies, Reading::NotANumber) == (n, nt),
{
}

/// Deciding never lets the excesses outnumber the observations.
pub proof fn lemma_excesses_stay_within_observations(
    n: nat,
    nt: nat,
    discard_anomalies: bool,
    reading: Reading,
)
    requires
        nt <= n,
    ensures
        counts_after_step(n, nt, discard_anomalies, reading).1 <= counts_after_step(
            n,
            nt,
            discard_anomalies,
            reading,
        ).0,
{
}

/// The detector's running counts: `n` observations taken into the model and,
/// among them, `nt` excesses.
#[derive(Debug, Clone, Copy, PartialEq, Eq, Structural)]
pub struct Counts {
    n: usize,
    nt: usize,
}

impl Counts {
    /// There are never more excesses than observations.
    pub open spec fn well_formed(&self) -> bool {
        self.spec_nt() <= self.spec_n()
    }

    pub closed spec fn spec_n(&self) -> nat {
        self.n as nat
    }

    pub closed spec fn spec_nt(&self) -> nat {
        self.nt as nat
    }

    /// No observation seen yet.
    pub fn new() -> (r: Counts)
        ensures
            r.well_formed(),
            r.spec_n() == 0,
            r.spec_nt() == 0,
    {
        Counts { n: 0, nt: 0 }
    }

    /// The counts after a fit on `n` values of which `nt` were excesses.
    pub fn restart(&mut self, n: usize, nt: usize)
        requires
            nt <= n,
        ensures
            final(self).well_formed(),
            final(self).spec_n() == n,
            final(self).spec_nt() == nt,
    {
        self.n = n;
        self.nt = nt;
    }

    /// Observations taken into the model.
    pub fn n(&self) -> (r: usize)
        ensures
            r == self.spec_n(),
    {
        self.n
    }

    /// Excesses among them.
    pub fn nt(&self) -> (r: usize)
        ensures
            r == self.spec_nt(),
            self.well_formed() ==> r <= self.spec_n(),
    {
        self.nt
    }

    /// Decides on one observation and counts it. Something that is not a
    /// number is refused and changes nothing; an anomaly kept out of the
    /// model is not counted; any other number counts as one observation, and
    /// an excess also as one excess.
    pub fn step(&mut self, discard_anomalies: bool, reading: Reading) -> (r: Result<
        SpotStatus,
        SpotError,
    >)
        requires
            old(self).well_formed(),
            old(self).spec_n() < usize::MAX,
        ensures
            final(self).well_formed(),
            r == step_outcome(discard_anomalies, reading),
            (final(self).spec_n(), final(self).spec_nt()) == counts_after_step(
                old(self).spec_n(),
                old(self).spec_nt(),
                discard_anomalies,
                reading,
            ),
            r is Err || r == Ok::<SpotStatus, SpotError>(SpotStatus::Anomaly) ==> *final(self)
                == *old(self),
    {
        match reading {
            Reading::NotANumber => Err(SpotError::DataIsNaN),
            Reading::Number { beyond_anomaly, reaches_excess } => {
                if discard_anomalies && beyond_anomaly {
                    return Ok(SpotStatus::Anomaly);
                }
                self.n = self.n + 1;
                if reaches_excess {
                    self.nt = self.nt + 1;
                    Ok(SpotStatus::Excess)
                } else {
                    Ok(SpotStatus::Normal)
                }
            },
        }
    }
}

} // verus!
