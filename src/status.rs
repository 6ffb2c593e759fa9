use vstd::prelude::*;

verus! {

/// How one observation of the stream was classified.
#[derive(Debug, Clone, Copy, PartialEq, Eq, Structural)]
pub enum SpotStatus {
    /// The value lies below the excess threshold.
    Normal,
    /// The value is an excess: it joins the tail model.
    Excess,
    /// The value lies beyond the anomaly threshold.
    Anomaly,
}

/// The status that an integer code stands for: 0, 1 and 2 in declaration
/// order, any other code reading as `Normal`.
pub open spec fn status_of_code(code: i32) -> SpotStatus {
    if code == 1 {
        SpotStatus::Excess
    } else if code == 2 {
        SpotStatus::Anomaly
    } else {
        SpotStatus::Normal
    }
}

impl From<i32> for SpotStatus {
    fn from(code: i32) -> SpotStatus {
        match code {
            1 => SpotStatus::Excess,
            2 => SpotStatus::Anomaly,
            _ => SpotStatus::Normal,
        }
    }
}

impl vstd::std_specs::convert::FromSpecImpl<i32> for SpotStatus {
    open spec fn obeys_from_spec() -> bool {
        true
    }

    open spec fn from_spec(code: i32) -> SpotStatus {
        status_of_code(code)
    }
}

} // verus!
