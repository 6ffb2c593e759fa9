use vstd::prelude::*;

verus! {

/// What can go wrong when a detector is built, fitted or stepped.
#[derive(Debug, Clone, Copy, PartialEq, Eq, Structural)]
pub enum SpotError {
    /// A container was asked for with no room at all.
    MemoryAllocationFailed,
    /// The level parameter is not in (0, 1).
    LevelOutOfBounds,
    /// The q parameter is not in (0, 1 - level).
    QOutOfBounds,
    /// The excess threshold could not be computed.
    ExcessThresholdIsNaN,
    /// The anomaly threshold could not be computed.
    AnomalyThresholdIsNaN,
    /// The input value is not a number.
    DataIsNaN,
}

/// Result of a detector operation.
pub type SpotResult<T> = Result<T, SpotError>;

/// The numeric code of each error.
pub open spec fn error_code(e: SpotError) -> i32 {
    match e {
        SpotError::MemoryAllocationFailed => 1000,
        SpotError::LevelOutOfBounds => 1001,
        SpotError::QOutOfBounds => 1002,
        SpotError::ExcessThresholdIsNaN => 1003,
        SpotError::AnomalyThresholdIsNaN => 1004,
        SpotError::DataIsNaN => 1005,
    }
}

/// The error that a code stands for, the sign of the code aside; an unknown
/// code reads as `MemoryAllocationFailed`.
pub open spec fn error_of_code(code: i32) -> SpotError {
    if code == 1001 || code == -1001 {
        SpotError::LevelOutOfBounds
    } else if code == 1002 || code == -1002 {
        SpotError::QOutOfBounds
    } else if code == 1003 || code == -1003 {
        SpotError::ExcessThresholdIsNaN
    } else if code == 1004 || code == -1004 {
        SpotError::AnomalyThresholdIsNaN
    } else if code == 1005 || code == -1005 {
        SpotError::DataIsNaN
    } else {
        SpotError::MemoryAllocationFailed
    }
}

/// The message of each error.
pub open spec fn error_message(e: SpotError) -> Seq<char> {
    match e {
        SpotError::MemoryAllocationFailed => "Memory allocation failed"@,
        SpotError::LevelOutOfBounds =>
            "The level parameter is out of bounds (it must be between 0 and 1, but close to 1)"@,
        SpotError::QOutOfBounds => "The q parameter must between 0 and 1-level"@,
        SpotError::ExcessThresholdIsNaN => "The excess threshold has not been initialized"@,
        SpotError::AnomalyThresholdIsNaN => "The anomaly threshold has not been initialized"@,
        SpotError::DataIsNaN => "The input data is NaN"@,
    }
}

impl SpotError {
    /// The error for a numeric code, whichever its sign.
    pub fn from_code(code: i32) -> (r: SpotError)
        ensures
            r == error_of_code(code),
    {
        match code {
            1001 | -1001 => SpotError::LevelOutOfBounds,
            1002 | -1002 => SpotError::QOutOfBounds,
            1003 | -1003 => SpotError::ExcessThresholdIsNaN,
            1004 | -1004 => SpotError::AnomalyThresholdIsNaN,
            1005 | -1005 => SpotError::DataIsNaN,
            _ => SpotError::MemoryAllocationFailed,
        }
    }

    /// A sentence that says what went wrong.
    pub fn message(&self) -> (r: &'static str)
        ensures
            r@ == error_message(*self),
    {
        match self {
            SpotError::MemoryAllocationFailed => "Memory allocation failed",
            SpotError::LevelOutOfBounds =>
                "The level parameter is out of bounds (it must be between 0 and 1, but close to 1)",
            SpotError::QOutOfBounds => "The q parameter must between 0 and 1-level",
            SpotError::ExcessThresholdIsNaN => "The excess threshold has not been initialized",
            SpotError::AnomalyThresholdIsNaN => "The anomaly threshold has not been initialized",
            SpotError::DataIsNaN => "The input data is NaN",
        }
    }

    /// The numeric code of this error.
    pub fn code(&self) -> (r: i32)
        ensures
            r == error_code(*self),
    {
        match self {
            SpotError::MemoryAllocationFailed => 1000,
            SpotError::LevelOutOfBounds => 1001,
            SpotError::QOutOfBounds => 1002,
            SpotError::ExcessThresholdIsNaN => 1003,
            SpotError::AnomalyThresholdIsNaN => 1004,
            SpotError::DataIsNaN => 1005,
        }
    }
}

} // verus!
