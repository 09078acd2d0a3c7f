//! What can be wrong with a log.

use vstd::prelude::*;

verus! {

/// Why a log gives no chart.
#[derive(Clone, Copy, Debug, PartialEq, Eq, Structural)]
pub enum LogError {
    /// No log has been stored yet.
    MissingLog,
    /// A log is stored, but it cannot be read as one: it does not parse, or
    /// an entry names no time zone or lies beyond the calendar.
    CorruptLog,
    /// The log holds no entry.
    EmptyLog,
}

impl LogError {
    /// Whether the error only means that there is nothing to show yet, so
    /// that a placeholder takes the chart's place.
    pub open spec fn is_no_data(&self) -> bool {
        *self != LogError::CorruptLog
    }

    /// Tells an error that a placeholder answers from one to report.
    pub fn no_data(&self) -> (b: bool)
        ensures
            b == self.is_no_data(),
    {
        match self {
            LogError::MissingLog => true,
            LogError::CorruptLog => false,
            LogError::EmptyLog => true,
        }
    }

    /// The error in words.
    pub fn message(&self) -> (s: String)
        ensures
            s@ == match *self {
                LogError::MissingLog => "no time log found"@,
                LogError::CorruptLog => "time log is corrupt"@,
                LogError::EmptyLog => "time log is empty"@,
            },
    {
        match self {
            LogError::MissingLog => "no time log found".to_owned(),
            LogError::CorruptLog => "time log is corrupt".to_owned(),
            LogError::EmptyLog => "time log is empty".to_owned(),
        }
    }
}

} // verus!
