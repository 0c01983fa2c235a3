//! How a fitting run can fail.

use fsrs::FSRSError;
use vstd::prelude::*;

verus! {

/// A failure that the fitting algorithm itself reports.
#[derive(Clone, Copy, Debug, PartialEq, Eq, Structural)]
pub enum FitError {
    NotEnoughData,
    Interrupted,
    InvalidParameters,
    OptimalNotFound,
    InvalidInput,
    InvalidDeckSize,
}

/// The terminal failure of a fitting run.
#[derive(Clone, Copy, Debug, PartialEq, Eq, Structural)]
pub enum TaskError {
    /// The model's lock is poisoned: an earlier holder unwound while holding it.
    LockFailure,
    /// The fitting algorithm returned an error.
    Algorithm(FitError),
    /// The worker thread unwound instead of returning.
    WorkerPanic,
}

impl FitError {
    /// The variant of this library that stands for a variant of the algorithm's error.
    pub open spec fn of(error: FSRSError) -> FitError {
        match error {
            FSRSError::NotEnoughData => FitError::NotEnoughData,
            FSRSError::Interrupted => FitError::Interrupted,
            FSRSError::InvalidParameters => FitError::InvalidParameters,
            FSRSError::OptimalNotFound => FitError::OptimalNotFound,
            FSRSError::InvalidInput => FitError::InvalidInput,
            FSRSError::InvalidDeckSize => FitError::InvalidDeckSize,
        }
    }

    /// The variant's name, which is also how the algorithm's error prints.
    pub open spec fn name(self) -> Seq<char> {
        match self {
            FitError::NotEnoughData => "NotEnoughData"@,
            FitError::Interrupted => "Interrupted"@,
            FitError::InvalidParameters => "InvalidParameters"@,
            FitError::OptimalNotFound => "OptimalNotFound"@,
            FitError::InvalidInput => "InvalidInput"@,
            FitError::InvalidDeckSize => "InvalidDeckSize"@,
        }
    }

    /// Takes over the algorithm's error, variant for variant.
    pub fn from_outside(error: FSRSError) -> (e: FitError)
        ensures
            e == FitError::of(error),
    {
        match error {
            FSRSError::NotEnoughData => FitError::NotEnoughData,
            FSRSError::Interrupted => FitError::Interrupted,
            FSRSError::InvalidParameters => FitError::InvalidParameters,
            FSRSError::OptimalNotFound => FitError::OptimalNotFound,
            FSRSError::InvalidInput => FitError::InvalidInput,
            FSRSError::InvalidDeckSize => FitError::InvalidDeckSize,
        }
    }

    /// The text that the caller sees for this failure.
    pub fn message(&self) -> (text: String)
        ensures
            text@ == self.name(),
    {
        match self {
            FitError::NotEnoughData => "NotEnoughData".to_string(),
            FitError::Interrupted => "Interrupted".to_string(),
            FitError::InvalidParameters => "InvalidParameters".to_string(),
            FitError::OptimalNotFound => "OptimalNotFound".to_string(),
            FitError::InvalidInput => "InvalidInput".to_string(),
            FitError::InvalidDeckSize => "InvalidDeckSize".to_string(),
        }
    }
}

impl TaskError {
    /// The reason text of each failure.
    pub open spec fn reason(self) -> Seq<char> {
        match self {
            TaskError::LockFailure => "Failed to lock FSRS model"@,
            TaskError::Algorithm(e) => e.name(),
            TaskError::WorkerPanic => "Panic occurred in compute thread"@,
        }
    }

    /// The text that the caller sees for this failure.
    pub fn message(&self) -> (text: String)
        ensures
            text@ == self.reason(),
    {
        match self {
            TaskError::LockFailure => "Failed to lock FSRS model".to_string(),
            TaskError::Algorithm(e) => e.message(),
            TaskError::WorkerPanic => "Panic occurred in compute thread".to_string(),
        }
    }
}

} // verus!
