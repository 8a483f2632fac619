use vstd::prelude::*;

verus! {

/// What happened to one job of a batch.
#[derive(Clone, Debug, PartialEq, Eq)]
pub enum Outcome {
    Succeeded,
    /// The downloaded content's digest differs from the one the job expected.
    IntegrityMismatch { expected: String, actual: String },
    /// A network-level failure during the job's put or get.
    TransferFailed { cause: String },
    /// A local filesystem failure: an unreadable source or an unwritable destination.
    IOFailed { cause: String },
}

impl Outcome {
    pub fn is_succeeded(&self) -> (r: bool)
        ensures
            r == (*self is Succeeded),
    {
        match self {
            Outcome::Succeeded => true,
            _ => false,
        }
    }

    /// A field-by-field copy.
    pub fn duplicate(&self) -> (r: Outcome)
        ensures
            r == *self,
    {
        match self {
            Outcome::Succeeded => Outcome::Succeeded,
            Outcome::IntegrityMismatch { expected, actual } => Outcome::IntegrityMismatch {
                expected: expected.clone(),
                actual: actual.clone(),
            },
            Outcome::TransferFailed { cause } => Outcome::TransferFailed { cause: cause.clone() },
            Outcome::IOFailed { cause } => Outcome::IOFailed { cause: cause.clone() },
        }
    }
}

/// The aggregate result of a batch: `Success` only if every job succeeded.
#[derive(Clone, Copy, Debug, PartialEq, Eq, Structural)]
pub enum BatchStatus {
    Success,
    Failure,
}

pub open spec fn status_code_of(s: BatchStatus) -> i32 {
    match s {
        BatchStatus::Success => 0,
        BatchStatus::Failure => -1i32,
    }
}

impl BatchStatus {
    /// The integer status handed across the host boundary: `0` success, `-1` failure.
    pub fn code(&self) -> (r: i32)
        ensures
            r == status_code_of(*self),
    {
        match self {
            BatchStatus::Success => 0,
            BatchStatus::Failure => -1i32,
        }
    }
}

/// Errors that end a whole batch before any job runs.
#[derive(Clone, Copy, Debug, PartialEq, Eq, Structural)]
pub enum BatchError {
    /// The job list could not be decoded into the expected shape.
    MalformedInput,
    /// The remote store rejected the credentials.
    AuthError,
    /// The remote store could not be reached or configured.
    ConnectionError,
}

} // verus!
