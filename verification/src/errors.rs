use vstd::prelude::*;

verus! {

/// Why processing a batch failed.
#[derive(Clone, Copy, Debug, PartialEq, Eq, Structural)]
pub enum BatchError {
    /// The requested item count was zero.
    CountZero,
    /// The requested item count exceeded the batch maximum.
    CountTooLarge,
    /// An item's hash computation failed.
    Computation,
}

impl BatchError {
    /// True of the errors raised by request validation, as opposed to a
    /// failure of the hash computation itself.
    pub open spec fn is_validation(self) -> bool {
        self is CountZero || self is CountTooLarge
    }

    /// A human-readable description of the failure.
    pub fn message(&self) -> (r: &'static str)
        ensures
            self is CountZero ==> r@ == "count must be greater than 0"@,
            self is CountTooLarge ==> r@ == "count exceeds maximum of 1000 items"@,
            self is Computation ==> r@ == "hash computation failed"@,
    {
        match self {
            BatchError::CountZero => "count must be greater than 0",
            BatchError::CountTooLarge => "count exceeds maximum of 1000 items",
            BatchError::Computation => "hash computation failed",
        }
    }
}

} // verus!
