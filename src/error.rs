use vstd::prelude::*;

verus! {

/// Why a meter could not be constructed.
#[derive(Clone, Copy, Debug, PartialEq, Eq, Structural)]
pub enum MetricError {
    /// An aggregate meter was asked for a batch size of zero.
    InvalidThreshold,
    /// A rate meter was asked for a window shorter than one millisecond.
    NonPositiveInterval,
}

impl MetricError {
    /// The human-readable text of the error.
    pub fn message(&self) -> (r: &'static str)
        ensures
            *self == MetricError::InvalidThreshold ==> r@ == "threshold can not be zero"@,
            *self == MetricError::NonPositiveInterval ==> r@
                == "measurement interval should be positive"@,
    {
        match self {
            MetricError::InvalidThreshold => "threshold can not be zero",
            MetricError::NonPositiveInterval => "measurement interval should be positive",
        }
    }
}

} // verus!
