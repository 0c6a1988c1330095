use vstd::prelude::*;

verus! {

/// Why a transaction could not be assembled, or a time bound could not be set.
#[derive(Debug, Clone, Copy, PartialEq, Eq, Structural)]
pub enum ValidationError {
    NoInputs,
    NoOutputs,
    InvalidCollateralInput,
    InvalidCollateralReturn,
    InvalidTimestamp,
    FeeComputationFailure,
    EncodingFailure,
}

} // verus!
