//! The ways in which an operation on encrypted values is refused.
use vstd::prelude::*;

verus! {

/// Why a value could not be built or an operator could not be applied.
#[derive(Clone, Copy, Debug, PartialEq, Eq, Structural)]
pub enum Error {
    /// The bounds, the precision and the padding do not describe a domain.
    InvalidDomain,
    /// The operands were made under different keys or encoders.
    CapabilityMismatch,
    /// The encoder has fewer padding bits than the operator consumes.
    EncodingOverflow,
    /// The encryption scheme refused a request.
    ExternalBoundaryFailure,
}

} // verus!
