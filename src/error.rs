use vstd::prelude::*;

verus! {

/// Why an instruction's bytes could not be decoded.
#[derive(Clone, Copy, Debug, PartialEq, Eq, Structural)]
pub enum DecodeError {
    EmptyInput,
    UnknownTag,
    TruncatedAmount,
}

/// Every way an invocation can be rejected.
#[derive(Clone, Copy, Debug, PartialEq, Eq, Structural)]
pub enum SwapError {
    /// A required signer is missing or is not the expected one.
    AuthorizationError,
    /// An account is owned by an unexpected program.
    OwnershipError,
    /// The record is already initialized, or its bytes are not a record.
    StateError,
    /// The record storage holds less than the rent-exemption floor.
    FundingError,
    /// A withdrawal would take the record storage below the rent-exemption floor.
    InsufficientFunds,
    /// An account does not match the one the record refers to, or two roles name one account.
    InvalidRecordReference,
    /// The instruction bytes are malformed.
    DecodeError(DecodeError),
    /// The token service cannot be called as asked.
    ExternalServiceError,
    /// A balance, the swapped total or the token amount would overflow.
    AmountOverflow,
    /// Fewer accounts were supplied than the operation names.
    MissingAccount,
}

impl SwapError {
    /// A stable numeric code for the error, distinct for each error.
    pub fn code(&self) -> (r: u32)
        ensures
            r == error_code(*self),
    {
        match self {
            SwapError::AuthorizationError => 1,
            SwapError::OwnershipError => 2,
            SwapError::StateError => 3,
            SwapError::FundingError => 4,
            SwapError::InsufficientFunds => 5,
            SwapError::InvalidRecordReference => 6,
            SwapError::DecodeError(DecodeError::EmptyInput) => 7,
            SwapError::DecodeError(DecodeError::UnknownTag) => 8,
            SwapError::DecodeError(DecodeError::TruncatedAmount) => 9,
            SwapError::ExternalServiceError => 10,
            SwapError::AmountOverflow => 11,
            SwapError::MissingAccount => 12,
        }
    }
}

pub open spec fn error_code(e: SwapError) -> u32 {
    match e {
        SwapError::AuthorizationError => 1,
        SwapError::OwnershipError => 2,
        SwapError::StateError => 3,
        SwapError::FundingError => 4,
        SwapError::InsufficientFunds => 5,
        SwapError::InvalidRecordReference => 6,
        SwapError::DecodeError(DecodeError::EmptyInput) => 7,
        SwapError::DecodeError(DecodeError::UnknownTag) => 8,
        SwapError::DecodeError(DecodeError::TruncatedAmount) => 9,
        SwapError::ExternalServiceError => 10,
        SwapError::AmountOverflow => 11,
        SwapError::MissingAccount => 12,
    }
}

/// Distinct errors have distinct codes.
pub proof fn lemma_error_code_injective(a: SwapError, b: SwapError)
    ensures
        error_code(a) == error_code(b) ==> a == b,
{
}

} // verus!
