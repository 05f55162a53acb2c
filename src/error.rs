//! The escrow's own error codes, and the failures a transition reports.
use vstd::prelude::*;

verus! {

/// Failures specific to the escrow program, reported to the host as custom codes.
#[derive(Debug, Clone, Copy, PartialEq, Eq, Structural)]
pub enum EscrowError {
    /// The instruction buffer is malformed.
    InvalidInstruction,
    /// The escrow record's storage deposit does not cover its rent.
    NotRentExempt,
    /// The taker's expectation differs from what the holding slot holds.
    ExpectedAmountMismatch,
    /// A balance addition would overflow.
    AmountOverflow,
}

impl EscrowError {
    /// The custom code under which the host reports this error.
    pub open spec fn spec_code(self) -> u32 {
        match self {
            EscrowError::InvalidInstruction => 0,
            EscrowError::NotRentExempt => 1,
            EscrowError::ExpectedAmountMismatch => 2,
            EscrowError::AmountOverflow => 3,
        }
    }

    pub fn code(&self) -> (r: u32)
        ensures
            r == self.spec_code(),
    {
        match self {
            EscrowError::InvalidInstruction => 0,
            EscrowError::NotRentExempt => 1,
            EscrowError::ExpectedAmountMismatch => 2,
            EscrowError::AmountOverflow => 3,
        }
    }
}

/// Why a transition was refused: one of the host's standard program errors,
/// or a custom escrow error.
#[derive(Debug, Clone, Copy, PartialEq, Eq, Structural)]
pub enum ProcessError {
    /// An escrow-specific failure.
    Custom(EscrowError),
    /// A required signer did not authorize the request.
    MissingRequiredSignature,
    /// An account is not owned by the program it must belong to.
    IncorrectProgramId,
    /// The escrow record is already open.
    AccountAlreadyInitialized,
    /// An account's data is malformed, or does not match the escrow record.
    InvalidAccountData,
    /// An account's data has not been initialized.
    UninitializedAccount,
    /// Fewer accounts were supplied than the instruction reads.
    NotEnoughAccountKeys,
    /// The rent schedule could not be read from the account supplied for it.
    InvalidArgument,
    /// No custodian address could be derived from the program's identity.
    InvalidSeeds,
}

} // verus!
