//! Failure kinds of the escrow program and the host-level codes they map to.

use vstd::prelude::*;
use vstd::std_specs::convert::FromSpecImpl;

verus! {

/// Failures that are specific to the escrow program.
#[derive(Clone, Copy, Debug, PartialEq, Eq, Structural)]
pub enum EscrowError {
    /// Unsupported opcode or truncated payload.
    InvalidInstruction,
    /// Lamport balance below rent-exempt threshold.
    NotRentExempt,
}

/// A failure as the host runtime understands it: either one of its generic
/// kinds or a program-specific number.
#[derive(Clone, Copy, Debug, PartialEq, Eq, Structural)]
pub enum ProgramFailure {
    /// A program-specific failure, identified by its code.
    Custom(u32),
    /// An argument handed to the program was not what it had to be.
    InvalidArgument,
    /// The data of an account has a malformed layout.
    InvalidAccountData,
    /// A required signature is missing.
    MissingRequiredSignature,
    /// An account is not owned by the program that has to own it.
    IncorrectOwner,
    /// The account to initialize holds an initialized record.
    AccountAlreadyInitialized,
    /// The record read from an account was never initialized.
    UninitializedAccount,
    /// Fewer accounts were supplied than the instruction takes.
    NotEnoughAccountKeys,
    /// No address could be derived from the seeds and the program.
    InvalidSeeds,
}

impl EscrowError {
    /// The number under which the host reports this failure.
    pub open spec fn spec_code(self) -> u32 {
        match self {
            EscrowError::InvalidInstruction => 0,
            EscrowError::NotRentExempt => 1,
        }
    }

    /// This failure as the host sees it: a program-specific failure that
    /// carries the code.
    pub open spec fn failure(self) -> ProgramFailure {
        ProgramFailure::Custom(self.spec_code())
    }

    /// The number under which the host reports this failure.
    pub fn code(self) -> (c: u32)
        ensures
            c == self.spec_code(),
    {
        match self {
            EscrowError::InvalidInstruction => 0,
            EscrowError::NotRentExempt => 1,
        }
    }

    /// A short description for diagnostics.
    pub fn message(self) -> (s: String)
        ensures
            self == EscrowError::InvalidInstruction ==> s@ == "Invalid instruction"@,
            self == EscrowError::NotRentExempt ==> s@
                == "Lamport balance below rent-exempt threshold"@,
    {
        match self {
            EscrowError::InvalidInstruction => "Invalid instruction".to_owned(),
            EscrowError::NotRentExempt => "Lamport balance below rent-exempt threshold".to_owned(),
        }
    }
}

impl From<EscrowError> for ProgramFailure {
    fn from(e: EscrowError) -> (f: ProgramFailure)
        ensures
            f == e.failure(),
    {
        ProgramFailure::Custom(e.code())
    }
}

impl FromSpecImpl<EscrowError> for ProgramFailure {
    open spec fn obeys_from_spec() -> bool {
        true
    }

    open spec fn from_spec(e: EscrowError) -> ProgramFailure {
        e.failure()
    }
}

/// Distinct escrow failures are reported under distinct codes.
pub proof fn lemma_codes_distinct(a: EscrowError, b: EscrowError)
    requires
        a != b,
    ensures
        a.spec_code() != b.spec_code(),
        a.failure() != b.failure(),
{
}

} // verus!
