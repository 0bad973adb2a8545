use vstd::prelude::*;

verus! {

/// Failures specific to the vault program; they surface as `ProgramError::Custom(code)`.
#[derive(Debug, Clone, Copy, PartialEq, Eq, Structural)]
pub enum LunabankError {
    /// The instruction payload does not decode.
    InvalidInstruction,
    /// An account does not hold the rent-exempt minimum for its size.
    NotRentExempt,
    /// An amount does not match the expected one.
    ExpectedAmountMismatch,
    /// A balance sum does not fit in 64 bits.
    AmountOverflow,
    /// The end of a lock period does not fit in 64 bits.
    TimeOverflow,
    /// A supplied address is not the one derived from its seeds.
    DerivedKeyInvalid,
    /// An authority or owner is not the one required.
    IncorrectOwner,
    /// A withdrawal was attempted before the lock period ended.
    WaitPeriodBreach,
}

impl LunabankError {
    pub open spec fn spec_code(self) -> u32 {
        match self {
            LunabankError::InvalidInstruction => 0,
            LunabankError::NotRentExempt => 1,
            LunabankError::ExpectedAmountMismatch => 2,
            LunabankError::AmountOverflow => 3,
            LunabankError::TimeOverflow => 4,
            LunabankError::DerivedKeyInvalid => 5,
            LunabankError::IncorrectOwner => 6,
            LunabankError::WaitPeriodBreach => 7,
        }
    }

    /// The numeric code of the error, its position in the declaration.
    pub fn code(&self) -> (r: u32)
        ensures
            r == self.spec_code(),
    {
        match self {
            LunabankError::InvalidInstruction => 0,
            LunabankError::NotRentExempt => 1,
            LunabankError::ExpectedAmountMismatch => 2,
            LunabankError::AmountOverflow => 3,
            LunabankError::TimeOverflow => 4,
            LunabankError::DerivedKeyInvalid => 5,
            LunabankError::IncorrectOwner => 6,
            LunabankError::WaitPeriodBreach => 7,
        }
    }
}

/// The failure kinds that an invocation can end with.
#[derive(Debug, Clone, Copy, PartialEq, Eq, Structural)]
pub enum ProgramError {
    /// A program-specific failure, by code.
    Custom(u32),
    InvalidArgument,
    InvalidInstructionData,
    InvalidAccountData,
    NotEnoughAccountKeys,
    AccountAlreadyInitialized,
    UninitializedAccount,
    MissingRequiredSignature,
    NotWritable,
    IllegalOwner,
    IncorrectProgramId,
}

/// The error that a program-specific failure surfaces as.
pub open spec fn custom(e: LunabankError) -> ProgramError {
    ProgramError::Custom(e.spec_code())
}

impl From<LunabankError> for ProgramError {
    fn from(e: LunabankError) -> (r: ProgramError)
        ensures
            r == custom(e),
    {
        ProgramError::Custom(e.code())
    }
}

impl vstd::std_specs::convert::FromSpecImpl<LunabankError> for ProgramError {
    open spec fn obeys_from_spec() -> bool {
        true
    }

    open spec fn from_spec(e: LunabankError) -> ProgramError {
        custom(e)
    }
}

} // verus!
