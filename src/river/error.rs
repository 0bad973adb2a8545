use vstd::prelude::*;
use crate::error::ProgramError;

verus! {

/// Failures specific to the accumulator program; they surface as `ProgramError::Custom(code)`.
#[derive(Debug, Clone, Copy, PartialEq, Eq, Structural)]
pub enum RiverError {
    /// The instruction payload does not decode.
    InvalidInstruction,
    /// The config account does not hold the rent-exempt minimum for its size.
    NotRentExempt,
    /// A sum does not fit in 64 bits.
    AmountOverflow,
}

impl RiverError {
    pub open spec fn spec_code(self) -> u32 {
        match self {
            RiverError::InvalidInstruction => 0,
            RiverError::NotRentExempt => 1,
            RiverError::AmountOverflow => 2,
        }
    }

    pub fn code(&self) -> (r: u32)
        ensures
            r == self.spec_code(),
    {
        match self {
            RiverError::InvalidInstruction => 0,
            RiverError::NotRentExempt => 1,
            RiverError::AmountOverflow => 2,
        }
    }
}

/// The error that an accumulator failure surfaces as.
pub open spec fn river_error(e: RiverError) -> ProgramError {
    ProgramError::Custom(e.spec_code())
}

impl From<RiverError> for ProgramError {
    fn from(e: RiverError) -> (r: ProgramError)
        ensures
            r == river_error(e),
    {
        ProgramError::Custom(e.code())
    }
}

impl vstd::std_specs::convert::FromSpecImpl<RiverError> for ProgramError {
    open spec fn obeys_from_spec() -> bool {
        true
    }

    open spec fn from_spec(e: RiverError) -> ProgramError {
        river_error(e)
    }
}

} // verus!
