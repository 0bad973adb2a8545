use vstd::prelude::*;
use vstd::bytes::{spec_u64_from_le_bytes, u64_from_le_bytes};
use vstd::slice::slice_subrange;
use crate::error::ProgramError;
use crate::river::error::{river_error, RiverError};

verus! {

/// The operations of the accumulator program.
#[derive(Debug, Clone, Copy, PartialEq, Eq, Structural)]
pub enum RiverInstruction {
    /// Opens the accumulator: accounts `[initializer (signer), config (writable), rent sysvar]`.
    Init,
    /// Adds `amount` to the accumulator and counts a change of caller: accounts
    /// `[caller (signer), config (writable)]`.
    AccumInstruction { amount: u64 },
    /// Closes the accumulator: accounts `[initializer (signer), config (writable)]`.
    Close,
}

impl RiverInstruction {
    /// The instruction that `input` holds: a tag byte, then for an accumulation the
    /// amount in its first eight bytes, little-endian; trailing bytes are ignored.
    pub open spec fn decoded(input: Seq<u8>) -> Option<RiverInstruction> {
        if input.len() == 0 {
            None
        } else if input[0] == 0 {
            Some(RiverInstruction::Init)
        } else if input[0] == 1 {
            if input.len() >= 9 {
                Some(RiverInstruction::AccumInstruction { amount: spec_u64_from_le_bytes(input.subrange(1, 9)) })
            } else {
                None
            }
        } else if input[0] == 2 {
            Some(RiverInstruction::Close)
        } else {
            None
        }
    }

    /// Decodes an instruction; any other input fails `InvalidInstruction`.
    pub fn unpack(input: &[u8]) -> (r: Result<RiverInstruction, ProgramError>)
        ensures
            r matches Ok(i) ==> Self::decoded(input@) == Some(i),
            r is Err ==> Self::decoded(input@) is None,
            r matches Err(e) ==> e == river_error(RiverError::InvalidInstruction),
    {
        let n = input.len();
        if n == 0 {
            return Err(ProgramError::from(RiverError::InvalidInstruction));
        }
        let tag = input[0];
        let rest = slice_subrange(input, 1, n);
        if tag == 0 {
            Ok(RiverInstruction::Init)
        } else if tag == 1 {
            match Self::unpack_amount(rest) {
                Ok(amount) => {
                    assert(rest@.subrange(0, 8) =~= input@.subrange(1, 9));
                    Ok(RiverInstruction::AccumInstruction { amount })
                },
                Err(e) => Err(e),
            }
        } else if tag == 2 {
            Ok(RiverInstruction::Close)
        } else {
            Err(ProgramError::from(RiverError::InvalidInstruction))
        }
    }

    /// Reads an amount from the first eight bytes, little-endian.
    pub fn unpack_amount(input: &[u8]) -> (r: Result<u64, ProgramError>)
        ensures
            r is Ok <==> input@.len() >= 8,
            r matches Ok(a) ==> a == spec_u64_from_le_bytes(input@.subrange(0, 8)),
            r matches Err(e) ==> e == river_error(RiverError::InvalidInstruction),
    {
        if input.len() < 8 {
            return Err(ProgramError::from(RiverError::InvalidInstruction));
        }
        Ok(u64_from_le_bytes(slice_subrange(input, 0, 8)))
    }
}

} // verus!
