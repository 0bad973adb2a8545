use vstd::prelude::*;
use vstd::bytes::{spec_u64_to_le_bytes, u64_to_le_bytes};
use vstd::slice::slice_subrange;
use crate::error::{custom, LunabankError, ProgramError};

verus! {

/// The four operations of the vault, each with only the payload it needs.
#[derive(Debug, Clone, Copy, PartialEq, Eq, Structural)]
pub enum LunabankInstruction {
    /// Opens a vault: accounts `[initializer (signer), config (writable), base mint,
    /// escrow, receipt mint (writable), rent sysvar, token program]`.
    Init,
    /// Closes a vault and hands its authorities back: accounts `[initializer (signer),
    /// config (writable), escrow (writable), receipt mint (writable), token program,
    /// custody authority]`.
    Close,
    /// Locks `amount` of the base asset for `deposit_time` seconds: accounts `[depositor
    /// (signer), config, base mint, escrow (writable), depositor base account (writable),
    /// receipt mint (writable), depositor receipt account (writable), deposit subaccount
    /// (writable), custody authority, token program, rent sysvar, system program, clock sysvar]`.
    DepositInstruction { amount: u64, deposit_time: u64 },
    /// Redeems a matured deposit: the accounts of a deposit without the rent sysvar.
    WithdrawInstruction,
}

impl LunabankInstruction {
    /// Layout: a tag byte, then for a deposit the amount and the duration, little-endian.
    pub open spec fn encoded(self) -> Seq<u8> {
        match self {
            LunabankInstruction::Init => seq![0u8],
            LunabankInstruction::Close => seq![1u8],
            LunabankInstruction::DepositInstruction { amount, deposit_time } => seq![2u8]
                + spec_u64_to_le_bytes(amount) + spec_u64_to_le_bytes(deposit_time),
            LunabankInstruction::WithdrawInstruction => seq![3u8],
        }
    }

    /// Whether `input` is the encoding of some instruction.
    pub open spec fn well_formed(input: Seq<u8>) -> bool {
        ||| input.len() == 1 && (input[0] == 0 || input[0] == 1 || input[0] == 3)
        ||| input.len() == 17 && input[0] == 2
    }

    pub fn pack(&self) -> (r: Vec<u8>)
        ensures
            r@ == self.encoded(),
    {
        match self {
            LunabankInstruction::Init => vec![0u8],
            LunabankInstruction::Close => vec![1u8],
            LunabankInstruction::DepositInstruction { amount, deposit_time } => {
                let mut v = vec![2u8];
                let mut a = u64_to_le_bytes(*amount);
                let mut t = u64_to_le_bytes(*deposit_time);
                v.append(&mut a);
                v.append(&mut t);
                v
            },
            LunabankInstruction::WithdrawInstruction => vec![3u8],
        }
    }

    /// Decodes an instruction; any other input fails `InvalidInstruction`.
    pub fn unpack(input: &Vec<u8>) -> (r: Result<LunabankInstruction, ProgramError>)
        ensures
            r is Ok <==> Self::well_formed(input@),
            r matches Ok(i) ==> i.encoded() == input@,
            r matches Err(e) ==> e == custom(LunabankError::InvalidInstruction),
    {
        let n = input.len();
        if n == 1 {
            if input[0] == 0 {
                assert(input@ =~= seq![0u8]);
                return Ok(LunabankInstruction::Init);
            } else if input[0] == 1 {
                assert(input@ =~= seq![1u8]);
                return Ok(LunabankInstruction::Close);
            } else if input[0] == 3 {
                assert(input@ =~= seq![3u8]);
                return Ok(LunabankInstruction::WithdrawInstruction);
            }
        } else if n == 17 && input[0] == 2 {
            let amount = vstd::bytes::u64_from_le_bytes(slice_subrange(input.as_slice(), 1, 9));
            let deposit_time = vstd::bytes::u64_from_le_bytes(slice_subrange(input.as_slice(), 9, 17));
            proof {
                vstd::bytes::lemma_auto_spec_u64_to_from_le_bytes();
                assert(spec_u64_to_le_bytes(amount) == input@.subrange(1, 9));
                assert(spec_u64_to_le_bytes(deposit_time) == input@.subrange(9, 17));
            }
            let r = LunabankInstruction::DepositInstruction { amount, deposit_time };
            assert(r.encoded() =~= input@);
            return Ok(r);
        }
        Err(ProgramError::from(LunabankError::InvalidInstruction))
    }
}

} // verus!
