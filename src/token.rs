use vstd::prelude::*;
use vstd::bytes::spec_u64_from_le_bytes;
use solana_program::program_pack::Pack;
use crate::address::Address;
use crate::error::ProgramError;

verus! {

pub const MINT_LEN: usize = 82;

pub const TOKEN_ACCOUNT_LEN: usize = 165;

/// The optional-key tag at `data[at..at + 4]` is `[0, 0, 0, 0]` or `[1, 0, 0, 0]`.
pub open spec fn option_tag_ok(data: Seq<u8>, at: int) -> bool {
    &&& (data[at] == 0 || data[at] == 1)
    &&& data[at + 1] == 0
    &&& data[at + 2] == 0
    &&& data[at + 3] == 0
}

/// The optional key stored at `data[at..at + 36]`, once its tag is valid.
pub open spec fn option_key_at(data: Seq<u8>, at: int) -> Option<Seq<u8>> {
    if data[at] == 1 {
        Some(data.subrange(at + 4, at + 36))
    } else {
        None
    }
}

pub open spec fn option_view(o: Option<Address>) -> Option<Seq<u8>> {
    match o {
        Some(a) => Some(a@),
        None => None,
    }
}

/// What the vault reads of a mint of the asset ledger.
#[derive(Debug, Clone, Copy)]
pub struct MintInfo {
    pub mint_authority: Option<Address>,
    pub supply: u64,
    pub freeze_authority: Option<Address>,
}

/// The layout of a mint: authority option (36 bytes), supply, decimals,
/// initialized flag, freeze authority option (36 bytes).
pub open spec fn mint_layout_ok(data: Seq<u8>) -> bool {
    &&& data.len() == MINT_LEN
    &&& option_tag_ok(data, 0)
    &&& (data[45] == 0 || data[45] == 1)
    &&& option_tag_ok(data, 46)
}

/// Why `data` does not decode as an initialized mint, if it does not.
pub open spec fn mint_decode_error(data: Seq<u8>) -> Option<ProgramError> {
    if !mint_layout_ok(data) {
        Some(ProgramError::InvalidAccountData)
    } else if data[45] == 0 {
        Some(ProgramError::UninitializedAccount)
    } else {
        None
    }
}

pub open spec fn mint_authority_of(data: Seq<u8>) -> Option<Seq<u8>> {
    option_key_at(data, 0)
}

pub open spec fn freeze_authority_of(data: Seq<u8>) -> Option<Seq<u8>> {
    option_key_at(data, 46)
}

/// Relies on `spl_token::state::Mint::unpack`: it accepts exactly an 82-byte buffer with
/// valid option tags and an initialized flag of one (`UninitializedAccount` for zero,
/// `InvalidAccountData` otherwise), and reads the fields at their fixed offsets.
#[verifier::external_body]
pub(crate) fn unpack_mint(data: &Vec<u8>) -> (r: Result<MintInfo, ProgramError>)
    ensures
        r is Ok <==> mint_decode_error(data@) is None,
        r matches Err(e) ==> mint_decode_error(data@) == Some(e),
        r matches Ok(m) ==> option_view(m.mint_authority) == mint_authority_of(data@),
        r matches Ok(m) ==> option_view(m.freeze_authority) == freeze_authority_of(data@),
        r matches Ok(m) ==> m.supply == spec_u64_from_le_bytes(data@.subrange(36, 44)),
{
    match spl_token::state::Mint::unpack(data.as_slice()) {
        Ok(m) => Ok(MintInfo {
            mint_authority: Option::from(m.mint_authority).map(|k: solana_program::pubkey::Pubkey| Address { bytes: k.to_bytes() }),
            supply: m.supply,
            freeze_authority: Option::from(m.freeze_authority).map(|k: solana_program::pubkey::Pubkey| Address { bytes: k.to_bytes() }),
        }),
        Err(solana_program::program_error::ProgramError::UninitializedAccount) => Err(ProgramError::UninitializedAccount),
        Err(_) => Err(ProgramError::InvalidAccountData),
    }
}

/// What the vault reads of an account of the asset ledger.
#[derive(Debug, Clone, Copy)]
pub struct TokenAccountInfo {
    pub mint: Address,
    pub owner: Address,
    pub amount: u64,
}

/// The layout of a token account: mint, owner, amount, delegate option (36 bytes),
/// state, native option (12 bytes), delegated amount, close authority option (36 bytes).
pub open spec fn token_account_layout_ok(data: Seq<u8>) -> bool {
    &&& data.len() == TOKEN_ACCOUNT_LEN
    &&& option_tag_ok(data, 72)
    &&& data[108] <= 2
    &&& option_tag_ok(data, 109)
    &&& option_tag_ok(data, 129)
}

/// Why `data` does not decode as an initialized token account, if it does not.
pub open spec fn token_account_decode_error(data: Seq<u8>) -> Option<ProgramError> {
    if !token_account_layout_ok(data) {
        Some(ProgramError::InvalidAccountData)
    } else if data[108] == 0 {
        Some(ProgramError::UninitializedAccount)
    } else {
        None
    }
}

pub open spec fn token_mint_of(data: Seq<u8>) -> Seq<u8> {
    data.subrange(0, 32)
}

pub open spec fn token_owner_of(data: Seq<u8>) -> Seq<u8> {
    data.subrange(32, 64)
}

/// Relies on `spl_token::state::Account::unpack`: it accepts exactly a 165-byte buffer with
/// valid option tags and a state byte of one or two (`UninitializedAccount` for zero,
/// `InvalidAccountData` otherwise), and reads the fields at their fixed offsets.
#[verifier::external_body]
pub(crate) fn unpack_token_account(data: &Vec<u8>) -> (r: Result<TokenAccountInfo, ProgramError>)
    ensures
        r is Ok <==> token_account_decode_error(data@) is None,
        r matches Err(e) ==> token_account_decode_error(data@) == Some(e),
        r matches Ok(a) ==> a.mint@ == token_mint_of(data@),
        r matches Ok(a) ==> a.owner@ == token_owner_of(data@),
        r matches Ok(a) ==> a.amount == spec_u64_from_le_bytes(data@.subrange(64, 72)),
{
    match spl_token::state::Account::unpack(data.as_slice()) {
        Ok(a) => Ok(TokenAccountInfo {
            mint: Address { bytes: a.mint.to_bytes() },
            owner: Address { bytes: a.owner.to_bytes() },
            amount: a.amount,
        }),
        Err(solana_program::program_error::ProgramError::UninitializedAccount) => Err(ProgramError::UninitializedAccount),
        Err(_) => Err(ProgramError::InvalidAccountData),
    }
}

} // verus!
