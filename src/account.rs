use vstd::prelude::*;
use crate::address::Address;
use crate::error::{custom, LunabankError, ProgramError};

verus! {

/// One account as the execution environment hands it to an invocation.
#[derive(Debug, Clone)]
pub struct Account {
    pub key: Address,
    pub owner: Address,
    pub is_signer: bool,
    pub is_writable: bool,
    pub lamports: u64,
    pub data: Vec<u8>,
}

/// Fails `MissingRequiredSignature` unless the account signed the transaction.
pub fn assert_signer(account: &Account) -> (r: Result<(), ProgramError>)
    ensures
        r == (if account.is_signer {
            Ok(())
        } else {
            Err(ProgramError::MissingRequiredSignature)
        }),
{
    if !account.is_signer {
        Err(ProgramError::MissingRequiredSignature)
    } else {
        Ok(())
    }
}

/// Fails `NotWritable` unless the account is flagged writable.
pub fn assert_writable(account: &Account) -> (r: Result<(), ProgramError>)
    ensures
        r == (if account.is_writable {
            Ok(())
        } else {
            Err(ProgramError::NotWritable)
        }),
{
    if !account.is_writable {
        Err(ProgramError::NotWritable)
    } else {
        Ok(())
    }
}

/// Fails `InvalidAccountData` unless the account's address is `key`.
pub fn assert_account_key(account: &Account, key: &Address) -> (r: Result<(), ProgramError>)
    ensures
        r == (if account.key@ == key@ {
            Ok(())
        } else {
            Err(ProgramError::InvalidAccountData)
        }),
{
    if !account.key.same(key) {
        Err(ProgramError::InvalidAccountData)
    } else {
        Ok(())
    }
}

/// Fails `IncorrectOwner` unless the account is owned by `owner`.
pub fn assert_owned_by(account: &Account, owner: &Address) -> (r: Result<(), ProgramError>)
    ensures
        r == (if account.owner@ == owner@ {
            Ok(())
        } else {
            Err(custom(LunabankError::IncorrectOwner))
        }),
{
    if !account.owner.same(owner) {
        Err(ProgramError::from(LunabankError::IncorrectOwner))
    } else {
        Ok(())
    }
}

/// The program-derived address of `seeds` under `program_id`, with its bump seed;
/// `None` when no bump seed gives an address off the curve.
pub uninterp spec fn program_address(seeds: Seq<Seq<u8>>, program_id: Seq<u8>) -> Option<(Seq<u8>, u8)>;

/// Relies on `Pubkey::try_find_program_address`: a deterministic function of the seeds
/// and the program id, `None` where no bump seed yields a valid address.
#[verifier::external_body]
fn find_program_address(seeds: &Vec<Vec<u8>>, program_id: &Address) -> (r: Option<(Address, u8)>)
    ensures
        r matches Some(p) ==> program_address(seeds.deep_view(), program_id@) == Some((p.0@, p.1)),
        r is None ==> program_address(seeds.deep_view(), program_id@) is None,
{
    let slices: Vec<&[u8]> = seeds.iter().map(|s| s.as_slice()).collect();
    let program = solana_program::pubkey::Pubkey::new_from_array(program_id.bytes);
    solana_program::pubkey::Pubkey::try_find_program_address(&slices, &program)
        .map(|(key, bump)| (Address { bytes: key.to_bytes() }, bump))
}

/// Derives the address of `seeds` under `program_id`; fails `DerivedKeyInvalid` when none exists.
pub fn derive_address(program_id: &Address, seeds: &Vec<Vec<u8>>) -> (r: Result<(Address, u8), ProgramError>)
    ensures
        r matches Ok(p) ==> program_address(seeds.deep_view(), program_id@) == Some((p.0@, p.1)),
        r is Err ==> program_address(seeds.deep_view(), program_id@) is None,
        r matches Err(e) ==> e == custom(LunabankError::DerivedKeyInvalid),
{
    match find_program_address(seeds, program_id) {
        Some(p) => Ok(p),
        None => Err(ProgramError::from(LunabankError::DerivedKeyInvalid)),
    }
}

/// Whether `claimed` is the address derived from `seeds` under `program_id`.
pub open spec fn derives(program_id: Seq<u8>, claimed: Seq<u8>, seeds: Seq<Seq<u8>>) -> bool {
    program_address(seeds, program_id) matches Some(p) && p.0 == claimed
}

/// Recomputes the derived address of `path` and fails `DerivedKeyInvalid` unless it is the
/// account's address; returns the bump seed that reproduces the derivation.
pub fn assert_derivation(
    program_id: &Address,
    account: &Account,
    path: &Vec<Vec<u8>>,
) -> (r: Result<u8, ProgramError>)
    ensures
        r is Ok <==> derives(program_id@, account.key@, path.deep_view()),
        r matches Ok(bump) ==> program_address(path.deep_view(), program_id@) == Some(
            (account.key@, bump),
        ),
        r matches Err(e) ==> e == custom(LunabankError::DerivedKeyInvalid),
{
    match find_program_address(path, program_id) {
        Some((key, bump)) => {
            if !key.same(&account.key) {
                Err(ProgramError::from(LunabankError::DerivedKeyInvalid))
            } else {
                Ok(bump)
            }
        },
        None => Err(ProgramError::from(LunabankError::DerivedKeyInvalid)),
    }
}

} // verus!
