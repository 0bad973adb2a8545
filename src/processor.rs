use vstd::prelude::*;
use vstd::bytes::{spec_u64_from_le_bytes, spec_u64_to_le_bytes};
use crate::account::{
    assert_account_key, assert_derivation, assert_owned_by, assert_signer, assert_writable,
    derive_address, derives, program_address, Account,
};
use crate::address::{clock_sysvar_key, rent_sysvar_key, system_program_key, token_program_key, Address};
use crate::effect::{outcome, AuthorityType, CallView, Credential, Effect, EffectView, LedgerCall};
use crate::error::{custom, LunabankError, ProgramError};
use crate::instruction::LunabankInstruction;
use crate::state::{
    deposit_prefix, header_ok, luna_deposit_prefix, luna_owner_prefix, owner_prefix, Key,
    LunaDeposit, Lunabank, LUNABANK_LEN, LUNA_DEPOSIT_LEN,
};
use crate::sysvar::{
    clock_unix_time, minimum_balance, rent_minimum_balance, rent_query_fits, rent_query_in_range, unix_time,
};
use crate::token::{
    freeze_authority_of, mint_authority_of, mint_decode_error, option_view, token_account_decode_error,
    token_mint_of, token_owner_of, unpack_mint, unpack_token_account,
};

verus! {

/// Seeds of a vault's custody authority.
pub open spec fn custody_seeds(config: Seq<u8>) -> Seq<Seq<u8>> {
    seq![config, owner_prefix()]
}

/// Seeds of a depositor's subaccount in a vault.
pub open spec fn deposit_seeds(config: Seq<u8>, depositor: Seq<u8>) -> Seq<Seq<u8>> {
    seq![config, depositor, deposit_prefix()]
}

/// Seeds with the bump seed appended, as a derivation credential carries them.
pub open spec fn with_bump(seeds: Seq<Seq<u8>>, bump: u8) -> Seq<Seq<u8>> {
    seeds.push(seq![bump])
}

/// The bump seed of an address that is known to derive from `seeds`.
pub open spec fn bump_of(seeds: Seq<Seq<u8>>, program_id: Seq<u8>) -> u8 {
    program_address(seeds, program_id)->Some_0.1
}

pub open spec fn token_owned(a: Account) -> bool {
    a.owner@ == token_program_key()
}

// Fields of a configuration record, read from its buffer.
pub open spec fn config_owner(d: Seq<u8>) -> Seq<u8> {
    d.subrange(1, 33)
}

pub open spec fn config_base_mint(d: Seq<u8>) -> Seq<u8> {
    d.subrange(33, 65)
}

pub open spec fn config_receipt_mint(d: Seq<u8>) -> Seq<u8> {
    d.subrange(65, 97)
}

pub open spec fn config_escrow(d: Seq<u8>) -> Seq<u8> {
    d.subrange(97, 129)
}

// Fields of a deposit record, read from its buffer.
pub open spec fn record_owner(d: Seq<u8>) -> Seq<u8> {
    d.subrange(1, 33)
}

pub open spec fn record_amount(d: Seq<u8>) -> u64 {
    spec_u64_from_le_bytes(d.subrange(33, 41))
}

pub open spec fn record_end(d: Seq<u8>) -> u64 {
    spec_u64_from_le_bytes(d.subrange(49, 57))
}

/// The buffer of a deposit record that starts at `now` and ends `lock` seconds later.
pub open spec fn deposit_record(owner: Seq<u8>, amount: u64, now: u64, lock: u64) -> Seq<u8> {
    seq![2u8] + owner + spec_u64_to_le_bytes(amount) + spec_u64_to_le_bytes(now)
        + spec_u64_to_le_bytes((now + lock) as u64)
}

pub open spec fn invoke(call: CallView, seeds: Option<Seq<Seq<u8>>>) -> EffectView {
    EffectView::Invoke { call, seeds }
}

pub open spec fn set_authority(target: Seq<u8>, new_authority: Seq<u8>, kind: AuthorityType, authority: Seq<u8>) -> CallView {
    CallView::SetAuthority { target, new_authority, kind, authority }
}

// ---------------------------------------------------------------- Init

/// The first failing role check of an Init, in account order.
pub open spec fn init_accounts_error(program_id: Seq<u8>, a: Seq<Account>) -> Option<ProgramError> {
    if a.len() < 7 {
        Some(ProgramError::NotEnoughAccountKeys)
    } else if !a[0].is_signer {
        Some(ProgramError::MissingRequiredSignature)
    } else if !a[1].is_writable {
        Some(ProgramError::NotWritable)
    } else if a[1].owner@ != program_id {
        Some(custom(LunabankError::IncorrectOwner))
    } else if !token_owned(a[2]) || !token_owned(a[3]) {
        Some(custom(LunabankError::IncorrectOwner))
    } else if !a[4].is_writable {
        Some(ProgramError::NotWritable)
    } else if !token_owned(a[4]) {
        Some(custom(LunabankError::IncorrectOwner))
    } else if a[5].key@ != rent_sysvar_key() || a[6].key@ != token_program_key() {
        Some(ProgramError::InvalidAccountData)
    } else {
        None
    }
}

/// The configuration record that Init writes: initialized, owned by the initializer,
/// naming the base mint, the receipt mint and the escrow; its coefficient is kept.
pub open spec fn initialized_config(a: Seq<Account>) -> Seq<u8> {
    seq![1u8] + a[0].key@ + a[2].key@ + a[4].key@ + a[3].key@ + a[1].data@.subrange(129, 137)
}

pub open spec fn init_effects(a: Seq<Account>, custody: Seq<u8>) -> Seq<EffectView> {
    seq![
        EffectView::Store { index: 1, data: initialized_config(a) },
        invoke(set_authority(a[4].key@, custody, AuthorityType::MintTokens, a[0].key@), None),
        invoke(set_authority(a[4].key@, custody, AuthorityType::FreezeAccount, a[0].key@), None),
        invoke(set_authority(a[3].key@, custody, AuthorityType::AccountOwner, a[0].key@), None),
    ]
}

/// Init: the account roles; the rent query in range and the config's rent exemption; the config still uninitialized;
/// the receipt mint's mint and freeze authorities held by the initializer. Then the
/// config is written and the three authorities move to the custody authority.
pub open spec fn init_result(program_id: Seq<u8>, a: Seq<Account>) -> Result<Seq<EffectView>, ProgramError> {
    if let Some(e) = init_accounts_error(program_id, a) {
        Err(e)
    } else if !rent_query_in_range(a[5].data@, a[1].data@.len())
        || rent_minimum_balance(a[5].data@, a[1].data@.len()) is None {
        Err(ProgramError::InvalidArgument)
    } else if a[1].lamports < rent_minimum_balance(a[5].data@, a[1].data@.len())->Some_0 {
        Err(custom(LunabankError::NotRentExempt))
    } else if !header_ok(a[1].data@, Key::LunabankV1, LUNABANK_LEN as nat) {
        Err(ProgramError::InvalidAccountData)
    } else if a[1].data@[0] != 0 {
        Err(ProgramError::AccountAlreadyInitialized)
    } else if let Some(e) = mint_decode_error(a[4].data@) {
        Err(e)
    } else if mint_authority_of(a[4].data@) != Some(a[0].key@)
        || freeze_authority_of(a[4].data@) != Some(a[0].key@) {
        Err(custom(LunabankError::IncorrectOwner))
    } else if let Some(p) = program_address(custody_seeds(a[1].key@), program_id) {
        Ok(init_effects(a, p.0))
    } else {
        Err(custom(LunabankError::DerivedKeyInvalid))
    }
}

// ---------------------------------------------------------------- Close

/// The first failing role check of a Close, in account order.
pub open spec fn close_accounts_error(program_id: Seq<u8>, a: Seq<Account>) -> Option<ProgramError> {
    if a.len() < 6 {
        Some(ProgramError::NotEnoughAccountKeys)
    } else if !a[0].is_signer {
        Some(ProgramError::MissingRequiredSignature)
    } else if !a[1].is_writable {
        Some(ProgramError::NotWritable)
    } else if a[1].owner@ != program_id || !token_owned(a[2]) {
        Some(custom(LunabankError::IncorrectOwner))
    } else if !a[2].is_writable || !a[3].is_writable {
        Some(ProgramError::NotWritable)
    } else if !token_owned(a[3]) {
        Some(custom(LunabankError::IncorrectOwner))
    } else if a[4].key@ != token_program_key() {
        Some(ProgramError::InvalidAccountData)
    } else {
        None
    }
}

pub open spec fn close_effects(a: Seq<Account>, seeds: Seq<Seq<u8>>) -> Seq<EffectView> {
    seq![
        invoke(set_authority(a[3].key@, a[0].key@, AuthorityType::MintTokens, a[5].key@), Some(seeds)),
        invoke(set_authority(a[3].key@, a[0].key@, AuthorityType::FreezeAccount, a[5].key@), Some(seeds)),
        invoke(set_authority(a[2].key@, a[0].key@, AuthorityType::AccountOwner, a[5].key@), Some(seeds)),
        EffectView::Reclaim { from: 1, to: 0, balance: (a[0].lamports + a[1].lamports) as u64 },
    ]
}

/// Close: the account roles; the escrow decodes; the supplied custody authority derives
/// from the config; it holds the receipt mint's mint and freeze authorities and owns the
/// escrow; the config is initialized, owned by the caller and names the escrow's mint,
/// the receipt mint and the escrow. Then the custody authority hands the three
/// authorities back to the caller and the config's balance goes to the caller.
pub open spec fn close_result(program_id: Seq<u8>, a: Seq<Account>) -> Result<Seq<EffectView>, ProgramError> {
    if let Some(e) = close_accounts_error(program_id, a) {
        Err(e)
    } else if let Some(e) = token_account_decode_error(a[2].data@) {
        Err(e)
    } else if !derives(program_id, a[5].key@, custody_seeds(a[1].key@)) {
        Err(custom(LunabankError::DerivedKeyInvalid))
    } else if let Some(e) = mint_decode_error(a[3].data@) {
        Err(e)
    } else if mint_authority_of(a[3].data@) != Some(a[5].key@)
        || freeze_authority_of(a[3].data@) != Some(a[5].key@)
        || token_owner_of(a[2].data@) != a[5].key@ {
        Err(ProgramError::IllegalOwner)
    } else if !header_ok(a[1].data@, Key::LunabankV1, LUNABANK_LEN as nat) || a[1].data@[0] == 0 {
        Err(ProgramError::InvalidAccountData)
    } else if config_owner(a[1].data@) != a[0].key@ {
        Err(ProgramError::IllegalOwner)
    } else if config_base_mint(a[1].data@) != token_mint_of(a[2].data@)
        || config_receipt_mint(a[1].data@) != a[3].key@
        || config_escrow(a[1].data@) != a[2].key@ {
        Err(ProgramError::InvalidAccountData)
    } else if a[0].lamports + a[1].lamports > u64::MAX {
        Err(custom(LunabankError::AmountOverflow))
    } else {
        Ok(close_effects(a, with_bump(custody_seeds(a[1].key@), bump_of(custody_seeds(a[1].key@), program_id))))
    }
}

// ---------------------------------------------------------------- Deposit and Withdraw

/// The role checks that Deposit and Withdraw share, for accounts 0 to 9.
pub open spec fn vault_accounts_error(program_id: Seq<u8>, a: Seq<Account>) -> Option<ProgramError> {
    if !a[0].is_signer {
        Some(ProgramError::MissingRequiredSignature)
    } else if a[1].owner@ != program_id || !token_owned(a[2]) || !token_owned(a[3]) {
        Some(custom(LunabankError::IncorrectOwner))
    } else if !a[3].is_writable {
        Some(ProgramError::NotWritable)
    } else if !token_owned(a[4]) {
        Some(custom(LunabankError::IncorrectOwner))
    } else if !a[4].is_writable {
        Some(ProgramError::NotWritable)
    } else if !token_owned(a[5]) {
        Some(custom(LunabankError::IncorrectOwner))
    } else if !a[5].is_writable {
        Some(ProgramError::NotWritable)
    } else if !token_owned(a[6]) {
        Some(custom(LunabankError::IncorrectOwner))
    } else if !a[6].is_writable || !a[7].is_writable {
        Some(ProgramError::NotWritable)
    } else if a[9].key@ != token_program_key() {
        Some(ProgramError::InvalidAccountData)
    } else {
        None
    }
}

/// The vault checks that Deposit and Withdraw share: the escrow and the receipt mint
/// decode; the config is initialized and names the escrow's mint, the receipt mint and
/// the escrow; the subaccount derives from the config and the caller; the custody
/// authority derives from the config, holds both authorities of the receipt mint and
/// owns the escrow.
pub open spec fn vault_state_error(program_id: Seq<u8>, a: Seq<Account>) -> Option<ProgramError> {
    if let Some(e) = token_account_decode_error(a[3].data@) {
        Some(e)
    } else if let Some(e) = mint_decode_error(a[5].data@) {
        Some(e)
    } else if !header_ok(a[1].data@, Key::LunabankV1, LUNABANK_LEN as nat) || a[1].data@[0] == 0 {
        Some(ProgramError::InvalidAccountData)
    } else if config_base_mint(a[1].data@) != token_mint_of(a[3].data@)
        || config_receipt_mint(a[1].data@) != a[5].key@
        || config_escrow(a[1].data@) != a[3].key@ {
        Some(ProgramError::InvalidAccountData)
    } else if !derives(program_id, a[7].key@, deposit_seeds(a[1].key@, a[0].key@))
        || !derives(program_id, a[8].key@, custody_seeds(a[1].key@)) {
        Some(custom(LunabankError::DerivedKeyInvalid))
    } else if mint_authority_of(a[5].data@) != Some(a[8].key@)
        || freeze_authority_of(a[5].data@) != Some(a[8].key@)
        || token_owner_of(a[3].data@) != a[8].key@ {
        Some(ProgramError::IllegalOwner)
    } else {
        None
    }
}

/// The custody authority's credential in a vault whose checks passed.
pub open spec fn custody_credential(program_id: Seq<u8>, a: Seq<Account>) -> Option<Seq<Seq<u8>>> {
    Some(with_bump(custody_seeds(a[1].key@), bump_of(custody_seeds(a[1].key@), program_id)))
}

/// A subaccount that does not exist yet: no balance and no data.
pub open spec fn absent(a: Account) -> bool {
    a.lamports == 0 && a.data@.len() == 0
}

pub open spec fn deposit_accounts_error(program_id: Seq<u8>, a: Seq<Account>) -> Option<ProgramError> {
    if a.len() < 13 {
        Some(ProgramError::NotEnoughAccountKeys)
    } else if let Some(e) = vault_accounts_error(program_id, a) {
        Some(e)
    } else if a[10].key@ != rent_sysvar_key() || a[11].key@ != system_program_key()
        || a[12].key@ != clock_sysvar_key() {
        Some(ProgramError::InvalidAccountData)
    } else {
        None
    }
}

/// The subaccount is created first when it is absent.
pub open spec fn deposit_effects(program_id: Seq<u8>, a: Seq<Account>, amount: u64, now: u64, lock: u64) -> Seq<EffectView> {
    let creation = if absent(a[7]) {
        seq![
            invoke(
                CallView::CreateAccount {
                    payer: a[0].key@,
                    address: a[7].key@,
                    lamports: rent_minimum_balance(a[10].data@, LUNA_DEPOSIT_LEN as nat)->Some_0,
                    space: LUNA_DEPOSIT_LEN as u64,
                    owner: program_id,
                },
                Some(with_bump(deposit_seeds(a[1].key@, a[0].key@), bump_of(deposit_seeds(a[1].key@, a[0].key@), program_id))),
            ),
        ]
    } else {
        seq![]
    };
    creation + seq![
        EffectView::Store { index: 7, data: deposit_record(a[0].key@, amount, now, lock) },
        invoke(CallView::Transfer { source: a[4].key@, destination: a[3].key@, authority: a[0].key@, amount }, None),
        invoke(CallView::MintTo { mint: a[5].key@, destination: a[6].key@, authority: a[8].key@, amount }, custody_credential(program_id, a)),
        invoke(CallView::FreezeAccount { account: a[6].key@, mint: a[5].key@, authority: a[8].key@ }, custody_credential(program_id, a)),
    ]
}

/// Deposit: the account roles and the vault checks; the subaccount is absent, or holds a
/// record buffer of this program that is not initialized; the lock ends within range.
/// Then the record `{caller, amount, now, now + lock}` is written, `amount` of the base
/// asset moves from the caller to the escrow, `amount` of the receipt asset is minted to
/// the caller's receipt account and that account is frozen.
pub open spec fn deposit_result(program_id: Seq<u8>, a: Seq<Account>, amount: u64, lock: u64) -> Result<Seq<EffectView>, ProgramError> {
    if let Some(e) = deposit_accounts_error(program_id, a) {
        Err(e)
    } else if let Some(e) = vault_state_error(program_id, a) {
        Err(e)
    } else if !rent_query_in_range(a[10].data@, LUNA_DEPOSIT_LEN as nat)
        || rent_minimum_balance(a[10].data@, LUNA_DEPOSIT_LEN as nat) is None {
        Err(ProgramError::InvalidArgument)
    } else if !absent(a[7]) && a[7].owner@ != program_id {
        Err(custom(LunabankError::IncorrectOwner))
    } else if !absent(a[7]) && !header_ok(a[7].data@, Key::LunaDepositV1, LUNA_DEPOSIT_LEN as nat) {
        Err(ProgramError::InvalidAccountData)
    } else if !absent(a[7]) && a[7].data@[0] != 0 {
        Err(ProgramError::AccountAlreadyInitialized)
    } else if let Some(now) = clock_unix_time(a[12].data@) {
        if now + lock > u64::MAX {
            Err(custom(LunabankError::TimeOverflow))
        } else {
            Ok(deposit_effects(program_id, a, amount, now, lock))
        }
    } else {
        Err(ProgramError::InvalidArgument)
    }
}

pub open spec fn withdraw_accounts_error(program_id: Seq<u8>, a: Seq<Account>) -> Option<ProgramError> {
    if a.len() < 12 {
        Some(ProgramError::NotEnoughAccountKeys)
    } else if let Some(e) = vault_accounts_error(program_id, a) {
        Some(e)
    } else if a[10].key@ != system_program_key() || a[11].key@ != clock_sysvar_key() {
        Some(ProgramError::InvalidAccountData)
    } else {
        None
    }
}

pub open spec fn withdraw_effects(program_id: Seq<u8>, a: Seq<Account>) -> Seq<EffectView> {
    let amount = record_amount(a[7].data@);
    seq![
        EffectView::Reclaim { from: 7, to: 0, balance: (a[0].lamports + a[7].lamports) as u64 },
        invoke(CallView::Transfer { source: a[3].key@, destination: a[4].key@, authority: a[8].key@, amount }, custody_credential(program_id, a)),
        invoke(CallView::ThawAccount { account: a[6].key@, mint: a[5].key@, authority: a[8].key@ }, custody_credential(program_id, a)),
        invoke(CallView::Burn { account: a[6].key@, mint: a[5].key@, authority: a[0].key@, amount }, None),
        invoke(CallView::CloseAccount { account: a[6].key@, destination: a[0].key@, authority: a[0].key@ }, None),
    ]
}

/// Withdraw: the account roles and the vault checks; the subaccount holds an initialized
/// record, kept by this program and owned by the caller, whose lock has ended. Then the record's
/// balance goes to the caller and its data is emptied, the recorded amount of the base
/// asset moves from the escrow back to the caller, and the caller's receipt account is
/// thawed, burned down by that amount and closed.
pub open spec fn withdraw_result(program_id: Seq<u8>, a: Seq<Account>) -> Result<Seq<EffectView>, ProgramError> {
    if let Some(e) = withdraw_accounts_error(program_id, a) {
        Err(e)
    } else if let Some(e) = vault_state_error(program_id, a) {
        Err(e)
    } else if !header_ok(a[7].data@, Key::LunaDepositV1, LUNA_DEPOSIT_LEN as nat) || a[7].data@[0] == 0 {
        Err(ProgramError::InvalidAccountData)
    } else if a[7].owner@ != program_id || record_owner(a[7].data@) != a[0].key@ {
        Err(custom(LunabankError::IncorrectOwner))
    } else if let Some(now) = clock_unix_time(a[11].data@) {
        if now < record_end(a[7].data@) {
            Err(custom(LunabankError::WaitPeriodBreach))
        } else if a[0].lamports + a[7].lamports > u64::MAX {
            Err(custom(LunabankError::AmountOverflow))
        } else {
            Ok(withdraw_effects(program_id, a))
        }
    } else {
        Err(ProgramError::InvalidArgument)
    }
}

/// An invocation: the payload decodes to one of the four operations, which runs on the accounts.
pub open spec fn process_result(program_id: Seq<u8>, a: Seq<Account>, data: Seq<u8>) -> Result<Seq<EffectView>, ProgramError> {
    if !LunabankInstruction::well_formed(data) {
        Err(custom(LunabankError::InvalidInstruction))
    } else if data[0] == 0 {
        init_result(program_id, a)
    } else if data[0] == 1 {
        close_result(program_id, a)
    } else if data[0] == 2 {
        deposit_result(
            program_id,
            a,
            spec_u64_from_le_bytes(data.subrange(1, 9)),
            spec_u64_from_le_bytes(data.subrange(9, 17)),
        )
    } else {
        withdraw_result(program_id, a)
    }
}

proof fn lemma_bytes_deep_view(v: Vec<u8>)
    ensures
        v.deep_view() == v@,
{
    assert(v.deep_view() =~= v@);
}

fn custody_path(config: &Address) -> (r: Vec<Vec<u8>>)
    ensures
        r.deep_view() == custody_seeds(config@),
{
    let k = config.to_vec();
    let p = luna_owner_prefix();
    proof {
        lemma_bytes_deep_view(k);
        lemma_bytes_deep_view(p);
    }
    let r = vec![k, p];
    assert(r.deep_view() =~= custody_seeds(config@));
    r
}

fn deposit_path(config: &Address, depositor: &Address) -> (r: Vec<Vec<u8>>)
    ensures
        r.deep_view() == deposit_seeds(config@, depositor@),
{
    let k = config.to_vec();
    let d = depositor.to_vec();
    let p = luna_deposit_prefix();
    proof {
        lemma_bytes_deep_view(k);
        lemma_bytes_deep_view(d);
        lemma_bytes_deep_view(p);
    }
    let r = vec![k, d, p];
    assert(r.deep_view() =~= deposit_seeds(config@, depositor@));
    r
}

fn signed_path(path: Vec<Vec<u8>>, bump: u8) -> (r: Vec<Vec<u8>>)
    ensures
        r.deep_view() == with_bump(path.deep_view(), bump),
{
    let mut r = path;
    let b = vec![bump];
    proof {
        lemma_bytes_deep_view(b);
        assert(b@ =~= seq![bump]);
    }
    r.push(b);
    assert(r.deep_view() =~= with_bump(path.deep_view(), bump));
    r
}

fn holds_key(o: &Option<Address>, k: &Address) -> (r: bool)
    ensures
        r == (option_view(*o) == Some(k@)),
{
    match o {
        Some(a) => a.same(k),
        None => false,
    }
}

/// The role checks of accounts 0 to 9 that Deposit and Withdraw share.
fn check_vault_accounts(accounts: &Vec<Account>, program_id: &Address) -> (r: Result<(), ProgramError>)
    requires
        accounts@.len() >= 10,
    ensures
        r matches Err(e) ==> vault_accounts_error(program_id@, accounts@) == Some(e),
        r is Ok ==> vault_accounts_error(program_id@, accounts@) is None,
{
    let token_program = Address::token_program();
    match assert_signer(&accounts[0]) { Err(e) => return Err(e), Ok(()) => {} }
    match assert_owned_by(&accounts[1], program_id) { Err(e) => return Err(e), Ok(()) => {} }
    match assert_owned_by(&accounts[2], &token_program) { Err(e) => return Err(e), Ok(()) => {} }
    match assert_owned_by(&accounts[3], &token_program) { Err(e) => return Err(e), Ok(()) => {} }
    match assert_writable(&accounts[3]) { Err(e) => return Err(e), Ok(()) => {} }
    match assert_owned_by(&accounts[4], &token_program) { Err(e) => return Err(e), Ok(()) => {} }
    match assert_writable(&accounts[4]) { Err(e) => return Err(e), Ok(()) => {} }
    match assert_owned_by(&accounts[5], &token_program) { Err(e) => return Err(e), Ok(()) => {} }
    match assert_writable(&accounts[5]) { Err(e) => return Err(e), Ok(()) => {} }
    match assert_owned_by(&accounts[6], &token_program) { Err(e) => return Err(e), Ok(()) => {} }
    match assert_writable(&accounts[6]) { Err(e) => return Err(e), Ok(()) => {} }
    match assert_writable(&accounts[7]) { Err(e) => return Err(e), Ok(()) => {} }
    match assert_account_key(&accounts[9], &token_program) { Err(e) => return Err(e), Ok(()) => {} }
    Ok(())
}

/// The vault checks that Deposit and Withdraw share; returns the bump seeds of the
/// subaccount and of the custody authority.
fn check_vault_state(accounts: &Vec<Account>, program_id: &Address) -> (r: Result<(u8, u8), ProgramError>)
    requires
        accounts@.len() >= 10,
    ensures
        r matches Err(e) ==> vault_state_error(program_id@, accounts@) == Some(e),
        r is Ok ==> vault_state_error(program_id@, accounts@) is None,
        r matches Ok(b) ==> b.0 == bump_of(deposit_seeds(accounts@[1].key@, accounts@[0].key@), program_id@),
        r matches Ok(b) ==> b.1 == bump_of(custody_seeds(accounts@[1].key@), program_id@),
{
    let payer = &accounts[0];
    let config = &accounts[1];
    let escrow = &accounts[3];
    let receipt_mint = &accounts[5];
    let subaccount = &accounts[7];
    let custody = &accounts[8];
    let escrow_data = match unpack_token_account(&escrow.data) {
        Ok(t) => t,
        Err(e) => return Err(e),
    };
    let mint = match unpack_mint(&receipt_mint.data) {
        Ok(m) => m,
        Err(e) => return Err(e),
    };
    let config_data = match Lunabank::from_account_info(config) {
        Ok(c) => c,
        Err(e) => return Err(e),
    };
    if !config_data.is_initialized() {
        return Err(ProgramError::InvalidAccountData);
    }
    if !config_data.base_token_mint.same(&escrow_data.mint) || !config_data.recipe_token_mint.same(&receipt_mint.key)
        || !config_data.base_token_account.same(&escrow.key) {
        return Err(ProgramError::InvalidAccountData);
    }
    let deposit_bump = match assert_derivation(program_id, subaccount, &deposit_path(&config.key, &payer.key)) {
        Ok(b) => b,
        Err(e) => return Err(e),
    };
    let custody_bump = match assert_derivation(program_id, custody, &custody_path(&config.key)) {
        Ok(b) => b,
        Err(e) => return Err(e),
    };
    if !holds_key(&mint.mint_authority, &custody.key) || !holds_key(&mint.freeze_authority, &custody.key)
        || !escrow_data.owner.same(&custody.key) {
        return Err(ProgramError::IllegalOwner);
    }
    Ok((deposit_bump, custody_bump))
}

/// The vault's instruction processor.
pub struct Processor;

impl Processor {
    /// Decodes the payload and runs the operation it names.
    pub fn process(program_id: &Address, accounts: &Vec<Account>, instruction_data: &Vec<u8>) -> (r: Result<Vec<Effect>, ProgramError>)
        ensures
            outcome(r) == process_result(program_id@, accounts@, instruction_data@),
    {
        let instruction = match LunabankInstruction::unpack(instruction_data) {
            Ok(i) => i,
            Err(e) => return Err(e),
        };
        proof {
            vstd::bytes::lemma_auto_spec_u64_to_from_le_bytes();
        }
        match instruction {
            LunabankInstruction::Init => Self::process_init(accounts, program_id),
            LunabankInstruction::Close => Self::process_close(accounts, program_id),
            LunabankInstruction::DepositInstruction { amount, deposit_time } => {
                assert(instruction_data@.subrange(1, 9) =~= spec_u64_to_le_bytes(amount));
                assert(instruction_data@.subrange(9, 17) =~= spec_u64_to_le_bytes(deposit_time));
                Self::process_deposit(accounts, program_id, amount, deposit_time)
            },
            LunabankInstruction::WithdrawInstruction => Self::process_withdraw(accounts, program_id),
        }
    }

    /// Opens a vault.
    pub fn process_init(accounts: &Vec<Account>, program_id: &Address) -> (r: Result<Vec<Effect>, ProgramError>)
        ensures
            outcome(r) == init_result(program_id@, accounts@),
    {
        if accounts.len() < 7 {
            return Err(ProgramError::NotEnoughAccountKeys);
        }
        let token_program = Address::token_program();
        let initializer = &accounts[0];
        match assert_signer(initializer) { Err(e) => return Err(e), Ok(()) => {} }
        let config = &accounts[1];
        match assert_writable(config) { Err(e) => return Err(e), Ok(()) => {} }
        match assert_owned_by(config, program_id) { Err(e) => return Err(e), Ok(()) => {} }
        let base_mint = &accounts[2];
        match assert_owned_by(base_mint, &token_program) { Err(e) => return Err(e), Ok(()) => {} }
        let escrow = &accounts[3];
        match assert_owned_by(escrow, &token_program) { Err(e) => return Err(e), Ok(()) => {} }
        let receipt_mint = &accounts[4];
        match assert_writable(receipt_mint) { Err(e) => return Err(e), Ok(()) => {} }
        match assert_owned_by(receipt_mint, &token_program) { Err(e) => return Err(e), Ok(()) => {} }
        let rent_sysvar = &accounts[5];
        match assert_account_key(rent_sysvar, &Address::rent_sysvar()) { Err(e) => return Err(e), Ok(()) => {} }
        let token_program_info = &accounts[6];
        match assert_account_key(token_program_info, &token_program) { Err(e) => return Err(e), Ok(()) => {} }

        if !rent_query_fits(&rent_sysvar.data, config.data.len()) {
            return Err(ProgramError::InvalidArgument);
        }
        let min = match minimum_balance(&rent_sysvar.data, config.data.len()) {
            Some(m) => m,
            None => return Err(ProgramError::InvalidArgument),
        };
        // A balance is rent-exempt when it reaches the minimum balance.
        if config.lamports < min {
            return Err(ProgramError::from(LunabankError::NotRentExempt));
        }
        let mut config_data = match Lunabank::from_account_info(config) {
            Ok(c) => c,
            Err(e) => return Err(e),
        };
        if config_data.is_initialized() {
            return Err(ProgramError::AccountAlreadyInitialized);
        }
        let mint = match unpack_mint(&receipt_mint.data) {
            Ok(m) => m,
            Err(e) => return Err(e),
        };
        if !holds_key(&mint.mint_authority, &initializer.key) || !holds_key(&mint.freeze_authority, &initializer.key) {
            return Err(ProgramError::from(LunabankError::IncorrectOwner));
        }
        let custody = match derive_address(program_id, &custody_path(&config.key)) {
            Ok(p) => p.0,
            Err(e) => return Err(e),
        };

        config_data.key = Key::LunabankV1;
        config_data.owner = initializer.key;
        config_data.base_token_mint = base_mint.key;
        config_data.recipe_token_mint = receipt_mint.key;
        config_data.base_token_account = escrow.key;
        let data = config_data.pack();
        proof {
            vstd::bytes::lemma_auto_spec_u64_to_from_le_bytes();
            assert(data@ =~= initialized_config(accounts@));
        }
        let effects = vec![
            Effect::Store { index: 1, data },
            Effect::Invoke {
                call: LedgerCall::SetAuthority {
                    target: receipt_mint.key,
                    new_authority: custody,
                    kind: AuthorityType::MintTokens,
                    authority: initializer.key,
                },
                credential: Credential::Signer,
            },
            Effect::Invoke {
                call: LedgerCall::SetAuthority {
                    target: receipt_mint.key,
                    new_authority: custody,
                    kind: AuthorityType::FreezeAccount,
                    authority: initializer.key,
                },
                credential: Credential::Signer,
            },
            Effect::Invoke {
                call: LedgerCall::SetAuthority {
                    target: escrow.key,
                    new_authority: custody,
                    kind: AuthorityType::AccountOwner,
                    authority: initializer.key,
                },
                credential: Credential::Signer,
            },
        ];
        assert(crate::effect::effects_view(effects@) =~= init_effects(accounts@, custody@));
        Ok(effects)
    }
    /// Closes a vault and hands its authorities back to its owner.
    pub fn process_close(accounts: &Vec<Account>, program_id: &Address) -> (r: Result<Vec<Effect>, ProgramError>)
        ensures
            outcome(r) == close_result(program_id@, accounts@),
    {
        if accounts.len() < 6 {
            return Err(ProgramError::NotEnoughAccountKeys);
        }
        let token_program = Address::token_program();
        let initializer = &accounts[0];
        match assert_signer(initializer) { Err(e) => return Err(e), Ok(()) => {} }
        let config = &accounts[1];
        match assert_writable(config) { Err(e) => return Err(e), Ok(()) => {} }
        match assert_owned_by(config, program_id) { Err(e) => return Err(e), Ok(()) => {} }
        let escrow = &accounts[2];
        match assert_owned_by(escrow, &token_program) { Err(e) => return Err(e), Ok(()) => {} }
        match assert_writable(escrow) { Err(e) => return Err(e), Ok(()) => {} }
        let receipt_mint = &accounts[3];
        match assert_writable(receipt_mint) { Err(e) => return Err(e), Ok(()) => {} }
        match assert_owned_by(receipt_mint, &token_program) { Err(e) => return Err(e), Ok(()) => {} }
        let token_program_info = &accounts[4];
        match assert_account_key(token_program_info, &token_program) { Err(e) => return Err(e), Ok(()) => {} }
        let custody = &accounts[5];

        let escrow_data = match unpack_token_account(&escrow.data) {
            Ok(t) => t,
            Err(e) => return Err(e),
        };
        let path = custody_path(&config.key);
        let bump = match assert_derivation(program_id, custody, &path) {
            Ok(b) => b,
            Err(e) => return Err(e),
        };
        let mint = match unpack_mint(&receipt_mint.data) {
            Ok(m) => m,
            Err(e) => return Err(e),
        };
        if !holds_key(&mint.mint_authority, &custody.key) || !holds_key(&mint.freeze_authority, &custody.key)
            || !escrow_data.owner.same(&custody.key) {
            return Err(ProgramError::IllegalOwner);
        }
        let config_data = match Lunabank::from_account_info(config) {
            Ok(c) => c,
            Err(e) => return Err(e),
        };
        if !config_data.is_initialized() {
            return Err(ProgramError::InvalidAccountData);
        }
        if !config_data.owner.same(&initializer.key) {
            return Err(ProgramError::IllegalOwner);
        }
        if !config_data.base_token_mint.same(&escrow_data.mint) || !config_data.recipe_token_mint.same(&receipt_mint.key)
            || !config_data.base_token_account.same(&escrow.key) {
            return Err(ProgramError::InvalidAccountData);
        }
        let balance = match initializer.lamports.checked_add(config.lamports) {
            Some(b) => b,
            None => return Err(ProgramError::from(LunabankError::AmountOverflow)),
        };
        let seeds = signed_path(path, bump);
        let effects = vec![
            Effect::Invoke {
                call: LedgerCall::SetAuthority {
                    target: receipt_mint.key,
                    new_authority: initializer.key,
                    kind: AuthorityType::MintTokens,
                    authority: custody.key,
                },
                credential: Credential::Derived { seeds: seeds.clone() },
            },
            Effect::Invoke {
                call: LedgerCall::SetAuthority {
                    target: receipt_mint.key,
                    new_authority: initializer.key,
                    kind: AuthorityType::FreezeAccount,
                    authority: custody.key,
                },
                credential: Credential::Derived { seeds: seeds.clone() },
            },
            Effect::Invoke {
                call: LedgerCall::SetAuthority {
                    target: escrow.key,
                    new_authority: initializer.key,
                    kind: AuthorityType::AccountOwner,
                    authority: custody.key,
                },
                credential: Credential::Derived { seeds },
            },
            Effect::Reclaim { from: 1, to: 0, balance },
        ];
        assert(crate::effect::effects_view(effects@) =~= close_effects(
            accounts@,
            with_bump(custody_seeds(config.key@), bump_of(custody_seeds(config.key@), program_id@)),
        ));
        Ok(effects)
    }
    /// Locks `amount` of the base asset for `deposit_time` seconds against as many receipts.
    pub fn process_deposit(accounts: &Vec<Account>, program_id: &Address, amount: u64, deposit_time: u64) -> (r: Result<Vec<Effect>, ProgramError>)
        ensures
            outcome(r) == deposit_result(program_id@, accounts@, amount, deposit_time),
    {
        if accounts.len() < 13 {
            return Err(ProgramError::NotEnoughAccountKeys);
        }
        match check_vault_accounts(accounts, program_id) { Err(e) => return Err(e), Ok(()) => {} }
        match assert_account_key(&accounts[10], &Address::rent_sysvar()) { Err(e) => return Err(e), Ok(()) => {} }
        match assert_account_key(&accounts[11], &Address::system_program()) { Err(e) => return Err(e), Ok(()) => {} }
        match assert_account_key(&accounts[12], &Address::clock_sysvar()) { Err(e) => return Err(e), Ok(()) => {} }
        let (deposit_bump, custody_bump) = match check_vault_state(accounts, program_id) {
            Ok(b) => b,
            Err(e) => return Err(e),
        };
        let payer = &accounts[0];
        let config = &accounts[1];
        let subaccount = &accounts[7];
        if !rent_query_fits(&accounts[10].data, LUNA_DEPOSIT_LEN) {
            return Err(ProgramError::InvalidArgument);
        }
        let balance = match minimum_balance(&accounts[10].data, LUNA_DEPOSIT_LEN) {
            Some(b) => b,
            None => return Err(ProgramError::InvalidArgument),
        };
        let is_absent = subaccount.lamports == 0 && subaccount.data.len() == 0;
        if !is_absent {
            if !subaccount.owner.same(program_id) {
                return Err(ProgramError::from(LunabankError::IncorrectOwner));
            }
            let existing = match LunaDeposit::from_account_info(subaccount) {
                Ok(d) => d,
                Err(e) => return Err(e),
            };
            if existing.is_initialized() {
                return Err(ProgramError::AccountAlreadyInitialized);
            }
        }
        let now = match unix_time(&accounts[12].data) {
            Some(t) => t,
            None => return Err(ProgramError::InvalidArgument),
        };
        let end = match now.checked_add(deposit_time) {
            Some(t) => t,
            None => return Err(ProgramError::from(LunabankError::TimeOverflow)),
        };
        let record = LunaDeposit {
            key: Key::LunaDepositV1,
            owner: payer.key,
            amount,
            start_timestamp: now,
            end_timestamp: end,
        };
        let data = record.pack();
        assert(data@ =~= deposit_record(payer.key@, amount, now, deposit_time));
        let custody = accounts[8].key;
        let custody_seeds_signed = signed_path(custody_path(&config.key), custody_bump);
        let mut effects: Vec<Effect> = Vec::new();
        if is_absent {
            effects.push(Effect::Invoke {
                call: LedgerCall::CreateAccount {
                    payer: payer.key,
                    address: subaccount.key,
                    lamports: balance,
                    space: LUNA_DEPOSIT_LEN as u64,
                    owner: *program_id,
                },
                credential: Credential::Derived { seeds: signed_path(deposit_path(&config.key, &payer.key), deposit_bump) },
            });
        }
        let ghost created = effects@;
        effects.push(Effect::Store { index: 7, data });
        effects.push(Effect::Invoke {
            call: LedgerCall::Transfer { source: accounts[4].key, destination: accounts[3].key, authority: payer.key, amount },
            credential: Credential::Signer,
        });
        effects.push(Effect::Invoke {
            call: LedgerCall::MintTo { mint: accounts[5].key, destination: accounts[6].key, authority: custody, amount },
            credential: Credential::Derived { seeds: custody_seeds_signed.clone() },
        });
        effects.push(Effect::Invoke {
            call: LedgerCall::FreezeAccount { account: accounts[6].key, mint: accounts[5].key, authority: custody },
            credential: Credential::Derived { seeds: custody_seeds_signed },
        });
        assert(crate::effect::effects_view(effects@) =~= deposit_effects(program_id@, accounts@, amount, now, deposit_time));
        Ok(effects)
    }

    /// Redeems a matured deposit in full and destroys its record.
    pub fn process_withdraw(accounts: &Vec<Account>, program_id: &Address) -> (r: Result<Vec<Effect>, ProgramError>)
        ensures
            outcome(r) == withdraw_result(program_id@, accounts@),
    {
        if accounts.len() < 12 {
            return Err(ProgramError::NotEnoughAccountKeys);
        }
        match check_vault_accounts(accounts, program_id) { Err(e) => return Err(e), Ok(()) => {} }
        match assert_account_key(&accounts[10], &Address::system_program()) { Err(e) => return Err(e), Ok(()) => {} }
        match assert_account_key(&accounts[11], &Address::clock_sysvar()) { Err(e) => return Err(e), Ok(()) => {} }
        let (_deposit_bump, custody_bump) = match check_vault_state(accounts, program_id) {
            Ok(b) => b,
            Err(e) => return Err(e),
        };
        let payer = &accounts[0];
        let config = &accounts[1];
        let subaccount = &accounts[7];
        let record = match LunaDeposit::from_account_info(subaccount) {
            Ok(d) => d,
            Err(e) => return Err(e),
        };
        if !record.is_initialized() {
            return Err(ProgramError::InvalidAccountData);
        }
        if !subaccount.owner.same(program_id) || !record.owner.same(&payer.key) {
            return Err(ProgramError::from(LunabankError::IncorrectOwner));
        }
        let now = match unix_time(&accounts[11].data) {
            Some(t) => t,
            None => return Err(ProgramError::InvalidArgument),
        };
        if now < record.end_timestamp {
            return Err(ProgramError::from(LunabankError::WaitPeriodBreach));
        }
        let balance = match payer.lamports.checked_add(subaccount.lamports) {
            Some(b) => b,
            None => return Err(ProgramError::from(LunabankError::AmountOverflow)),
        };
        let amount = record.amount;
        let custody = accounts[8].key;
        let seeds = signed_path(custody_path(&config.key), custody_bump);
        let effects = vec![
            Effect::Reclaim { from: 7, to: 0, balance },
            Effect::Invoke {
                call: LedgerCall::Transfer { source: accounts[3].key, destination: accounts[4].key, authority: custody, amount },
                credential: Credential::Derived { seeds: seeds.clone() },
            },
            Effect::Invoke {
                call: LedgerCall::ThawAccount { account: accounts[6].key, mint: accounts[5].key, authority: custody },
                credential: Credential::Derived { seeds },
            },
            Effect::Invoke {
                call: LedgerCall::Burn { account: accounts[6].key, mint: accounts[5].key, authority: payer.key, amount },
                credential: Credential::Signer,
            },
            Effect::Invoke {
                call: LedgerCall::CloseAccount { account: accounts[6].key, destination: payer.key, authority: payer.key },
                credential: Credential::Signer,
            },
        ];
        assert(crate::effect::effects_view(effects@) =~= withdraw_effects(program_id@, accounts@));
        Ok(effects)
    }
}

} // verus!
