use vstd::prelude::*;
use vstd::bytes::spec_u64_to_le_bytes;
use crate::account::{program_address, Account};
use crate::effect::{
    authority_after, data_after, lamports_after, owner_after, supply_flow, transfer_flow, AuthorityType, EffectView,
};
use crate::error::{custom, LunabankError, ProgramError};
use crate::processor::{
    absent, close_accounts_error, close_result, config_base_mint, config_escrow, config_owner,
    config_receipt_mint, custody_seeds, deposit_accounts_error, deposit_record, deposit_result,
    init_accounts_error, init_result, initialized_config, record_amount, record_end, record_owner,
    vault_state_error, withdraw_accounts_error, withdraw_result,
};
use crate::token::{
    freeze_authority_of, mint_authority_of, mint_decode_error, token_account_decode_error, token_mint_of,
    token_owner_of,
};
use crate::state::{header_ok, Key, LUNABANK_LEN, LUNA_DEPOSIT_LEN};
use crate::sysvar::{clock_unix_time, rent_minimum_balance, rent_query_in_range};

verus! {

/// The invocation failed with `e`, and so carries no effect.
pub open spec fn fails_with(r: Result<Seq<EffectView>, ProgramError>, e: ProgramError) -> bool {
    r == Err::<Seq<EffectView>, ProgramError>(e)
}

/// The effects of a successful invocation.
pub open spec fn effects_of(r: Result<Seq<EffectView>, ProgramError>) -> Seq<EffectView> {
    r->Ok_0
}

/// The custody authority of the vault whose config lives at `config`.
pub open spec fn custody_of(program_id: Seq<u8>, config: Seq<u8>) -> Seq<u8> {
    program_address(custody_seeds(config), program_id)->Some_0.0
}

/// After a successful Init the config is an initialized vault record naming the caller,
/// the base mint, the receipt mint and the escrow, and the custody authority derived from
/// the config holds the receipt mint's mint and freeze authorities and owns the escrow.
pub proof fn law_init_establishes_custody(program_id: Seq<u8>, a: Seq<Account>)
    requires
        init_result(program_id, a) is Ok,
    ensures
        ({
            let effects = init_result(program_id, a)->Ok_0;
            let config = data_after(effects, 1, a[1].data@);
            let custody = custody_of(program_id, a[1].key@);
            &&& header_ok(config, Key::LunabankV1, LUNABANK_LEN as nat)
            &&& config[0] == Key::LunabankV1.spec_tag()
            &&& config_owner(config) == a[0].key@
            &&& config_base_mint(config) == a[2].key@
            &&& config_receipt_mint(config) == a[4].key@
            &&& config_escrow(config) == a[3].key@
            &&& authority_after(effects, a[4].key@, AuthorityType::MintTokens, Some(a[0].key@)) == Some(custody)
            &&& authority_after(effects, a[4].key@, AuthorityType::FreezeAccount, Some(a[0].key@)) == Some(custody)
            &&& authority_after(effects, a[3].key@, AuthorityType::AccountOwner, Some(a[0].key@)) == Some(custody)
        }),
{
    let effects = init_result(program_id, a)->Ok_0;
    reveal_with_fuel(authority_after, 5);
    reveal_with_fuel(data_after, 5);
    let config = initialized_config(a);
    assert(config.subrange(1, 33) =~= a[0].key@);
    assert(config.subrange(33, 65) =~= a[2].key@);
    assert(config.subrange(65, 97) =~= a[4].key@);
    assert(config.subrange(97, 129) =~= a[3].key@);
}

/// A Deposit whose lock would end past the largest time fails `TimeOverflow`, and an
/// invocation that fails carries no effect.
pub proof fn law_deposit_time_overflow(program_id: Seq<u8>, a: Seq<Account>, amount: u64, lock: u64)
    requires
        deposit_accounts_error(program_id, a) is None,
        vault_state_error(program_id, a) is None,
        rent_query_in_range(a[10].data@, LUNA_DEPOSIT_LEN as nat),
        rent_minimum_balance(a[10].data@, LUNA_DEPOSIT_LEN as nat) is Some,
        absent(a[7]) || (a[7].owner@ == program_id && header_ok(a[7].data@, Key::LunaDepositV1, LUNA_DEPOSIT_LEN as nat)
            && a[7].data@[0] == 0),
        clock_unix_time(a[12].data@) matches Some(now) && now + lock > u64::MAX,
    ensures
        fails_with(deposit_result(program_id, a, amount, lock), custom(LunabankError::TimeOverflow)),
{
}

/// Init on a config that a successful Init already wrote fails `AccountAlreadyInitialized`.
pub proof fn law_init_twice_fails(program_id: Seq<u8>, a: Seq<Account>, b: Seq<Account>)
    requires
        init_result(program_id, a) is Ok,
        init_accounts_error(program_id, b) is None,
        b[1].key@ == a[1].key@,
        b[1].data@ == data_after(effects_of(init_result(program_id, a)), 1, a[1].data@),
        b[1].lamports >= a[1].lamports,
        b[5].data@ == a[5].data@,
    ensures
        fails_with(init_result(program_id, b), ProgramError::AccountAlreadyInitialized),
{
    reveal_with_fuel(data_after, 5);
    assert(b[1].data@.len() == a[1].data@.len());
}

/// The buffer of a deposit record is a valid, initialized record with the owner, amount
/// and end time that it was written with.
pub proof fn lemma_deposit_record(owner: Seq<u8>, amount: u64, now: u64, lock: u64)
    requires
        owner.len() == 32,
        now + lock <= u64::MAX,
    ensures
        header_ok(deposit_record(owner, amount, now, lock), Key::LunaDepositV1, LUNA_DEPOSIT_LEN as nat),
        deposit_record(owner, amount, now, lock)[0] == Key::LunaDepositV1.spec_tag(),
        record_owner(deposit_record(owner, amount, now, lock)) == owner,
        record_amount(deposit_record(owner, amount, now, lock)) == amount,
        record_end(deposit_record(owner, amount, now, lock)) == now + lock,
{
    let r = deposit_record(owner, amount, now, lock);
    vstd::bytes::lemma_auto_spec_u64_to_from_le_bytes();
    assert(r.subrange(1, 33) =~= owner);
    assert(r.subrange(33, 41) =~= spec_u64_to_le_bytes(amount));
    assert(r.subrange(49, 57) =~= spec_u64_to_le_bytes((now + lock) as u64));
}

/// What a successful Deposit leaves in the depositor's subaccount.
pub proof fn lemma_deposit_stores_record(program_id: Seq<u8>, a: Seq<Account>, amount: u64, lock: u64)
    requires
        deposit_result(program_id, a, amount, lock) is Ok,
    ensures
        ({
            let now = clock_unix_time(a[12].data@)->Some_0;
            &&& now + lock <= u64::MAX
            &&& data_after(effects_of(deposit_result(program_id, a, amount, lock)), 7, a[7].data@)
                == deposit_record(a[0].key@, amount, now, lock)
            &&& owner_after(effects_of(deposit_result(program_id, a, amount, lock)), a[7].key@, a[7].owner@)
                == program_id
        }),
{
    reveal_with_fuel(data_after, 6);
    reveal_with_fuel(owner_after, 6);
    let effects = effects_of(deposit_result(program_id, a, amount, lock));
    if absent(a[7]) {
        assert(effects.drop_last().drop_last().drop_last() =~= effects.subrange(0, 2));
        assert(effects.subrange(0, 2).drop_last() =~= effects.subrange(0, 1));
    } else {
        assert(effects.drop_last().drop_last().drop_last() =~= effects.subrange(0, 1));
    }
}

/// Deposit into a subaccount that holds the record of an earlier successful Deposit of
/// the same depositor in the same vault fails `AccountAlreadyInitialized`, whatever the
/// amount and duration.
pub proof fn law_deposit_twice_fails(
    program_id: Seq<u8>,
    a: Seq<Account>,
    amount: u64,
    lock: u64,
    b: Seq<Account>,
    amount2: u64,
    lock2: u64,
)
    requires
        deposit_result(program_id, a, amount, lock) is Ok,
        deposit_accounts_error(program_id, b) is None,
        b[0].key@ == a[0].key@,
        b[1].key@ == a[1].key@,
        b[1].data@ == a[1].data@,
        b[3].key@ == a[3].key@,
        token_account_decode_error(b[3].data@) is None,
        token_mint_of(b[3].data@) == token_mint_of(a[3].data@),
        token_owner_of(b[3].data@) == token_owner_of(a[3].data@),
        b[5].key@ == a[5].key@,
        mint_decode_error(b[5].data@) is None,
        mint_authority_of(b[5].data@) == mint_authority_of(a[5].data@),
        freeze_authority_of(b[5].data@) == freeze_authority_of(a[5].data@),
        b[7].key@ == a[7].key@,
        b[7].owner@ == owner_after(effects_of(deposit_result(program_id, a, amount, lock)), a[7].key@, a[7].owner@),
        b[7].data@ == data_after(effects_of(deposit_result(program_id, a, amount, lock)), 7, a[7].data@),
        b[8].key@ == a[8].key@,
        b[10].data@ == a[10].data@,
    ensures
        fails_with(deposit_result(program_id, b, amount2, lock2), ProgramError::AccountAlreadyInitialized),
{
    lemma_deposit_stores_record(program_id, a, amount, lock);
    let now = clock_unix_time(a[12].data@)->Some_0;
    lemma_deposit_record(a[0].key@, amount, now, lock);
    assert(vault_state_error(program_id, b) is None);
}

/// A Withdraw of a deposit made with duration `lock` at time `start` fails
/// `WaitPeriodBreach` before `start + lock` and succeeds from then on, for a Withdraw that
/// the depositor makes with valid accounts and whose balances fit.
pub proof fn law_time_lock(program_id: Seq<u8>, d: Seq<Account>, amount: u64, lock: u64, w: Seq<Account>)
    requires
        deposit_result(program_id, d, amount, lock) is Ok,
        withdraw_accounts_error(program_id, w) is None,
        vault_state_error(program_id, w) is None,
        w[0].key@ == d[0].key@,
        w[7].key@ == d[7].key@,
        w[7].owner@ == owner_after(effects_of(deposit_result(program_id, d, amount, lock)), d[7].key@, d[7].owner@),
        w[7].data@ == data_after(effects_of(deposit_result(program_id, d, amount, lock)), 7, d[7].data@),
        w[0].lamports + w[7].lamports <= u64::MAX,
        clock_unix_time(w[11].data@) is Some,
    ensures
        ({
            let start = clock_unix_time(d[12].data@)->Some_0;
            let now = clock_unix_time(w[11].data@)->Some_0;
            &&& now < start + lock ==> fails_with(
                withdraw_result(program_id, w),
                custom(LunabankError::WaitPeriodBreach),
            )
            &&& now >= start + lock ==> withdraw_result(program_id, w) is Ok
        }),
{
    lemma_deposit_stores_record(program_id, d, amount, lock);
    let start = clock_unix_time(d[12].data@)->Some_0;
    lemma_deposit_record(d[0].key@, amount, start, lock);
}

/// Over a successful Deposit and the successful Withdraw of the record it stored, the
/// depositor's base account and the escrow see no net transfer, and the receipt supply
/// minted by the one is burned by the other.
pub proof fn law_deposit_withdraw_conserves(program_id: Seq<u8>, d: Seq<Account>, amount: u64, lock: u64, w: Seq<Account>)
    requires
        deposit_result(program_id, d, amount, lock) is Ok,
        withdraw_result(program_id, w) is Ok,
        w[0].key@ == d[0].key@,
        w[3].key@ == d[3].key@,
        w[4].key@ == d[4].key@,
        w[5].key@ == d[5].key@,
        w[7].data@ == data_after(effects_of(deposit_result(program_id, d, amount, lock)), 7, d[7].data@),
    ensures
        ({
            let dep = effects_of(deposit_result(program_id, d, amount, lock));
            let wd = effects_of(withdraw_result(program_id, w));
            &&& transfer_flow(dep, d[4].key@) + transfer_flow(wd, d[4].key@) == 0
            &&& transfer_flow(dep, d[3].key@) + transfer_flow(wd, d[3].key@) == 0
            &&& supply_flow(dep, d[5].key@) + supply_flow(wd, d[5].key@) == 0
        }),
{
    lemma_deposit_stores_record(program_id, d, amount, lock);
    let start = clock_unix_time(d[12].data@)->Some_0;
    lemma_deposit_record(d[0].key@, amount, start, lock);
    reveal_with_fuel(transfer_flow, 6);
    reveal_with_fuel(supply_flow, 6);
    let dep = effects_of(deposit_result(program_id, d, amount, lock));
    if absent(d[7]) {
        assert(dep.drop_last().drop_last().drop_last() =~= dep.subrange(0, 2));
        assert(dep.subrange(0, 2).drop_last() =~= dep.subrange(0, 1));
        assert(dep.subrange(0, 1).drop_last() =~= dep.subrange(0, 0));
    } else {
        assert(dep.drop_last().drop_last().drop_last() =~= dep.subrange(0, 1));
        assert(dep.subrange(0, 1).drop_last() =~= dep.subrange(0, 0));
    }
}

/// Close on the vault that a successful Init opened, once the asset ledger has applied
/// Init's calls, succeeds with valid accounts; it hands the receipt mint's mint and freeze
/// authorities and the escrow's ownership back to the initializer, and leaves the config
/// with no balance and no data. This holds where the escrow is an account of the base
/// mint and the two balances fit.
pub proof fn law_close_inverts_init(program_id: Seq<u8>, a: Seq<Account>, c: Seq<Account>)
    requires
        init_result(program_id, a) is Ok,
        close_accounts_error(program_id, c) is None,
        c[0].key@ == a[0].key@,
        c[1].key@ == a[1].key@,
        c[1].data@ == data_after(effects_of(init_result(program_id, a)), 1, a[1].data@),
        c[2].key@ == a[3].key@,
        c[3].key@ == a[4].key@,
        c[5].key@ == custody_of(program_id, a[1].key@),
        token_account_decode_error(c[2].data@) is None,
        token_mint_of(c[2].data@) == a[2].key@,
        token_owner_of(c[2].data@) == authority_after(
            effects_of(init_result(program_id, a)),
            a[3].key@,
            AuthorityType::AccountOwner,
            Some(a[0].key@),
        )->Some_0,
        mint_decode_error(c[3].data@) is None,
        mint_authority_of(c[3].data@) == authority_after(
            effects_of(init_result(program_id, a)),
            a[4].key@,
            AuthorityType::MintTokens,
            Some(a[0].key@),
        ),
        freeze_authority_of(c[3].data@) == authority_after(
            effects_of(init_result(program_id, a)),
            a[4].key@,
            AuthorityType::FreezeAccount,
            Some(a[0].key@),
        ),
        c[0].lamports + c[1].lamports <= u64::MAX,
    ensures
        close_result(program_id, c) is Ok,
        ({
            let effects = effects_of(close_result(program_id, c));
            let custody = custody_of(program_id, a[1].key@);
            &&& authority_after(effects, a[4].key@, AuthorityType::MintTokens, Some(custody)) == Some(a[0].key@)
            &&& authority_after(effects, a[4].key@, AuthorityType::FreezeAccount, Some(custody)) == Some(a[0].key@)
            &&& authority_after(effects, a[3].key@, AuthorityType::AccountOwner, Some(custody)) == Some(a[0].key@)
            &&& lamports_after(effects, 1, c[1].lamports as int) == 0
            &&& data_after(effects, 1, c[1].data@) == Seq::<u8>::empty()
            &&& lamports_after(effects, 0, c[0].lamports as int) == c[0].lamports + c[1].lamports
        }),
{
    law_init_establishes_custody(program_id, a);
    reveal_with_fuel(authority_after, 5);
    reveal_with_fuel(lamports_after, 5);
    reveal_with_fuel(data_after, 5);
}

} // verus!
