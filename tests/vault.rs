use lunabank::account::{assert_derivation, derive_address, Account};
use lunabank::address::Address;
use lunabank::effect::{AuthorityType, Credential, Effect, LedgerCall};
use lunabank::error::{LunabankError, ProgramError};
use lunabank::instruction::LunabankInstruction;
use lunabank::processor::Processor;
use lunabank::state::{Key, LunaDeposit, Lunabank, LUNABANK_LEN, LUNA_DEPOSIT_LEN};
use solana_program::account_info::AccountInfo;
use solana_program::program_option::COption;
use solana_program::program_pack::Pack;
use solana_program::pubkey::Pubkey;
use solana_program::sysvar::clock::Clock;
use solana_program::sysvar::rent::Rent;
use solana_program::sysvar::Sysvar;

const PROGRAM: [u8; 32] = [7; 32];
const OWNER: [u8; 32] = [1; 32];
const CONFIG: [u8; 32] = [2; 32];
const BASE_MINT: [u8; 32] = [3; 32];
const ESCROW: [u8; 32] = [4; 32];
const RECEIPT_MINT: [u8; 32] = [5; 32];
const DEPOSITOR: [u8; 32] = [6; 32];
const DEPOSITOR_BASE: [u8; 32] = [8; 32];
const DEPOSITOR_RECEIPT: [u8; 32] = [9; 32];
const START: i64 = 1_700_000_000;

fn pk(b: [u8; 32]) -> Pubkey {
    Pubkey::new_from_array(b)
}

fn addr(p: Pubkey) -> Address {
    Address::new(p.to_bytes())
}

fn token_id() -> Pubkey {
    spl_token::id()
}

fn custody() -> (Pubkey, u8) {
    Pubkey::find_program_address(&[&CONFIG, b"lunaowner"], &pk(PROGRAM))
}

fn subaccount(depositor: [u8; 32]) -> (Pubkey, u8) {
    Pubkey::find_program_address(&[&CONFIG, &depositor, b"deposit"], &pk(PROGRAM))
}

fn account(key: Pubkey, owner: Pubkey, is_signer: bool, is_writable: bool, lamports: u64, data: Vec<u8>) -> Account {
    Account { key: addr(key), owner: addr(owner), is_signer, is_writable, lamports, data }
}

fn mint_data(authority: Pubkey, supply: u64) -> Vec<u8> {
    let mint = spl_token::state::Mint {
        mint_authority: COption::Some(authority),
        supply,
        decimals: 6,
        is_initialized: true,
        freeze_authority: COption::Some(authority),
    };
    let mut data = vec![0u8; spl_token::state::Mint::LEN];
    spl_token::state::Mint::pack(mint, &mut data).unwrap();
    data
}

fn token_account_data(mint: Pubkey, owner: Pubkey, amount: u64) -> Vec<u8> {
    let account = spl_token::state::Account {
        mint,
        owner,
        amount,
        state: spl_token::state::AccountState::Initialized,
        ..Default::default()
    };
    let mut data = vec![0u8; spl_token::state::Account::LEN];
    spl_token::state::Account::pack(account, &mut data).unwrap();
    data
}

fn sysvar_data<S: Sysvar>(value: &S, key: Pubkey) -> Vec<u8> {
    let mut data = vec![0u8; S::size_of()];
    let mut lamports = 0u64;
    let owner = solana_program::sysvar::id();
    {
        let mut info = AccountInfo::new(&key, false, false, &mut lamports, &mut data, &owner, false, 0);
        value.to_account_info(&mut info).unwrap();
    }
    data
}

fn rent_account() -> Account {
    let key = solana_program::sysvar::rent::id();
    account(key, solana_program::sysvar::id(), false, false, 1, sysvar_data(&Rent::default(), key))
}

fn clock_account(now: i64) -> Account {
    let key = solana_program::sysvar::clock::id();
    let clock = Clock { unix_timestamp: now, ..Clock::default() };
    account(key, solana_program::sysvar::id(), false, false, 1, sysvar_data(&clock, key))
}

fn config_rent() -> u64 {
    Rent::default().minimum_balance(LUNABANK_LEN)
}

fn deposit_rent() -> u64 {
    Rent::default().minimum_balance(LUNA_DEPOSIT_LEN)
}

fn init_accounts() -> Vec<Account> {
    vec![
        account(pk(OWNER), Pubkey::default(), true, true, 10_000_000, vec![]),
        account(pk(CONFIG), pk(PROGRAM), false, true, config_rent(), vec![0u8; LUNABANK_LEN]),
        account(pk(BASE_MINT), token_id(), false, false, 1, mint_data(pk(OWNER), 0)),
        account(pk(ESCROW), token_id(), false, true, 1, token_account_data(pk(BASE_MINT), pk(OWNER), 0)),
        account(pk(RECEIPT_MINT), token_id(), false, true, 1, mint_data(pk(OWNER), 0)),
        rent_account(),
        account(token_id(), Pubkey::default(), false, false, 1, vec![]),
    ]
}

fn stored(effects: &[Effect], index: usize) -> Vec<u8> {
    for e in effects {
        if let Effect::Store { index: i, data } = e {
            if *i == index {
                return data.clone();
            }
        }
    }
    panic!("no data stored for account {}", index)
}

/// The config as a successful Init leaves it.
fn opened_config() -> Vec<u8> {
    let effects = Processor::process_init(&init_accounts(), &Address::new(PROGRAM)).unwrap();
    stored(&effects, 1)
}

fn close_accounts() -> Vec<Account> {
    let (custody_key, _) = custody();
    vec![
        account(pk(OWNER), Pubkey::default(), true, true, 10_000_000, vec![]),
        account(pk(CONFIG), pk(PROGRAM), false, true, config_rent(), opened_config()),
        account(pk(ESCROW), token_id(), false, true, 1, token_account_data(pk(BASE_MINT), custody_key, 0)),
        account(pk(RECEIPT_MINT), token_id(), false, true, 1, mint_data(custody_key, 0)),
        account(token_id(), Pubkey::default(), false, false, 1, vec![]),
        account(custody_key, Pubkey::default(), false, false, 0, vec![]),
    ]
}

/// Accounts 0 to 9, shared by Deposit and Withdraw, for a vault opened by `OWNER`.
fn vault_accounts(escrow_balance: u64, sub: Account) -> Vec<Account> {
    let (custody_key, _) = custody();
    vec![
        account(pk(DEPOSITOR), Pubkey::default(), true, true, 50_000_000, vec![]),
        account(pk(CONFIG), pk(PROGRAM), false, false, config_rent(), opened_config()),
        account(pk(BASE_MINT), token_id(), false, false, 1, mint_data(pk(OWNER), 1_000_000)),
        account(pk(ESCROW), token_id(), false, true, 1, token_account_data(pk(BASE_MINT), custody_key, escrow_balance)),
        account(pk(DEPOSITOR_BASE), token_id(), false, true, 1, token_account_data(pk(BASE_MINT), pk(DEPOSITOR), 5_000)),
        account(pk(RECEIPT_MINT), token_id(), false, true, 1, mint_data(custody_key, 0)),
        account(pk(DEPOSITOR_RECEIPT), token_id(), false, true, 1, token_account_data(pk(RECEIPT_MINT), pk(DEPOSITOR), 0)),
        sub,
        account(custody_key, Pubkey::default(), false, false, 0, vec![]),
        account(token_id(), Pubkey::default(), false, false, 1, vec![]),
    ]
}

fn empty_subaccount() -> Account {
    account(subaccount(DEPOSITOR).0, Pubkey::default(), false, true, 0, vec![])
}

fn deposit_accounts(now: i64) -> Vec<Account> {
    let mut a = vault_accounts(0, empty_subaccount());
    a.push(rent_account());
    a.push(account(Pubkey::default(), Pubkey::default(), false, false, 1, vec![]));
    a.push(clock_account(now));
    a
}

fn record_account(record: Vec<u8>) -> Account {
    account(subaccount(DEPOSITOR).0, pk(PROGRAM), false, true, deposit_rent(), record)
}

fn withdraw_accounts(record: Vec<u8>, now: i64) -> Vec<Account> {
    let mut a = vault_accounts(1_000, record_account(record));
    a.push(account(Pubkey::default(), Pubkey::default(), false, false, 1, vec![]));
    a.push(clock_account(now));
    a
}

fn deposit_payload(amount: u64, lock: u64) -> Vec<u8> {
    LunabankInstruction::DepositInstruction { amount, deposit_time: lock }.pack()
}

fn custom(e: LunabankError) -> ProgramError {
    ProgramError::from(e)
}

fn signed_by_custody(c: &Credential) -> bool {
    let (_, bump) = custody();
    match c {
        Credential::Derived { seeds } => {
            *seeds == vec![CONFIG.to_vec(), b"lunaowner".to_vec(), vec![bump]]
        },
        Credential::Signer => false,
    }
}

#[test]
fn init_hands_authorities_to_custody() {
    let effects = Processor::process(&Address::new(PROGRAM), &init_accounts(), &vec![0u8]).unwrap();
    assert_eq!(effects.len(), 4);
    let config = Lunabank::unpack_from_slice(&stored(&effects, 1)).unwrap();
    assert_eq!(config.key, Key::LunabankV1);
    assert_eq!(config.owner.bytes, OWNER);
    assert_eq!(config.base_token_mint.bytes, BASE_MINT);
    assert_eq!(config.recipe_token_mint.bytes, RECEIPT_MINT);
    assert_eq!(config.base_token_account.bytes, ESCROW);
    let custody_key = custody().0.to_bytes();
    let expected = [
        (RECEIPT_MINT, AuthorityType::MintTokens),
        (RECEIPT_MINT, AuthorityType::FreezeAccount),
        (ESCROW, AuthorityType::AccountOwner),
    ];
    for (effect, (target_key, kind_expected)) in effects[1..].iter().zip(expected.iter()) {
        match effect {
            Effect::Invoke { call: LedgerCall::SetAuthority { target, new_authority, kind, authority }, credential } => {
                assert_eq!(target.bytes, *target_key);
                assert_eq!(new_authority.bytes, custody_key);
                assert_eq!(kind, kind_expected);
                assert_eq!(authority.bytes, OWNER);
                assert!(matches!(credential, Credential::Signer));
            },
            other => panic!("unexpected effect {:?}", other),
        }
    }
}

#[test]
fn init_twice_fails_already_initialized() {
    let mut a = init_accounts();
    a[1].data = opened_config();
    let (custody_key, _) = custody();
    a[3].data = token_account_data(pk(BASE_MINT), custody_key, 0);
    a[4].data = mint_data(custody_key, 0);
    let r = Processor::process_init(&a, &Address::new(PROGRAM));
    assert_eq!(r.unwrap_err(), ProgramError::AccountAlreadyInitialized);
}

#[test]
fn init_rejects_foreign_receipt_mint() {
    let mut a = init_accounts();
    a[4].data = mint_data(pk([42; 32]), 0);
    let r = Processor::process_init(&a, &Address::new(PROGRAM));
    assert_eq!(r.unwrap_err(), custom(LunabankError::IncorrectOwner));
}

#[test]
fn init_rejects_config_below_rent_exemption() {
    let mut a = init_accounts();
    a[1].lamports = config_rent() - 1;
    let r = Processor::process_init(&a, &Address::new(PROGRAM));
    assert_eq!(r.unwrap_err(), custom(LunabankError::NotRentExempt));
}

#[test]
fn init_role_checks() {
    let program = Address::new(PROGRAM);
    let mut a = init_accounts();
    a[0].is_signer = false;
    assert_eq!(Processor::process_init(&a, &program).unwrap_err(), ProgramError::MissingRequiredSignature);
    let mut a = init_accounts();
    a[1].is_writable = false;
    assert_eq!(Processor::process_init(&a, &program).unwrap_err(), ProgramError::NotWritable);
    let mut a = init_accounts();
    a[1].owner = Address::new([9; 32]);
    assert_eq!(Processor::process_init(&a, &program).unwrap_err(), custom(LunabankError::IncorrectOwner));
    let mut a = init_accounts();
    a[6].key = Address::new([9; 32]);
    assert_eq!(Processor::process_init(&a, &program).unwrap_err(), ProgramError::InvalidAccountData);
    let mut a = init_accounts();
    a.pop();
    assert_eq!(Processor::process_init(&a, &program).unwrap_err(), ProgramError::NotEnoughAccountKeys);
    let mut a = init_accounts();
    a[1].data = vec![0u8; 10];
    assert_eq!(Processor::process_init(&a, &program).unwrap_err(), ProgramError::InvalidAccountData);
}

#[test]
fn close_returns_authorities_and_reclaims_config() {
    let a = close_accounts();
    let effects = Processor::process(&Address::new(PROGRAM), &a, &vec![1u8]).unwrap();
    assert_eq!(effects.len(), 4);
    let kinds = [AuthorityType::MintTokens, AuthorityType::FreezeAccount, AuthorityType::AccountOwner];
    let targets = [RECEIPT_MINT, RECEIPT_MINT, ESCROW];
    for i in 0..3 {
        match &effects[i] {
            Effect::Invoke { call: LedgerCall::SetAuthority { target, new_authority, kind, authority }, credential } => {
                assert_eq!(target.bytes, targets[i]);
                assert_eq!(new_authority.bytes, OWNER);
                assert_eq!(*kind, kinds[i]);
                assert_eq!(authority.bytes, custody().0.to_bytes());
                assert!(signed_by_custody(credential));
            },
            other => panic!("unexpected effect {:?}", other),
        }
    }
    match &effects[3] {
        Effect::Reclaim { from, to, balance } => {
            assert_eq!((*from, *to), (1, 0));
            assert_eq!(*balance, 10_000_000 + config_rent());
        },
        other => panic!("unexpected effect {:?}", other),
    }
}

#[test]
fn close_by_stranger_fails() {
    let mut a = close_accounts();
    a[0].key = Address::new([44; 32]);
    let r = Processor::process_close(&a, &Address::new(PROGRAM));
    assert_eq!(r.unwrap_err(), ProgramError::IllegalOwner);
}

#[test]
fn close_with_wrong_custody_candidate_fails() {
    let mut a = close_accounts();
    a[5].key = Address::new([45; 32]);
    let r = Processor::process_close(&a, &Address::new(PROGRAM));
    assert_eq!(r.unwrap_err(), custom(LunabankError::DerivedKeyInvalid));
}

#[test]
fn close_balance_overflow_fails() {
    let mut a = close_accounts();
    a[0].lamports = u64::MAX;
    let r = Processor::process_close(&a, &Address::new(PROGRAM));
    assert_eq!(r.unwrap_err(), custom(LunabankError::AmountOverflow));
}

#[test]
fn deposit_twice_fails_already_initialized() {
    let now = START;
    let effects = Processor::process_deposit(&deposit_accounts(now), &Address::new(PROGRAM), 1000, 3600).unwrap();
    let record = stored(&effects, 7);
    let mut a = deposit_accounts(now + 10);
    a[7] = record_account(record);
    let r = Processor::process_deposit(&a, &Address::new(PROGRAM), 5, 5);
    assert_eq!(r.unwrap_err(), ProgramError::AccountAlreadyInitialized);
}

#[test]
fn deposit_time_overflow_fails() {
    let r = Processor::process_deposit(&deposit_accounts(START), &Address::new(PROGRAM), 1000, u64::MAX - 10);
    assert_eq!(r.unwrap_err(), custom(LunabankError::TimeOverflow));
}

#[test]
fn deposit_at_the_largest_time_that_fits() {
    let lock = u64::MAX - START as u64;
    let effects = Processor::process_deposit(&deposit_accounts(START), &Address::new(PROGRAM), 1, lock).unwrap();
    let record = LunaDeposit::unpack_from_slice(&stored(&effects, 7)).unwrap();
    assert_eq!(record.end_timestamp, u64::MAX);
}

#[test]
fn deposit_with_wrong_subaccount_fails() {
    let mut a = deposit_accounts(START);
    a[7].key = Address::new([46; 32]);
    let r = Processor::process_deposit(&a, &Address::new(PROGRAM), 1, 1);
    assert_eq!(r.unwrap_err(), custom(LunabankError::DerivedKeyInvalid));
}

#[test]
fn deposit_into_unopened_vault_fails() {
    let mut a = deposit_accounts(START);
    a[1].data = vec![0u8; LUNABANK_LEN];
    let r = Processor::process_deposit(&a, &Address::new(PROGRAM), 1, 1);
    assert_eq!(r.unwrap_err(), ProgramError::InvalidAccountData);
}

#[test]
fn withdraw_by_other_depositor_record_fails() {
    let effects = Processor::process_deposit(&deposit_accounts(START), &Address::new(PROGRAM), 1000, 3600).unwrap();
    let mut record = LunaDeposit::unpack_from_slice(&stored(&effects, 7)).unwrap();
    record.owner = Address::new([47; 32]);
    let a = withdraw_accounts(record.pack(), START + 4000);
    let r = Processor::process_withdraw(&a, &Address::new(PROGRAM));
    assert_eq!(r.unwrap_err(), custom(LunabankError::IncorrectOwner));
}

#[test]
fn withdraw_from_absent_subaccount_fails() {
    let mut a = withdraw_accounts(vec![], START + 4000);
    a[7] = empty_subaccount();
    let r = Processor::process_withdraw(&a, &Address::new(PROGRAM));
    assert_eq!(r.unwrap_err(), ProgramError::InvalidAccountData);
}

#[test]
fn withdraw_without_record_fails() {
    let a = withdraw_accounts(vec![0u8; LUNA_DEPOSIT_LEN], START + 4000);
    let r = Processor::process_withdraw(&a, &Address::new(PROGRAM));
    assert_eq!(r.unwrap_err(), ProgramError::InvalidAccountData);
}

#[test]
fn end_to_end_vault_scenario() {
    let program = Address::new(PROGRAM);
    let amount = 1000u64;
    let lock = 3600u64;

    // Deposit at START.
    let effects = Processor::process(&program, &deposit_accounts(START), &deposit_payload(amount, lock)).unwrap();
    assert_eq!(effects.len(), 5);
    match &effects[0] {
        Effect::Invoke { call: LedgerCall::CreateAccount { payer, address, lamports, space, owner }, credential } => {
            assert_eq!(payer.bytes, DEPOSITOR);
            assert_eq!(address.bytes, subaccount(DEPOSITOR).0.to_bytes());
            assert_eq!(*lamports, deposit_rent());
            assert_eq!(*space, LUNA_DEPOSIT_LEN as u64);
            assert_eq!(owner.bytes, PROGRAM);
            match credential {
                Credential::Derived { seeds } => assert_eq!(
                    *seeds,
                    vec![CONFIG.to_vec(), DEPOSITOR.to_vec(), b"deposit".to_vec(), vec![subaccount(DEPOSITOR).1]]
                ),
                Credential::Signer => panic!("the subaccount is created under its derivation"),
            }
        },
        other => panic!("unexpected effect {:?}", other),
    }
    let record_bytes = stored(&effects, 7);
    let record = LunaDeposit::unpack_from_slice(&record_bytes).unwrap();
    assert_eq!(record.key, Key::LunaDepositV1);
    assert_eq!(record.owner.bytes, DEPOSITOR);
    assert_eq!(record.amount, 1000);
    assert_eq!(record.start_timestamp, START as u64);
    assert_eq!(record.end_timestamp, START as u64 + 3600);
    match &effects[2] {
        Effect::Invoke { call: LedgerCall::Transfer { source, destination, authority, amount }, credential } => {
            assert_eq!(source.bytes, DEPOSITOR_BASE);
            assert_eq!(destination.bytes, ESCROW);
            assert_eq!(authority.bytes, DEPOSITOR);
            assert_eq!(*amount, 1000);
            assert!(matches!(credential, Credential::Signer));
        },
        other => panic!("unexpected effect {:?}", other),
    }
    match &effects[3] {
        Effect::Invoke { call: LedgerCall::MintTo { mint, destination, amount, .. }, credential } => {
            assert_eq!(mint.bytes, RECEIPT_MINT);
            assert_eq!(destination.bytes, DEPOSITOR_RECEIPT);
            assert_eq!(*amount, 1000);
            assert!(signed_by_custody(credential));
        },
        other => panic!("unexpected effect {:?}", other),
    }
    match &effects[4] {
        Effect::Invoke { call: LedgerCall::FreezeAccount { account, mint, .. }, credential } => {
            assert_eq!(account.bytes, DEPOSITOR_RECEIPT);
            assert_eq!(mint.bytes, RECEIPT_MINT);
            assert!(signed_by_custody(credential));
        },
        other => panic!("unexpected effect {:?}", other),
    }

    // Withdraw one second early.
    let early = withdraw_accounts(record_bytes.clone(), START + 3599);
    let r = Processor::process(&program, &early, &vec![3u8]);
    assert_eq!(r.unwrap_err(), custom(LunabankError::WaitPeriodBreach));

    // Withdraw at maturity.
    let ready = withdraw_accounts(record_bytes, START + 3600);
    let effects = Processor::process(&program, &ready, &vec![3u8]).unwrap();
    assert_eq!(effects.len(), 5);
    match &effects[0] {
        Effect::Reclaim { from, to, balance } => {
            assert_eq!((*from, *to), (7, 0));
            assert_eq!(*balance, 50_000_000 + deposit_rent());
        },
        other => panic!("unexpected effect {:?}", other),
    }
    match &effects[1] {
        Effect::Invoke { call: LedgerCall::Transfer { source, destination, amount, .. }, credential } => {
            assert_eq!(source.bytes, ESCROW);
            assert_eq!(destination.bytes, DEPOSITOR_BASE);
            assert_eq!(*amount, 1000);
            assert!(signed_by_custody(credential));
        },
        other => panic!("unexpected effect {:?}", other),
    }
    assert!(matches!(&effects[2], Effect::Invoke { call: LedgerCall::ThawAccount { .. }, .. }));
    match &effects[3] {
        Effect::Invoke { call: LedgerCall::Burn { account, mint, authority, amount }, credential } => {
            assert_eq!(account.bytes, DEPOSITOR_RECEIPT);
            assert_eq!(mint.bytes, RECEIPT_MINT);
            assert_eq!(authority.bytes, DEPOSITOR);
            assert_eq!(*amount, 1000);
            assert!(matches!(credential, Credential::Signer));
        },
        other => panic!("unexpected effect {:?}", other),
    }
    match &effects[4] {
        Effect::Invoke { call: LedgerCall::CloseAccount { account, destination, .. }, .. } => {
            assert_eq!(account.bytes, DEPOSITOR_RECEIPT);
            assert_eq!(destination.bytes, DEPOSITOR);
        },
        other => panic!("unexpected effect {:?}", other),
    }
}

#[test]
fn unknown_instruction_fails() {
    let r = Processor::process(&Address::new(PROGRAM), &init_accounts(), &vec![9u8]);
    assert_eq!(r.unwrap_err(), custom(LunabankError::InvalidInstruction));
    let r = Processor::process(&Address::new(PROGRAM), &init_accounts(), &vec![]);
    assert_eq!(r.unwrap_err(), custom(LunabankError::InvalidInstruction));
}

#[test]
fn derivation_matches_the_ledger_runtime() {
    let program = Address::new(PROGRAM);
    let seeds = vec![CONFIG.to_vec(), b"lunaowner".to_vec()];
    let (key, bump) = derive_address(&program, &seeds).unwrap();
    assert_eq!((key.bytes, bump), (custody().0.to_bytes(), custody().1));
    let good = account(custody().0, Pubkey::default(), false, false, 0, vec![]);
    assert_eq!(assert_derivation(&program, &good, &seeds), Ok(custody().1));
    let bad = account(pk(CONFIG), Pubkey::default(), false, false, 0, vec![]);
    assert_eq!(assert_derivation(&program, &bad, &seeds), Err(custom(LunabankError::DerivedKeyInvalid)));
}

#[test]
fn record_from_account() {
    let a = record_account(LunaDeposit {
        key: Key::LunaDepositV1,
        owner: Address::new(DEPOSITOR),
        amount: 3,
        start_timestamp: 4,
        end_timestamp: 5,
    }
    .pack());
    assert_eq!(LunaDeposit::from_account_info(&a).unwrap().end_timestamp, 5);
    assert_eq!(Lunabank::from_account_info(&a).unwrap_err(), ProgramError::InvalidAccountData);
    let c = account(pk(CONFIG), pk(PROGRAM), false, true, 1, opened_config());
    assert_eq!(Lunabank::from_account_info(&c).unwrap().owner.bytes, OWNER);
}

#[test]
fn undecodable_sysvars_fail() {
    let program = Address::new(PROGRAM);
    let mut a = init_accounts();
    a[5].data = vec![1, 2];
    assert_eq!(Processor::process_init(&a, &program).unwrap_err(), ProgramError::InvalidArgument);
    let mut a = deposit_accounts(START);
    a[12].data = vec![];
    assert_eq!(Processor::process_deposit(&a, &program, 1, 1).unwrap_err(), ProgramError::InvalidArgument);
}

#[test]
fn rent_rate_out_of_range_fails() {
    let program = Address::new(PROGRAM);
    let key = solana_program::sysvar::rent::id();
    let steep = Rent { lamports_per_byte_year: u64::MAX, ..Rent::default() };
    let data = sysvar_data(&steep, key);
    let mut a = init_accounts();
    a[5].data = data.clone();
    assert_eq!(Processor::process_init(&a, &program).unwrap_err(), ProgramError::InvalidArgument);
    let mut a = deposit_accounts(START);
    a[10].data = data;
    assert_eq!(Processor::process_deposit(&a, &program, 1, 1).unwrap_err(), ProgramError::InvalidArgument);
    // The largest rate whose product with the charged size still fits is accepted.
    let fitting = Rent { lamports_per_byte_year: u64::MAX / (128 + LUNA_DEPOSIT_LEN as u64), exemption_threshold: 0.0, ..Rent::default() };
    let mut a = deposit_accounts(START);
    a[10].data = sysvar_data(&fitting, key);
    assert!(Processor::process_deposit(&a, &program, 1, 1).is_ok());
}

#[test]
fn clock_timestamp_is_read_from_its_fixed_offset() {
    let mut data = vec![0u8; 40];
    data[32..40].copy_from_slice(&1234u64.to_le_bytes());
    data.extend_from_slice(&[7u8; 3]);
    let mut a = deposit_accounts(START);
    a[12].data = data;
    let effects = Processor::process_deposit(&a, &Address::new(PROGRAM), 5, 6).unwrap();
    let record = LunaDeposit::unpack_from_slice(&stored(&effects, 7)).unwrap();
    assert_eq!((record.start_timestamp, record.end_timestamp), (1234, 1240));
    let mut a = deposit_accounts(START);
    a[12].data = vec![0u8; 39];
    assert_eq!(Processor::process_deposit(&a, &Address::new(PROGRAM), 5, 6).unwrap_err(), ProgramError::InvalidArgument);
}

#[test]
fn undecodable_token_state_fails() {
    let program = Address::new(PROGRAM);
    let mut a = init_accounts();
    a[4].data = vec![0u8; 82];
    assert_eq!(Processor::process_init(&a, &program).unwrap_err(), ProgramError::UninitializedAccount);
    a[4].data = vec![0u8; 81];
    assert_eq!(Processor::process_init(&a, &program).unwrap_err(), ProgramError::InvalidAccountData);
    let mut a = deposit_accounts(START);
    a[3].data = vec![0u8; 165];
    assert_eq!(Processor::process_deposit(&a, &program, 1, 1).unwrap_err(), ProgramError::UninitializedAccount);
    let mut bad = token_account_data(pk(BASE_MINT), custody().0, 0);
    bad[108] = 3;
    a[3].data = bad;
    assert_eq!(Processor::process_deposit(&a, &program, 1, 1).unwrap_err(), ProgramError::InvalidAccountData);
    let mut a = deposit_accounts(START);
    a[3].data = token_account_data(pk([48; 32]), custody().0, 0);
    assert_eq!(Processor::process_deposit(&a, &program, 1, 1).unwrap_err(), ProgramError::InvalidAccountData);
    let mut a = deposit_accounts(START);
    a[5].data = mint_data(pk(OWNER), 0);
    assert_eq!(Processor::process_deposit(&a, &program, 1, 1).unwrap_err(), ProgramError::IllegalOwner);
}
