use lunabank::account::Account;
use lunabank::address::Address;
use lunabank::effect::Effect;
use lunabank::error::ProgramError;
use lunabank::river::error::RiverError;
use lunabank::river::instruction::RiverInstruction;
use lunabank::river::processor::Processor;
use lunabank::river::state::{River, RIVER_LEN};
use solana_program::account_info::AccountInfo;
use solana_program::sysvar::rent::Rent;
use solana_program::sysvar::Sysvar;

const PROGRAM: [u8; 32] = [7; 32];
const ALICE: [u8; 32] = [1; 32];
const BOB: [u8; 32] = [2; 32];
const CONFIG: [u8; 32] = [3; 32];

fn rent_data() -> Vec<u8> {
    let key = solana_program::sysvar::rent::id();
    let owner = solana_program::sysvar::id();
    let mut data = vec![0u8; Rent::size_of()];
    let mut lamports = 0u64;
    {
        let mut info = AccountInfo::new(&key, false, false, &mut lamports, &mut data, &owner, false, 0);
        Rent::default().to_account_info(&mut info).unwrap();
    }
    data
}

fn acct(key: [u8; 32], owner: [u8; 32], is_signer: bool, lamports: u64, data: Vec<u8>) -> Account {
    Account { key: Address::new(key), owner: Address::new(owner), is_signer, is_writable: true, lamports, data }
}

fn record(owner: [u8; 32], last: [u8; 32], accumulator: u64, user_changes: u64) -> Vec<u8> {
    River {
        is_initialized: true,
        owner: Address::new(owner),
        last_user: Address::new(last),
        accumulator,
        user_changes,
    }
    .pack()
}

fn stored(effects: Vec<Effect>) -> River {
    match &effects[..] {
        [Effect::Store { index: 1, data }] => River::unpack_unchecked(data).unwrap(),
        other => panic!("unexpected effects {:?}", other),
    }
}

fn accum_payload(amount: u64) -> Vec<u8> {
    let mut v = vec![1u8];
    v.extend_from_slice(&amount.to_le_bytes());
    v
}

#[test]
fn river_unpack() {
    assert_eq!(RiverInstruction::unpack(&[0u8]), Ok(RiverInstruction::Init));
    assert_eq!(RiverInstruction::unpack(&[2u8, 9]), Ok(RiverInstruction::Close));
    assert_eq!(RiverInstruction::unpack(&accum_payload(500)), Ok(RiverInstruction::AccumInstruction { amount: 500 }));
    let invalid = ProgramError::from(RiverError::InvalidInstruction);
    assert_eq!(RiverInstruction::unpack(&[]), Err(invalid));
    assert_eq!(RiverInstruction::unpack(&[1u8, 1, 2]), Err(invalid));
    assert_eq!(RiverInstruction::unpack(&[3u8]), Err(invalid));
    assert_eq!(RiverInstruction::unpack_amount(&[5, 0, 0, 0, 0, 0, 0, 0, 99]), Ok(5));
    assert_eq!(ProgramError::from(RiverError::AmountOverflow), ProgramError::Custom(2));
}

#[test]
fn river_state_round_trip() {
    let bytes = record(ALICE, BOB, 17, 3);
    assert_eq!(bytes.len(), RIVER_LEN);
    let r = River::unpack_unchecked(&bytes).unwrap();
    assert!(r.is_initialized);
    assert_eq!(r.owner.bytes, ALICE);
    assert_eq!(r.last_user.bytes, BOB);
    assert_eq!((r.accumulator, r.user_changes), (17, 3));
    let mut bad = bytes.clone();
    bad[0] = 2;
    assert_eq!(River::unpack_unchecked(&bad).unwrap_err(), ProgramError::InvalidAccountData);
    assert_eq!(River::unpack_unchecked(&vec![0u8; 80]).unwrap_err(), ProgramError::InvalidAccountData);
    let mut dst = vec![9u8; 90];
    r.pack_into_slice(&mut dst);
    assert_eq!(&dst[..81], &bytes[..]);
    assert_eq!(dst[81..], [9u8; 9]);
    assert_eq!(River::unpack_from_slice(&dst).unwrap().accumulator, 17);
}

#[test]
fn river_init_then_accumulate_then_close() {
    let program = Address::new(PROGRAM);
    let min = Rent::default().minimum_balance(RIVER_LEN);
    let rent = acct(solana_program::sysvar::rent::id().to_bytes(), [0; 32], false, 1, rent_data());
    let init = vec![acct(ALICE, [0; 32], true, 100, vec![]), acct(CONFIG, PROGRAM, false, min, vec![0u8; RIVER_LEN]), rent.clone()];
    let r = stored(Processor::process(&program, &init, &vec![0u8]).unwrap());
    assert!(r.is_initialized);
    assert_eq!(r.owner.bytes, ALICE);
    assert_eq!((r.accumulator, r.user_changes), (0, 0));

    let mut steep = init.clone();
    {
        let key = solana_program::sysvar::rent::id();
        let owner = solana_program::sysvar::id();
        let mut data = vec![0u8; Rent::size_of()];
        let mut lamports = 0u64;
        {
            let mut info = AccountInfo::new(&key, false, false, &mut lamports, &mut data, &owner, false, 0);
            Rent { lamports_per_byte_year: u64::MAX, ..Rent::default() }.to_account_info(&mut info).unwrap();
        }
        steep[2].data = data;
    }
    assert_eq!(Processor::process(&program, &steep, &vec![0u8]).unwrap_err(), ProgramError::InvalidArgument);

    let mut short = init.clone();
    short[1].lamports = min - 1;
    assert_eq!(Processor::process(&program, &short, &vec![0u8]).unwrap_err(), ProgramError::from(RiverError::NotRentExempt));

    let config = acct(CONFIG, PROGRAM, false, min, record(ALICE, ALICE, 0, 0));
    let mut again = init.clone();
    again[1] = config.clone();
    assert_eq!(Processor::process(&program, &again, &vec![0u8]).unwrap_err(), ProgramError::AccountAlreadyInitialized);

    let same = stored(Processor::process(&program, &vec![acct(ALICE, [0; 32], true, 100, vec![]), config.clone()], &accum_payload(5)).unwrap());
    assert_eq!((same.accumulator, same.user_changes), (5, 0));
    let other = stored(Processor::process_accum(&vec![acct(BOB, [0; 32], true, 100, vec![]), config.clone()], 7, &program).unwrap());
    assert_eq!((other.accumulator, other.user_changes), (7, 1));
    assert_eq!(other.last_user.bytes, BOB);

    let full = acct(CONFIG, PROGRAM, false, min, record(ALICE, ALICE, u64::MAX, 0));
    assert_eq!(
        Processor::process_accum(&vec![acct(ALICE, [0; 32], true, 100, vec![]), full], 1, &program).unwrap_err(),
        ProgramError::from(RiverError::AmountOverflow)
    );

    let closed = Processor::process_close(&vec![acct(ALICE, [0; 32], true, 100, vec![]), config.clone()], &program).unwrap();
    match &closed[..] {
        [Effect::Reclaim { from: 1, to: 0, balance }] => assert_eq!(*balance, 100 + min),
        other => panic!("unexpected effects {:?}", other),
    }
    assert_eq!(
        Processor::process_close(&vec![acct(BOB, [0; 32], true, 100, vec![]), config.clone()], &program).unwrap_err(),
        ProgramError::InvalidAccountData
    );
    let mut unsigned = vec![acct(ALICE, [0; 32], false, 100, vec![]), config];
    assert_eq!(Processor::process_close(&unsigned, &program).unwrap_err(), ProgramError::MissingRequiredSignature);
    unsigned[0].is_signer = true;
    unsigned[1].owner = Address::new([9; 32]);
    assert_eq!(Processor::process_close(&unsigned, &program).unwrap_err(), ProgramError::IncorrectProgramId);
}
