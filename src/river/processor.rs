use vstd::prelude::*;
use vstd::bytes::{spec_u64_from_le_bytes, spec_u64_to_le_bytes};
use crate::account::{assert_signer, Account};
use crate::address::{rent_sysvar_key, Address};
use crate::effect::{outcome, Effect, EffectView};
use crate::error::ProgramError;
use crate::river::error::{river_error, RiverError};
use crate::river::instruction::RiverInstruction;
use crate::river::state::{River, RIVER_LEN};
use crate::sysvar::{minimum_balance, rent_minimum_balance, rent_query_fits, rent_query_in_range};

verus! {

/// The caller signs and the config belongs to the program.
pub open spec fn river_accounts_error(program_id: Seq<u8>, a: Seq<Account>, needed: nat) -> Option<ProgramError> {
    if a.len() < needed {
        Some(ProgramError::NotEnoughAccountKeys)
    } else if !a[0].is_signer {
        Some(ProgramError::MissingRequiredSignature)
    } else if a[1].owner@ != program_id {
        Some(ProgramError::IncorrectProgramId)
    } else {
        None
    }
}

/// The config's buffer is a record: exactly its length, with a valid flag.
pub open spec fn river_record_ok(d: Seq<u8>) -> bool {
    d.len() == RIVER_LEN && (d[0] == 0 || d[0] == 1)
}

/// A fresh record: initialized, owned by and last used by `owner`, with both counts zero.
pub open spec fn fresh_river(owner: Seq<u8>) -> Seq<u8> {
    seq![1u8] + owner + owner + spec_u64_to_le_bytes(0) + spec_u64_to_le_bytes(0)
}

/// Init: the roles; the rent query is in range, the rent sysvar decodes and the config
/// is rent-exempt; the config is a record that is not initialized. Then it becomes a
/// fresh record of the caller.
pub open spec fn river_init_result(program_id: Seq<u8>, a: Seq<Account>) -> Result<Seq<EffectView>, ProgramError> {
    if let Some(e) = river_accounts_error(program_id, a, 3) {
        Err(e)
    } else if a[2].key@ != rent_sysvar_key() || !rent_query_in_range(a[2].data@, a[1].data@.len())
        || rent_minimum_balance(a[2].data@, a[1].data@.len()) is None {
        Err(ProgramError::InvalidArgument)
    } else if a[1].lamports < rent_minimum_balance(a[2].data@, a[1].data@.len())->Some_0 {
        Err(river_error(RiverError::NotRentExempt))
    } else if !river_record_ok(a[1].data@) {
        Err(ProgramError::InvalidAccountData)
    } else if a[1].data@[0] == 1 {
        Err(ProgramError::AccountAlreadyInitialized)
    } else {
        Ok(seq![EffectView::Store { index: 1, data: fresh_river(a[0].key@) }])
    }
}

/// Close: the roles; the config is an initialized record owned by the caller; the
/// balances fit. Then the config's balance goes to the caller and its data is emptied.
pub open spec fn river_close_result(program_id: Seq<u8>, a: Seq<Account>) -> Result<Seq<EffectView>, ProgramError> {
    if let Some(e) = river_accounts_error(program_id, a, 2) {
        Err(e)
    } else if !river_record_ok(a[1].data@) {
        Err(ProgramError::InvalidAccountData)
    } else if a[1].data@[0] == 0 {
        Err(ProgramError::AccountAlreadyInitialized)
    } else if a[1].data@.subrange(1, 33) != a[0].key@ {
        Err(ProgramError::InvalidAccountData)
    } else if a[0].lamports + a[1].lamports > u64::MAX {
        Err(river_error(RiverError::AmountOverflow))
    } else {
        Ok(seq![EffectView::Reclaim { from: 1, to: 0, balance: (a[0].lamports + a[1].lamports) as u64 }])
    }
}

pub open spec fn river_accumulator(d: Seq<u8>) -> u64 {
    spec_u64_from_le_bytes(d.subrange(65, 73))
}

pub open spec fn river_changes(d: Seq<u8>) -> u64 {
    spec_u64_from_le_bytes(d.subrange(73, 81))
}

/// Accumulate: the roles; the config is an initialized record. The amount is added to the
/// accumulator; the change count grows by one when the caller is not the last caller; the
/// caller becomes the last caller. Either sum overflowing fails `AmountOverflow`.
pub open spec fn river_accum_result(program_id: Seq<u8>, a: Seq<Account>, amount: u64) -> Result<Seq<EffectView>, ProgramError> {
    if let Some(e) = river_accounts_error(program_id, a, 2) {
        Err(e)
    } else if !river_record_ok(a[1].data@) {
        Err(ProgramError::InvalidAccountData)
    } else if a[1].data@[0] == 0 {
        Err(ProgramError::AccountAlreadyInitialized)
    } else {
        let d = a[1].data@;
        let changed = d.subrange(33, 65) != a[0].key@;
        let changes = if changed { river_changes(d) + 1 } else { river_changes(d) as int };
        if river_accumulator(d) + amount > u64::MAX || changes > u64::MAX {
            Err(river_error(RiverError::AmountOverflow))
        } else {
            Ok(seq![EffectView::Store {
                index: 1,
                data: d.subrange(0, 33) + a[0].key@ + spec_u64_to_le_bytes((river_accumulator(d) + amount) as u64)
                    + spec_u64_to_le_bytes(changes as u64),
            }])
        }
    }
}

/// An invocation: the payload decodes to one of the three operations, which runs on the accounts.
pub open spec fn river_process_result(program_id: Seq<u8>, a: Seq<Account>, data: Seq<u8>) -> Result<Seq<EffectView>, ProgramError> {
    match RiverInstruction::decoded(data) {
        None => Err(river_error(RiverError::InvalidInstruction)),
        Some(RiverInstruction::Init) => river_init_result(program_id, a),
        Some(RiverInstruction::AccumInstruction { amount }) => river_accum_result(program_id, a, amount),
        Some(RiverInstruction::Close) => river_close_result(program_id, a),
    }
}

fn check_river_accounts(accounts: &Vec<Account>, program_id: &Address, needed: usize) -> (r: Result<(), ProgramError>)
    requires
        needed >= 2,
    ensures
        r matches Err(e) ==> river_accounts_error(program_id@, accounts@, needed as nat) == Some(e),
        r is Ok ==> river_accounts_error(program_id@, accounts@, needed as nat) is None,
{
    if accounts.len() < needed {
        return Err(ProgramError::NotEnoughAccountKeys);
    }
    match assert_signer(&accounts[0]) { Err(e) => return Err(e), Ok(()) => {} }
    if !accounts[1].owner.same(program_id) {
        return Err(ProgramError::IncorrectProgramId);
    }
    Ok(())
}

/// The accumulator's instruction processor.
pub struct Processor;

impl Processor {
    /// Decodes the payload and runs the operation it names.
    pub fn process(program_id: &Address, accounts: &Vec<Account>, instruction_data: &Vec<u8>) -> (r: Result<Vec<Effect>, ProgramError>)
        ensures
            outcome(r) == river_process_result(program_id@, accounts@, instruction_data@),
    {
        match RiverInstruction::unpack(instruction_data.as_slice()) {
            Err(e) => Err(e),
            Ok(RiverInstruction::AccumInstruction { amount }) => Self::process_accum(accounts, amount, program_id),
            Ok(RiverInstruction::Init) => Self::process_init(accounts, program_id),
            Ok(RiverInstruction::Close) => Self::process_close(accounts, program_id),
        }
    }

    pub fn process_init(accounts: &Vec<Account>, program_id: &Address) -> (r: Result<Vec<Effect>, ProgramError>)
        ensures
            outcome(r) == river_init_result(program_id@, accounts@),
    {
        match check_river_accounts(accounts, program_id, 3) { Err(e) => return Err(e), Ok(()) => {} }
        let initializer = &accounts[0];
        let config = &accounts[1];
        if !accounts[2].key.same(&Address::rent_sysvar()) {
            return Err(ProgramError::InvalidArgument);
        }
        if !rent_query_fits(&accounts[2].data, config.data.len()) {
            return Err(ProgramError::InvalidArgument);
        }
        let min = match minimum_balance(&accounts[2].data, config.data.len()) {
            Some(m) => m,
            None => return Err(ProgramError::InvalidArgument),
        };
        // A balance is rent-exempt when it reaches the minimum balance.
        if config.lamports < min {
            return Err(ProgramError::from(RiverError::NotRentExempt));
        }
        let mut record = match River::unpack_unchecked(&config.data) {
            Ok(v) => v,
            Err(e) => return Err(e),
        };
        if record.is_initialized {
            return Err(ProgramError::AccountAlreadyInitialized);
        }
        record.owner = initializer.key;
        record.is_initialized = true;
        record.accumulator = 0;
        record.user_changes = 0;
        record.last_user = initializer.key;
        let data = record.pack();
        assert(data@ =~= fresh_river(initializer.key@));
        let effects = vec![Effect::Store { index: 1, data }];
        assert(crate::effect::effects_view(effects@) =~= seq![EffectView::Store { index: 1, data: fresh_river(initializer.key@) }]);
        Ok(effects)
    }

    pub fn process_close(accounts: &Vec<Account>, program_id: &Address) -> (r: Result<Vec<Effect>, ProgramError>)
        ensures
            outcome(r) == river_close_result(program_id@, accounts@),
    {
        match check_river_accounts(accounts, program_id, 2) { Err(e) => return Err(e), Ok(()) => {} }
        let initializer = &accounts[0];
        let config = &accounts[1];
        let record = match River::unpack_unchecked(&config.data) {
            Ok(v) => v,
            Err(e) => return Err(e),
        };
        if !record.is_initialized {
            return Err(ProgramError::AccountAlreadyInitialized);
        }
        if !record.owner.same(&initializer.key) {
            return Err(ProgramError::InvalidAccountData);
        }
        let balance = match initializer.lamports.checked_add(config.lamports) {
            Some(b) => b,
            None => return Err(ProgramError::from(RiverError::AmountOverflow)),
        };
        let effects = vec![Effect::Reclaim { from: 1, to: 0, balance }];
        assert(crate::effect::effects_view(effects@) =~= seq![EffectView::Reclaim { from: 1, to: 0, balance }]);
        Ok(effects)
    }

    pub fn process_accum(accounts: &Vec<Account>, amount: u64, program_id: &Address) -> (r: Result<Vec<Effect>, ProgramError>)
        ensures
            outcome(r) == river_accum_result(program_id@, accounts@, amount),
    {
        match check_river_accounts(accounts, program_id, 2) { Err(e) => return Err(e), Ok(()) => {} }
        let initializer = &accounts[0];
        let config = &accounts[1];
        let mut record = match River::unpack_unchecked(&config.data) {
            Ok(v) => v,
            Err(e) => return Err(e),
        };
        if !record.is_initialized {
            return Err(ProgramError::AccountAlreadyInitialized);
        }
        record.accumulator = match record.accumulator.checked_add(amount) {
            Some(s) => s,
            None => return Err(ProgramError::from(RiverError::AmountOverflow)),
        };
        if !record.last_user.same(&initializer.key) {
            record.user_changes = match record.user_changes.checked_add(1) {
                Some(s) => s,
                None => return Err(ProgramError::from(RiverError::AmountOverflow)),
            };
        }
        record.last_user = initializer.key;
        let data = record.pack();
        proof {
            vstd::bytes::lemma_auto_spec_u64_to_from_le_bytes();
        }
        let ghost d = config.data@;
        assert(data@ =~= d.subrange(0, 33) + initializer.key@ + spec_u64_to_le_bytes(record.accumulator)
            + spec_u64_to_le_bytes(record.user_changes));
        let effects = vec![Effect::Store { index: 1, data }];
        assert(crate::effect::effects_view(effects@) =~= seq![EffectView::Store { index: 1, data: data@ }]);
        Ok(effects)
    }
}

} // verus!
