use vstd::prelude::*;
use vstd::bytes::{spec_u64_from_le_bytes, u64_from_le_bytes};
use vstd::slice::slice_subrange;
use solana_program::sysvar::Sysvar;

verus! {

/// The rent-exempt minimum balance for `data_len` bytes under the rent parameters
/// serialized in `rent_data`; `None` when `rent_data` does not decode.
pub uninterp spec fn rent_minimum_balance(rent_data: Seq<u8>, data_len: nat) -> Option<u64>;

/// The size of the storage overhead that every account is charged for, in bytes.
pub const ACCOUNT_STORAGE_OVERHEAD: u64 = 128;

/// The rent rate: the first field of the rent parameters, little-endian.
pub open spec fn rent_rate(rent_data: Seq<u8>) -> int {
    spec_u64_from_le_bytes(rent_data.subrange(0, 8)) as int
}

/// The rent query for `data_len` bytes stays in range: the charged size and, where the
/// rent data holds a rate, the rate times that size fit in 64 bits.
pub open spec fn rent_query_in_range(rent_data: Seq<u8>, data_len: nat) -> bool {
    &&& ACCOUNT_STORAGE_OVERHEAD + data_len <= u64::MAX
    &&& rent_data.len() >= 8 ==> rent_rate(rent_data) * (ACCOUNT_STORAGE_OVERHEAD + data_len) <= u64::MAX
}

/// Tests the range condition of a rent query before it is made.
pub fn rent_query_fits(rent_data: &Vec<u8>, data_len: usize) -> (r: bool)
    ensures
        r == rent_query_in_range(rent_data@, data_len as nat),
{
    let size = match ACCOUNT_STORAGE_OVERHEAD.checked_add(data_len as u64) {
        Some(s) => s,
        None => return false,
    };
    if rent_data.len() < 8 {
        return true;
    }
    let rate = u64_from_le_bytes(slice_subrange(rent_data.as_slice(), 0, 8));
    rate.checked_mul(size).is_some()
}

/// The current unix time in the clock sysvar's data: its fifth field, a fixed-width
/// little-endian integer at bytes 32 to 40, read as unsigned; `None` when the data is
/// shorter than the five fields.
pub open spec fn clock_unix_time(clock_data: Seq<u8>) -> Option<u64> {
    if clock_data.len() >= 40 {
        Some(spec_u64_from_le_bytes(clock_data.subrange(32, 40)))
    } else {
        None
    }
}

/// Relies on `Rent::from_account_info`, which decodes the rent sysvar's data, and on
/// `Rent::minimum_balance`; both depend on their arguments alone. `minimum_balance`
/// multiplies the rate by the charged size in 64 bits, which `requires` keeps in range.
#[verifier::external_body]
pub(crate) fn minimum_balance(rent_data: &Vec<u8>, data_len: usize) -> (r: Option<u64>)
    requires
        rent_query_in_range(rent_data@, data_len as nat),
    ensures
        r == rent_minimum_balance(rent_data@, data_len as nat),
{
    let key = solana_program::sysvar::rent::id();
    let owner = solana_program::sysvar::id();
    let mut lamports: u64 = 0;
    let mut data = rent_data.clone();
    let info = solana_program::account_info::AccountInfo::new(&key, false, false, &mut lamports, &mut data, &owner, false, 0);
    match solana_program::sysvar::rent::Rent::from_account_info(&info) {
        Ok(rent) => Some(rent.minimum_balance(data_len)),
        Err(_) => None,
    }
}

/// Relies on `Clock::from_account_info`, which decodes the clock sysvar's data with
/// bincode's fixed-width little-endian integers, trailing bytes allowed; the clock's five
/// fields are eight bytes each and the timestamp is the fifth. The signed timestamp is
/// reinterpreted as `u64`.
#[verifier::external_body]
pub(crate) fn unix_time(clock_data: &Vec<u8>) -> (r: Option<u64>)
    ensures
        r == clock_unix_time(clock_data@),
{
    let key = solana_program::sysvar::clock::id();
    let owner = solana_program::sysvar::id();
    let mut lamports: u64 = 0;
    let mut data = clock_data.clone();
    let info = solana_program::account_info::AccountInfo::new(&key, false, false, &mut lamports, &mut data, &owner, false, 0);
    match solana_program::sysvar::clock::Clock::from_account_info(&info) {
        Ok(clock) => Some(clock.unix_timestamp as u64),
        Err(_) => None,
    }
}

} // verus!
