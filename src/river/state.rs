use vstd::prelude::*;
use vstd::bytes::{spec_u64_from_le_bytes, spec_u64_to_le_bytes, u64_from_le_bytes, u64_to_le_bytes};
use vstd::slice::{slice_subrange, slice_to_vec};
use crate::address::Address;
use crate::error::ProgramError;

verus! {

/// The accumulator's record.
#[derive(Debug, Clone, Copy)]
pub struct River {
    pub is_initialized: bool,
    pub owner: Address,
    pub last_user: Address,
    pub accumulator: u64,
    pub user_changes: u64,
}

pub const RIVER_LEN: usize = 81;

impl River {
    /// Layout: initialized flag, owner, last caller, little-endian accumulator and change count.
    pub open spec fn encoded(self) -> Seq<u8> {
        seq![if self.is_initialized { 1u8 } else { 0u8 }] + self.owner@ + self.last_user@
            + spec_u64_to_le_bytes(self.accumulator) + spec_u64_to_le_bytes(self.user_changes)
    }

    pub fn pack(&self) -> (r: Vec<u8>)
        ensures
            r@ == self.encoded(),
            r@.len() == RIVER_LEN,
    {
        let mut v: Vec<u8> = Vec::new();
        v.push(if self.is_initialized { 1u8 } else { 0u8 });
        let mut owner = self.owner.to_vec();
        let mut last = self.last_user.to_vec();
        let mut acc = u64_to_le_bytes(self.accumulator);
        let mut changes = u64_to_le_bytes(self.user_changes);
        v.append(&mut owner);
        v.append(&mut last);
        v.append(&mut acc);
        v.append(&mut changes);
        assert(v@ =~= self.encoded());
        v
    }

    /// Writes the record over the first bytes of `dst`, which must hold at least a record.
    pub fn pack_into_slice(&self, dst: &mut Vec<u8>)
        requires
            old(dst)@.len() >= RIVER_LEN,
        ensures
            final(dst)@ == self.encoded() + old(dst)@.subrange(RIVER_LEN as int, old(dst)@.len() as int),
    {
        let enc = self.pack();
        let mut i: usize = 0;
        while i < RIVER_LEN
            invariant
                i <= RIVER_LEN,
                enc@.len() == RIVER_LEN,
                dst@.len() == old(dst)@.len(),
                old(dst)@.len() >= RIVER_LEN,
                forall|j: int| 0 <= j < i ==> dst@[j] == enc@[j],
                forall|j: int| i <= j < dst@.len() ==> dst@[j] == old(dst)@[j],
            decreases RIVER_LEN - i,
        {
            dst[i] = enc[i];
            i = i + 1;
        }
        assert(dst@ =~= self.encoded() + old(dst)@.subrange(RIVER_LEN as int, old(dst)@.len() as int));
    }

    /// Decodes the record from the first bytes of `src`; the flag must be zero or one.
    pub fn unpack_from_slice(src: &[u8]) -> (r: Result<River, ProgramError>)
        requires
            src@.len() >= RIVER_LEN,
        ensures
            r is Ok <==> (src@[0] == 0 || src@[0] == 1),
            r matches Ok(v) ==> v.encoded() == src@.subrange(0, RIVER_LEN as int),
            r matches Ok(v) ==> v.is_initialized == (src@[0] == 1),
            r matches Ok(v) ==> v.owner@ == src@.subrange(1, 33),
            r matches Ok(v) ==> v.last_user@ == src@.subrange(33, 65),
            r matches Ok(v) ==> v.accumulator == spec_u64_from_le_bytes(src@.subrange(65, 73)),
            r matches Ok(v) ==> v.user_changes == spec_u64_from_le_bytes(src@.subrange(73, 81)),
            r matches Err(e) ==> e == ProgramError::InvalidAccountData,
    {
        let is_initialized = if src[0] == 0 {
            false
        } else if src[0] == 1 {
            true
        } else {
            return Err(ProgramError::InvalidAccountData);
        };
        let v = slice_to_vec(src);
        let accumulator = u64_from_le_bytes(slice_subrange(src, 65, 73));
        let user_changes = u64_from_le_bytes(slice_subrange(src, 73, 81));
        let r = River {
            is_initialized,
            owner: Address::read(&v, 1),
            last_user: Address::read(&v, 33),
            accumulator,
            user_changes,
        };
        proof {
            vstd::bytes::lemma_auto_spec_u64_to_from_le_bytes();
            assert(spec_u64_to_le_bytes(accumulator) == src@.subrange(65, 73));
            assert(spec_u64_to_le_bytes(user_changes) == src@.subrange(73, 81));
        }
        assert(r.encoded() =~= src@.subrange(0, RIVER_LEN as int));
        Ok(r)
    }

    /// Decodes a record from a buffer of exactly its length.
    pub fn unpack_unchecked(src: &Vec<u8>) -> (r: Result<River, ProgramError>)
        ensures
            r is Ok <==> src@.len() == RIVER_LEN && (src@[0] == 0 || src@[0] == 1),
            r matches Ok(v) ==> v.encoded() == src@,
            r matches Ok(v) ==> v.is_initialized == (src@[0] == 1),
            r matches Ok(v) ==> v.owner@ == src@.subrange(1, 33),
            r matches Ok(v) ==> v.last_user@ == src@.subrange(33, 65),
            r matches Ok(v) ==> v.accumulator == spec_u64_from_le_bytes(src@.subrange(65, 73)),
            r matches Ok(v) ==> v.user_changes == spec_u64_from_le_bytes(src@.subrange(73, 81)),
            r matches Err(e) ==> e == ProgramError::InvalidAccountData,
    {
        if src.len() != RIVER_LEN {
            return Err(ProgramError::InvalidAccountData);
        }
        let r = Self::unpack_from_slice(src.as_slice());
        assert(src@.subrange(0, RIVER_LEN as int) =~= src@);
        r
    }
}

} // verus!
