use vstd::prelude::*;
use vstd::bytes::{spec_u64_from_le_bytes, spec_u64_to_le_bytes, u64_from_le_bytes, u64_to_le_bytes};
use vstd::slice::slice_subrange;
use crate::account::Account;
use crate::address::Address;
use crate::error::ProgramError;

verus! {

/// Seed label of the custody authority: `(config address, "lunaowner")`.
pub open spec fn owner_prefix() -> Seq<u8> {
    seq![108u8, 117, 110, 97, 111, 119, 110, 101, 114]
}

/// Seed label of a depositor's subaccount: `(config address, depositor, "deposit")`.
pub open spec fn deposit_prefix() -> Seq<u8> {
    seq![100u8, 101, 112, 111, 115, 105, 116]
}

/// The bytes of `"lunaowner"`.
pub fn luna_owner_prefix() -> (r: Vec<u8>)
    ensures
        r@ == owner_prefix(),
{
    let r = vec![108u8, 117, 110, 97, 111, 119, 110, 101, 114];
    assert(r@ =~= owner_prefix());
    r
}

/// The bytes of `"deposit"`.
pub fn luna_deposit_prefix() -> (r: Vec<u8>)
    ensures
        r@ == deposit_prefix(),
{
    let r = vec![100u8, 101, 112, 111, 115, 105, 116];
    assert(r@ =~= deposit_prefix());
    r
}

/// The type tag that leads every record.
#[derive(Debug, Clone, Copy, PartialEq, Eq, Structural)]
pub enum Key {
    Uninitialized,
    LunabankV1,
    LunaDepositV1,
}

impl Key {
    pub open spec fn spec_tag(self) -> u8 {
        match self {
            Key::Uninitialized => 0,
            Key::LunabankV1 => 1,
            Key::LunaDepositV1 => 2,
        }
    }

    pub fn tag(&self) -> (r: u8)
        ensures
            r == self.spec_tag(),
    {
        match self {
            Key::Uninitialized => 0,
            Key::LunabankV1 => 1,
            Key::LunaDepositV1 => 2,
        }
    }
}

/// A record's buffer may be decoded as `data_type` when its length is `data_size`
/// and its tag is `data_type` or still `Uninitialized`.
pub open spec fn header_ok(data: Seq<u8>, data_type: Key, data_size: nat) -> bool {
    &&& data.len() == data_size
    &&& (data[0] == data_type.spec_tag() || data[0] == 0)
}

/// A fixed-layout record led by its type tag.
pub trait Record: Sized {
    /// The record's bytes.
    spec fn layout(&self) -> Seq<u8>;

    /// The length of the record's bytes.
    spec fn spec_len() -> nat;

    /// Reads the fields of a buffer whose length and tag have been checked.
    fn read(data: &Vec<u8>) -> (r: Self)
        requires
            data@.len() == Self::spec_len(),
            data@[0] <= 2,
        ensures
            r.layout() == data@,
    ;
}

/// Decodes a record of type `data_type` after checking the buffer's length and tag; a
/// buffer whose tag is still `Uninitialized` is accepted.
pub fn try_from_slice_checked<T: Record>(data: &Vec<u8>, data_type: Key, data_size: usize) -> (r: Result<T, ProgramError>)
    requires
        data_size == T::spec_len(),
        data_size > 0,
    ensures
        r is Ok <==> header_ok(data@, data_type, data_size as nat),
        r matches Ok(x) ==> x.layout() == data@,
        r matches Err(e) ==> e == ProgramError::InvalidAccountData,
{
    if data.len() != data_size {
        return Err(ProgramError::InvalidAccountData);
    }
    let tag = data[0];
    if tag != data_type.tag() && tag != 0 {
        return Err(ProgramError::InvalidAccountData);
    }
    Ok(T::read(data))
}

fn key_of(tag: u8) -> (r: Key)
    requires
        tag <= 2,
    ensures
        r.spec_tag() == tag,
{
    if tag == 0 {
        Key::Uninitialized
    } else if tag == 1 {
        Key::LunabankV1
    } else {
        Key::LunaDepositV1
    }
}

fn read_u64(data: &Vec<u8>, offset: usize) -> (r: u64)
    requires
        offset + 8 <= data@.len(),
    ensures
        spec_u64_to_le_bytes(r) == data@.subrange(offset as int, offset + 8),
        r == spec_u64_from_le_bytes(data@.subrange(offset as int, offset + 8)),
{
    let n = data.len();
    assert(offset + 8 <= n);
    let s = slice_subrange(data.as_slice(), offset, offset + 8);
    let r = u64_from_le_bytes(s);
    proof {
        vstd::bytes::lemma_auto_spec_u64_to_from_le_bytes();
    }
    r
}

fn append_address(v: &mut Vec<u8>, a: &Address)
    ensures
        final(v)@ == old(v)@ + a@,
{
    let mut b = a.to_vec();
    v.append(&mut b);
}

fn append_u64(v: &mut Vec<u8>, x: u64)
    ensures
        final(v)@ == old(v)@ + spec_u64_to_le_bytes(x),
{
    let mut b = u64_to_le_bytes(x);
    v.append(&mut b);
}

/// The configuration record of one vault.
#[derive(Debug, Clone, Copy)]
pub struct Lunabank {
    pub key: Key,
    pub owner: Address,
    pub base_token_mint: Address,
    pub recipe_token_mint: Address,
    pub base_token_account: Address,
    pub coef: u64,
}

pub const LUNABANK_LEN: usize = 137;

impl Lunabank {
    /// Layout: tag, four addresses, little-endian `coef`.
    pub open spec fn encoded(self) -> Seq<u8> {
        seq![self.key.spec_tag()] + self.owner@ + self.base_token_mint@ + self.recipe_token_mint@
            + self.base_token_account@ + spec_u64_to_le_bytes(self.coef)
    }

    pub open spec fn spec_is_initialized(self) -> bool {
        self.key != Key::Uninitialized
    }

    pub fn is_initialized(&self) -> (r: bool)
        ensures
            r == self.spec_is_initialized(),
    {
        match self.key {
            Key::Uninitialized => false,
            _ => true,
        }
    }

    pub fn pack(&self) -> (r: Vec<u8>)
        ensures
            r@ == self.encoded(),
            r@.len() == LUNABANK_LEN,
    {
        let mut v: Vec<u8> = Vec::new();
        v.push(self.key.tag());
        append_address(&mut v, &self.owner);
        append_address(&mut v, &self.base_token_mint);
        append_address(&mut v, &self.recipe_token_mint);
        append_address(&mut v, &self.base_token_account);
        append_u64(&mut v, self.coef);
        proof {
            vstd::bytes::lemma_auto_spec_u64_to_from_le_bytes();
        }
        assert(v@ =~= self.encoded());
        v
    }

    /// Writes the record over a buffer of exactly its length.
    pub fn pack_into_slice(&self, dst: &mut Vec<u8>)
        requires
            old(dst)@.len() == LUNABANK_LEN,
        ensures
            final(dst)@ == self.encoded(),
    {
        *dst = self.pack();
    }

    /// Decodes a configuration record, accepting a buffer that is still uninitialized.
    pub fn unpack_from_slice(src: &Vec<u8>) -> (r: Result<Lunabank, ProgramError>)
        ensures
            r is Ok <==> header_ok(src@, Key::LunabankV1, LUNABANK_LEN as nat),
            r matches Ok(b) ==> b.encoded() == src@,
            r matches Ok(b) ==> b.key.spec_tag() == src@[0],
            r matches Ok(b) ==> b.owner@ == src@.subrange(1, 33),
            r matches Ok(b) ==> b.base_token_mint@ == src@.subrange(33, 65),
            r matches Ok(b) ==> b.recipe_token_mint@ == src@.subrange(65, 97),
            r matches Ok(b) ==> b.base_token_account@ == src@.subrange(97, 129),
            r matches Ok(b) ==> b.coef == spec_u64_from_le_bytes(src@.subrange(129, 137)),
            r matches Err(e) ==> e == ProgramError::InvalidAccountData,
    {
        let r = try_from_slice_checked::<Lunabank>(src, Key::LunabankV1, LUNABANK_LEN);
        proof {
            if let Ok(b) = r {
                vstd::bytes::lemma_auto_spec_u64_to_from_le_bytes();
                assert(b.encoded().subrange(1, 33) =~= b.owner@);
                assert(b.encoded().subrange(33, 65) =~= b.base_token_mint@);
                assert(b.encoded().subrange(65, 97) =~= b.recipe_token_mint@);
                assert(b.encoded().subrange(97, 129) =~= b.base_token_account@);
                assert(b.encoded().subrange(129, 137) =~= spec_u64_to_le_bytes(b.coef));
            }
        }
        r
    }

    /// Decodes the configuration record that an account holds.
    pub fn from_account_info(a: &Account) -> (r: Result<Lunabank, ProgramError>)
        ensures
            r is Ok <==> header_ok(a.data@, Key::LunabankV1, LUNABANK_LEN as nat),
            r matches Ok(b) ==> b.encoded() == a.data@,
            r matches Ok(b) ==> b.key.spec_tag() == a.data@[0],
            r matches Ok(b) ==> b.owner@ == a.data@.subrange(1, 33),
            r matches Ok(b) ==> b.base_token_mint@ == a.data@.subrange(33, 65),
            r matches Ok(b) ==> b.recipe_token_mint@ == a.data@.subrange(65, 97),
            r matches Ok(b) ==> b.base_token_account@ == a.data@.subrange(97, 129),
            r matches Ok(b) ==> b.coef == spec_u64_from_le_bytes(a.data@.subrange(129, 137)),
            r matches Err(e) ==> e == ProgramError::InvalidAccountData,
    {
        Self::unpack_from_slice(&a.data)
    }
}

impl Record for Lunabank {
    open spec fn layout(&self) -> Seq<u8> {
        self.encoded()
    }

    open spec fn spec_len() -> nat {
        LUNABANK_LEN as nat
    }

    fn read(src: &Vec<u8>) -> (r: Lunabank) {
        let b = Lunabank {
            key: key_of(src[0]),
            owner: Address::read(src, 1),
            base_token_mint: Address::read(src, 33),
            recipe_token_mint: Address::read(src, 65),
            base_token_account: Address::read(src, 97),
            coef: read_u64(src, 129),
        };
        assert(b.encoded() =~= src@);
        b
    }
}

/// The record of one depositor's locked deposit in one vault.
#[derive(Debug, Clone, Copy)]
pub struct LunaDeposit {
    pub key: Key,
    pub owner: Address,
    pub amount: u64,
    pub start_timestamp: u64,
    pub end_timestamp: u64,
}

pub const LUNA_DEPOSIT_LEN: usize = 57;

impl LunaDeposit {
    /// Layout: tag, owner address, little-endian `amount`, `start_timestamp`, `end_timestamp`.
    pub open spec fn encoded(self) -> Seq<u8> {
        seq![self.key.spec_tag()] + self.owner@ + spec_u64_to_le_bytes(self.amount)
            + spec_u64_to_le_bytes(self.start_timestamp) + spec_u64_to_le_bytes(self.end_timestamp)
    }

    pub open spec fn spec_is_initialized(self) -> bool {
        self.key != Key::Uninitialized
    }

    pub fn is_initialized(&self) -> (r: bool)
        ensures
            r == self.spec_is_initialized(),
    {
        match self.key {
            Key::Uninitialized => false,
            _ => true,
        }
    }

    pub fn pack(&self) -> (r: Vec<u8>)
        ensures
            r@ == self.encoded(),
            r@.len() == LUNA_DEPOSIT_LEN,
    {
        let mut v: Vec<u8> = Vec::new();
        v.push(self.key.tag());
        append_address(&mut v, &self.owner);
        append_u64(&mut v, self.amount);
        append_u64(&mut v, self.start_timestamp);
        append_u64(&mut v, self.end_timestamp);
        proof {
            vstd::bytes::lemma_auto_spec_u64_to_from_le_bytes();
        }
        assert(v@ =~= self.encoded());
        v
    }

    /// Writes the record over a buffer of exactly its length.
    pub fn pack_into_slice(&self, dst: &mut Vec<u8>)
        requires
            old(dst)@.len() == LUNA_DEPOSIT_LEN,
        ensures
            final(dst)@ == self.encoded(),
    {
        *dst = self.pack();
    }

    /// Decodes a deposit record, accepting a buffer that is still uninitialized.
    pub fn unpack_from_slice(src: &Vec<u8>) -> (r: Result<LunaDeposit, ProgramError>)
        ensures
            r is Ok <==> header_ok(src@, Key::LunaDepositV1, LUNA_DEPOSIT_LEN as nat),
            r matches Ok(d) ==> d.encoded() == src@,
            r matches Ok(d) ==> d.key.spec_tag() == src@[0],
            r matches Ok(d) ==> d.owner@ == src@.subrange(1, 33),
            r matches Ok(d) ==> d.amount == spec_u64_from_le_bytes(src@.subrange(33, 41)),
            r matches Ok(d) ==> d.start_timestamp == spec_u64_from_le_bytes(src@.subrange(41, 49)),
            r matches Ok(d) ==> d.end_timestamp == spec_u64_from_le_bytes(src@.subrange(49, 57)),
            r matches Err(e) ==> e == ProgramError::InvalidAccountData,
    {
        let r = try_from_slice_checked::<LunaDeposit>(src, Key::LunaDepositV1, LUNA_DEPOSIT_LEN);
        proof {
            if let Ok(d) = r {
                vstd::bytes::lemma_auto_spec_u64_to_from_le_bytes();
                assert(d.encoded().subrange(1, 33) =~= d.owner@);
                assert(d.encoded().subrange(33, 41) =~= spec_u64_to_le_bytes(d.amount));
                assert(d.encoded().subrange(41, 49) =~= spec_u64_to_le_bytes(d.start_timestamp));
                assert(d.encoded().subrange(49, 57) =~= spec_u64_to_le_bytes(d.end_timestamp));
            }
        }
        r
    }

    /// Decodes the deposit record that an account holds.
    pub fn from_account_info(a: &Account) -> (r: Result<LunaDeposit, ProgramError>)
        ensures
            r is Ok <==> header_ok(a.data@, Key::LunaDepositV1, LUNA_DEPOSIT_LEN as nat),
            r matches Ok(d) ==> d.encoded() == a.data@,
            r matches Ok(d) ==> d.key.spec_tag() == a.data@[0],
            r matches Ok(d) ==> d.owner@ == a.data@.subrange(1, 33),
            r matches Ok(d) ==> d.amount == spec_u64_from_le_bytes(a.data@.subrange(33, 41)),
            r matches Ok(d) ==> d.start_timestamp == spec_u64_from_le_bytes(a.data@.subrange(41, 49)),
            r matches Ok(d) ==> d.end_timestamp == spec_u64_from_le_bytes(a.data@.subrange(49, 57)),
            r matches Err(e) ==> e == ProgramError::InvalidAccountData,
    {
        Self::unpack_from_slice(&a.data)
    }
}

impl Record for LunaDeposit {
    open spec fn layout(&self) -> Seq<u8> {
        self.encoded()
    }

    open spec fn spec_len() -> nat {
        LUNA_DEPOSIT_LEN as nat
    }

    fn read(src: &Vec<u8>) -> (r: LunaDeposit) {
        let d = LunaDeposit {
            key: key_of(src[0]),
            owner: Address::read(src, 1),
            amount: read_u64(src, 33),
            start_timestamp: read_u64(src, 41),
            end_timestamp: read_u64(src, 49),
        };
        assert(d.encoded() =~= src@);
        d
    }
}

} // verus!
