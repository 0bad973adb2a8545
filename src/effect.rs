use vstd::prelude::*;
use crate::address::Address;
use crate::error::ProgramError;

verus! {

/// Which authority a `SetAuthority` call moves.
#[derive(Debug, Clone, Copy, PartialEq, Eq, Structural)]
pub enum AuthorityType {
    MintTokens,
    FreezeAccount,
    AccountOwner,
}

/// A delegated call to the asset ledger or to the storage-allocation service.
#[derive(Debug, Clone, Copy)]
pub enum LedgerCall {
    SetAuthority { target: Address, new_authority: Address, kind: AuthorityType, authority: Address },
    Transfer { source: Address, destination: Address, authority: Address, amount: u64 },
    MintTo { mint: Address, destination: Address, authority: Address, amount: u64 },
    Burn { account: Address, mint: Address, authority: Address, amount: u64 },
    FreezeAccount { account: Address, mint: Address, authority: Address },
    ThawAccount { account: Address, mint: Address, authority: Address },
    CloseAccount { account: Address, destination: Address, authority: Address },
    CreateAccount { payer: Address, address: Address, lamports: u64, space: u64, owner: Address },
}

/// A `LedgerCall` with its addresses as byte sequences.
pub enum CallView {
    SetAuthority { target: Seq<u8>, new_authority: Seq<u8>, kind: AuthorityType, authority: Seq<u8> },
    Transfer { source: Seq<u8>, destination: Seq<u8>, authority: Seq<u8>, amount: u64 },
    MintTo { mint: Seq<u8>, destination: Seq<u8>, authority: Seq<u8>, amount: u64 },
    Burn { account: Seq<u8>, mint: Seq<u8>, authority: Seq<u8>, amount: u64 },
    FreezeAccount { account: Seq<u8>, mint: Seq<u8>, authority: Seq<u8> },
    ThawAccount { account: Seq<u8>, mint: Seq<u8>, authority: Seq<u8> },
    CloseAccount { account: Seq<u8>, destination: Seq<u8>, authority: Seq<u8> },
    CreateAccount { payer: Seq<u8>, address: Seq<u8>, lamports: u64, space: u64, owner: Seq<u8> },
}

impl View for LedgerCall {
    type V = CallView;

    open spec fn view(&self) -> CallView {
        match *self {
            LedgerCall::SetAuthority { target, new_authority, kind, authority } => CallView::SetAuthority {
                target: target@,
                new_authority: new_authority@,
                kind,
                authority: authority@,
            },
            LedgerCall::Transfer { source, destination, authority, amount } => CallView::Transfer {
                source: source@,
                destination: destination@,
                authority: authority@,
                amount,
            },
            LedgerCall::MintTo { mint, destination, authority, amount } => CallView::MintTo {
                mint: mint@,
                destination: destination@,
                authority: authority@,
                amount,
            },
            LedgerCall::Burn { account, mint, authority, amount } => CallView::Burn {
                account: account@,
                mint: mint@,
                authority: authority@,
                amount,
            },
            LedgerCall::FreezeAccount { account, mint, authority } => CallView::FreezeAccount {
                account: account@,
                mint: mint@,
                authority: authority@,
            },
            LedgerCall::ThawAccount { account, mint, authority } => CallView::ThawAccount {
                account: account@,
                mint: mint@,
                authority: authority@,
            },
            LedgerCall::CloseAccount { account, destination, authority } => CallView::CloseAccount {
                account: account@,
                destination: destination@,
                authority: authority@,
            },
            LedgerCall::CreateAccount { payer, address, lamports, space, owner } => CallView::CreateAccount {
                payer: payer@,
                address: address@,
                lamports,
                space,
                owner: owner@,
            },
        }
    }
}

/// What authorizes a delegated call.
#[derive(Debug, Clone)]
pub enum Credential {
    /// The call's authority signed the transaction.
    Signer,
    /// The call's authority is a program-derived address; `seeds`, bump seed last,
    /// reproduce its derivation and stand in for a signature.
    Derived { seeds: Vec<Vec<u8>> },
}

impl View for Credential {
    type V = Option<Seq<Seq<u8>>>;

    open spec fn view(&self) -> Option<Seq<Seq<u8>>> {
        match self {
            Credential::Signer => None,
            Credential::Derived { seeds } => Some(seeds.deep_view()),
        }
    }
}

/// One step of a successful invocation. The environment applies the steps in order,
/// all or none; `index` refers to the invocation's account list.
#[derive(Debug, Clone)]
pub enum Effect {
    /// A delegated call.
    Invoke { call: LedgerCall, credential: Credential },
    /// The account's data becomes `data`.
    Store { index: usize, data: Vec<u8> },
    /// Account `to` now holds `balance`, the sum of both balances; account `from`
    /// holds nothing and its data is emptied.
    Reclaim { from: usize, to: usize, balance: u64 },
}

pub enum EffectView {
    Invoke { call: CallView, seeds: Option<Seq<Seq<u8>>> },
    Store { index: nat, data: Seq<u8> },
    Reclaim { from: nat, to: nat, balance: u64 },
}

impl View for Effect {
    type V = EffectView;

    open spec fn view(&self) -> EffectView {
        match self {
            Effect::Invoke { call, credential } => EffectView::Invoke { call: call@, seeds: credential@ },
            Effect::Store { index, data } => EffectView::Store { index: *index as nat, data: data@ },
            Effect::Reclaim { from, to, balance } => EffectView::Reclaim {
                from: *from as nat,
                to: *to as nat,
                balance: *balance,
            },
        }
    }
}

pub open spec fn effects_view(v: Seq<Effect>) -> Seq<EffectView> {
    v.map_values(|e: Effect| e@)
}

/// The outcome of an invocation, with its effects as views.
pub open spec fn outcome(r: Result<Vec<Effect>, ProgramError>) -> Result<Seq<EffectView>, ProgramError> {
    match r {
        Ok(v) => Ok(effects_view(v@)),
        Err(e) => Err(e),
    }
}

// What a sequence of effects does, as the environment and the asset ledger apply it.

/// The holder of the `kind` authority over `target` after `effects`, starting from `start`.
pub open spec fn authority_after(effects: Seq<EffectView>, target: Seq<u8>, kind: AuthorityType, start: Option<Seq<u8>>) -> Option<Seq<u8>>
    decreases effects.len(),
{
    if effects.len() == 0 {
        start
    } else {
        let before = authority_after(effects.drop_last(), target, kind, start);
        match effects.last() {
            EffectView::Invoke { call: CallView::SetAuthority { target: t, new_authority: n, kind: k, authority: _ }, seeds: _ } => {
                if t == target && k == kind {
                    Some(n)
                } else {
                    before
                }
            },
            _ => before,
        }
    }
}

/// The balance of account `index` after `effects`, starting from `start`.
pub open spec fn lamports_after(effects: Seq<EffectView>, index: nat, start: int) -> int
    decreases effects.len(),
{
    if effects.len() == 0 {
        start
    } else {
        let before = lamports_after(effects.drop_last(), index, start);
        match effects.last() {
            EffectView::Reclaim { from, to, balance } => {
                if from == index {
                    0
                } else if to == index {
                    balance as int
                } else {
                    before
                }
            },
            _ => before,
        }
    }
}

/// The data of account `index` after `effects`, starting from `start`.
pub open spec fn data_after(effects: Seq<EffectView>, index: nat, start: Seq<u8>) -> Seq<u8>
    decreases effects.len(),
{
    if effects.len() == 0 {
        start
    } else {
        let before = data_after(effects.drop_last(), index, start);
        match effects.last() {
            EffectView::Store { index: i, data } => if i == index {
                data
            } else {
                before
            },
            EffectView::Reclaim { from, to: _, balance: _ } => if from == index {
                Seq::empty()
            } else {
                before
            },
            _ => before,
        }
    }
}

/// The owning program of the account at `address` after `effects`, starting from `start`:
/// an account that the storage-allocation service creates belongs to the owner named.
pub open spec fn owner_after(effects: Seq<EffectView>, address: Seq<u8>, start: Seq<u8>) -> Seq<u8>
    decreases effects.len(),
{
    if effects.len() == 0 {
        start
    } else {
        let before = owner_after(effects.drop_last(), address, start);
        match effects.last() {
            EffectView::Invoke { call: CallView::CreateAccount { payer: _, address: a, lamports: _, space: _, owner }, seeds: _ } => {
                if a == address {
                    owner
                } else {
                    before
                }
            },
            _ => before,
        }
    }
}

/// The net amount of the asset ledger's transfers into `account` over `effects`.
pub open spec fn transfer_flow(effects: Seq<EffectView>, account: Seq<u8>) -> int
    decreases effects.len(),
{
    if effects.len() == 0 {
        0
    } else {
        let before = transfer_flow(effects.drop_last(), account);
        match effects.last() {
            EffectView::Invoke { call: CallView::Transfer { source, destination, authority: _, amount }, seeds: _ } => {
                before + (if destination == account {
                    amount as int
                } else {
                    0
                }) - (if source == account {
                    amount as int
                } else {
                    0
                })
            },
            _ => before,
        }
    }
}

/// The net change of the supply of `mint` over `effects`: minted less burned.
pub open spec fn supply_flow(effects: Seq<EffectView>, mint: Seq<u8>) -> int
    decreases effects.len(),
{
    if effects.len() == 0 {
        0
    } else {
        let before = supply_flow(effects.drop_last(), mint);
        match effects.last() {
            EffectView::Invoke { call: CallView::MintTo { mint: m, destination: _, authority: _, amount }, seeds: _ } => {
                if m == mint {
                    before + amount
                } else {
                    before
                }
            },
            EffectView::Invoke { call: CallView::Burn { account: _, mint: m, authority: _, amount }, seeds: _ } => {
                if m == mint {
                    before - amount
                } else {
                    before
                }
            },
            _ => before,
        }
    }
}

} // verus!
