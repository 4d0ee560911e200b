//! The accounts an instruction runs against, held as plain values.
use vstd::prelude::*;

use crate::address::{zeros, Address};

verus! {

/// What an account holds, as seen by specifications.
pub struct AccountState {
    pub address: Seq<u8>,
    pub owner: Seq<u8>,
    pub is_signer: bool,
    pub is_writable: bool,
    pub lamports: u64,
    pub data: Seq<u8>,
}

/// An account passed to an instruction: its address, owning program, signer and writable
/// flags, lamport balance and data.
#[derive(Debug)]
pub struct AccountView {
    pub address: Address,
    pub owner: Address,
    pub is_signer: bool,
    pub is_writable: bool,
    pub lamports: u64,
    pub data: Vec<u8>,
}

impl View for AccountView {
    type V = AccountState;

    open spec fn view(&self) -> AccountState {
        AccountState {
            address: self.address@,
            owner: self.owner@,
            is_signer: self.is_signer,
            is_writable: self.is_writable,
            lamports: self.lamports,
            data: self.data@,
        }
    }
}

impl DeepView for AccountView {
    type V = AccountState;

    open spec fn deep_view(&self) -> AccountState {
        self@
    }
}

/// Every account's address and owner are 32 bytes long, as those of real accounts are.
pub open spec fn accounts_wf(accounts: Seq<AccountState>) -> bool {
    forall|i: int|
        0 <= i < accounts.len() ==> (#[trigger] accounts[i]).address.len() == 32
            && accounts[i].owner.len() == 32
}

/// The accounts an instruction is given are well-formed.
pub proof fn lemma_accounts_wf(accounts: Vec<AccountView>)
    ensures
        accounts_wf(accounts.deep_view()),
{
    assert forall|i: int| 0 <= i < accounts.deep_view().len() implies (
    #[trigger] accounts.deep_view()[i]).address.len() == 32 && accounts.deep_view()[i].owner.len()
        == 32 by {
        crate::address::lemma_address_len(accounts@[i].address);
        crate::address::lemma_address_len(accounts@[i].owner);
    }
}

/// The state of an account after it has been closed: no owner, no lamports, no data.
pub open spec fn closed_state(a: AccountState) -> AccountState {
    AccountState { owner: zeros(32), lamports: 0, data: Seq::empty(), ..a }
}

impl AccountView {
    /// Address of the account.
    pub fn address(&self) -> (r: &Address)
        ensures
            r@ == self.address@,
    {
        &self.address
    }

    /// Program that owns the account.
    pub fn owner(&self) -> (r: Address)
        ensures
            r@ == self.owner@,
    {
        self.owner
    }

    /// Whether the transaction was signed by this account.
    pub fn is_signer(&self) -> (r: bool)
        ensures
            r == self.is_signer,
    {
        self.is_signer
    }

    /// Whether the account is writable.
    pub fn is_writable(&self) -> (r: bool)
        ensures
            r == self.is_writable,
    {
        self.is_writable
    }

    /// Lamport balance of the account.
    pub fn lamports(&self) -> (r: u64)
        ensures
            r == self.lamports,
    {
        self.lamports
    }

    /// Sets the lamport balance.
    pub fn set_lamports(&mut self, lamports: u64)
        ensures
            final(self)@ == (AccountState { lamports, ..old(self)@ }),
    {
        self.lamports = lamports;
    }

    /// Length of the account data.
    pub fn data_len(&self) -> (r: usize)
        ensures
            r == self.data@.len(),
    {
        self.data.len()
    }

    /// Whether the account is owned by `program`.
    pub fn owned_by(&self, program: &Address) -> (r: bool)
        ensures
            r == (self.owner@ == program@),
    {
        self.owner == *program
    }

    /// Zeroes the owner, lamports and data length, closing the account.
    pub fn close(&mut self)
        ensures
            final(self)@ == closed_state(old(self)@),
    {
        self.owner = Address::default();
        self.lamports = 0;
        self.data = Vec::new();
    }
}

} // verus!
