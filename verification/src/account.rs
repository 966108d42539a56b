//! An account of the ledger as an instruction sees it.

use crate::pubkey::Pubkey;
use vstd::prelude::*;

verus! {

/// One of the accounts handed to an instruction: who it is, whether it
/// signed, who owns it, its balance and its data.
#[derive(Clone, Debug, PartialEq, Eq)]
pub struct Account {
    pub key: Pubkey,
    pub is_signer: bool,
    pub owner: Pubkey,
    pub lamports: u64,
    pub data: Vec<u8>,
}

/// An account as a value of mathematics.
pub struct AccountView {
    pub key: Seq<u8>,
    pub is_signer: bool,
    pub owner: Seq<u8>,
    pub lamports: u64,
    pub data: Seq<u8>,
}

impl AccountView {
    /// Both identities have their 32 bytes, as those of every account do.
    pub open spec fn well_formed(self) -> bool {
        self.key.len() == 32 && self.owner.len() == 32
    }
}

impl View for Account {
    type V = AccountView;

    open spec fn view(&self) -> AccountView {
        AccountView {
            key: self.key@,
            is_signer: self.is_signer,
            owner: self.owner@,
            lamports: self.lamports,
            data: self.data@,
        }
    }
}

impl DeepView for Account {
    type V = AccountView;

    open spec fn deep_view(&self) -> AccountView {
        self@
    }
}

/// The view of an account is well formed.
pub proof fn lemma_view_well_formed(account: Account)
    ensures
        account@.well_formed(),
{
}

} // verus!
