use vstd::prelude::*;
use crate::address::Address;

verus! {

/// Width of the type tag at the start of typed account data.
pub const DISCRIMINATOR_LEN: usize = 8;

/// A handle on one account of an invocation: an addressable, owned byte
/// region with a balance and the flags the runtime attached to it.
///
/// All of it is untrusted input except `is_signer` and `is_writable`, which
/// the runtime sets and which nothing in this crate changes.
#[derive(Clone, Debug, PartialEq, Eq)]
pub struct Account {
    pub address: Address,
    /// The trust domain that last wrote the account.
    pub owner: Address,
    pub data: Vec<u8>,
    /// Whether the key behind `address` signed this invocation.
    pub is_signer: bool,
    pub is_writable: bool,
    pub balance: u64,
}

/// What an account holds, as plain values.
pub struct AccountView {
    pub address: Address,
    pub owner: Address,
    pub data: Seq<u8>,
    pub is_signer: bool,
    pub is_writable: bool,
    pub balance: u64,
}

impl View for Account {
    type V = AccountView;

    open spec fn view(&self) -> AccountView {
        AccountView {
            address: self.address,
            owner: self.owner,
            data: self.data@,
            is_signer: self.is_signer,
            is_writable: self.is_writable,
            balance: self.balance,
        }
    }
}

impl AccountView {
    /// The first bytes of the data, where the type tag stands.
    pub open spec fn tag(self) -> Seq<u8> {
        self.data.take(DISCRIMINATOR_LEN as int)
    }

    /// Whether the data starts with `tag`.
    pub open spec fn has_tag(self, tag: Seq<u8>) -> bool {
        self.data.len() >= DISCRIMINATOR_LEN && self.tag() == tag
    }

    /// Whether a type tag has been written: some byte of the tag area is not
    /// zero.
    pub open spec fn is_tagged(self) -> bool {
        exists|i: int| 0 <= i < DISCRIMINATOR_LEN && i < self.data.len() && self.data[i] != 0
    }
}

impl Account {
    /// An account with the given contents.
    pub fn new(
        address: Address,
        owner: Address,
        data: Vec<u8>,
        is_signer: bool,
        is_writable: bool,
        balance: u64,
    ) -> (a: Account)
        ensures
            a@ == (AccountView { address, owner, data: data@, is_signer, is_writable, balance }),
    {
        Account { address, owner, data, is_signer, is_writable, balance }
    }
}

} // verus!
