//! Addresses and accounts, as plain values that the rules can read.

use vstd::prelude::*;

verus! {

/// A 32-byte address: of an account, or of the program that owns one.
#[derive(Clone, Copy, Debug, PartialEq, Eq)]
pub struct Pubkey {
    pub bytes: [u8; 32],
}

impl View for Pubkey {
    type V = Seq<u8>;

    open spec fn view(&self) -> Seq<u8> {
        self.bytes@
    }
}

impl Pubkey {
    /// The address made of `bytes`.
    pub fn new_from_array(bytes: [u8; 32]) -> (out: Pubkey)
        ensures
            out@ == bytes@,
    {
        Pubkey { bytes }
    }

    /// Whether two addresses are the same 32 bytes.
    pub fn same(&self, other: &Pubkey) -> (out: bool)
        ensures
            out == (self@ == other@),
    {
        let mut i: usize = 0;
        while i < 32
            invariant
                i <= 32,
                forall|j: int| 0 <= j < i ==> self.bytes@[j] == other.bytes@[j],
            decreases 32 - i,
        {
            if self.bytes[i] != other.bytes[i] {
                return false;
            }
            i += 1;
        }
        assert(self@ =~= other@);
        true
    }
}

/// One account of the invocation's list, as the host hands it over.
#[derive(Clone, Debug, PartialEq, Eq)]
pub struct AccountInfo {
    /// The account's address.
    pub key: Pubkey,
    /// The program that owns the account.
    pub owner: Pubkey,
    /// The account's balance.
    pub lamports: u64,
    /// The account's storage.
    pub data: Vec<u8>,
    /// Whether the account signed the transaction.
    pub is_signer: bool,
    /// Whether the invocation may change the account.
    pub is_writable: bool,
}

/// What an account is, to the rules.
pub struct AccountView {
    pub key: Seq<u8>,
    pub owner: Seq<u8>,
    pub lamports: nat,
    pub data: Seq<u8>,
    pub is_signer: bool,
    pub is_writable: bool,
}

impl View for AccountInfo {
    type V = AccountView;

    open spec fn view(&self) -> AccountView {
        AccountView {
            key: self.key@,
            owner: self.owner@,
            lamports: self.lamports as nat,
            data: self.data@,
            is_signer: self.is_signer,
            is_writable: self.is_writable,
        }
    }
}

/// The accounts of a list, each by its view.
pub open spec fn views(accounts: Seq<AccountInfo>) -> Seq<AccountView> {
    accounts.map_values(|account: AccountInfo| account@)
}

} // verus!
