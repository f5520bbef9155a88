//! Accounts as the program sees them.

use vstd::prelude::*;

verus! {

/// A 32-byte address: the key of an account, or the identity of a program.
#[derive(Clone, Copy, Debug, PartialEq, Eq)]
pub struct Address {
    /// The bytes of the address, in the order in which the host gives them.
    pub bytes: [u8; 32],
}

impl View for Address {
    type V = Seq<u8>;

    open spec fn view(&self) -> Seq<u8> {
        self.bytes@
    }
}

impl Address {
    /// The address that holds `bytes`.
    pub fn new(bytes: [u8; 32]) -> (address: Address)
        ensures
            address@ == bytes@,
    {
        Address { bytes }
    }

    /// The bytes of the address.
    pub fn to_vec(&self) -> (bytes: Vec<u8>)
        ensures
            bytes@ == self@,
    {
        let mut bytes: Vec<u8> = Vec::new();
        let mut i: usize = 0;
        while i < 32
            invariant
                i <= 32,
                bytes@ == self.bytes@.subrange(0, i as int),
            decreases 32 - i,
        {
            bytes.push(self.bytes[i]);
            i = i + 1;
            assert(bytes@ =~= self.bytes@.subrange(0, i as int));
        }
        assert(bytes@ =~= self.bytes@);
        bytes
    }

    /// Whether two addresses hold the same 32 bytes.
    pub fn same_as(&self, other: &Address) -> (same: bool)
        ensures
            same == (self@ == other@),
    {
        let mut i: usize = 0;
        while i < 32
            invariant
                i <= 32,
                forall|j: int| 0 <= j < i ==> self.bytes@[j] == other.bytes@[j],
            decreases 32 - i,
        {
            if self.bytes[i] != other.bytes[i] {
                return false;
            }
            i = i + 1;
        }
        assert(self.bytes@ =~= other.bytes@);
        true
    }
}

impl Default for Address {
    /// The address of 32 zero bytes.
    fn default() -> (address: Address)
        ensures
            address@ == Seq::new(32, |i: int| 0u8),
    {
        let address = Address { bytes: [0u8; 32] };
        assert(address@ =~= Seq::new(32, |i: int| 0u8));
        address
    }
}

/// An account: an addressable, owned byte buffer.
#[derive(Debug, PartialEq, Eq)]
pub struct Account {
    /// The address of the account.
    pub key: Address,
    /// The identity of the program that may write to the account.
    pub owner: Address,
    /// The bytes that the account stores.
    pub data: Vec<u8>,
}

/// What an account holds, as mathematical values.
pub struct AccountView {
    pub key: Seq<u8>,
    pub owner: Seq<u8>,
    pub data: Seq<u8>,
}

impl View for Account {
    type V = AccountView;

    open spec fn view(&self) -> AccountView {
        AccountView { key: self.key@, owner: self.owner@, data: self.data@ }
    }
}

/// The accounts of one invocation, in the order in which they were given.
pub open spec fn ledger(accounts: Seq<Account>) -> Seq<AccountView> {
    accounts.map_values(|account: Account| account@)
}

} // verus!
