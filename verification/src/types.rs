//! Addresses and the context of a call.

use vstd::prelude::*;

verus! {

/// The address of an account: 32 raw bytes.
#[derive(Clone, Copy, Debug, PartialEq, Eq, Hash)]
pub struct AccountAddress(pub [u8; 32]);

impl AccountAddress {
    /// Whether two addresses hold the same 32 bytes.
    pub fn same(&self, other: &AccountAddress) -> (r: bool)
        ensures
            r == (*self == *other),
    {
        let mut i: usize = 0;
        while i < 32
            invariant
                i <= 32,
                forall|j: int| 0 <= j < i ==> self.0[j] == other.0[j],
            decreases 32 - i,
        {
            if self.0[i] != other.0[i] {
                return false;
            }
            i += 1;
        }
        assert(self.0 =~= other.0);
        true
    }
}

/// The address of a contract instance.
#[derive(Clone, Copy, Debug, PartialEq, Eq, Hash, Structural)]
pub struct ContractAddress {
    pub index: u64,
    pub subindex: u64,
}

/// Who called: an account or a contract.
#[derive(Clone, Copy, Debug, PartialEq, Eq, Hash)]
pub enum Address {
    Account(AccountAddress),
    Contract(ContractAddress),
}

impl Address {
    /// Whether this is the given account.
    pub fn matches_account(&self, account: &AccountAddress) -> (r: bool)
        ensures
            r == (*self == Address::Account(*account)),
    {
        match self {
            Address::Account(a) => a.same(account),
            Address::Contract(_) => false,
        }
    }

    /// Whether this is the given contract.
    pub fn matches_contract(&self, contract: &ContractAddress) -> (r: bool)
        ensures
            r == (*self == Address::Contract(*contract)),
    {
        match self {
            Address::Account(_) => false,
            Address::Contract(c) => *c == *contract,
        }
    }
}

/// Who receives a token transfer.
#[derive(Clone, Copy, Debug, PartialEq, Eq, Hash)]
pub enum Receiver {
    Account(AccountAddress),
    Contract(ContractAddress),
}

/// What an operation learns from the call that carries it.
#[derive(Clone, Copy, Debug, PartialEq, Eq)]
pub struct CallContext {
    /// The immediate caller.
    pub sender: Address,
    /// The account that owns this contract instance.
    pub owner: AccountAddress,
    /// The address of this contract instance.
    pub self_address: ContractAddress,
    /// The time of the block, in milliseconds since the Unix epoch.
    pub block_time_millis: u64,
}

impl CallContext {
    /// The time of the block in whole seconds.
    pub open spec fn now(&self) -> u64 {
        self.block_time_millis / 1000
    }

    /// The time of the block in whole seconds.
    pub fn get_current_timestamp(&self) -> (r: u64)
        ensures
            r == self.now(),
    {
        self.block_time_millis / 1000
    }
}

} // verus!
