//! Stake records, and the sum of the principals of a set of records.

use vstd::prelude::*;
use crate::types::AccountAddress;

verus! {

/// One withdrawal request: an amount that leaves the principal at once and
/// can be paid out from `unlock_time` on.
#[derive(Debug, Clone, Copy, PartialEq, Eq, Hash, Structural)]
pub struct UnbondingInfo {
    /// The amount to pay out.
    pub amount: u64,
    /// The time, in seconds, from which the amount can be paid out.
    pub unlock_time: u64,
}

/// What the ledger holds for one account.
#[derive(Debug, Clone, PartialEq, Eq)]
pub struct StakeInfo {
    /// The principal: what is staked and earns rewards.
    pub amount: u64,
    /// The checkpoint: the time, in seconds, up to which rewards were rolled
    /// into `pending_rewards`.
    pub timestamp: u64,
    /// The withdrawal requests that were not paid out yet, oldest first.
    pub unbonding: Vec<UnbondingInfo>,
    /// Whether the account is slashed.
    pub slashed: bool,
    /// Rewards accrued up to the checkpoint and not claimed yet.
    pub pending_rewards: u64,
}

/// A stake record as a mathematical value.
pub struct StakeInfoView {
    pub amount: u64,
    pub timestamp: u64,
    pub unbonding: Seq<UnbondingInfo>,
    pub slashed: bool,
    pub pending_rewards: u64,
}

impl View for StakeInfo {
    type V = StakeInfoView;

    open spec fn view(&self) -> StakeInfoView {
        StakeInfoView {
            amount: self.amount,
            timestamp: self.timestamp,
            unbonding: self.unbonding@,
            slashed: self.slashed,
            pending_rewards: self.pending_rewards,
        }
    }
}

/// The sum of the principals of the records in `stakes`.
pub open spec fn total_principal(stakes: Map<AccountAddress, StakeInfoView>) -> nat
    decreases stakes.dom().len(),
    when stakes.dom().finite()
{
    if stakes.dom().len() == 0 {
        0
    } else {
        let account = stakes.dom().choose();
        stakes[account].amount as nat + total_principal(stakes.remove(account))
    }
}

/// The sum can be taken with any one record set apart.
pub proof fn lemma_total_principal_remove(
    stakes: Map<AccountAddress, StakeInfoView>,
    account: AccountAddress,
)
    requires
        stakes.dom().finite(),
        stakes.contains_key(account),
    ensures
        total_principal(stakes) == stakes[account].amount + total_principal(stakes.remove(account)),
    decreases stakes.dom().len(),
{
    let first = stakes.dom().choose();
    if first != account {
        lemma_total_principal_remove(stakes.remove(first), account);
        lemma_total_principal_remove(stakes.remove(account), first);
        assert(stakes.remove(first).remove(account) =~= stakes.remove(account).remove(first));
    }
}

/// Storing a record replaces the principal that the account had in the sum.
pub proof fn lemma_total_principal_insert(
    stakes: Map<AccountAddress, StakeInfoView>,
    account: AccountAddress,
    record: StakeInfoView,
)
    requires
        stakes.dom().finite(),
    ensures
        total_principal(stakes.insert(account, record)) == total_principal(stakes.remove(account))
            + record.amount,
        !stakes.contains_key(account) ==> total_principal(stakes.insert(account, record))
            == total_principal(stakes) + record.amount,
        stakes.contains_key(account) ==> total_principal(stakes.insert(account, record))
            == total_principal(stakes) - stakes[account].amount + record.amount,
{
    let stored = stakes.insert(account, record);
    lemma_total_principal_remove(stored, account);
    assert(stored.remove(account) =~= stakes.remove(account));
    if stakes.contains_key(account) {
        lemma_total_principal_remove(stakes, account);
    } else {
        assert(stakes.remove(account) =~= stakes);
    }
}

/// No record's principal exceeds the sum.
pub proof fn lemma_principal_within_total(
    stakes: Map<AccountAddress, StakeInfoView>,
    account: AccountAddress,
)
    requires
        stakes.dom().finite(),
        stakes.contains_key(account),
    ensures
        stakes[account].amount <= total_principal(stakes),
{
    lemma_total_principal_remove(stakes, account);
}

} // verus!
