//! The ledger taken apart into plain values, to be stored between calls, and
//! put together again.

use vstd::prelude::*;
use crate::account_map::{
    distinct_keys, entries_map, lemma_entries_map_finite, lemma_entries_map_keys,
    lemma_entries_map_len, lemma_entries_map_value, AccountMap, Entry,
};
use crate::model::StateView;
use crate::records::{lemma_total_principal_insert, total_principal, StakeInfo};
use crate::state::{copy_queue, record_views, State};
use crate::types::{AccountAddress, ContractAddress};

verus! {

/// All that a ledger holds, as plain values.
#[derive(Debug, Clone, PartialEq, Eq)]
pub struct StateParts {
    pub paused: bool,
    pub admin: AccountAddress,
    pub total_staked: u64,
    pub apr: u64,
    pub stakes: Vec<Entry<StakeInfo>>,
    pub token_address: ContractAddress,
    pub total_participants: u64,
    pub nonces: Vec<Entry<u64>>,
    pub unbonding_period: u64,
    pub slashing_rate: u64,
    pub rewards_pool: u64,
    pub total_rewards_paid: u64,
}

/// The sum of the principals of a list of records.
pub open spec fn principal_sum(entries: Seq<Entry<StakeInfo>>) -> nat
    decreases entries.len(),
{
    if entries.len() == 0 {
        0
    } else {
        principal_sum(entries.drop_last()) + entries.last().value.amount as nat
    }
}

/// For a list in which no account occurs twice, the sum over the list is the
/// sum over the records that the list stands for.
pub proof fn lemma_principal_sum_is_total(entries: Seq<Entry<StakeInfo>>)
    requires
        distinct_keys(entries),
    ensures
        record_views(entries_map(entries)).dom().finite(),
        total_principal(record_views(entries_map(entries))) == principal_sum(entries),
    decreases entries.len(),
{
    lemma_entries_map_finite(entries);
    assert(record_views(entries_map(entries)).dom() =~= entries_map(entries).dom());
    if entries.len() == 0 {
        assert(record_views(entries_map(entries)).dom() =~= Set::<AccountAddress>::empty());
    } else {
        let front = entries.drop_last();
        let last = entries.last();
        assert(distinct_keys(front)) by {
            assert forall|a: int, b: int| 0 <= a < b < front.len() implies (#[trigger] front[a]).key
                != (#[trigger] front[b]).key by {
                assert(entries[a].key != entries[b].key);
            }
        }
        lemma_principal_sum_is_total(front);
        lemma_entries_map_keys(front, last.key);
        if entries_map(front).contains_key(last.key) {
            let i = choose|i: int| 0 <= i < front.len() && (#[trigger] front[i]).key == last.key;
            assert(entries[i].key != entries[entries.len() - 1].key);
            assert(front[i] == entries[i]);
        }
        assert(record_views(entries_map(entries)) =~= record_views(entries_map(front)).insert(
            last.key,
            last.value@,
        ));
        lemma_total_principal_insert(record_views(entries_map(front)), last.key, last.value@);
    }
}

/// Two lists that hold the same accounts with the same records, place by
/// place, stand for the same records.
pub proof fn lemma_same_records(a: Seq<Entry<StakeInfo>>, b: Seq<Entry<StakeInfo>>)
    requires
        distinct_keys(a),
        a.len() == b.len(),
        forall|j: int|
            0 <= j < a.len() ==> (#[trigger] b[j]).key == a[j].key && b[j].value@ == a[j].value@,
    ensures
        distinct_keys(b),
        record_views(entries_map(b)) == record_views(entries_map(a)),
{
    assert(distinct_keys(b)) by {
        assert forall|i: int, j: int| 0 <= i < j < b.len() implies (#[trigger] b[i]).key != (
        #[trigger] b[j]).key by {
            assert(a[i].key != a[j].key);
        }
    }
    assert forall|k: AccountAddress|
        entries_map(b).contains_key(k) == entries_map(a).contains_key(k) by {
        lemma_entries_map_keys(a, k);
        lemma_entries_map_keys(b, k);
        if exists|i: int| 0 <= i < a.len() && (#[trigger] a[i]).key == k {
            let i = choose|i: int| 0 <= i < a.len() && (#[trigger] a[i]).key == k;
            assert(b[i].key == k);
        }
        if exists|i: int| 0 <= i < b.len() && (#[trigger] b[i]).key == k {
            let i = choose|i: int| 0 <= i < b.len() && (#[trigger] b[i]).key == k;
            assert(a[i].key == k);
        }
    }
    assert forall|k: AccountAddress| entries_map(a).contains_key(k) implies entries_map(b)[k]@
        == entries_map(a)[k]@ by {
        lemma_entries_map_keys(a, k);
        let i = choose|i: int| 0 <= i < a.len() && (#[trigger] a[i]).key == k;
        assert(b[i].key == k);
        lemma_entries_map_value(a, i);
        lemma_entries_map_value(b, i);
    }
    assert(record_views(entries_map(b)) =~= record_views(entries_map(a)));
}

impl StateParts {
    /// The parts make a ledger: no account occurs twice among the records or
    /// among the nonces, the total staked is the sum of the principals, and
    /// the participants are counted.
    pub open spec fn valid(&self) -> bool {
        &&& distinct_keys(self.stakes@)
        &&& distinct_keys(self.nonces@)
        &&& self.total_staked == principal_sum(self.stakes@)
        &&& self.total_participants == self.stakes@.len()
    }

    /// The ledger that the parts make.
    pub open spec fn ledger(&self) -> StateView {
        StateView {
            paused: self.paused,
            admin: self.admin,
            total_staked: self.total_staked,
            apr: self.apr,
            stakes: record_views(entries_map(self.stakes@)),
            token_address: self.token_address,
            total_participants: self.total_participants,
            nonces: entries_map(self.nonces@),
            unbonding_period: self.unbonding_period,
            slashing_rate: self.slashing_rate,
            rewards_pool: self.rewards_pool,
            total_rewards_paid: self.total_rewards_paid,
        }
    }
}

fn sum_principals(entries: &Vec<Entry<StakeInfo>>) -> (sum: u128)
    ensures
        sum == principal_sum(entries@),
{
    let mut sum: u128 = 0;
    let mut i: usize = 0;
    assert(entries@.take(0) =~= Seq::<Entry<StakeInfo>>::empty());
    while i < entries.len()
        invariant
            i <= entries@.len(),
            sum == principal_sum(entries@.take(i as int)),
            sum <= i * u64::MAX,
        decreases entries@.len() - i,
    {
        proof {
            assert(entries@.take(i + 1).drop_last() =~= entries@.take(i as int));
            assert((i + 1) * u64::MAX == i * u64::MAX + u64::MAX) by (nonlinear_arith);
            assert(i * u64::MAX + u64::MAX <= u128::MAX) by (nonlinear_arith)
                requires
                    i <= u64::MAX,
            ;
        }
        sum += entries[i].value.amount as u128;
        i += 1;
    }
    assert(entries@.take(i as int) =~= entries@);
    sum
}

impl State {
    /// Puts a ledger together from its parts, where they make one.
    pub fn from_parts(parts: StateParts) -> (r: Option<State>)
        ensures
            match r {
                Some(state) => parts.valid() && state.wf() && state@ == parts.ledger(),
                None => !parts.valid(),
            },
    {
        let sum: u128 = sum_principals(&parts.stakes);
        if sum != parts.total_staked as u128 {
            return None;
        }
        if parts.stakes.len() as u64 != parts.total_participants {
            return None;
        }
        let ghost stakes_list = parts.stakes@;
        let ghost nonces_list = parts.nonces@;
        let stakes = match AccountMap::from_entries(parts.stakes) {
            Some(stakes) => stakes,
            None => {
                return None;
            },
        };
        let nonces_registry = match AccountMap::from_entries(parts.nonces) {
            Some(nonces) => nonces,
            None => {
                return None;
            },
        };
        let state = State {
            paused: parts.paused,
            admin: parts.admin,
            total_staked: parts.total_staked,
            apr: parts.apr,
            stakes,
            token_address: parts.token_address,
            total_participants: parts.total_participants,
            nonces_registry,
            unbonding_period: parts.unbonding_period,
            slashing_rate: parts.slashing_rate,
            rewards_pool: parts.rewards_pool,
            total_rewards_paid: parts.total_rewards_paid,
        };
        proof {
            lemma_principal_sum_is_total(stakes_list);
            lemma_entries_map_len(stakes_list);
            assert(state@.stakes.dom() =~= entries_map(stakes_list).dom());
            assert(state@ =~= parts.ledger());
        }
        Some(state)
    }

    /// Takes the ledger apart into its parts.
    pub fn into_parts(self) -> (parts: StateParts)
        requires
            self.wf(),
        ensures
            parts.valid(),
            parts.ledger() == self@,
    {
        let ghost view = self@;
        let stakes = self.stakes.into_entries();
        let nonces = self.nonces_registry.into_entries();
        let parts = StateParts {
            paused: self.paused,
            admin: self.admin,
            total_staked: self.total_staked,
            apr: self.apr,
            stakes,
            token_address: self.token_address,
            total_participants: self.total_participants,
            nonces,
            unbonding_period: self.unbonding_period,
            slashing_rate: self.slashing_rate,
            rewards_pool: self.rewards_pool,
            total_rewards_paid: self.total_rewards_paid,
        };
        proof {
            lemma_principal_sum_is_total(stakes@);
            lemma_entries_map_len(stakes@);
            assert(view.stakes.dom() =~= entries_map(stakes@).dom());
            assert(parts.ledger() =~= view);
        }
        parts
    }

    /// The stake records, one entry for each account that has one, in no
    /// order that callers can rely on.
    pub fn stake_entries(&self) -> (list: &Vec<Entry<StakeInfo>>)
        requires
            self.wf(),
        ensures
            distinct_keys(list@),
            record_views(entries_map(list@)) == self@.stakes,
            principal_sum(list@) == self@.total_staked,
            list@.len() == self@.total_participants,
    {
        let list = self.stakes.entries();
        proof {
            lemma_principal_sum_is_total(list@);
            lemma_entries_map_len(list@);
            assert(self@.stakes.dom() =~= entries_map(list@).dom());
        }
        list
    }

    /// The nonces, one entry for each account that has used a permit, in no
    /// order that callers can rely on.
    pub fn nonce_entries(&self) -> (list: &Vec<Entry<u64>>)
        requires
            self.wf(),
        ensures
            distinct_keys(list@),
            entries_map(list@) == self@.nonces,
    {
        self.nonces_registry.entries()
    }

    /// A second ledger that holds what this one holds.
    pub fn duplicate(&self) -> (copy: State)
        requires
            self.wf(),
        ensures
            copy.wf(),
            copy@ == self@,
    {
        let stakes = self.stakes.entries();
        let mut stakes_copy: Vec<Entry<StakeInfo>> = Vec::new();
        let mut i: usize = 0;
        while i < stakes.len()
            invariant
                i <= stakes@.len(),
                stakes_copy@.len() == i,
                forall|j: int|
                    0 <= j < i ==> (#[trigger] stakes_copy@[j]).key == stakes@[j].key
                        && stakes_copy@[j].value@ == stakes@[j].value@,
            decreases stakes@.len() - i,
        {
            let held = &stakes[i].value;
            stakes_copy.push(
                Entry {
                    key: stakes[i].key,
                    value: StakeInfo {
                        amount: held.amount,
                        timestamp: held.timestamp,
                        unbonding: copy_queue(&held.unbonding),
                        slashed: held.slashed,
                        pending_rewards: held.pending_rewards,
                    },
                },
            );
            i += 1;
        }
        let nonces = self.nonces_registry.entries();
        let mut nonces_copy: Vec<Entry<u64>> = Vec::new();
        let mut k: usize = 0;
        while k < nonces.len()
            invariant
                k <= nonces@.len(),
                nonces_copy@ == nonces@.take(k as int),
            decreases nonces@.len() - k,
        {
            nonces_copy.push(Entry { key: nonces[k].key, value: nonces[k].value });
            assert(nonces@.take(k + 1) =~= nonces@.take(k as int).push(nonces@[k as int]));
            k += 1;
        }
        proof {
            assert(nonces@.take(k as int) =~= nonces@);
            assert(distinct_keys(stakes_copy@)) by {
                assert forall|a: int, b: int| 0 <= a < b < stakes_copy@.len() implies (
                #[trigger] stakes_copy@[a]).key != (#[trigger] stakes_copy@[b]).key by {
                    assert(stakes@[a].key != stakes@[b].key);
                }
            }
            lemma_same_records(stakes@, stakes_copy@);
        }
        let copy = State {
            paused: self.paused,
            admin: self.admin,
            total_staked: self.total_staked,
            apr: self.apr,
            stakes: AccountMap::from_distinct_entries(stakes_copy),
            token_address: self.token_address,
            total_participants: self.total_participants,
            nonces_registry: AccountMap::from_distinct_entries(nonces_copy),
            unbonding_period: self.unbonding_period,
            slashing_rate: self.slashing_rate,
            rewards_pool: self.rewards_pool,
            total_rewards_paid: self.total_rewards_paid,
        };
        assert(copy@ =~= self@);
        copy
    }
}

} // verus!
