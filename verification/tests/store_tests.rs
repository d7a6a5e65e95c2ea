use liquid_staking::account_map::{AccountMap, Entry};
use liquid_staking::admin::only_owner;
use liquid_staking::error::Error;
use liquid_staking::events::{TransferRequest, UpdateAprEvent};
use liquid_staking::ledger::only_account;
use liquid_staking::params::{
    DepositParams, InitContractParams, SetPausedParams, UnstakeParams, UpdateAprParams,
    WithdrawEuroEParams,
};
use liquid_staking::records::{StakeInfo, UnbondingInfo};
use liquid_staking::snapshot::StateParts;
use liquid_staking::state::{copy_queue, State};
use liquid_staking::transaction::Transaction;
use liquid_staking::types::{AccountAddress, Address, CallContext, ContractAddress, Receiver};
use liquid_staking::unbonding::{settlement_payout, split_matured};

const S_ADMIN: AccountAddress = AccountAddress([1u8; 32]);
const S_OWNER: AccountAddress = AccountAddress([2u8; 32]);
const S_A: AccountAddress = AccountAddress([30u8; 32]);
const S_B: AccountAddress = AccountAddress([31u8; 32]);
const S_C: AccountAddress = AccountAddress([32u8; 32]);
const S_TOKEN: ContractAddress = ContractAddress { index: 7, subindex: 0 };
const S_THIS: ContractAddress = ContractAddress { index: 9, subindex: 0 };

fn s_ctx(sender: Address, seconds: u64) -> CallContext {
    CallContext { sender, owner: S_OWNER, self_address: S_THIS, block_time_millis: seconds * 1000 }
}

fn record(amount: u64) -> StakeInfo {
    StakeInfo { amount, timestamp: 4, unbonding: vec![], slashed: false, pending_rewards: 1 }
}

fn parts(total_staked: u64, participants: u64, stakes: Vec<Entry<StakeInfo>>) -> StateParts {
    StateParts {
        paused: true,
        admin: S_ADMIN,
        total_staked,
        apr: 200,
        stakes,
        token_address: S_TOKEN,
        total_participants: participants,
        nonces: vec![Entry { key: S_A, value: 3 }, Entry { key: S_C, value: 8 }],
        unbonding_period: 60,
        slashing_rate: 250,
        rewards_pool: 11,
        total_rewards_paid: 12,
    }
}

#[test]
fn account_map_stores_one_value_per_address() {
    let mut m: AccountMap<u64> = AccountMap::new();
    assert_eq!(m.len(), 0);
    assert_eq!(m.get(&S_A), None);
    assert!(!m.contains(&S_A));
    m.insert(S_A, 1);
    m.insert(S_B, 2);
    m.insert(S_A, 3);
    assert_eq!(m.len(), 2);
    assert_eq!(m.get(&S_A), Some(&3));
    assert_eq!(m.get(&S_B), Some(&2));
    assert!(m.contains(&S_B));
    assert_eq!(m.remove(&S_C), None);
    assert_eq!(m.remove(&S_A), Some(3));
    assert_eq!(m.remove(&S_A), None);
    assert_eq!(m.len(), 1);
    assert_eq!(m.get(&S_B), Some(&2));
    assert_eq!(m.entries().len(), 1);
    assert_eq!(m.entries()[0].key, S_B);
    let list = m.into_entries();
    assert_eq!(list.len(), 1);
    assert_eq!(list[0].value, 2);
}

#[test]
fn account_map_tells_addresses_apart_by_every_byte() {
    let mut other = [30u8; 32];
    other[31] = 29;
    let mut m: AccountMap<u64> = AccountMap::new();
    m.insert(S_A, 1);
    assert_eq!(m.get(&AccountAddress(other)), None);
    assert!(!S_A.same(&AccountAddress(other)));
    assert!(S_A.same(&AccountAddress([30u8; 32])));
    other[31] = 30;
    other[0] = 0;
    assert!(!S_A.same(&AccountAddress(other)));
}

#[test]
fn account_map_is_not_made_of_a_list_with_a_repeated_address() {
    let twice = vec![
        Entry { key: S_A, value: 1u64 },
        Entry { key: S_B, value: 2 },
        Entry { key: S_A, value: 3 },
    ];
    assert!(AccountMap::from_entries(twice).is_none());
    let once = vec![Entry { key: S_A, value: 1u64 }, Entry { key: S_B, value: 2 }];
    let m = AccountMap::from_entries(once).unwrap();
    assert_eq!(m.len(), 2);
    assert_eq!(m.get(&S_B), Some(&2));
    assert!(AccountMap::<u64>::from_entries(vec![]).is_some());
}

#[test]
fn ledger_is_put_together_from_valid_parts() {
    let stakes =
        vec![Entry { key: S_A, value: record(40) }, Entry { key: S_B, value: record(2) }];
    let s = State::from_parts(parts(42, 2, stakes)).unwrap();
    let v = s.view_result();
    assert!(v.paused);
    assert_eq!(v.admin, S_ADMIN);
    assert_eq!(v.total_staked, 42);
    assert_eq!(v.apr, 200);
    assert_eq!(v.token_address, S_TOKEN);
    assert_eq!(v.total_participants, 2);
    assert_eq!(v.rewards_pool, 11);
    assert_eq!(v.total_rewards_paid, 12);
    assert_eq!(s.unbonding_period(), 60);
    assert_eq!(s.slashing_rate(), 250);
    assert_eq!(s.get_user_stake(&S_A), (40, 4));
    assert_eq!(s.get_user_stake(&S_B), (2, 4));
    assert_eq!(s.get_user_nonce(&S_A), 3);
    assert_eq!(s.get_user_nonce(&S_B), 0);
    assert_eq!(s.get_user_nonce(&S_C), 8);
}

#[test]
fn ledger_is_not_put_together_from_parts_that_disagree() {
    let stakes =
        || vec![Entry { key: S_A, value: record(40) }, Entry { key: S_B, value: record(2) }];
    // The total is not the sum of the principals.
    assert!(State::from_parts(parts(41, 2, stakes())).is_none());
    assert!(State::from_parts(parts(43, 2, stakes())).is_none());
    // The participants are miscounted.
    assert!(State::from_parts(parts(42, 1, stakes())).is_none());
    assert!(State::from_parts(parts(42, 3, stakes())).is_none());
    // An account has two records.
    let twice =
        vec![Entry { key: S_A, value: record(40) }, Entry { key: S_A, value: record(2) }];
    assert!(State::from_parts(parts(42, 2, twice)).is_none());
    // An account has two nonces.
    let mut p = parts(42, 2, stakes());
    p.nonces = vec![Entry { key: S_A, value: 3 }, Entry { key: S_A, value: 3 }];
    assert!(State::from_parts(p).is_none());
    // A sum beyond 64 bits is no total.
    let huge = vec![
        Entry { key: S_A, value: record(u64::MAX) },
        Entry { key: S_B, value: record(1) },
    ];
    assert!(State::from_parts(parts(0, 2, huge)).is_none());
    assert!(State::from_parts(parts(42, 2, stakes())).is_some());
}

#[test]
fn ledger_survives_being_taken_apart() {
    let mut s = State::new(&InitContractParams {
        admin: S_ADMIN,
        token_address: S_TOKEN,
        unbonding_period: 100,
        slashing_rate: 500,
    });
    let token = s_ctx(Address::Contract(S_TOKEN), 5);
    for (who, amount) in [(S_A, 100u64), (S_B, 200), (S_C, 300)] {
        let d = DepositParams { token_id: vec![], amount, from: Address::Account(who) };
        assert!(s.deposit(&token, &d).is_ok());
    }
    assert!(s
        .request_unstake(&s_ctx(Address::Account(S_B), 6), &UnstakeParams { amount: 50 })
        .is_ok());
    assert!(s.immediate_unstake_and_settle(&s_ctx(Address::Account(S_A), 7), S_A, 100).is_ok());
    let before = s.view_result();
    let p = s.into_parts();
    assert_eq!(p.total_staked, 450);
    assert_eq!(p.total_participants, 2);
    assert_eq!(p.stakes.len(), 2);
    let sum: u64 = p.stakes.iter().map(|e| e.value.amount).sum();
    assert_eq!(sum, 450);
    let again = State::from_parts(p).unwrap();
    assert_eq!(again.view_result(), before);
    assert_eq!(again.get_user_stake(&S_A), (0, 0));
    assert_eq!(again.get_user_stake(&S_B), (150, 5));
    assert_eq!(again.get_user_stake(&S_C), (300, 5));
    assert_eq!(
        again.get_stake_info(6, &S_B).unbonding,
        vec![UnbondingInfo { amount: 50, unlock_time: 106 }]
    );
}

#[test]
fn queue_splits_into_matured_and_pending() {
    let queue = vec![
        UnbondingInfo { amount: 1, unlock_time: 10 },
        UnbondingInfo { amount: 2, unlock_time: 30 },
        UnbondingInfo { amount: 4, unlock_time: 20 },
        UnbondingInfo { amount: 8, unlock_time: 21 },
        UnbondingInfo { amount: 16, unlock_time: 0 },
    ];
    let s = split_matured(&queue, 20);
    assert_eq!(s.matured_count, 3);
    assert_eq!(s.matured_total, 21);
    assert_eq!(
        s.remaining,
        vec![
            UnbondingInfo { amount: 2, unlock_time: 30 },
            UnbondingInfo { amount: 8, unlock_time: 21 },
        ]
    );
    let none = split_matured(&queue, u64::MAX);
    assert_eq!((none.matured_count, none.matured_total), (5, 31));
    assert!(none.remaining.is_empty());
    let empty = split_matured(&vec![], 5);
    assert_eq!((empty.matured_count, empty.matured_total), (0, 0));
    assert!(empty.remaining.is_empty());
    let wide = vec![UnbondingInfo { amount: u64::MAX, unlock_time: 0 }; 3];
    assert_eq!(split_matured(&wide, 0).matured_total, 3 * (u64::MAX as u128));
    assert_eq!(copy_queue(&queue), queue);
}

#[test]
fn slashed_payout_deducts_the_rate() {
    // Five percent of the matured amount is withheld, rounded down.
    assert_eq!(settlement_payout(10_000, true, 500), 9_500);
    assert_eq!(settlement_payout(1_000_003, true, 500), 1_000_003 - 50_000);
    assert_eq!(settlement_payout(19, true, 500), 19);
    assert_eq!(settlement_payout(20, true, 500), 19);
    assert_eq!(settlement_payout(u64::MAX, true, 500), u64::MAX - u64::MAX / 20);
    assert_eq!(settlement_payout(777, true, 0), 777);
    assert_eq!(settlement_payout(777, true, 10_000), 0);
    // An account that is not slashed is paid in full, whatever the rate.
    assert_eq!(settlement_payout(10_000, false, 500), 10_000);
    assert_eq!(settlement_payout(10_000, false, u64::MAX), 10_000);
}

#[test]
fn only_account_lets_accounts_through() {
    assert_eq!(only_account(&Address::Account(S_A)), Ok(S_A));
    assert_eq!(only_account(&Address::Contract(S_THIS)), Err(Error::OnlyAccount));
}

#[test]
fn addresses_match_their_own_kind_only() {
    assert!(Address::Account(S_A).matches_account(&S_A));
    assert!(!Address::Account(S_A).matches_account(&S_B));
    assert!(!Address::Contract(S_THIS).matches_account(&S_A));
    assert!(Address::Contract(S_THIS).matches_contract(&S_THIS));
    assert!(!Address::Contract(S_THIS).matches_contract(&S_TOKEN));
    assert!(!Address::Contract(S_THIS).matches_contract(&ContractAddress { index: 9, subindex: 1 }));
    assert!(!Address::Account(S_A).matches_contract(&S_THIS));
}

#[test]
fn owner_operations_are_for_the_owner() {
    let mut s = State::new(&InitContractParams {
        admin: S_ADMIN,
        token_address: S_TOKEN,
        unbonding_period: 100,
        slashing_rate: 500,
    });
    let owner = s_ctx(Address::Account(S_OWNER), 12);
    let admin = s_ctx(Address::Account(S_ADMIN), 12);
    let contract = s_ctx(Address::Contract(S_THIS), 12);
    let pause = SetPausedParams { paused: true };
    assert_eq!(s.set_paused(&admin, &pause), Err(Error::UnAuthorized));
    assert_eq!(s.set_paused(&contract, &pause), Err(Error::UnAuthorized));
    assert!(!s.view_result().paused);
    assert_eq!(s.set_paused(&owner, &pause), Ok(()));
    assert!(s.view_result().paused);
    let rate = UpdateAprParams { new_apr: 275 };
    assert_eq!(s.update_apr(&admin, &rate), Err(Error::UnAuthorized));
    assert_eq!(s.view_result().apr, 139);
    assert_eq!(
        s.update_apr(&owner, &rate),
        Ok(UpdateAprEvent { new_apr: 275, update_timestamp: 12 })
    );
    assert_eq!(s.view_result().apr, 275);
    let w = WithdrawEuroEParams { withdraw_address: S_A, amount: 33 };
    assert_eq!(s.withdraw_token(&admin, &w), Err(Error::UnAuthorized));
    assert_eq!(
        s.withdraw_token(&owner, &w),
        Ok(TransferRequest {
            from: Address::Contract(S_THIS),
            to: Receiver::Account(S_A),
            amount: 33,
            check_balance: true,
        })
    );
    assert_eq!(s.only_admin(&admin), Ok(()));
    assert_eq!(s.only_admin(&owner), Err(Error::OnlyAdmin));
    assert_eq!(s.only_admin(&contract), Err(Error::OnlyAdmin));
}

#[test]
fn new_rate_applies_to_rewards_not_yet_rolled_in() {
    let mut s = State::new(&InitContractParams {
        admin: S_ADMIN,
        token_address: S_TOKEN,
        unbonding_period: 100,
        slashing_rate: 500,
    });
    let d = DepositParams { token_id: vec![], amount: 1_000_000, from: Address::Account(S_A) };
    assert!(s.deposit(&s_ctx(Address::Contract(S_TOKEN), 0), &d).is_ok());
    assert_eq!(s.get_earned_rewards(31_536_000, &S_A), 13_900);
    let rate = UpdateAprParams { new_apr: 278 };
    assert!(s.update_apr(&s_ctx(Address::Account(S_OWNER), 0), &rate).is_ok());
    assert_eq!(s.get_earned_rewards(31_536_000, &S_A), 27_800);
}

#[test]
fn guards_let_the_right_caller_through() {
    let mut s = State::new(&InitContractParams {
        admin: S_ADMIN,
        token_address: S_TOKEN,
        unbonding_period: 100,
        slashing_rate: 500,
    });
    let owner = s_ctx(Address::Account(S_OWNER), 0);
    let admin = s_ctx(Address::Account(S_ADMIN), 0);
    let token = s_ctx(Address::Contract(S_TOKEN), 0);
    assert_eq!(only_owner(&owner), Ok(()));
    assert_eq!(only_owner(&admin), Err(Error::UnAuthorized));
    assert_eq!(only_owner(&token), Err(Error::UnAuthorized));
    assert_eq!(s.only_token_contract(&token), Ok(()));
    assert_eq!(s.only_token_contract(&s_ctx(Address::Contract(S_THIS), 0)), Err(Error::NotTokenContract));
    assert_eq!(s.only_token_contract(&admin), Err(Error::NotTokenContract));
    assert_eq!(s.ensure_not_paused(), Ok(()));
    assert!(s.set_paused(&owner, &SetPausedParams { paused: true }).is_ok());
    assert_eq!(s.ensure_not_paused(), Err(Error::ContractPaused));
}

#[test]
fn entries_list_every_record_once() {
    let mut s = State::new(&InitContractParams {
        admin: S_ADMIN,
        token_address: S_TOKEN,
        unbonding_period: 100,
        slashing_rate: 500,
    });
    let token = s_ctx(Address::Contract(S_TOKEN), 5);
    for (who, amount) in [(S_A, 100u64), (S_B, 200), (S_A, 1)] {
        let d = DepositParams { token_id: vec![], amount, from: Address::Account(who) };
        assert!(s.deposit(&token, &d).is_ok());
    }
    let stakes = s.stake_entries();
    assert_eq!(stakes.len(), 2);
    let a = stakes.iter().find(|e| e.key == S_A).unwrap();
    let b = stakes.iter().find(|e| e.key == S_B).unwrap();
    assert_eq!((a.value.amount, b.value.amount), (101, 200));
    assert!(s.nonce_entries().is_empty());
}

fn staked(amount: u64) -> State {
    let mut s = State::new(&InitContractParams {
        admin: S_ADMIN,
        token_address: S_TOKEN,
        unbonding_period: 100,
        slashing_rate: 500,
    });
    let d = DepositParams { token_id: vec![], amount, from: Address::Account(S_A) };
    assert!(s.deposit(&s_ctx(Address::Contract(S_TOKEN), 0), &d).is_ok());
    assert!(s
        .request_unstake(&s_ctx(Address::Account(S_A), 0), &UnstakeParams { amount: 10 })
        .is_ok());
    s
}

#[test]
fn duplicate_holds_the_same_and_shares_nothing() {
    let s = staked(1_000);
    let mut copy = s.duplicate();
    assert_eq!(copy.view_result(), s.view_result());
    assert_eq!(copy.get_stake_info(0, &S_A), s.get_stake_info(0, &S_A));
    assert!(copy.immediate_unstake_and_settle(&s_ctx(Address::Account(S_A), 0), S_A, 990).is_ok());
    assert_eq!(copy.view_result().total_staked, 0);
    assert_eq!(s.view_result().total_staked, 990);
    assert_eq!(s.get_stake_info(0, &S_A).unbonding.len(), 1);
}

#[test]
fn transaction_commits_only_after_the_transfer_succeeded() {
    let mut tx = Transaction::begin(staked(1_000));
    let request = tx.staged.settle_matured(&s_ctx(Address::Account(S_A), 100)).unwrap();
    assert_eq!(request.amount, 10);
    // The ledger as it was is untouched while the transfer is under way.
    assert_eq!(tx.committed.get_stake_info(100, &S_A).unbonding.len(), 1);
    let (ledger, result) = tx.conclude(Ok(()));
    assert_eq!(result, Ok(()));
    assert!(ledger.get_stake_info(100, &S_A).unbonding.is_empty());
}

#[test]
fn transaction_discards_what_was_staged_when_the_transfer_fails() {
    let mut tx = Transaction::begin(staked(1_000));
    assert!(tx.staged.settle_matured(&s_ctx(Address::Account(S_A), 100)).is_ok());
    let (ledger, result) = tx.conclude(Err(Error::InsufficientFunds));
    assert_eq!(result, Err(Error::InsufficientFunds));
    assert_eq!(
        ledger.get_stake_info(100, &S_A).unbonding,
        vec![UnbondingInfo { amount: 10, unlock_time: 100 }]
    );
    assert_eq!(ledger.view_result().total_staked, 990);
}
