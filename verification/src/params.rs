//! The parameters of the operations, and the results of the read-only ones.

use vstd::prelude::*;
use crate::types::{AccountAddress, Address, ContractAddress};

verus! {

/// `concordium_std::AccountSignatures`: the signatures that come with a
/// permit. The ledger carries them and never looks inside: whoever checks
/// them against the signer's keys reports the outcome.
#[verifier::external_type_specification]
#[verifier::external_body]
pub struct ExAccountSignatures(concordium_std::AccountSignatures);

/// The annual rate that a new ledger starts with.
pub const INITIAL_APR: u64 = 139;

/// What a new ledger is set up with.
#[derive(Debug, Clone, Copy, PartialEq, Eq)]
pub struct InitContractParams {
    /// The admin of the ledger.
    pub admin: AccountAddress,
    /// The token contract whose tokens are staked.
    pub token_address: ContractAddress,
    /// The delay between a withdrawal request and its payout, in seconds.
    pub unbonding_period: u64,
    /// The share deducted from the payouts of a slashed account, in basis
    /// points.
    pub slashing_rate: u64,
}

/// What the token contract reports when tokens have arrived.
#[derive(Debug, Clone, PartialEq, Eq)]
pub struct DepositParams {
    /// The identifier of the token that arrived. The staked token is the one
    /// with the empty identifier.
    pub token_id: Vec<u8>,
    /// How much arrived.
    pub amount: u64,
    /// Who sent it.
    pub from: Address,
}

/// How much to unstake.
#[derive(Debug, Clone, Copy, PartialEq, Eq, Structural)]
pub struct UnstakeParams {
    pub amount: u64,
}

/// A withdrawal of tokens that the contract holds, by its owner.
#[derive(Debug, Clone, Copy, PartialEq, Eq)]
pub struct WithdrawEuroEParams {
    /// Who receives the tokens.
    pub withdraw_address: AccountAddress,
    /// How much to withdraw.
    pub amount: u64,
}

/// Whether to pause the ledger.
#[derive(Debug, Clone, Copy, PartialEq, Eq, Structural)]
pub struct SetPausedParams {
    pub paused: bool,
}

/// The new annual rate.
#[derive(Debug, Clone, Copy, PartialEq, Eq, Structural)]
pub struct UpdateAprParams {
    pub new_apr: u64,
}

/// The message that a permit signs.
#[derive(Debug, Clone, PartialEq, Eq)]
pub struct PermitMessage {
    /// The contract that the signature is meant for.
    pub contract_address: ContractAddress,
    /// The signer's nonce that the message uses up.
    pub nonce: u64,
    /// The time, in milliseconds, at which the message expires.
    pub timestamp: u64,
    /// The entrypoint that the signature is meant for.
    pub entry_point: String,
    /// The serialized parameter of that entrypoint.
    pub payload: Vec<u8>,
}

/// A permit: a message, who signed it, and the signatures.
#[derive(Debug, PartialEq, Eq)]
pub struct PermitParam {
    pub signature: concordium_std::AccountSignatures,
    pub signer: AccountAddress,
    pub message: PermitMessage,
}

/// The part of a permit that stands before the signed message.
#[derive(Debug, PartialEq, Eq)]
pub struct PermitParamPartial {
    pub signature: concordium_std::AccountSignatures,
    pub signer: AccountAddress,
}

/// Entrypoint names, to be asked whether permits reach them.
#[derive(Debug, Clone, PartialEq, Eq)]
pub struct SupportsPermitQueryParams {
    pub queries: Vec<String>,
}

/// A snapshot of the ledger's global values.
#[derive(Debug, Clone, Copy, PartialEq, Eq)]
pub struct ViewResult {
    pub paused: bool,
    pub admin: AccountAddress,
    pub total_staked: u64,
    pub apr: u64,
    pub token_address: ContractAddress,
    pub total_participants: u64,
    pub total_rewards_paid: u64,
    pub rewards_pool: u64,
}

} // verus!
