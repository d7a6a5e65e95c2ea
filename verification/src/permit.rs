//! Permits: operations that an account signs and anyone may submit, each
//! using up one nonce of the signer.

use vstd::prelude::*;
use crate::error::{CheckAccountSignatureError, Error};
use crate::events::{
    ClaimEvent, Event, NonceEvent, PermitOutcome, TransferRequest, UnstakeEvent,
};
use crate::model::StateView;
use crate::params::{PermitMessage, PermitParam, SupportsPermitQueryParams};
use crate::state::State;
use crate::types::{AccountAddress, Address, CallContext, Receiver};

verus! {

/// The amount that the token standard's encoding gives for the bytes:
/// unsigned LEB128, read from their start. `None` where they do not parse.
pub uninterp spec fn cis2_token_amount(bytes: Seq<u8>) -> Option<u64>;

/// One of the first ten bytes is the last of an encoding, or there are no
/// more than ten. An amount of 64 bits never takes more than ten bytes.
pub open spec fn encoding_ends(bytes: Seq<u8>) -> bool {
    bytes.len() <= 10 || exists|i: int| 0 <= i < 10 && #[trigger] bytes[i] < 128
}

/// Reads an amount with `concordium_std::from_bytes`, as
/// `concordium_cis2::TokenAmountU64`. Trusted: the result depends on the
/// bytes alone. Left out are the inputs on which the outside code shifts by
/// 64 bits or more: eleven bytes or more of which the first ten all announce
/// another.
#[verifier::external_body]
pub(crate) fn read_token_amount(bytes: &[u8]) -> (r: Option<u64>)
    requires
        encoding_ends(bytes@),
    ensures
        r == cis2_token_amount(bytes@),
{
    match concordium_std::from_bytes::<concordium_cis2::TokenAmountU64>(bytes) {
        Ok(amount) => Some(amount.0),
        Err(_) => None,
    }
}

/// The amount that the payload of an unstake permit names; `None` where the
/// payload does not parse, or runs to more than ten bytes without an end.
pub open spec fn unstake_amount_of(payload: Seq<u8>) -> Option<u64> {
    if encoding_ends(payload) {
        cis2_token_amount(payload)
    } else {
        None
    }
}

/// Reads the amount that the payload of an unstake permit names.
pub fn decode_unstake_amount(payload: &[u8]) -> (r: Option<u64>)
    ensures
        r == unstake_amount_of(payload@),
{
    if payload.len() > 10 {
        let mut i: usize = 0;
        let mut ends = false;
        while i < 10 && !ends
            invariant
                i <= 10,
                payload@.len() > 10,
                ends ==> encoding_ends(payload@),
                !ends ==> forall|j: int| 0 <= j < i ==> #[trigger] payload@[j] >= 128,
            decreases 10 - i + (if ends { 0int } else { 1int }),
        {
            if payload[i] < 128 {
                ends = true;
            } else {
                i += 1;
            }
        }
        if !ends {
            return None;
        }
    }
    read_token_amount(payload)
}

/// Whether permits reach the entrypoint of this name: only `unstake` and
/// `claimRewards`.
pub open spec fn permits_reach(entry_point: Seq<char>) -> bool {
    entry_point == "unstake"@ || entry_point == "claimRewards"@
}

/// For each name asked, whether permits reach it.
pub fn supports_permit(params: &SupportsPermitQueryParams) -> (response: Vec<bool>)
    ensures
        response@.len() == params.queries@.len(),
        forall|i: int|
            0 <= i < response@.len() ==> response@[i] == permits_reach(
                #[trigger] params.queries@[i]@,
            ),
{
    let unstake: String = "unstake".to_owned();
    let claim_rewards: String = "claimRewards".to_owned();
    let mut response: Vec<bool> = Vec::new();
    let mut i: usize = 0;
    while i < params.queries.len()
        invariant
            i <= params.queries@.len(),
            unstake@ == "unstake"@,
            claim_rewards@ == "claimRewards"@,
            response@.len() == i,
            forall|j: int|
                0 <= j < i ==> response@[j] == permits_reach(#[trigger] params.queries@[j]@),
        decreases params.queries@.len() - i,
    {
        let supported = params.queries[i] == unstake || params.queries[i] == claim_rewards;
        response.push(supported);
        i += 1;
    }
    response
}

impl StateView {
    /// Why a permit is refused, if it is. `signature_check` is what the check
    /// of the signatures against the signer's keys has given, and
    /// `unstake_amount` what the payload names as an amount. The checks come
    /// in this order: the ledger is not paused; the nonce is the signer's
    /// next; the message is for this contract; it has not expired; the
    /// signatures could be checked; they are the signer's; the entrypoint is
    /// one that permits reach, its payload parses, and the operation itself
    /// is not refused.
    pub open spec fn permit_error(
        self,
        ctx: CallContext,
        signer: AccountAddress,
        message: PermitMessage,
        signature_check: Result<bool, CheckAccountSignatureError>,
        unstake_amount: Option<u64>,
    ) -> Option<Error> {
        if self.paused {
            Some(Error::ContractPaused)
        } else if message.nonce != self.nonce_of(signer) {
            Some(Error::NonceMismatch)
        } else if message.contract_address != ctx.self_address {
            Some(Error::WrongContract)
        } else if message.timestamp <= ctx.block_time_millis {
            Some(Error::Expired)
        } else if signature_check == Err::<bool, CheckAccountSignatureError>(
            CheckAccountSignatureError::MissingAccount,
        ) {
            Some(Error::MissingAccount)
        } else if signature_check == Err::<bool, CheckAccountSignatureError>(
            CheckAccountSignatureError::MalformedData,
        ) {
            Some(Error::MalformedData)
        } else if signature_check == Ok::<bool, CheckAccountSignatureError>(false) {
            Some(Error::WrongSignature)
        } else if message.entry_point@ == "unstake"@ {
            match unstake_amount {
                None => Some(Error::ParseParams),
                Some(amount) => self.immediate_unstake_error(signer, amount, ctx.now()),
            }
        } else if message.entry_point@ == "claimRewards"@ {
            self.claim_error(signer, ctx.now())
        } else {
            Some(Error::WrongEntryPoint)
        }
    }

    /// The ledger after the operation that an accepted permit carries.
    pub open spec fn after_permitted_operation(
        self,
        ctx: CallContext,
        signer: AccountAddress,
        message: PermitMessage,
        unstake_amount: Option<u64>,
    ) -> StateView {
        if message.entry_point@ == "unstake"@ {
            self.after_immediate_unstake(signer, unstake_amount->Some_0)
        } else {
            self.after_claim(signer, ctx.now())
        }
    }

    /// The ledger after an accepted permit: the operation is done, and the
    /// signer's next nonce is one more than the one used.
    pub open spec fn after_permit(
        self,
        ctx: CallContext,
        signer: AccountAddress,
        message: PermitMessage,
        unstake_amount: Option<u64>,
    ) -> StateView {
        StateView {
            nonces: self.nonces.insert(signer, (self.nonce_of(signer) + 1) as u64),
            ..self.after_permitted_operation(ctx, signer, message, unstake_amount)
        }
    }

    /// What an accepted permit leaves to be done: the transfer and the record
    /// of the operation that it carries, and the record of the nonce used.
    pub open spec fn permit_outcome(
        self,
        ctx: CallContext,
        signer: AccountAddress,
        message: PermitMessage,
        unstake_amount: Option<u64>,
    ) -> PermitOutcome {
        let nonce_event = NonceEvent { nonce: self.nonce_of(signer), account: signer };
        if message.entry_point@ == "unstake"@ {
            let amount = unstake_amount->Some_0;
            let earned = self.unstake_reward(signer, amount, ctx.now());
            PermitOutcome {
                transfer: TransferRequest {
                    from: Address::Contract(ctx.self_address),
                    to: Receiver::Account(signer),
                    amount: (amount + earned) as u64,
                    check_balance: true,
                },
                event: Event::Unstaked(
                    UnstakeEvent {
                        user: signer,
                        unstaked_amount: amount,
                        unix_timestamp: ctx.now(),
                        rewards_earned: earned,
                    },
                ),
                nonce_event,
            }
        } else {
            PermitOutcome {
                transfer: TransferRequest {
                    from: Address::Contract(ctx.self_address),
                    to: Receiver::Account(signer),
                    amount: self.claimable(signer, ctx.now()),
                    check_balance: true,
                },
                event: Event::Claimed(
                    ClaimEvent {
                        user: signer,
                        rewards_claimed: self.claimable(signer, ctx.now()),
                        claim_timestamp: ctx.now(),
                    },
                ),
                nonce_event,
            }
        }
    }
}

impl State {
    /// Carries out a permit, given what its payload names as an amount to
    /// unstake. See [`State::permit`].
    pub fn permit_with_amount(
        &mut self,
        ctx: &CallContext,
        param: &PermitParam,
        signature_check: Result<bool, CheckAccountSignatureError>,
        unstake_amount: Option<u64>,
    ) -> (r: Result<PermitOutcome, Error>)
        requires
            old(self).wf(),
            old(self)@.nonce_of(param.signer) < u64::MAX,
        ensures
            final(self).wf(),
            match r {
                Ok(outcome) => {
                    &&& old(self)@.permit_error(
                        *ctx,
                        param.signer,
                        param.message,
                        signature_check,
                        unstake_amount,
                    ) is None
                    &&& final(self)@ == old(self)@.after_permit(
                        *ctx,
                        param.signer,
                        param.message,
                        unstake_amount,
                    )
                    &&& outcome == old(self)@.permit_outcome(
                        *ctx,
                        param.signer,
                        param.message,
                        unstake_amount,
                    )
                },
                Err(e) => old(self)@.permit_error(
                    *ctx,
                    param.signer,
                    param.message,
                    signature_check,
                    unstake_amount,
                ) == Some(e) && final(self)@ == old(self)@,
            },
    {
        if self.paused {
            return Err(Error::ContractPaused);
        }
        let signer: AccountAddress = param.signer;
        let nonce: u64 = self.get_user_nonce(&signer);
        if param.message.nonce != nonce {
            return Err(Error::NonceMismatch);
        }
        if param.message.contract_address != ctx.self_address {
            return Err(Error::WrongContract);
        }
        if param.message.timestamp <= ctx.block_time_millis {
            return Err(Error::Expired);
        }
        match signature_check {
            Err(e) => {
                return Err(Error::from(e));
            },
            Ok(valid) => {
                if !valid {
                    return Err(Error::WrongSignature);
                }
            },
        }
        let unstake: String = "unstake".to_owned();
        let claim_rewards: String = "claimRewards".to_owned();
        let ghost before = self@;
        let (transfer, event) = if param.message.entry_point == unstake {
            let amount: u64 = match unstake_amount {
                Some(amount) => amount,
                None => {
                    return Err(Error::ParseParams);
                },
            };
            match self.immediate_unstake_and_settle(ctx, signer, amount) {
                Ok(outcome) => (outcome.transfer, Event::Unstaked(outcome.event)),
                Err(e) => {
                    return Err(e);
                },
            }
        } else if param.message.entry_point == claim_rewards {
            match self.claim_rewards_for(ctx, signer) {
                Ok(outcome) => (outcome.transfer, Event::Claimed(outcome.event)),
                Err(e) => {
                    return Err(e);
                },
            }
        } else {
            return Err(Error::WrongEntryPoint);
        };
        self.nonces_registry.insert(signer, nonce + 1);
        proof {
            assert(self@ =~= before.after_permit(*ctx, signer, param.message, unstake_amount));
        }
        Ok(PermitOutcome { transfer, event, nonce_event: NonceEvent { nonce, account: signer } })
    }

    /// Carries out a permit: an operation that `param.signer` has signed and
    /// anyone may submit. `signature_check` is what the check of the
    /// signatures against the signer's keys has given, over the hash of the
    /// message. An accepted permit uses up the signer's nonce; a refused one
    /// changes nothing, the nonce included.
    pub fn permit(
        &mut self,
        ctx: &CallContext,
        param: &PermitParam,
        signature_check: Result<bool, CheckAccountSignatureError>,
    ) -> (r: Result<PermitOutcome, Error>)
        requires
            old(self).wf(),
            old(self)@.nonce_of(param.signer) < u64::MAX,
        ensures
            final(self).wf(),
            match r {
                Ok(outcome) => {
                    &&& old(self)@.permit_error(
                        *ctx,
                        param.signer,
                        param.message,
                        signature_check,
                        unstake_amount_of(param.message.payload@),
                    ) is None
                    &&& final(self)@ == old(self)@.after_permit(
                        *ctx,
                        param.signer,
                        param.message,
                        unstake_amount_of(param.message.payload@),
                    )
                    &&& outcome == old(self)@.permit_outcome(
                        *ctx,
                        param.signer,
                        param.message,
                        unstake_amount_of(param.message.payload@),
                    )
                },
                Err(e) => old(self)@.permit_error(
                    *ctx,
                    param.signer,
                    param.message,
                    signature_check,
                    unstake_amount_of(param.message.payload@),
                ) == Some(e) && final(self)@ == old(self)@,
            },
    {
        let unstake: String = "unstake".to_owned();
        let unstake_amount: Option<u64> = if param.message.entry_point == unstake {
            decode_unstake_amount(param.message.payload.as_slice())
        } else {
            None
        };
        self.permit_with_amount(ctx, param, signature_check, unstake_amount)
    }
}

} // verus!
