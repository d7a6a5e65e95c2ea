//! The gateway to the token contract: what to ask of it, in which order, and
//! what to make of its answers. The calls themselves are the caller's.

use vstd::prelude::*;
use crate::error::{Cis2ClientError, Error};
use crate::events::TransferRequest;
use crate::types::{Address, Receiver};

verus! {

/// What the token contract has answered last.
#[derive(Debug, Clone, Copy, PartialEq, Eq)]
pub enum TransferReply {
    /// Nothing yet: the transfer is about to start.
    Started,
    /// The balance of the sender, or why it could not be had.
    Balance(Result<u64, Cis2ClientError>),
    /// Whether the transfer went through (and changed the token contract's
    /// state), or why it did not.
    Transferred(Result<bool, Cis2ClientError>),
}

/// What to do next about a transfer.
#[derive(Debug, Clone, Copy, PartialEq, Eq)]
pub enum TransferAction {
    /// Ask the token contract for the balance of `of`.
    QueryBalance { of: Address },
    /// Ask the token contract to move `amount` from `from` to `to`.
    Send { from: Address, to: Receiver, amount: u64 },
    /// The transfer is done.
    Done,
    /// The transfer has failed, and with it the whole operation.
    Fail(Error),
}

/// The next step of a transfer, as a value: with the balance check asked
/// for, the sender's balance is queried first and must be strictly greater
/// than the amount; then the transfer is sent; any failure of the token
/// contract fails the transfer.
pub open spec fn next_transfer_action(request: TransferRequest, reply: TransferReply) -> TransferAction {
    match reply {
        TransferReply::Started => if request.check_balance {
            TransferAction::QueryBalance { of: request.from }
        } else {
            TransferAction::Send { from: request.from, to: request.to, amount: request.amount }
        },
        TransferReply::Balance(Ok(balance)) => if balance > request.amount {
            TransferAction::Send { from: request.from, to: request.to, amount: request.amount }
        } else {
            TransferAction::Fail(Error::InsufficientFunds)
        },
        TransferReply::Balance(Err(e)) => TransferAction::Fail(gateway_error(e)),
        TransferReply::Transferred(Ok(_)) => TransferAction::Done,
        TransferReply::Transferred(Err(e)) => TransferAction::Fail(gateway_error(e)),
    }
}

/// The error that a failure of the token contract is reported as.
pub open spec fn gateway_error(e: Cis2ClientError) -> Error {
    match e {
        Cis2ClientError::InvokeContractError => Error::InvokeContractError,
        Cis2ClientError::ParseResult => Error::ParseResult,
        Cis2ClientError::InvalidResponse => Error::InvalidResponse,
    }
}

/// Decides the next step of a transfer from what the token contract has
/// answered last. The caller starts with [`TransferReply::Started`], does
/// what each action says, and comes back with the answer, until the action
/// is [`TransferAction::Done`] or [`TransferAction::Fail`].
pub fn transfer_euroe_token(request: &TransferRequest, reply: TransferReply) -> (action:
    TransferAction)
    ensures
        action == next_transfer_action(*request, reply),
{
    match reply {
        TransferReply::Started => {
            if request.check_balance {
                TransferAction::QueryBalance { of: request.from }
            } else {
                TransferAction::Send { from: request.from, to: request.to, amount: request.amount }
            }
        },
        TransferReply::Balance(Ok(balance)) => {
            if balance > request.amount {
                TransferAction::Send { from: request.from, to: request.to, amount: request.amount }
            } else {
                TransferAction::Fail(Error::InsufficientFunds)
            }
        },
        TransferReply::Balance(Err(e)) => TransferAction::Fail(Error::from(e)),
        TransferReply::Transferred(Ok(_)) => TransferAction::Done,
        TransferReply::Transferred(Err(e)) => TransferAction::Fail(Error::from(e)),
    }
}

/// A checked transfer is sent only to a sender that holds strictly more than
/// the amount, and nothing is sent after a failure.
pub proof fn lemma_checked_transfer_needs_more_than_amount(request: TransferRequest, balance: u64)
    requires
        request.check_balance,
    ensures
        next_transfer_action(request, TransferReply::Started) == (TransferAction::QueryBalance {
            of: request.from,
        }),
        balance <= request.amount ==> next_transfer_action(
            request,
            TransferReply::Balance(Ok(balance)),
        ) == TransferAction::Fail(Error::InsufficientFunds),
        balance > request.amount ==> next_transfer_action(
            request,
            TransferReply::Balance(Ok(balance)),
        ) == (TransferAction::Send {
            from: request.from,
            to: request.to,
            amount: request.amount,
        }),
{
}

} // verus!
