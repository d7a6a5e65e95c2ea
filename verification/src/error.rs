//! The errors of the ledger, and how failures of its collaborators fall
//! under them.

use vstd::prelude::*;

verus! {

/// Why a call was rejected. A rejected call changes nothing.
#[derive(Debug, Clone, Copy, PartialEq, Eq, Hash, Structural)]
pub enum Error {
    /// A parameter could not be parsed.
    ParseParams,
    /// The caller is not the owner of the contract.
    UnAuthorized,
    /// The amount to stake is zero, or the ledger cannot hold it.
    InvalidStakeAmount,
    /// The account has no stake record.
    NoStakeFound,
    /// The caller is a contract where an account is asked for.
    OnlyAccount,
    /// The caller is not the admin.
    OnlyAdmin,
    /// The call into the token contract failed.
    InvokeContractError,
    /// The answer of the token contract could not be parsed.
    ParseResult,
    /// The answer of the token contract, or the token it names, is not valid.
    InvalidResponse,
    /// The event log is full.
    LogFull,
    /// The event log is malformed.
    LogMalformed,
    /// Upgrade: the new module does not exist.
    FailedUpgradeMissingModule,
    /// Upgrade: the new module has no contract of this name.
    FailedUpgradeMissingContract,
    /// Upgrade: the version of the new module is not supported.
    FailedUpgradeUnsupportedModuleVersion,
    /// The contract is paused.
    ContractPaused,
    /// The sender of a transfer does not hold more than the amount.
    InsufficientFunds,
    /// A deposit was announced by someone else than the token contract.
    NotTokenContract,
    /// Signature check: the signer's account does not exist.
    MissingAccount,
    /// Signature check: the data was malformed.
    MalformedData,
    /// Signature check: the signature is not the signer's.
    WrongSignature,
    /// Permit: another nonce is expected.
    NonceMismatch,
    /// Permit: the message was signed for another contract.
    WrongContract,
    /// Permit: the message names an entrypoint that permits do not reach.
    WrongEntryPoint,
    /// Permit: the message has expired.
    Expired,
    /// The amount to unstake exceeds the principal.
    InvalidUnstakeAmount,
    /// No withdrawal request has matured.
    UnbondingPeriodNotMet,
    /// The account is slashed.
    AlreadySlashed,
    /// The rewards pool holds less than the rewards due.
    InsufficientRewardsPool,
    /// There are no rewards to claim.
    NoRewardsAvailable,
}

/// The number under which each error is reported: the variants count down
/// from -1 in the order of their declaration.
pub open spec fn error_code(e: Error) -> int {
    match e {
        Error::ParseParams => -1,
        Error::UnAuthorized => -2,
        Error::InvalidStakeAmount => -3,
        Error::NoStakeFound => -4,
        Error::OnlyAccount => -5,
        Error::OnlyAdmin => -6,
        Error::InvokeContractError => -7,
        Error::ParseResult => -8,
        Error::InvalidResponse => -9,
        Error::LogFull => -10,
        Error::LogMalformed => -11,
        Error::FailedUpgradeMissingModule => -12,
        Error::FailedUpgradeMissingContract => -13,
        Error::FailedUpgradeUnsupportedModuleVersion => -14,
        Error::ContractPaused => -15,
        Error::InsufficientFunds => -16,
        Error::NotTokenContract => -17,
        Error::MissingAccount => -18,
        Error::MalformedData => -19,
        Error::WrongSignature => -20,
        Error::NonceMismatch => -21,
        Error::WrongContract => -22,
        Error::WrongEntryPoint => -23,
        Error::Expired => -24,
        Error::InvalidUnstakeAmount => -25,
        Error::UnbondingPeriodNotMet => -26,
        Error::AlreadySlashed => -27,
        Error::InsufficientRewardsPool => -28,
        Error::NoRewardsAvailable => -29,
    }
}

impl Error {
    /// The number under which this error is reported.
    pub fn code(&self) -> (c: i32)
        ensures
            c == error_code(*self),
    {
        match self {
            Error::ParseParams => -1,
            Error::UnAuthorized => -2,
            Error::InvalidStakeAmount => -3,
            Error::NoStakeFound => -4,
            Error::OnlyAccount => -5,
            Error::OnlyAdmin => -6,
            Error::InvokeContractError => -7,
            Error::ParseResult => -8,
            Error::InvalidResponse => -9,
            Error::LogFull => -10,
            Error::LogMalformed => -11,
            Error::FailedUpgradeMissingModule => -12,
            Error::FailedUpgradeMissingContract => -13,
            Error::FailedUpgradeUnsupportedModuleVersion => -14,
            Error::ContractPaused => -15,
            Error::InsufficientFunds => -16,
            Error::NotTokenContract => -17,
            Error::MissingAccount => -18,
            Error::MalformedData => -19,
            Error::WrongSignature => -20,
            Error::NonceMismatch => -21,
            Error::WrongContract => -22,
            Error::WrongEntryPoint => -23,
            Error::Expired => -24,
            Error::InvalidUnstakeAmount => -25,
            Error::UnbondingPeriodNotMet => -26,
            Error::AlreadySlashed => -27,
            Error::InsufficientRewardsPool => -28,
            Error::NoRewardsAvailable => -29,
        }
    }
}

/// No two errors are reported under the same number, and every number lies
/// between -29 and -1.
pub proof fn lemma_error_codes_distinct(a: Error, b: Error)
    ensures
        -29 <= error_code(a) <= -1,
        error_code(a) == error_code(b) ==> a == b,
{
}

/// A parameter that could not be parsed.
#[derive(Debug, Clone, Copy, PartialEq, Eq, Structural)]
pub struct ParseError;

/// Why an event could not be logged.
#[derive(Debug, Clone, Copy, PartialEq, Eq, Structural)]
pub enum LogError {
    Full,
    Malformed,
}

/// Why a call to the token contract failed.
#[derive(Debug, Clone, Copy, PartialEq, Eq, Structural)]
pub enum Cis2ClientError {
    /// The invocation itself failed: the token contract rejected or trapped,
    /// or could not be reached.
    InvokeContractError,
    /// The answer could not be parsed.
    ParseResult,
    /// The answer was not of the expected shape.
    InvalidResponse,
}

/// Why an upgrade of the contract's code failed.
#[derive(Debug, Clone, Copy, PartialEq, Eq, Structural)]
pub enum UpgradeError {
    MissingModule,
    MissingContract,
    UnsupportedModuleVersion,
}

/// Why a signature could not be checked at all.
#[derive(Debug, Clone, Copy, PartialEq, Eq, Structural)]
pub enum CheckAccountSignatureError {
    MissingAccount,
    MalformedData,
}

impl From<ParseError> for Error {
    fn from(e: ParseError) -> (r: Error) {
        Error::ParseParams
    }
}

impl vstd::std_specs::convert::FromSpecImpl<ParseError> for Error {
    open spec fn obeys_from_spec() -> bool {
        true
    }

    open spec fn from_spec(e: ParseError) -> Error {
        Error::ParseParams
    }
}

impl From<LogError> for Error {
    fn from(le: LogError) -> (r: Error) {
        match le {
            LogError::Full => Error::LogFull,
            LogError::Malformed => Error::LogMalformed,
        }
    }
}

impl vstd::std_specs::convert::FromSpecImpl<LogError> for Error {
    open spec fn obeys_from_spec() -> bool {
        true
    }

    open spec fn from_spec(le: LogError) -> Error {
        match le {
            LogError::Full => Error::LogFull,
            LogError::Malformed => Error::LogMalformed,
        }
    }
}

impl From<Cis2ClientError> for Error {
    fn from(e: Cis2ClientError) -> (r: Error) {
        match e {
            Cis2ClientError::InvokeContractError => Error::InvokeContractError,
            Cis2ClientError::ParseResult => Error::ParseResult,
            Cis2ClientError::InvalidResponse => Error::InvalidResponse,
        }
    }
}

impl vstd::std_specs::convert::FromSpecImpl<Cis2ClientError> for Error {
    open spec fn obeys_from_spec() -> bool {
        true
    }

    open spec fn from_spec(e: Cis2ClientError) -> Error {
        match e {
            Cis2ClientError::InvokeContractError => Error::InvokeContractError,
            Cis2ClientError::ParseResult => Error::ParseResult,
            Cis2ClientError::InvalidResponse => Error::InvalidResponse,
        }
    }
}

impl From<UpgradeError> for Error {
    fn from(ue: UpgradeError) -> (r: Error) {
        match ue {
            UpgradeError::MissingModule => Error::FailedUpgradeMissingModule,
            UpgradeError::MissingContract => Error::FailedUpgradeMissingContract,
            UpgradeError::UnsupportedModuleVersion => Error::FailedUpgradeUnsupportedModuleVersion,
        }
    }
}

impl vstd::std_specs::convert::FromSpecImpl<UpgradeError> for Error {
    open spec fn obeys_from_spec() -> bool {
        true
    }

    open spec fn from_spec(ue: UpgradeError) -> Error {
        match ue {
            UpgradeError::MissingModule => Error::FailedUpgradeMissingModule,
            UpgradeError::MissingContract => Error::FailedUpgradeMissingContract,
            UpgradeError::UnsupportedModuleVersion => Error::FailedUpgradeUnsupportedModuleVersion,
        }
    }
}

impl From<CheckAccountSignatureError> for Error {
    fn from(e: CheckAccountSignatureError) -> (r: Error) {
        match e {
            CheckAccountSignatureError::MissingAccount => Error::MissingAccount,
            CheckAccountSignatureError::MalformedData => Error::MalformedData,
        }
    }
}

impl vstd::std_specs::convert::FromSpecImpl<CheckAccountSignatureError> for Error {
    open spec fn obeys_from_spec() -> bool {
        true
    }

    open spec fn from_spec(e: CheckAccountSignatureError) -> Error {
        match e {
            CheckAccountSignatureError::MissingAccount => Error::MissingAccount,
            CheckAccountSignatureError::MalformedData => Error::MalformedData,
        }
    }
}

} // verus!
