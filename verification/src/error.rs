//! The errors that the registry's operations return.

use vstd::prelude::*;
use vstd::std_specs::convert::FromSpecImpl;
use vstd::string::StringExecFns;
use crate::asset::{decimal, decimal_text};

verus! {

/// A failure of the host or of a basic check.
#[derive(Clone, Debug, PartialEq, Eq)]
pub enum StdError {
    /// A check failed; `msg` says which.
    GenericErr { msg: String },
    /// A stored value of kind `kind` was looked up and is not there.
    NotFound { kind: String },
}

/// The mathematical value of a [`StdError`].
pub enum StdErrorView {
    GenericErr { msg: Seq<char> },
    NotFound { kind: Seq<char> },
}

impl View for StdError {
    type V = StdErrorView;

    open spec fn view(&self) -> StdErrorView {
        match self {
            StdError::GenericErr { msg } => StdErrorView::GenericErr { msg: msg@ },
            StdError::NotFound { kind } => StdErrorView::NotFound { kind: kind@ },
        }
    }
}

/// Errors shared by every part of the protocol.
#[derive(Clone, Debug, PartialEq, Eq)]
pub enum CommonError {
    Std(StdError),
    /// The caller lacks the role that the operation asks for.
    Unauthorized {},
    /// A parameter that instantiation needs was left out.
    InstantiateParamsUnavailable {},
    AddressesQueryWrongNumber { expected: u32, actual: u32 },
    InvalidParam { param_name: String, invalid_value: String, predicate: String },
}

/// The mathematical value of a [`CommonError`].
pub enum CommonErrorView {
    Std(StdErrorView),
    Unauthorized,
    InstantiateParamsUnavailable,
    AddressesQueryWrongNumber { expected: u32, actual: u32 },
    InvalidParam { param_name: Seq<char>, invalid_value: Seq<char>, predicate: Seq<char> },
}

impl View for CommonError {
    type V = CommonErrorView;

    open spec fn view(&self) -> CommonErrorView {
        match self {
            CommonError::Std(e) => CommonErrorView::Std(e@),
            CommonError::Unauthorized {  } => CommonErrorView::Unauthorized,
            CommonError::InstantiateParamsUnavailable {  } => CommonErrorView::InstantiateParamsUnavailable,
            CommonError::AddressesQueryWrongNumber { expected, actual } => CommonErrorView::AddressesQueryWrongNumber {
                expected: *expected,
                actual: *actual,
            },
            CommonError::InvalidParam { param_name, invalid_value, predicate } => CommonErrorView::InvalidParam {
                param_name: param_name@,
                invalid_value: invalid_value@,
                predicate: predicate@,
            },
        }
    }
}

/// Why the coins sent with a call are not the one payment that was asked for.
#[derive(Clone, Debug, PartialEq, Eq)]
pub enum PaymentError {
    /// One coin was sent, of another denomination than the one named here.
    MissingDenom(String),
    ExtraDenom(String),
    /// Coins of more than one denomination were sent.
    MultipleDenoms {},
    /// Nothing was sent, or a coin of amount zero.
    NoFunds {},
    NonPayable {},
}

/// The mathematical value of a [`PaymentError`].
pub enum PaymentErrorView {
    MissingDenom(Seq<char>),
    ExtraDenom(Seq<char>),
    MultipleDenoms,
    NoFunds,
    NonPayable,
}

impl View for PaymentError {
    type V = PaymentErrorView;

    open spec fn view(&self) -> PaymentErrorView {
        match self {
            PaymentError::MissingDenom(d) => PaymentErrorView::MissingDenom(d@),
            PaymentError::ExtraDenom(d) => PaymentErrorView::ExtraDenom(d@),
            PaymentError::MultipleDenoms {  } => PaymentErrorView::MultipleDenoms,
            PaymentError::NoFunds {  } => PaymentErrorView::NoFunds,
            PaymentError::NonPayable {  } => PaymentErrorView::NonPayable,
        }
    }
}

/// The errors of the registry. Each one ends the call that met it, with no
/// change to the registry.
#[derive(Clone, Debug, PartialEq, Eq)]
pub enum ContractError {
    Common(CommonError),
    Std(StdError),
    /// An amount or a counter left the range of its type.
    Overflow {},
    /// A version could not be read; the text says why.
    SemVer(String),
    Payment(PaymentError),
    /// The stake token and the stake amount cannot be changed.
    UpdateConfigError {},
    NoExecutor {},
    /// No executor was drawn yet for the epoch of the current height.
    ExecutorNotUpdated {},
    /// The caller is not the executor of the epoch.
    InvalidExecutor {},
    /// A recurring request cannot hold an asset in escrow.
    NoInputAssetForRecurring {},
    /// The coins sent do not cover the asset to hold in escrow.
    InvalidInputAssets {},
    /// The stake token is a native coin, and a token was sent.
    InvalidAutoToken {},
    /// The fee coin was sent, but less of it than the fee.
    InsufficientFee {},
    /// No coin of the fee's denomination was sent.
    NoFeePaid {},
    /// The message that came with the tokens could not be read.
    DataShouldBeGiven {},
    /// The amount sent is not the stake amount times the number of stakes.
    InvalidStakeInfo {},
    /// The stake at that position belongs to someone else.
    IdxNotYou {},
    /// There is no stake at that position.
    IdxOutOfBound {},
    /// The count is zero, or the amount does not match it.
    InvalidRecurringCount {},
    /// The owner's recurring pool holds less than one fee.
    InsufficientRecurringFee {},
    /// Requests may not call that target.
    TargetBlacklisted {},
}

/// The mathematical value of a [`ContractError`].
pub enum ContractErrorView {
    Common(CommonErrorView),
    Std(StdErrorView),
    Overflow,
    SemVer(Seq<char>),
    Payment(PaymentErrorView),
    UpdateConfigError,
    NoExecutor,
    ExecutorNotUpdated,
    InvalidExecutor,
    NoInputAssetForRecurring,
    InvalidInputAssets,
    InvalidAutoToken,
    InsufficientFee,
    NoFeePaid,
    DataShouldBeGiven,
    InvalidStakeInfo,
    IdxNotYou,
    IdxOutOfBound,
    InvalidRecurringCount,
    InsufficientRecurringFee,
    TargetBlacklisted,
}

impl View for ContractError {
    type V = ContractErrorView;

    open spec fn view(&self) -> ContractErrorView {
        match self {
            ContractError::Common(e) => ContractErrorView::Common(e@),
            ContractError::Std(e) => ContractErrorView::Std(e@),
            ContractError::Overflow {  } => ContractErrorView::Overflow,
            ContractError::SemVer(text) => ContractErrorView::SemVer(text@),
            ContractError::Payment(e) => ContractErrorView::Payment(e@),
            ContractError::UpdateConfigError {  } => ContractErrorView::UpdateConfigError,
            ContractError::NoExecutor {  } => ContractErrorView::NoExecutor,
            ContractError::ExecutorNotUpdated {  } => ContractErrorView::ExecutorNotUpdated,
            ContractError::InvalidExecutor {  } => ContractErrorView::InvalidExecutor,
            ContractError::NoInputAssetForRecurring {  } => ContractErrorView::NoInputAssetForRecurring,
            ContractError::InvalidInputAssets {  } => ContractErrorView::InvalidInputAssets,
            ContractError::InvalidAutoToken {  } => ContractErrorView::InvalidAutoToken,
            ContractError::InsufficientFee {  } => ContractErrorView::InsufficientFee,
            ContractError::NoFeePaid {  } => ContractErrorView::NoFeePaid,
            ContractError::DataShouldBeGiven {  } => ContractErrorView::DataShouldBeGiven,
            ContractError::InvalidStakeInfo {  } => ContractErrorView::InvalidStakeInfo,
            ContractError::IdxNotYou {  } => ContractErrorView::IdxNotYou,
            ContractError::IdxOutOfBound {  } => ContractErrorView::IdxOutOfBound,
            ContractError::InvalidRecurringCount {  } => ContractErrorView::InvalidRecurringCount,
            ContractError::InsufficientRecurringFee {  } => ContractErrorView::InsufficientRecurringFee,
            ContractError::TargetBlacklisted {  } => ContractErrorView::TargetBlacklisted,
        }
    }
}

/// The error for a caller who lacks the role that an operation asks for.
pub open spec fn unauthorized() -> ContractErrorView {
    ContractErrorView::Common(CommonErrorView::Unauthorized)
}

/// The kind named when a request is looked up and is not there.
pub open spec fn request_kind() -> Seq<char> {
    "registry_stake::state::Request"@
}

/// The error for a request id that the store does not hold.
pub open spec fn not_found() -> ContractErrorView {
    ContractErrorView::Std(StdErrorView::NotFound { kind: request_kind() })
}

/// What a common error says.
pub open spec fn common_message(e: CommonErrorView) -> Seq<char> {
    match e {
        CommonErrorView::Std(StdErrorView::GenericErr { msg }) => "Generic error: "@ + msg,
        CommonErrorView::Std(StdErrorView::NotFound { kind }) => kind + " not found"@,
        CommonErrorView::Unauthorized => "Unauthorized"@,
        CommonErrorView::InstantiateParamsUnavailable => "All params should be available during instantiation"@,
        CommonErrorView::AddressesQueryWrongNumber { expected, actual } => "Incorrect number of addresses, expected "@
            + decimal(expected as nat) + ", got "@ + decimal(actual as nat),
        CommonErrorView::InvalidParam { param_name, invalid_value, predicate } => "Invalid param: "@
            + param_name + " is "@ + invalid_value + ", but it should be "@ + predicate,
    }
}

/// A common error as a basic failure: the failure that it wraps, or else a
/// failed check with what the error says.
pub open spec fn common_as_std(e: CommonErrorView) -> StdErrorView {
    match e {
        CommonErrorView::Std(inner) => inner,
        _ => StdErrorView::GenericErr { msg: common_message(e) },
    }
}

impl StdError {
    /// What the failure says.
    pub fn to_string(&self) -> (text: String)
        ensures
            text@ == common_message(CommonErrorView::Std(self@)),
    {
        match self {
            StdError::GenericErr { msg } => {
                let mut text = String::from_str("Generic error: ");
                text.append(msg.as_str());
                text
            },
            StdError::NotFound { kind } => {
                let mut text = kind.clone();
                text.append(" not found");
                text
            },
        }
    }
}

impl CommonError {
    /// What the error says.
    pub fn to_string(&self) -> (text: String)
        ensures
            text@ == common_message(self@),
    {
        match self {
            CommonError::Std(e) => e.to_string(),
            CommonError::Unauthorized {  } => String::from_str("Unauthorized"),
            CommonError::InstantiateParamsUnavailable {  } => String::from_str(
                "All params should be available during instantiation",
            ),
            CommonError::AddressesQueryWrongNumber { expected, actual } => {
                let mut text = String::from_str("Incorrect number of addresses, expected ");
                text.append(decimal_text(*expected as u128).as_str());
                text.append(", got ");
                text.append(decimal_text(*actual as u128).as_str());
                text
            },
            CommonError::InvalidParam { param_name, invalid_value, predicate } => {
                let mut text = String::from_str("Invalid param: ");
                text.append(param_name.as_str());
                text.append(" is ");
                text.append(invalid_value.as_str());
                text.append(", but it should be ");
                text.append(predicate.as_str());
                text
            },
        }
    }

    /// The error as a basic failure.
    pub fn into_std(self) -> (e: StdError)
        ensures
            e@ == common_as_std(self@),
    {
        match self {
            CommonError::Std(e) => e,
            e => StdError::GenericErr { msg: e.to_string() },
        }
    }
}

impl From<CommonError> for ContractError {
    fn from(e: CommonError) -> (wrapped: ContractError) {
        ContractError::Common(e)
    }
}

impl FromSpecImpl<CommonError> for ContractError {
    open spec fn obeys_from_spec() -> bool {
        true
    }

    open spec fn from_spec(e: CommonError) -> ContractError {
        ContractError::Common(e)
    }
}

impl From<StdError> for ContractError {
    fn from(e: StdError) -> (wrapped: ContractError) {
        ContractError::Std(e)
    }
}

impl FromSpecImpl<StdError> for ContractError {
    open spec fn obeys_from_spec() -> bool {
        true
    }

    open spec fn from_spec(e: StdError) -> ContractError {
        ContractError::Std(e)
    }
}

impl From<PaymentError> for ContractError {
    fn from(e: PaymentError) -> (wrapped: ContractError) {
        ContractError::Payment(e)
    }
}

impl FromSpecImpl<PaymentError> for ContractError {
    open spec fn obeys_from_spec() -> bool {
        true
    }

    open spec fn from_spec(e: PaymentError) -> ContractError {
        ContractError::Payment(e)
    }
}

impl From<StdError> for CommonError {
    fn from(e: StdError) -> (wrapped: CommonError) {
        CommonError::Std(e)
    }
}

impl FromSpecImpl<StdError> for CommonError {
    open spec fn obeys_from_spec() -> bool {
        true
    }

    open spec fn from_spec(e: StdError) -> CommonError {
        CommonError::Std(e)
    }
}

impl ContractError {
    /// The error for a caller who lacks the role that an operation asks for.
    pub fn unauthorized() -> (e: ContractError)
        ensures
            e@ == unauthorized(),
    {
        ContractError::Common(CommonError::Unauthorized {  })
    }

    /// The error for a request id that the store does not hold.
    pub fn not_found() -> (e: ContractError)
        ensures
            e@ == not_found(),
    {
        ContractError::Std(StdError::NotFound { kind: "registry_stake::state::Request".to_string() })
    }
}

} // verus!
