//! Why the contract refuses a message.

use crate::amount::decimal_text;
use cosmwasm_std::StdError;
use vstd::prelude::*;

verus! {

/// Why the contract refuses a message.
#[derive(Debug, PartialEq)]
pub enum ContractError {
    /// The storage or the chain did not give what was asked of it, or more was to be taken than is
    /// there.
    Std(StdError),
    /// The sender may not do this.
    Unauthorized {},
    /// The validator is not one of the chain.
    NotInValidatorSet { validator: String },
    /// There are delegations, or coins to redelegate, of two kinds.
    DifferentBondDenom { denom1: String, denom2: String },
    /// The chain has delegated another amount than the contract has recorded.
    BondedMismatch { stored: u128, queried: u128 },
    /// There are no coins of this kind.
    EmptyBalance { denom: String },
    /// The amount is below the least that can be unbonded.
    UnbondTooSmall { min_bonded: u128, denom: String },
    /// The contract has too few coins on hand to pay claims.
    BalanceTooSmall {},
    /// No claim of the sender can be paid.
    NothingToClaim {},
    /// What is bonded adds up to more than 128 bits.
    BondsTooLarge {},
    /// Nobody allows themselves to spend their tokens.
    CannotSetOwnAccount {},
    /// The ledger does not move nothing.
    InvalidZeroAmount {},
    /// The allowance has ended.
    Expired {},
    /// There is no allowance.
    NoAllowance {},
    /// There would be more tokens than there may be.
    CannotExceedCap {},
    /// The ledger does not take such a logo.
    LogoTooBig {},
    /// The ledger does not take such a logo.
    InvalidXmlPreamble {},
    /// The ledger does not take such a logo.
    InvalidPngHeader {},
}

/// A kind of value in the contract's storage.
pub enum Place {
    Investment,
    Supply,
    Token,
    Balance,
    Allowance,
    Claims,
}

/// What kind of error an error of the storage, of the chain or of a subtraction is.
#[verifier::ext_equal]
pub enum StdKind {
    /// There are no bytes where a value of this kind belongs (`StdError::NotFound`, which names the
    /// type of the value).
    NotFound(Place),
    /// The bytes are not the encoding of a value of this kind (`StdError::ParseErr`, which names the
    /// type of the value).
    Parse(Place),
    /// The second number, in decimal digits, cannot be taken from the first (`StdError::Overflow`
    /// of a subtraction).
    Underflow { operand1: Seq<char>, operand2: Seq<char> },
    /// Any other error.
    Other,
}

/// What kind of error a `StdError` is: its variant, and what stands in it as far as [`StdKind`]
/// says it.
pub uninterp spec fn kind_of(e: StdError) -> StdKind;

/// The error when `operand2` cannot be taken from `operand1`.
pub open spec fn underflow(operand1: u128, operand2: u128) -> StdKind {
    StdKind::Underflow {
        operand1: decimal_text(operand1 as nat),
        operand2: decimal_text(operand2 as nat),
    }
}

/// What a [`ContractError`] stands for.
#[verifier::ext_equal]
pub enum ErrorView {
    Std(StdKind),
    Unauthorized,
    NotInValidatorSet { validator: Seq<char> },
    DifferentBondDenom { denom1: Seq<char>, denom2: Seq<char> },
    BondedMismatch { stored: u128, queried: u128 },
    EmptyBalance { denom: Seq<char> },
    UnbondTooSmall { min_bonded: u128, denom: Seq<char> },
    BalanceTooSmall,
    NothingToClaim,
    BondsTooLarge,
    CannotSetOwnAccount,
    InvalidZeroAmount,
    Expired,
    NoAllowance,
    CannotExceedCap,
    LogoTooBig,
    InvalidXmlPreamble,
    InvalidPngHeader,
}

impl View for ContractError {
    type V = ErrorView;

    open spec fn view(&self) -> ErrorView {
        match *self {
            ContractError::Std(e) => ErrorView::Std(kind_of(e)),
            ContractError::Unauthorized {  } => ErrorView::Unauthorized,
            ContractError::NotInValidatorSet { validator } => ErrorView::NotInValidatorSet {
                validator: validator@,
            },
            ContractError::DifferentBondDenom { denom1, denom2 } => ErrorView::DifferentBondDenom {
                denom1: denom1@,
                denom2: denom2@,
            },
            ContractError::BondedMismatch { stored, queried } => ErrorView::BondedMismatch {
                stored,
                queried,
            },
            ContractError::EmptyBalance { denom } => ErrorView::EmptyBalance { denom: denom@ },
            ContractError::UnbondTooSmall { min_bonded, denom } => ErrorView::UnbondTooSmall {
                min_bonded,
                denom: denom@,
            },
            ContractError::BalanceTooSmall {  } => ErrorView::BalanceTooSmall,
            ContractError::NothingToClaim {  } => ErrorView::NothingToClaim,
            ContractError::BondsTooLarge {  } => ErrorView::BondsTooLarge,
            ContractError::CannotSetOwnAccount {  } => ErrorView::CannotSetOwnAccount,
            ContractError::InvalidZeroAmount {  } => ErrorView::InvalidZeroAmount,
            ContractError::Expired {  } => ErrorView::Expired,
            ContractError::NoAllowance {  } => ErrorView::NoAllowance,
            ContractError::CannotExceedCap {  } => ErrorView::CannotExceedCap,
            ContractError::LogoTooBig {  } => ErrorView::LogoTooBig,
            ContractError::InvalidXmlPreamble {  } => ErrorView::InvalidXmlPreamble,
            ContractError::InvalidPngHeader {  } => ErrorView::InvalidPngHeader,
        }
    }
}

/// A result, with what its error stands for.
pub open spec fn viewed<T>(r: Result<T, ContractError>) -> Result<T, ErrorView> {
    match r {
        Ok(v) => Ok(v),
        Err(e) => Err(e@),
    }
}

} // verus!
