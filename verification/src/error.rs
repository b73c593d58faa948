//! Error kinds returned by the accounting engine.
//!
//! Every operation fails as a whole: an error means no record was written and
//! no counter moved. The kinds distinguish bad input, wrong identity, state
//! that forbids the operation, and arithmetic that would leave the ledger's
//! design limits.

use vstd::prelude::*;

verus! {

/// One-shot error kinds for the loyalty program's operations.
#[derive(Clone, Copy, Debug, PartialEq, Eq, Structural)]
pub enum CarsaError {
    /// Only the designated update authority can mint directly.
    UpdateAuthorityMismatch,
    /// A direct mint amount of zero.
    InvalidMintAmount,
    /// A direct mint amount above the per-operation cap.
    MintAmountTooLarge,
    /// Checked addition, subtraction, multiplication or narrowing failed.
    ArithmeticOverflow,
    /// A purchase amount of zero.
    InvalidPurchaseAmount,
    /// A purchase amount above the per-operation cap.
    PurchaseAmountTooLarge,
    /// The merchant is deactivated.
    MerchantNotActive,
    /// A cashback rate above 10000 basis points.
    InvalidCashbackRate,
    /// A merchant name that is empty or longer than 32 bytes.
    InvalidMerchantName,
    /// A merchant category that is empty or longer than 16 bytes.
    InvalidMerchantCategory,
    /// Only the merchant's owner can update the merchant record.
    MerchantOwnerMismatch,
    /// A transfer amount of zero.
    InvalidTransferAmount,
    /// A transfer amount above the per-operation cap.
    TransferAmountTooLarge,
    /// The token balance does not cover the requested amount.
    InsufficientBalance,
    /// A redemption amount of zero.
    InvalidRedemptionAmount,
    /// A redemption amount above the per-operation cap.
    RedemptionAmountTooLarge,
    /// Transfers from an account to itself are rejected.
    SelfTransferNotAllowed,
    /// Tokens can only be redeemed at an active merchant.
    RedemptionMerchantNotActive,
    /// A discount rate above 10000 basis points.
    InvalidDiscountPercentage,
    /// A pool amount or configuration value outside its allowed range.
    InvalidAmount,
    /// Only the pool authority can perform this action.
    Unauthorized,
    /// Only the pool delegate can perform this action.
    UnauthorizedDelegate,
    /// The pool does not accept deposits at the moment.
    DepositsDisabled,
    /// The pool does not allow withdrawals at the moment.
    WithdrawalsDisabled,
    /// The deposit would push the user's stake over the per-user cap.
    ExceedsMaxStake,
    /// A stake record presented for the wrong user.
    InvalidOwner,
    /// Checked pool arithmetic failed.
    Overflow,
    /// A division with a zero divisor.
    DivisionByZero,
    /// The store already holds a record under this key.
    DuplicateRecord,
    /// The store holds no record under this key.
    RecordNotFound,
}

} // verus!
