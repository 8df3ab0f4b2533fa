//! Error taxonomy of the margin engine.
//!
//! Validation and economic rejections are reported synchronously, before any
//! state mutation; continuation failures are kind-tagged so the caller can
//! see which asynchronous operation reverted.

use vstd::prelude::*;

verus! {

/// The lifecycle operation a pending swap descriptor belongs to.  Each
/// asynchronous swap request is tagged with one of these, and its outcome is
/// routed back to the matching finalize step.
#[derive(Clone, Copy, Debug, PartialEq, Eq, Structural)]
pub enum ReplyKind {
    IncreasePosition,
    ClosePosition,
    PartialClosePosition,
    Liquidation,
    PartialLiquidation,
    PayFunding,
    TransferFailure,
}

/// Why an operation was rejected.
#[derive(Clone, Copy, Debug, PartialEq, Eq, Structural)]
pub enum ContractError {
    /// The caller is not entitled to the operation.
    Unauthorized,
    /// The engine is paused for this class of operation.
    Paused,
    /// The position's size is zero, so the operation has nothing to act on.
    PositionIsZero,
    /// No position is stored under the given identifier.
    PositionNotFound,
    /// No pending swap descriptor is stored under the given identifier.
    SwapInfoNotFound,
    /// No funding record exists for the market.
    VammMapNotFound,
    /// An amount that must be non-zero was zero.
    ZeroInput,
    /// Leverage below one.
    LeverageTooLow,
    /// Leverage below the configured minimum.
    LeverageBelowMinimum,
    /// The intended open notional exceeds the configured maximum.
    MaxNotionalSizeExceeded,
    /// The margin ratio is below the required base margin.
    Undercollateralized,
    /// The margin ratio is above the required base margin, so the position
    /// cannot be liquidated.
    Overcollateralized,
    /// Settling funding would leave the position with bad debt.
    InsufficientMargin,
    /// Withdrawing would leave the position's free collateral negative.
    InsufficientCollateral,
    /// A second state-changing action in the same block is not allowed.
    OnlyOneAction,
    /// No insurance fund is configured.
    InsuranceFundNotRegistered,
    /// The market is not registered with the insurance fund.
    VammNotRegistered,
    /// The market is closed.
    VammNotOpen,
    /// The updated open interest would exceed the market's cap.
    OpenInterestCapExceeded,
    /// The trader's base asset holding would exceed the market's cap.
    BaseHoldingCapExceeded,
    /// A take-profit price on the wrong side of the entry price.
    TakeProfitTooLow,
    TakeProfitTooHigh,
    /// A stop-loss price on the wrong side of the entry price.
    StopLossTooLow,
    StopLossTooHigh,
    /// Neither a take-profit nor a stop-loss price was supplied.
    NoTakeProfitOrStopLoss,
    /// The spread between oracle and vAMM price is over the limit.
    OverPriceDiffLimit,
    /// The spread between oracle and vAMM price is over the spread limit.
    OverSpreadLimit,
    /// A whitelisted trader cannot be liquidated by a third party.
    TraderIsWhitelisted,
    /// Attached native funds exceed what the operation requires.
    SentFundsExcessive,
    /// Attached native funds fall short of what the operation requires.
    SentFundsInsufficient,
    /// A swap outcome event could not be parsed.
    CannotParseSwap,
    /// A ratio above one, which the fixed-point encoding cannot mean.
    InvalidRatio,
    /// Maintenance margin ratio above the initial margin ratio.
    InvalidMarginRatios,
    /// Fewer than six decimal places.
    InvalidDecimalPlaces,
    /// An intermediate amount overflowed the 128-bit range.
    Overflow,
    /// A division by zero in fixed-point arithmetic.
    DivideByZero,
    /// The asynchronous call tagged with the given kind reverted; the whole
    /// transaction is rolled back, nothing is retried.
    ReplyFailure(ReplyKind),
    /// A continuation arrived with an unknown tag.
    InvalidReply,
}

impl ContractError {
    /// A human-readable description of the rejection.
    pub fn message(&self) -> (r: &'static str) {
        match self {
            ContractError::Unauthorized => "unauthorized",
            ContractError::Paused => "Margin engine is paused",
            ContractError::PositionIsZero => "Position is zero",
            ContractError::PositionNotFound => "Position not found",
            ContractError::SwapInfoNotFound => "No temporary swap stored",
            ContractError::VammMapNotFound => "Vamm map not found",
            ContractError::ZeroInput => "Input must be non-zero",
            ContractError::LeverageTooLow => "Leverage must be greater than 1",
            ContractError::LeverageBelowMinimum => "Leverage is smaller than min leverage",
            ContractError::MaxNotionalSizeExceeded => "Notional size exceeds max notional size",
            ContractError::Undercollateralized => "Position is undercollateralized",
            ContractError::Overcollateralized => "Position is overcollateralized",
            ContractError::InsufficientMargin => "Insufficient margin",
            ContractError::InsufficientCollateral => "Insufficient collateral",
            ContractError::OnlyOneAction => "Only one action allowed",
            ContractError::InsuranceFundNotRegistered => "insurance fund is not registered",
            ContractError::VammNotRegistered => "vAMM is not registered",
            ContractError::VammNotOpen => "vAMM is not open",
            ContractError::OpenInterestCapExceeded => "open interest exceeds cap",
            ContractError::BaseHoldingCapExceeded => "base asset holding exceeds cap",
            ContractError::TakeProfitTooLow => "TP price is too low",
            ContractError::TakeProfitTooHigh => "TP price is too high",
            ContractError::StopLossTooLow => "SL price is too low",
            ContractError::StopLossTooHigh => "SL price is too high",
            ContractError::NoTakeProfitOrStopLoss => "Both take profit and stop loss are not set",
            ContractError::OverPriceDiffLimit => "Over price diff limit oracle & vamm price",
            ContractError::OverSpreadLimit => "Over spread limit",
            ContractError::TraderIsWhitelisted => "trader is whitelisted",
            ContractError::SentFundsExcessive => "sent funds are excessive",
            ContractError::SentFundsInsufficient => "sent funds are insufficient",
            ContractError::CannotParseSwap => "Cannot parse swap",
            ContractError::InvalidRatio => "Invalid ratio",
            ContractError::InvalidMarginRatios => {
                "Incorrect initialisation of margin ratios, initial >= maintenance"
            },
            ContractError::InvalidDecimalPlaces => "Decimal places cannot be less than six",
            ContractError::Overflow => "Overflow",
            ContractError::DivideByZero => "Divide by zero",
            ContractError::ReplyFailure(kind) => match kind {
                ReplyKind::IncreasePosition => "open position failure",
                ReplyKind::ClosePosition => "close position failure",
                ReplyKind::PartialClosePosition => "partial close position failure",
                ReplyKind::Liquidation => "liquidation failure",
                ReplyKind::PartialLiquidation => "partial liquidation failure",
                ReplyKind::PayFunding => "funding payment failure",
                ReplyKind::TransferFailure => "transfer failure",
            },
            ContractError::InvalidReply => "reply id invalid",
        }
    }
}

} // verus!
