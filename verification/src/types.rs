//! Core data model of the margin engine.
//!
//! Amounts are unsigned `u128` values scaled by the market's decimal factor
//! (`Config::decimals`); signed quantities use [`Integer`].  Contract
//! addresses are carried as plain strings; the host runtime is responsible
//! for validating them before they reach the engine.

use vstd::prelude::*;
use crate::integer::Integer;

verus! {

/// The side of a trade from the trader's point of view.
#[derive(Clone, Copy, Debug, PartialEq, Eq, Structural)]
pub enum Side {
    Buy,
    Sell,
}

impl Side {
    /// The one-byte tag under which this side is indexed in storage keys.
    pub fn as_bytes(&self) -> (r: &'static [u8])
        ensures
            r@ == self.key_byte_seq(),
    {
        match self {
            Side::Buy => &[0u8],
            Side::Sell => &[1u8],
        }
    }

    /// The byte sequence that `as_bytes` returns.
    pub open spec fn key_byte_seq(self) -> Seq<u8> {
        match self {
            Side::Buy => seq![0u8],
            Side::Sell => seq![1u8],
        }
    }
}

/// A trade's direction from the vAMM's point of view: a `Buy` adds quote
/// asset to the pool, a `Sell` removes it.
#[derive(Clone, Copy, Debug, PartialEq, Eq, Structural)]
pub enum Direction {
    AddToAmm,
    RemoveFromAmm,
}

/// Which price source an unrealized-PnL calculation quotes against.
#[derive(Clone, Copy, Debug, PartialEq, Eq, Structural)]
pub enum PnlCalcOption {
    SpotPrice,
    Twap,
    Oracle,
}

/// Filter for position listings.
#[derive(Clone, Debug, PartialEq, Eq)]
pub enum PositionFilter {
    /// Positions owned by the given trader address.
    Trader(String),
    /// Positions whose entry price equals the given tick price.
    Price(u128),
    /// No filter.
    NoFilter,
}

/// Which groups of operations are currently suspended.
#[derive(Clone, Copy, Debug, PartialEq, Eq, Structural)]
pub enum PauseType {
    All,
    Open,
    Close,
    Nothing,
}

/// The operation a caller is attempting, as consulted by the pause guard.
#[derive(Clone, Copy, Debug, PartialEq, Eq, Structural)]
pub enum UserAction {
    OpenPosition,
    ClosePosition,
    UpdateTpSl,
    TriggerTpSl,
    Liquidate,
    DepositMargin,
    WithdrawMargin,
}

/// Placeholder message for contract migrations; carries no data.
#[derive(Clone, Copy, Debug, PartialEq, Eq, Structural)]
pub struct MigrateMsg {}

/// One trader position against one vAMM.
#[derive(Clone, Debug, PartialEq, Eq)]
pub struct Position {
    pub position_id: u64,
    pub vamm: String,
    pub pair: String,
    pub trader: String,
    pub side: Side,
    pub direction: Direction,
    /// Signed size in base-asset units: positive for long, negative for
    /// short.
    pub size: Integer,
    /// Collateral currently posted; never negative.
    pub margin: u128,
    /// Open notional value at the last update; never negative.
    pub notional: u128,
    pub entry_price: u128,
    pub take_profit: Option<u128>,
    pub stop_loss: Option<u128>,
    pub spread_fee: u128,
    pub toll_fee: u128,
    /// Snapshot of the market's cumulative premium fraction at the
    /// position's last funding settlement.
    pub last_updated_premium_fraction: Integer,
    pub block_time: u64,
    pub expire_time: u64,
}

impl Position {
    /// A position's signed size and funding snapshot are well-formed
    /// `Integer`s.
    pub open spec fn well_formed(self) -> bool {
        self.size.well_formed() && self.last_updated_premium_fraction.well_formed()
    }

    /// An owned copy equal to this position.
    pub fn duplicate(&self) -> (r: Position)
        ensures
            r == *self,
    {
        Position {
            position_id: self.position_id,
            vamm: self.vamm.clone(),
            pair: self.pair.clone(),
            trader: self.trader.clone(),
            side: self.side,
            direction: self.direction,
            size: self.size,
            margin: self.margin,
            notional: self.notional,
            entry_price: self.entry_price,
            take_profit: self.take_profit,
            stop_loss: self.stop_loss,
            spread_fee: self.spread_fee,
            toll_fee: self.toll_fee,
            last_updated_premium_fraction: self.last_updated_premium_fraction,
            block_time: self.block_time,
            expire_time: self.expire_time,
        }
    }
}

impl Default for Position {
    fn default() -> (r: Position)
        ensures
            r.position_id == 0,
            r.size.as_int() == 0,
            r.margin == 0,
            r.notional == 0,
            r.well_formed(),
    {
        Position {
            position_id: 0u64,
            vamm: String::new(),
            trader: String::new(),
            pair: String::new(),
            side: Side::Buy,
            direction: Direction::AddToAmm,
            size: Integer::zero(),
            margin: 0,
            notional: 0,
            entry_price: 0,
            take_profit: Option::None,
            stop_loss: Option::Some(0),
            last_updated_premium_fraction: Integer::zero(),
            spread_fee: 0,
            toll_fee: 0,
            block_time: 0u64,
            expire_time: 0u64,
        }
    }
}

/// Engine-wide parameters fixed at instantiation and updated by the owner.
#[derive(Clone, Debug, PartialEq, Eq)]
pub struct Config {
    pub owner: String,
    pub insurance_fund: Option<String>,
    pub fee_pool: String,
    /// The scale factor of all fixed-point amounts: `10^decimal_places`.
    pub decimals: u128,
    pub initial_margin_ratio: u128,
    pub maintenance_margin_ratio: u128,
    pub partial_liquidation_ratio: u128,
    pub tp_sl_spread: u128,
    pub liquidation_fee: u128,
    pub operator: Option<String>,
}

/// Trading limits adjustable by the owner.
#[derive(Clone, Debug, PartialEq, Eq)]
pub struct TradingConfig {
    pub enable_whitelist: bool,
    pub max_notional_size: u128,
    pub min_leverage: u128,
}

/// Mutable engine-wide state.
#[derive(Clone, Copy, Debug, PartialEq, Eq, Structural)]
pub struct State {
    pub open_interest_notional: u128,
    pub prepaid_bad_debt: u128,
    pub pause: PauseType,
}

/// Per-market funding series and restriction marker.
#[derive(Clone, Debug, PartialEq, Eq)]
pub struct VammMap {
    pub last_restriction_block: u64,
    /// Monotonic append-only log of cumulative premium fractions.
    pub cumulative_premium_fractions: Vec<Integer>,
}

impl VammMap {
    pub open spec fn well_formed(self) -> bool {
        forall|i: int|
            0 <= i < self.cumulative_premium_fractions@.len()
                ==> (#[trigger] self.cumulative_premium_fractions@[i]).well_formed()
    }
}

impl Default for VammMap {
    fn default() -> (r: VammMap)
        ensures
            r.last_restriction_block == 0,
            r.cumulative_premium_fractions@.len() == 0,
            r.well_formed(),
    {
        VammMap { last_restriction_block: 0u64, cumulative_premium_fractions: Vec::new() }
    }
}

/// Pending swap descriptor: everything needed to finish a lifecycle step
/// once the asynchronous swap outcome arrives.  Written immediately before
/// the swap request is issued and consumed by the continuation handler.
#[derive(Clone, Debug, PartialEq, Eq)]
pub struct TmpSwapInfo {
    pub position_id: u64,
    pub vamm: String,
    pub pair: String,
    pub trader: String,
    pub side: Side,
    /// Quote-asset amount being supplied (or base size being closed).
    pub margin_amount: u128,
    pub leverage: u128,
    /// Notional of the position being opened or closed.
    pub open_notional: u128,
    /// Notional of the existing position, including funding.
    pub position_notional: u128,
    pub unrealized_pnl: Integer,
    pub margin_to_vault: Integer,
    pub take_profit: Option<u128>,
    pub stop_loss: Option<u128>,
    pub spread_fee: u128,
    pub toll_fee: u128,
}

/// Local, discarded-after-use copy of the vAMM's reserves used to simulate
/// sequential price impact during batch take-profit/stop-loss triggering.
#[derive(Clone, Copy, Debug, PartialEq, Eq, Structural)]
pub struct TmpReserveInfo {
    pub quote_asset_reserve: u128,
    pub base_asset_reserve: u128,
}

/// Collateral attached to a native-asset deposit, against the amount the
/// operation requires.
#[derive(Clone, Debug, PartialEq, Eq)]
pub struct SentFunds {
    pub denom: String,
    pub amount: u128,
    pub required: u128,
}

impl SentFunds {
    /// Accepts the attached funds only when they match the required amount
    /// exactly.
    pub fn are_sufficient(&self) -> (r: Result<(), crate::error::ContractError>)
        ensures
            self.amount > self.required ==> r == Err::<(), crate::error::ContractError>(
                crate::error::ContractError::SentFundsExcessive,
            ),
            self.amount < self.required ==> r == Err::<(), crate::error::ContractError>(
                crate::error::ContractError::SentFundsInsufficient,
            ),
            self.amount == self.required ==> r is Ok,
    {
        if self.amount > self.required {
            Err(crate::error::ContractError::SentFundsExcessive)
        } else if self.amount < self.required {
            Err(crate::error::ContractError::SentFundsInsufficient)
        } else {
            Ok(())
        }
    }
}

/// Notional value of a position and the trader's unrealized profit or loss.
#[derive(Clone, Copy, Debug, PartialEq, Eq, Structural)]
pub struct PositionUnrealizedPnlResponse {
    pub position_notional: u128,
    pub unrealized_pnl: Integer,
}

/// Result of settling funding into a position's margin.
#[derive(Clone, Copy, Debug, PartialEq, Eq, Structural)]
pub struct RemainMarginResponse {
    pub funding_payment: Integer,
    pub margin: u128,
    pub bad_debt: u128,
    pub latest_premium_fraction: Integer,
}

/// One price tick and the number of positions resting on it.
#[derive(Clone, Copy, Debug, PartialEq, Eq, Structural)]
pub struct TickResponse {
    pub entry_price: u128,
    pub total_positions: u64,
}

/// A page of ticks.
#[derive(Clone, Debug, PartialEq, Eq)]
pub struct TicksResponse {
    pub ticks: Vec<TickResponse>,
}

/// The most recently assigned position identifier.
#[derive(Clone, Copy, Debug, PartialEq, Eq, Structural)]
pub struct LastPositionIdResponse {
    pub last_position_id: u64,
}

/// Whether any resting position is currently triggerable.
#[derive(Clone, Copy, Debug, PartialEq, Eq, Structural)]
pub struct PositionTpSlResponse {
    pub is_tpsl: bool,
}

/// Converts a side to the direction understood by the vAMM.
pub fn side_to_direction(side: &Side) -> (r: Direction)
    ensures
        r == (match side {
            Side::Buy => Direction::AddToAmm,
            Side::Sell => Direction::RemoveFromAmm,
        }),
{
    match side {
        Side::Buy => Direction::AddToAmm,
        Side::Sell => Direction::RemoveFromAmm,
    }
}

/// Converts a vAMM direction back to the trader-facing side.
pub fn direction_to_side(direction: &Direction) -> (r: Side)
    ensures
        r == (match direction {
            Direction::AddToAmm => Side::Buy,
            Direction::RemoveFromAmm => Side::Sell,
        }),
{
    match direction {
        Direction::AddToAmm => Side::Buy,
        Direction::RemoveFromAmm => Side::Sell,
    }
}

/// The side whose swap closes a position of the given signed size: selling
/// closes a long, buying closes a short.
pub fn position_to_side(size: Integer) -> (r: Side)
    requires
        size.well_formed(),
    ensures
        r == (if size.as_int() > 0 {
            Side::Sell
        } else {
            Side::Buy
        }),
{
    let zero: Integer = Integer::zero();
    if size.is_gt(&zero) {
        Side::Sell
    } else {
        Side::Buy
    }
}

} // verus!
