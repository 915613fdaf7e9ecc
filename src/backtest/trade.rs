use vstd::prelude::*;

verus! {

/// Side of a position.
#[derive(Clone, Copy, Debug, PartialEq, Eq, Structural)]
pub enum TradeDirection {
    Long,
    Short,
}

/// Why a position was closed.
#[derive(Clone, Copy, Debug, PartialEq, Eq, Structural)]
pub enum CloseReason {
    Normal,
    StopLoss,
    TakeProfit,
    Liquidation,
}

/// The exit a bar triggers: liquidation first, then stop-loss, then take-profit.
pub open spec fn exit_of(liquidation: bool, stoploss: bool, takeprofit: bool) -> Option<CloseReason> {
    if liquidation {
        Some(CloseReason::Liquidation)
    } else if stoploss {
        Some(CloseReason::StopLoss)
    } else if takeprofit {
        Some(CloseReason::TakeProfit)
    } else {
        None
    }
}

/// Picks the single closing action of a bar from the three trigger tests.
pub fn first_exit(liquidation: bool, stoploss: bool, takeprofit: bool) -> (r: Option<CloseReason>)
    ensures
        r == exit_of(liquidation, stoploss, takeprofit),
        r == Some(CloseReason::Liquidation) <==> liquidation,
        r == Some(CloseReason::StopLoss) <==> !liquidation && stoploss,
        r == Some(CloseReason::TakeProfit) <==> !liquidation && !stoploss && takeprofit,
        r is None <==> !liquidation && !stoploss && !takeprofit,
{
    if liquidation {
        Some(CloseReason::Liquidation)
    } else if stoploss {
        Some(CloseReason::StopLoss)
    } else if takeprofit {
        Some(CloseReason::TakeProfit)
    } else {
        None
    }
}

/// Whether slippage moves a fill price up: against the trader, so up when a long
/// position grows or a short one shrinks, and down otherwise.
pub fn slippage_raises_price(side: TradeDirection, is_position_increase: bool) -> (r: bool)
    ensures
        r <==> (is_position_increase <==> side == TradeDirection::Long),
{
    match side {
        TradeDirection::Long => is_position_increase,
        TradeDirection::Short => !is_position_increase,
    }
}

/// Whole minutes from `open_timestamp` to `close_timestamp`, both in milliseconds.
pub fn minutes_between(open_timestamp: u64, close_timestamp: u64) -> (r: u64)
    requires
        open_timestamp <= close_timestamp,
    ensures
        r == (close_timestamp - open_timestamp) / 60000,
{
    (close_timestamp - open_timestamp) / (60 * 1000)
}

} // verus!
