use vstd::prelude::*;
use crate::backtest::trade::TradeDirection;

verus! {

/// The entry signal of a strategy whose long and short rules fired as given:
/// one rule alone gives its side; both at once, or neither, give none.
pub open spec fn signal_of(long_fires: bool, short_fires: bool) -> Option<TradeDirection> {
    if long_fires && short_fires {
        None
    } else if long_fires {
        Some(TradeDirection::Long)
    } else if short_fires {
        Some(TradeDirection::Short)
    } else {
        None
    }
}

/// Resolves the decisions of the long and short rules into one entry signal.
pub fn resolve_signal(long_fires: bool, short_fires: bool) -> (r: Option<TradeDirection>)
    ensures
        r == signal_of(long_fires, short_fires),
        r == Some(TradeDirection::Long) <==> long_fires && !short_fires,
        r == Some(TradeDirection::Short) <==> short_fires && !long_fires,
        r is None <==> long_fires == short_fires,
{
    if long_fires && short_fires {
        None
    } else if long_fires {
        Some(TradeDirection::Long)
    } else if short_fires {
        Some(TradeDirection::Short)
    } else {
        None
    }
}

} // verus!
