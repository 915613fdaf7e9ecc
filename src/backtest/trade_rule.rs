use vstd::prelude::*;

verus! {

/// Whether a trade rule fires on a bar, from the outcome of its five threshold tests:
/// the MACD signal above its target, the RSI above the lower and below the upper
/// bound, and the price far enough from the EMA, all together; or, alone, the SMA
/// close enough to the EMA.
pub fn rule_fires(
    macd_above_target: bool,
    rsi_above_lower: bool,
    rsi_below_upper: bool,
    price_gap_reached: bool,
    average_gap_within: bool,
) -> (r: bool)
    ensures
        r == ((macd_above_target && rsi_above_lower && rsi_below_upper && price_gap_reached)
            || average_gap_within),
{
    (macd_above_target && rsi_above_lower && rsi_below_upper && price_gap_reached) || average_gap_within
}

} // verus!
