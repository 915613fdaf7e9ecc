use trade_evolver::backtest::strategy::resolve_signal;
use trade_evolver::backtest::trade_rule::rule_fires;
use trade_evolver::backtest::trade::{first_exit, minutes_between, slippage_raises_price, CloseReason, TradeDirection};
use trade_evolver::backtest::{BarAction, Session};

#[test]
fn exits_are_checked_liquidation_first() {
    assert_eq!(first_exit(true, true, true), Some(CloseReason::Liquidation));
    assert_eq!(first_exit(false, true, true), Some(CloseReason::StopLoss));
    assert_eq!(first_exit(false, false, true), Some(CloseReason::TakeProfit));
    assert_eq!(first_exit(false, false, false), None);
}

#[test]
fn simultaneous_signals_cancel() {
    assert_eq!(resolve_signal(true, true), None);
    assert_eq!(resolve_signal(true, false), Some(TradeDirection::Long));
    assert_eq!(resolve_signal(false, true), Some(TradeDirection::Short));
    assert_eq!(resolve_signal(false, false), None);
}

#[test]
fn slippage_works_against_the_trader() {
    assert!(slippage_raises_price(TradeDirection::Long, true));
    assert!(!slippage_raises_price(TradeDirection::Long, false));
    assert!(!slippage_raises_price(TradeDirection::Short, true));
    assert!(slippage_raises_price(TradeDirection::Short, false));
}

#[test]
fn session_opens_holds_and_closes() {
    let mut s = Session::new();
    assert_eq!(s.step(None, true, true, true), BarAction::Idle);
    assert!(!s.trade_open());
    assert_eq!(s.step(Some(TradeDirection::Short), false, false, false), BarAction::Open(TradeDirection::Short));
    assert!(s.trade_open());
    assert_eq!(s.step(Some(TradeDirection::Long), false, false, false), BarAction::Hold);
    assert_eq!(s.step(None, false, true, true), BarAction::Close(CloseReason::StopLoss));
    assert!(!s.trade_open());
    assert_eq!(s.trades_opened(), 1);
    assert!(!s.is_inert());
}

#[test]
fn session_without_any_signal_is_inert() {
    let mut s = Session::new();
    for _ in 0..3 {
        s.start_range();
        for _ in 0..50 {
            assert_eq!(s.step(None, false, false, false), BarAction::Idle);
        }
    }
    assert_eq!(s.trades_opened(), 0);
    assert!(s.is_inert());
}

#[test]
fn new_range_drops_the_open_position_but_keeps_the_count() {
    let mut s = Session::new();
    s.step(Some(TradeDirection::Long), false, false, false);
    s.start_range();
    assert!(!s.trade_open());
    assert_eq!(s.trades_opened(), 1);
}

#[test]
fn minutes_between_rounds_down() {
    assert_eq!(minutes_between(0, 59_999), 0);
    assert_eq!(minutes_between(1_000, 181_000), 3);
    assert_eq!(minutes_between(5, 5), 0);
}

#[test]
fn rule_condition_groups_the_average_gap_alone() {
    assert!(rule_fires(false, false, false, false, true));
    assert!(rule_fires(true, true, true, true, false));
    assert!(!rule_fires(true, true, true, false, false));
    assert!(!rule_fires(false, true, true, true, false));
    assert!(!rule_fires(true, false, true, true, false));
    assert!(!rule_fires(true, true, false, true, false));
}
