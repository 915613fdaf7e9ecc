use trade_evolver::backtest::{BacktestError, RangePlan, RangeSchedule};
use trade_evolver::utils::split_number_in_points;

#[test]
fn split_candlesticks_for_validation_and_training() {
    let plan = RangePlan::new(100, 20).ok().unwrap();
    assert_eq!(plan.training.len(), 10);
    assert_eq!(plan.validation.len(), 9);

    for range in plan.training.iter() {
        assert_eq!(range.1 - range.0, 5);
    }

    for range in plan.validation.iter() {
        assert_eq!(range.1 - range.0, 5);
    }
}

#[test]
fn split_points_are_consecutive_and_drop_the_last_range() {
    let points = split_number_in_points(100, 20);
    assert_eq!(points.len(), 19);
    for (k, p) in points.iter().enumerate() {
        assert_eq!(*p, (5 * k as u32, 5 * (k as u32 + 1)));
    }
}

#[test]
fn split_points_with_uneven_step() {
    assert_eq!(split_number_in_points(10, 3), vec![(0, 3), (3, 6), (6, 9)]);
    assert_eq!(split_number_in_points(9, 3), vec![(0, 3), (3, 6)]);
    assert_eq!(split_number_in_points(2, 2), vec![(0, 1)]);
}

#[test]
fn ranges_alternate_between_training_and_validation() {
    let plan = RangePlan::new(10, 3).ok().unwrap();
    assert_eq!(plan.training, vec![(0, 3), (6, 9)]);
    assert_eq!(plan.validation, vec![(3, 6)]);
}

#[test]
fn degenerate_divisions_are_refused() {
    assert!(matches!(RangePlan::new(100, 1), Err(BacktestError::InvalidDivisions)));
    assert!(matches!(RangePlan::new(100, 0), Err(BacktestError::InvalidDivisions)));
    assert!(matches!(RangePlan::new(5, 6), Err(BacktestError::InvalidDivisions)));
    assert!(RangePlan::new(6, 6).is_ok());
}

#[test]
fn schedule_warms_up_then_trades() {
    let s = RangeSchedule::new(100, 400, 250, 1000);
    assert_eq!((s.warmup_start, s.warmup_end), (100, 350));
    assert_eq!((s.trading_start, s.trading_end), (350, 400));

    let short = RangeSchedule::new(0, 100, 250, 200);
    assert_eq!((short.warmup_start, short.warmup_end), (0, 200));
    assert_eq!((short.trading_start, short.trading_end), (100, 100));
}
