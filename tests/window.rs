use trade_evolver::indicators::traits::Period;
use trade_evolver::indicators::window::RollingWindow;

fn min_of(v: &[f32]) -> f32 {
    v.iter().cloned().fold(f32::INFINITY, f32::min)
}

fn max_of(v: &[f32]) -> f32 {
    v.iter().cloned().fold(f32::NEG_INFINITY, f32::max)
}

#[test]
fn test_min_value() {
    let mut w = RollingWindow::new(3);
    w.push(3.0f32);
    w.push(1.0);
    w.push(5.0);
    assert_eq!(min_of(&w.retained()), 1.0);

    w.push(15.0);
    w.push(31.0);
    assert_eq!(min_of(&w.retained()), 5.0);

    w.push(11.0);
    assert_eq!(min_of(&w.retained()), 11.0);
}

#[test]
fn test_max_value() {
    let mut w = RollingWindow::new(3);
    w.push(3.0f32);
    w.push(1.0);
    w.push(5.0);
    assert_eq!(max_of(&w.retained()), 5.0);

    w.push(15.0);
    assert_eq!(max_of(&w.retained()), 15.0);
    w.push(31.0);
    assert_eq!(max_of(&w.retained()), 31.0);

    w.push(11.0);
    assert_eq!(max_of(&w.retained()), 31.0);
}

#[test]
fn window_keeps_the_last_period_values_in_order() {
    let mut w = RollingWindow::new(4);
    assert_eq!(w.period(), 4);
    assert_eq!(w.retained(), Vec::<u32>::new());
    let mut history: Vec<u32> = Vec::new();
    for x in [7u32, 2, 9, 4, 4, 1, 8, 3, 6] {
        let evicted = w.push(x);
        if history.len() >= 4 {
            assert_eq!(evicted, Some(history[history.len() - 4]));
        } else {
            assert_eq!(evicted, None);
        }
        history.push(x);
        let start = history.len().saturating_sub(4);
        assert_eq!(w.retained(), history[start..].to_vec());
        assert_eq!(w.count(), history.len() - start);
    }
}

#[test]
fn window_before_filling_holds_only_what_was_pushed() {
    let mut w = RollingWindow::new(5);
    w.push(-2.0f32);
    w.push(4.0);
    assert_eq!(w.retained(), vec![-2.0, 4.0]);
    assert_eq!(min_of(&w.retained()), -2.0);
    assert_eq!(max_of(&w.retained()), 4.0);
}

#[test]
fn window_reset_forgets_values() {
    let mut w = RollingWindow::new(2);
    w.push(1u8);
    w.push(2);
    w.push(3);
    w.reset();
    assert_eq!(w.retained(), Vec::<u8>::new());
    assert_eq!(w.push(9), None);
    assert_eq!(w.retained(), vec![9]);
    assert_eq!(w.period(), 2);
}
