pub mod strategy;
pub mod trade;
pub mod trade_rule;

use vstd::prelude::*;
use crate::backtest::trade::{exit_of, first_exit, CloseReason, TradeDirection};
use crate::utils::{is_split_in_points, point_count, point_step, split_number_in_points};

verus! {

/// Which group of ranges a backtest runs over.
#[derive(Clone, Copy, Debug, PartialEq, Eq, Structural)]
pub enum RunMode {
    Training,
    Validation,
}

/// A configuration the backtest refuses.
#[derive(Clone, Copy, Debug, PartialEq, Eq, Structural)]
pub enum BacktestError {
    /// The series cannot be cut into that many ranges: at most one, or more than it has bars.
    InvalidDivisions,
}

/// The ranges of bar indices, `(start, end)` with `end` excluded, that each mode runs over.
pub struct RangePlan {
    pub training: Vec<(u32, u32)>,
    pub validation: Vec<(u32, u32)>,
}

/// `training` and `validation` take in turn the ranges of `split_number_in_points`:
/// those at even positions go to training, those at odd positions to validation.
pub open spec fn alternates(
    bar_count: u32,
    divisions: u32,
    training: Seq<(u32, u32)>,
    validation: Seq<(u32, u32)>,
) -> bool {
    let s = point_step(bar_count, divisions);
    let n = point_count(bar_count, divisions);
    &&& training.len() == (n + 1) / 2
    &&& validation.len() == n / 2
    &&& forall|j: int| 0 <= j < training.len() ==> {
        &&& #[trigger] training[j].0 == 2 * j * s
        &&& training[j].1 == (2 * j + 1) * s
    }
    &&& forall|j: int| 0 <= j < validation.len() ==> {
        &&& #[trigger] validation[j].0 == (2 * j + 1) * s
        &&& validation[j].1 == (2 * j + 2) * s
    }
}

/// Whether `divisions` is a valid number of parts for a series of `bar_count` bars.
pub open spec fn divisions_ok(bar_count: u32, divisions: u8) -> bool {
    1 < divisions && divisions as u32 <= bar_count
}

impl RangePlan {
    /// Cuts a series of `bar_count` bars into `divisions` equal parts and hands them
    /// out in turn: the first to training, the second to validation, and so on.
    pub fn new(bar_count: u32, divisions: u8) -> (r: Result<RangePlan, BacktestError>)
        ensures
            r is Err <==> !divisions_ok(bar_count, divisions),
            r is Err ==> r == Err::<RangePlan, BacktestError>(BacktestError::InvalidDivisions),
            r matches Ok(plan) ==> alternates(bar_count, divisions as u32, plan.training@, plan.validation@),
    {
        if divisions <= 1 || divisions as u32 > bar_count {
            return Err(BacktestError::InvalidDivisions);
        }
        let points = split_number_in_points(bar_count, divisions as u32);
        let ghost s = point_step(bar_count, divisions as u32);
        let mut training: Vec<(u32, u32)> = Vec::new();
        let mut validation: Vec<(u32, u32)> = Vec::new();
        let mut i: usize = 0;
        while i < points.len()
            invariant
                i <= points.len(),
                training.len() == (i + 1) / 2,
                validation.len() == i / 2,
                is_split_in_points(points@, bar_count, divisions as u32),
                points@.len() == point_count(bar_count, divisions as u32),
                s == point_step(bar_count, divisions as u32),
                forall|j: int| 0 <= j < training.len() ==> #[trigger] training@[j] == points@[2 * j],
                forall|j: int| 0 <= j < validation.len() ==> #[trigger] validation@[j] == points@[2 * j + 1],
            decreases points.len() - i,
        {
            if i % 2 == 0 {
                training.push(points[i]);
            } else {
                validation.push(points[i]);
            }
            i = i + 1;
        }
        proof {
            assert forall|j: int| 0 <= j < training@.len() implies {
                &&& #[trigger] training@[j].0 == 2 * j * s
                &&& training@[j].1 == (2 * j + 1) * s
            } by {
                assert(training@[j] == points@[2 * j]);
                assert(points@[2 * j].0 == (2 * j) * s);
            }
            assert forall|j: int| 0 <= j < validation@.len() implies {
                &&& #[trigger] validation@[j].0 == (2 * j + 1) * s
                &&& validation@[j].1 == (2 * j + 2) * s
            } by {
                assert(validation@[j] == points@[2 * j + 1]);
                assert(points@[2 * j + 1].0 == (2 * j + 1) * s);
            }
        }
        assert(alternates(bar_count, divisions as u32, training@, validation@));
        Ok(RangePlan { training, validation })
    }

    /// The ranges that `mode` runs over.
    pub fn ranges(&self, mode: RunMode) -> (r: &Vec<(u32, u32)>)
        ensures
            mode == RunMode::Training ==> r == &self.training,
            mode == RunMode::Validation ==> r == &self.validation,
    {
        match mode {
            RunMode::Training => &self.training,
            RunMode::Validation => &self.validation,
        }
    }
}

/// The bars of one range split into the warm-up that only feeds the strategy and
/// the bars that may trade.
pub struct RangeSchedule {
    pub warmup_start: u32,
    pub warmup_end: u32,
    pub trading_start: u32,
    pub trading_end: u32,
}

impl RangeSchedule {
    /// Schedules the range `(start, end)` of a series of `bar_count` bars with
    /// `warmup` warm-up bars. The warm-up runs from `start` over `warmup` bars, or
    /// to the end of the series if that comes first; trading runs from there to `end`,
    /// and is empty when the warm-up covers the whole range.
    pub fn new(start: u32, end: u32, warmup: u32, bar_count: u32) -> (r: RangeSchedule)
        requires
            start <= end <= bar_count,
        ensures
            r.warmup_start == start,
            r.warmup_end == if start + warmup <= bar_count { start + warmup } else { bar_count as int },
            r.trading_start == if start + warmup <= end { start + warmup } else { end as int },
            r.trading_end == end,
            r.warmup_start <= r.warmup_end <= bar_count,
            r.trading_start <= r.trading_end,
    {
        let warmup_end = if warmup <= bar_count - start { start + warmup } else { bar_count };
        let trading_start = if warmup <= end - start { start + warmup } else { end };
        RangeSchedule { warmup_start: start, warmup_end, trading_start, trading_end: end }
    }
}

/// What the backtest does on one trading bar.
#[derive(Clone, Copy, Debug, PartialEq, Eq, Structural)]
pub enum BarAction {
    /// Open a position on this side.
    Open(TradeDirection),
    /// Close the open position for this reason.
    Close(CloseReason),
    /// Keep the open position.
    Hold,
    /// No position, and none to open.
    Idle,
}

/// The action for a bar: with no position, the strategy's signal decides; with one,
/// the first exit triggered in the order liquidation, stop-loss, take-profit.
pub open spec fn action_of(
    trade_open: bool,
    signal: Option<TradeDirection>,
    liquidation: bool,
    stoploss: bool,
    takeprofit: bool,
) -> BarAction {
    if !trade_open {
        match signal {
            Some(d) => BarAction::Open(d),
            None => BarAction::Idle,
        }
    } else {
        match exit_of(liquidation, stoploss, takeprofit) {
            Some(c) => BarAction::Close(c),
            None => BarAction::Hold,
        }
    }
}

/// Without an entry signal no bar opens a position, whatever the exit triggers say;
/// so a run in which no signal ever fires opens no trade and is inert.
pub proof fn lemma_no_signal_never_opens(trade_open: bool, liquidation: bool, stoploss: bool, takeprofit: bool)
    ensures
        !(action_of(trade_open, None, liquidation, stoploss, takeprofit) is Open),
        !trade_open ==> action_of(trade_open, None, liquidation, stoploss, takeprofit) == BarAction::Idle,
{
}

/// The decision state of a backtest run: whether a position is open in the current
/// range, and how many positions were opened over the whole run.
pub struct Session {
    trade_open: bool,
    trades_opened: u64,
}

impl Session {
    pub closed spec fn is_open(&self) -> bool {
        self.trade_open
    }

    pub closed spec fn opened(&self) -> u64 {
        self.trades_opened
    }

    /// A session with no position and no trade so far.
    pub fn new() -> (r: Session)
        ensures
            !r.is_open(),
            r.opened() == 0,
    {
        Session { trade_open: false, trades_opened: 0 }
    }

    /// A new range starts: no position is carried over, the count of trades is kept.
    pub fn start_range(&mut self)
        ensures
            !final(self).is_open(),
            final(self).opened() == old(self).opened(),
    {
        self.trade_open = false;
    }

    /// Decides the action of one trading bar from the strategy's signal (read only
    /// when no position is open) and the three exit triggers (read only when one is),
    /// and records its effect. The count of trades saturates at its largest value.
    pub fn step(
        &mut self,
        signal: Option<TradeDirection>,
        liquidation: bool,
        stoploss: bool,
        takeprofit: bool,
    ) -> (r: BarAction)
        ensures
            r == action_of(old(self).is_open(), signal, liquidation, stoploss, takeprofit),
            final(self).is_open() <==> (r is Open || r is Hold),
            r is Open ==> final(self).opened() == if old(self).opened() < u64::MAX {
                old(self).opened() + 1
            } else {
                old(self).opened() as int
            },
            !(r is Open) ==> final(self).opened() == old(self).opened(),
    {
        if !self.trade_open {
            match signal {
                Some(d) => {
                    self.trade_open = true;
                    self.trades_opened = self.trades_opened.saturating_add(1);
                    BarAction::Open(d)
                },
                None => BarAction::Idle,
            }
        } else {
            match first_exit(liquidation, stoploss, takeprofit) {
                Some(c) => {
                    self.trade_open = false;
                    BarAction::Close(c)
                },
                None => BarAction::Hold,
            }
        }
    }

    /// Whether a position is open.
    pub fn trade_open(&self) -> (r: bool)
        ensures
            r == self.is_open(),
    {
        self.trade_open
    }

    /// How many positions were opened so far.
    pub fn trades_opened(&self) -> (r: u64)
        ensures
            r == self.opened(),
    {
        self.trades_opened
    }

    /// Whether the run never opened a position: its fitness is then the penalty
    /// instead of the profit.
    pub fn is_inert(&self) -> (r: bool)
        ensures
            r <==> self.opened() == 0,
    {
        self.trades_opened == 0
    }
}

} // verus!
