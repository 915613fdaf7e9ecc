use vstd::prelude::*;
use crate::indicators::traits::Period;

verus! {

/// The last `min(n, period)` items of `history`, oldest first.
pub open spec fn last_items<T>(history: Seq<T>, period: nat) -> Seq<T> {
    if history.len() <= period {
        history
    } else {
        history.subrange(history.len() - period, history.len() as int)
    }
}

/// A circular buffer that keeps the last `period` values pushed into it.
pub struct RollingWindow<T> {
    period: usize,
    index: usize,
    slots: Vec<T>,
    history: Ghost<Seq<T>>,
}

impl<T: Copy> RollingWindow<T> {
    /// Every value pushed since the window was made or last reset, oldest first.
    pub closed spec fn pushed(&self) -> Seq<T> {
        self.history@
    }

    pub closed spec fn width(&self) -> nat {
        self.period as nat
    }

    /// The values the window keeps, oldest first.
    pub open spec fn kept(&self) -> Seq<T> {
        last_items(self.pushed(), self.width())
    }

    /// Position in `history` of the value that slot `i` holds once the buffer is full.
    closed spec fn slot_age(&self, i: int) -> int {
        let n = self.history@.len() as int;
        let p = self.period as int;
        if i >= self.index {
            n - p + (i - self.index)
        } else {
            n - p + (i + p - self.index)
        }
    }

    pub closed spec fn wf(&self) -> bool {
        &&& self.period >= 1
        &&& self.slots@.len() <= self.period
        &&& self.slots@.len() < self.period ==> {
            &&& self.index == 0
            &&& self.slots@ == self.history@
        }
        &&& self.slots@.len() == self.period ==> {
            &&& self.index < self.period
            &&& self.history@.len() >= self.period
            &&& forall|i: int| 0 <= i < self.period ==> #[trigger] self.slots@[i] == self.history@[self.slot_age(i)]
        }
    }

    /// An empty window over `period` values.
    pub fn new(period: usize) -> (r: RollingWindow<T>)
        requires
            period >= 1,
        ensures
            r.wf(),
            r.width() == period,
            r.pushed() == Seq::<T>::empty(),
    {
        RollingWindow { period, index: 0, slots: Vec::new(), history: Ghost(Seq::empty()) }
    }

    /// Adds `input` as the newest value. Once the window is full this drops the oldest
    /// value and returns it; before, it returns `None`.
    pub fn push(&mut self, input: T) -> (evicted: Option<T>)
        requires
            old(self).wf(),
        ensures
            final(self).wf(),
            final(self).width() == old(self).width(),
            final(self).pushed() == old(self).pushed().push(input),
            old(self).pushed().len() < old(self).width() ==> evicted is None,
            old(self).pushed().len() >= old(self).width() ==> evicted == Some(old(self).kept()[0]),
    {
        let ghost h = self.history@;
        if self.slots.len() < self.period {
            self.slots.push(input);
            self.history = Ghost(h.push(input));
            proof {
                if self.slots@.len() == self.period {
                    assert forall|i: int| 0 <= i < self.period implies #[trigger] self.slots@[i] == self.history@[self.slot_age(i)] by {
                    }
                }
            }
            None
        } else {
            let old_value = self.slots[self.index];
            proof {
                assert(self.slots@[self.index as int] == h[self.slot_age(self.index as int)]);
                assert(self.slot_age(self.index as int) == h.len() - self.period);
            }
            let ghost old_index = self.index;
            self.slots.set(self.index, input);
            self.index = if self.index + 1 < self.period { self.index + 1 } else { 0 };
            self.history = Ghost(h.push(input));
            proof {
                let p = self.period as int;
                assert forall|i: int| 0 <= i < p implies #[trigger] self.slots@[i] == self.history@[self.slot_age(i)] by {
                    if i != old_index {
                        let a_old = if i >= old_index { h.len() - p + (i - old_index) } else { h.len() - p + (i + p - old_index) };
                        assert(self.slots@[i] == h[a_old]);
                    }
                }
            }
            Some(old_value)
        }
    }

    /// The values the window keeps, oldest first: the last `min(n, period)` of the `n`
    /// values pushed.
    pub fn retained(&self) -> (r: Vec<T>)
        requires
            self.wf(),
        ensures
            r@ == self.kept(),
    {
        let mut out: Vec<T> = Vec::new();
        if self.slots.len() < self.period {
            let mut i: usize = 0;
            while i < self.slots.len()
                invariant
                    self.wf(),
                    self.slots@.len() < self.period,
                    i <= self.slots@.len(),
                    out@ == self.slots@.subrange(0, i as int),
                decreases self.slots@.len() - i,
            {
                out.push(self.slots[i]);
                i = i + 1;
            }
            assert(out@ == self.slots@);
            return out;
        }
        let ghost h = self.history@;
        let ghost start = h.len() - self.period;
        let mut i: usize = self.index;
        while i < self.period
            invariant
                self.wf(),
                self.slots@.len() == self.period,
                h == self.history@,
                start == h.len() - self.period,
                self.index <= i <= self.period,
                out@ == h.subrange(start, start + (i - self.index)),
            decreases self.period - i,
        {
            out.push(self.slots[i]);
            proof {
                assert(self.slots@[i as int] == h[self.slot_age(i as int)]);
            }
            i = i + 1;
        }
        let mut i: usize = 0;
        while i < self.index
            invariant
                self.wf(),
                self.slots@.len() == self.period,
                h == self.history@,
                start == h.len() - self.period,
                i <= self.index,
                out@ == h.subrange(start, start + (self.period - self.index) + i),
            decreases self.index - i,
        {
            out.push(self.slots[i]);
            proof {
                assert(self.slots@[i as int] == h[self.slot_age(i as int)]);
            }
            i = i + 1;
        }
        out
    }

    /// Empties the window; the period stays.
    pub fn reset(&mut self)
        requires
            old(self).wf(),
        ensures
            final(self).wf(),
            final(self).width() == old(self).width(),
            final(self).pushed() == Seq::<T>::empty(),
    {
        self.slots = Vec::new();
        self.index = 0;
        self.history = Ghost(Seq::empty());
    }

    /// How many values the window keeps now.
    pub fn count(&self) -> (r: usize)
        requires
            self.wf(),
        ensures
            r == self.kept().len(),
    {
        self.slots.len()
    }
}

impl<T: Copy> Period for RollingWindow<T> {
    fn period(&self) -> usize {
        self.period
    }
}

} // verus!
