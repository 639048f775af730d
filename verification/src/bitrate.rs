use std::collections::VecDeque;
use vstd::prelude::*;

verus! {

/// Most rate samples that one recomputation gives.
pub const RATES_LEN: usize = 1024;

/// Lag, in samples, between the two points that a rate is taken over.
pub const RATE_PERIOD: usize = 4;

/// One reading of the link's cumulative bit counter.
#[derive(Debug, Clone, Copy, PartialEq, Eq, Structural)]
pub struct Sample {
    /// Nanoseconds since the estimator started.
    pub time: u64,
    /// Bits received so far.
    pub bits: u64,
}

/// One point of the rate series, as the two differences that the rate is
/// the quotient of.
#[derive(Debug, Clone, Copy, PartialEq, Eq, Structural)]
pub struct RateSample {
    /// Time of the later reading, in nanoseconds since the start.
    pub time: u64,
    /// Bits received between the two readings.
    pub bits: i32,
    /// Nanoseconds between the two readings; never zero.
    pub duration: u64,
}

/// Bounded history of counter readings, oldest first.
#[derive(Debug)]
pub struct Bitrate {
    data: VecDeque<Sample>,
}

/// The last `RATES_LEN + RATE_PERIOD` readings of a history.
pub open spec fn kept(history: Seq<Sample>) -> Seq<Sample> {
    if history.len() > RATES_LEN + RATE_PERIOD {
        history.skip(history.len() - (RATES_LEN + RATE_PERIOD))
    } else {
        history
    }
}

/// Whether the reading at `i` and the one `RATE_PERIOD` before it give a
/// rate: time has passed and the counter's growth fits 32 signed bits.
pub open spec fn emits(history: Seq<Sample>, i: int) -> bool {
    &&& RATE_PERIOD <= i < history.len()
    &&& history[i].time > history[i - RATE_PERIOD].time
    &&& 0 <= history[i].bits - history[i - RATE_PERIOD].bits <= i32::MAX
}

/// The rate sample of the reading at `i`.
pub open spec fn rate_at(history: Seq<Sample>, i: int) -> RateSample {
    RateSample {
        time: history[i].time,
        bits: (history[i].bits - history[i - RATE_PERIOD].bits) as i32,
        duration: (history[i].time - history[i - RATE_PERIOD].time) as u64,
    }
}

/// The rate samples of the first `n` readings, in the readings' order.
pub open spec fn rates_upto(history: Seq<Sample>, n: int) -> Seq<RateSample>
    decreases n,
{
    if n <= 0 {
        Seq::empty()
    } else if emits(history, n - 1) {
        rates_upto(history, n - 1).push(rate_at(history, n - 1))
    } else {
        rates_upto(history, n - 1)
    }
}

/// The whole rate series of a history.
pub open spec fn rates(history: Seq<Sample>) -> Seq<RateSample> {
    rates_upto(history, history.len() as int)
}

/// The readings' times and counts rise by `step` and by `growth` from one
/// reading to the next.
pub open spec fn steady(history: Seq<Sample>, step: int, growth: int) -> bool {
    forall|i: int|
        0 <= i < history.len() ==> {
            &&& (#[trigger] history[i]).time == history[0].time + i * step
            &&& history[i].bits == history[0].bits + i * growth
        }
}

/// The first `n` readings give at most `n - RATE_PERIOD` rate samples.
pub proof fn lemma_rates_bounded(history: Seq<Sample>, n: int)
    requires
        n <= history.len(),
    ensures
        rates_upto(history, n).len() <= if n > RATE_PERIOD {
            n - RATE_PERIOD
        } else {
            0
        },
    decreases n,
{
    if n > 0 {
        lemma_rates_bounded(history, n - 1);
    }
}

/// A counter that falls between two readings a lag apart gives no rate
/// sample for that pair: the series is the same with and without it.
pub proof fn lemma_regression_skipped(history: Seq<Sample>, i: int)
    requires
        RATE_PERIOD <= i < history.len(),
        history[i].bits < history[i - RATE_PERIOD].bits,
    ensures
        !emits(history, i),
        rates_upto(history, i + 1) == rates_upto(history, i),
{
}

/// A counter that grows by `growth` bits every `step` nanoseconds gives one
/// rate sample for every reading from the lag on, each with the quotient
/// `RATE_PERIOD * growth` bits over `RATE_PERIOD * step` nanoseconds: the
/// true slope.
pub proof fn lemma_steady_rate(history: Seq<Sample>, step: int, growth: int, n: int)
    requires
        steady(history, step, growth),
        step > 0,
        0 <= growth,
        RATE_PERIOD * growth <= i32::MAX,
        0 <= n <= history.len(),
    ensures
        rates_upto(history, n).len() == if n > RATE_PERIOD {
            n - RATE_PERIOD
        } else {
            0
        },
        forall|j: int|
            0 <= j < rates_upto(history, n).len() ==> {
                &&& (#[trigger] rates_upto(history, n)[j]).time == history[j + RATE_PERIOD].time
                &&& rates_upto(history, n)[j].bits == RATE_PERIOD * growth
                &&& rates_upto(history, n)[j].duration == RATE_PERIOD * step
            },
    decreases n,
{
    if n > 0 {
        lemma_steady_rate(history, step, growth, n - 1);
        let i = n - 1;
        if i >= RATE_PERIOD {
            let later = history[i];
            let earlier = history[i - RATE_PERIOD];
            assert(later.time - earlier.time == RATE_PERIOD * step) by (nonlinear_arith)
                requires
                    later.time == history[0].time + i * step,
                    earlier.time == history[0].time + (i - RATE_PERIOD) * step,
            ;
            assert(later.bits - earlier.bits == RATE_PERIOD * growth) by (nonlinear_arith)
                requires
                    later.bits == history[0].bits + i * growth,
                    earlier.bits == history[0].bits + (i - RATE_PERIOD) * growth,
            ;
            assert(RATE_PERIOD * step > 0) by (nonlinear_arith)
                requires
                    step > 0,
            ;
            assert(RATE_PERIOD * growth >= 0) by (nonlinear_arith)
                requires
                    growth >= 0,
            ;
            assert(emits(history, i));
        }
    }
}

impl Bitrate {
    /// The readings held, oldest first.
    pub closed spec fn history(&self) -> Seq<Sample> {
        self.data@
    }

    /// The history is within its capacity.
    pub open spec fn wf(&self) -> bool {
        self.history().len() <= RATES_LEN + RATE_PERIOD
    }

    /// An estimator without readings.
    pub fn new() -> (b: Bitrate)
        ensures
            b.wf(),
            b.history() == Seq::<Sample>::empty(),
    {
        Bitrate { data: VecDeque::new() }
    }

    /// Appends a reading and discards the oldest beyond the capacity.
    pub fn record(&mut self, time: u64, bits: u64)
        requires
            old(self).wf(),
        ensures
            final(self).wf(),
            final(self).history() == kept(old(self).history().push(Sample { time, bits })),
    {
        let ghost appended = self.data@.push(Sample { time, bits });
        self.data.push_back(Sample { time, bits });
        while self.data.len() > RATES_LEN + RATE_PERIOD
            invariant
                self.data@.len() <= appended.len(),
                self.data@.len() == appended.len() || self.data@.len() >= RATES_LEN + RATE_PERIOD,
                self.data@ == appended.skip(appended.len() - self.data@.len()),
            decreases self.data@.len(),
        {
            self.data.pop_front();
        }
        assert(self.data@ =~= kept(appended));
    }

    /// Recomputes the whole rate series from the history.
    pub fn calculate_rate(&self) -> (out: Vec<RateSample>)
        requires
            self.wf(),
        ensures
            out@ == rates(self.history()),
            out@.len() <= RATES_LEN,
    {
        let mut out: Vec<RateSample> = Vec::new();
        let n: usize = self.data.len();
        let mut i: usize = 0;
        while i < n
            invariant
                n == self.data@.len(),
                i <= n,
                out@ == rates_upto(self.data@, i as int),
            decreases n - i,
        {
            if i >= RATE_PERIOD {
                let current = self.data[i];
                let previous = self.data[i - RATE_PERIOD];
                if current.bits >= previous.bits && current.bits - previous.bits <= 0x7FFF_FFFF
                    && current.time > previous.time {
                    let grown: u64 = current.bits - previous.bits;
                    out.push(
                        RateSample {
                            time: current.time,
                            bits: grown as i32,
                            duration: current.time - previous.time,
                        },
                    );
                }
            }
            i += 1;
        }
        proof {
            lemma_rates_bounded(self.data@, n as int);
        }
        out
    }

    /// One tick of the estimator: records the reading, then recomputes the
    /// series.
    pub fn sample(&mut self, time: u64, bits: u64) -> (out: Vec<RateSample>)
        requires
            old(self).wf(),
        ensures
            final(self).wf(),
            final(self).history() == kept(old(self).history().push(Sample { time, bits })),
            out@ == rates(final(self).history()),
            out@.len() <= RATES_LEN,
    {
        self.record(time, bits);
        self.calculate_rate()
    }
}

} // verus!
