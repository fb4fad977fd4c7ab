//! The emulator clock's bookkeeping: which cycle the emulation has reached, and
//! how far behind real time each advance was.
//!
//! The cycle that real time has reached is measured outside (it comes from the
//! wall clock and the clock's period); what stands here is what the clock does
//! with it: it advances, files the number of cycles it skipped into a histogram
//! of twenty buckets and a running sum, and every `DEBUG_CLK` cycles hands out a
//! report of those figures and starts counting afresh.

use vstd::prelude::*;

verus! {

/// Cycles between two diagnostic reports: one and a half seconds of a PAL C64
/// (1.5 * 985248 Hz).
pub const DEBUG_CLK: u64 = 1477872;

/// Number of buckets of the skip histogram.
pub const ERROR_BUCKETS: usize = 20;

/// Sum of a sequence of counters.
pub open spec fn seq_sum(s: Seq<u64>) -> int
    decreases s.len(),
{
    if s.len() == 0 {
        0
    } else {
        seq_sum(s.drop_last()) + s.last()
    }
}

/// The histogram bucket that an advance which skipped `skipped` cycles is filed in:
/// its own number up to 19, and the last bucket for anything longer.
pub open spec fn bucket(skipped: int) -> int {
    if skipped < 19 {
        skipped
    } else {
        19
    }
}

/// The diagnostic figures handed out every `DEBUG_CLK` cycles.
#[derive(Clone, Copy, Debug, PartialEq, Eq)]
pub struct ClockReport {
    /// How many advances skipped 0, 1, ..., 18 cycles; the last bucket counts
    /// those that skipped 19 or more.
    pub errors: [u64; 20],
    /// Total number of cycles skipped since the previous report.
    pub sleep_sum: u64,
}

/// What one call of `tick` did.
#[derive(Clone, Copy, Debug, PartialEq, Eq)]
pub struct TickOutcome {
    /// Whether the clock moved to a new cycle.
    pub advanced: bool,
    /// The diagnostic report that fell due with this advance, if one did.
    pub report: Option<ClockReport>,
}

/// The emulator clock.
pub struct Clock {
    clock: u64,
    debug_error: [u64; 20],
    debug_sleep_sum: u64,
    debug_print: u64,
}

impl Clock {
    /// Every cycle reached since the last report is counted exactly once in the
    /// histogram or the skip sum, so those figures never exceed the cycle count.
    #[verifier::type_invariant]
    spec fn inv(self) -> bool {
        &&& self.debug_print <= self.clock
        &&& self.debug_print % DEBUG_CLK == 0
        &&& self.debug_sleep_sum + seq_sum(self.debug_error@) <= self.clock
    }

    /// The cycle the clock has reached.
    pub closed spec fn count(self) -> u64 {
        self.clock
    }

    /// The skip histogram since the last report.
    pub closed spec fn histogram(self) -> Seq<u64> {
        self.debug_error@
    }

    /// The number of cycles skipped since the last report.
    pub closed spec fn skipped(self) -> u64 {
        self.debug_sleep_sum
    }

    /// The cycle at which the last report period began.
    pub closed spec fn mark(self) -> u64 {
        self.debug_print
    }

    /// Cycles accounted for since the last report: one for each advance
    /// (the histogram) and one for each cycle it skipped (the skip sum).
    pub open spec fn accounted(self) -> int {
        self.skipped() + seq_sum(self.histogram())
    }

    /// A clock at cycle 0 with no advances recorded.
    pub fn new() -> (c: Clock)
        ensures
            c.count() == 0,
            c.histogram() == Seq::new(20, |i: int| 0u64),
            c.skipped() == 0,
            c.mark() == 0,
    {
        let zeros = [0u64; 20];
        proof {
            lemma_sum_zeros(zeros@);
            assert(zeros@ =~= Seq::new(20, |i: int| 0u64));
        }
        Clock { clock: 0, debug_error: zeros, debug_sleep_sum: 0, debug_print: 0 }
    }

    /// The cycle the clock has reached. Every state keeps the start of the
    /// current report period at a whole number of report periods, and the figures of the
    /// within the cycles it has run: its start is not past the clock, and the advances plus the cycles they skipped do not
    /// exceed the clock.
    pub fn cycle(&self) -> (c: u64)
        ensures
            c == self.count(),
            self.mark() <= self.count(),
            self.mark() % DEBUG_CLK == 0,
            self.accounted() <= self.count(),
    {
        proof {
            use_type_invariant(self);
        }
        self.clock
    }

    /// The skip histogram since the last report.
    pub fn error_counts(&self) -> (e: [u64; 20])
        ensures
            e@ == self.histogram(),
    {
        self.debug_error
    }

    /// The number of cycles skipped since the last report.
    pub fn sleep_sum(&self) -> (s: u64)
        ensures
            s == self.skipped(),
    {
        self.debug_sleep_sum
    }

    /// The cycle at which the current report period began.
    pub fn report_mark(&self) -> (m: u64)
        ensures
            m == self.mark(),
    {
        self.debug_print
    }

    /// The number of cycles an advance to `new_clock` skips.
    pub open spec fn skip_to(self, new_clock: u64) -> int {
        new_clock - self.count() - 1
    }

    /// The histogram after filing an advance to `new_clock`.
    pub open spec fn filed(self, new_clock: u64) -> Seq<u64> {
        let k = bucket(self.skip_to(new_clock));
        self.histogram().update(k, (self.histogram()[k] + 1) as u64)
    }

    /// Whether the next advance hands out a report: `DEBUG_CLK` cycles have
    /// passed since the current report period began.
    pub open spec fn report_due(self) -> bool {
        self.count() >= self.mark() + DEBUG_CLK
    }

    /// Moves the clock to cycle `new_clock`, the cycle that real time has reached.
    /// Returns whether the cycle changed; when it did, the advance is filed and,
    /// if a report period is over, its figures are handed out and reset.
    pub fn tick(&mut self, new_clock: u64) -> (out: TickOutcome)
        requires
            old(self).count() <= new_clock,
            new_clock != old(self).count() ==> old(self).mark() + DEBUG_CLK <= u64::MAX,
        ensures
            out.advanced == (new_clock != old(self).count()),
            final(self).count() == new_clock,
            old(self).mark() <= final(self).mark() <= final(self).count(),
            out.report is Some <==> (new_clock != old(self).count() && old(self).count()
                >= old(self).mark() + DEBUG_CLK),
            final(self).mark() % DEBUG_CLK == 0,
            !out.advanced ==> {
                &&& out.report is None
                &&& final(self).histogram() == old(self).histogram()
                &&& final(self).skipped() == old(self).skipped()
                &&& final(self).mark() == old(self).mark()
            },
            out.advanced && !old(self).report_due() ==> {
                &&& out.report is None
                &&& final(self).histogram() == old(self).filed(new_clock)
                &&& final(self).skipped() == old(self).skipped() + old(self).skip_to(new_clock)
                &&& final(self).mark() == old(self).mark()
                &&& final(self).accounted() == old(self).accounted() + (new_clock - old(self).count())
            },
            out.advanced && old(self).report_due() ==> {
                &&& out.report matches Some(r) && {
                    &&& r.errors@ == old(self).filed(new_clock)
                    &&& r.sleep_sum == old(self).skipped() + old(self).skip_to(new_clock)
                    &&& r.sleep_sum + seq_sum(r.errors@) == old(self).accounted() + (new_clock - old(self).count())
                }
                &&& final(self).histogram() == Seq::new(20, |i: int| 0u64)
                &&& final(self).skipped() == 0
                &&& final(self).mark() == old(self).mark() + DEBUG_CLK
            },
    {
        proof {
            use_type_invariant(&*self);
        }
        if new_clock == self.clock {
            return TickOutcome { advanced: false, report: None };
        }
        let diff = new_clock - self.clock - 1;
        let k: usize = if diff < 19 { diff as usize } else { 19 };
        proof {
            lemma_element_le_sum(self.debug_error@, k as int);
            lemma_sum_increment(self.debug_error@, k as int);
        }
        let mut errs = self.debug_error;
        let bumped = errs[k] + 1;
        errs[k] = bumped;
        let sum = self.debug_sleep_sum + diff;
        if self.clock >= self.debug_print + DEBUG_CLK {
            let zeros = [0u64; 20];
            proof {
                lemma_sum_zeros(zeros@);
                assert(zeros@ =~= Seq::new(20, |i: int| 0u64));
            }
            let mark = self.debug_print + DEBUG_CLK;
            *self = Clock { clock: new_clock, debug_error: zeros, debug_sleep_sum: 0, debug_print: mark };
            TickOutcome { advanced: true, report: Some(ClockReport { errors: errs, sleep_sum: sum }) }
        } else {
            let mark = self.debug_print;
            *self = Clock { clock: new_clock, debug_error: errs, debug_sleep_sum: sum, debug_print: mark };
            TickOutcome { advanced: true, report: None }
        }
    }
}

/// Each counter is at most the sum of all of them.
proof fn lemma_element_le_sum(s: Seq<u64>, k: int)
    requires
        0 <= k < s.len(),
    ensures
        s[k] <= seq_sum(s),
    decreases s.len(),
{
    lemma_sum_nonneg(s.drop_last());
    if k < s.len() - 1 {
        lemma_element_le_sum(s.drop_last(), k);
    }
}

/// A sum of counters is never negative.
proof fn lemma_sum_nonneg(s: Seq<u64>)
    ensures
        seq_sum(s) >= 0,
    decreases s.len(),
{
    if s.len() > 0 {
        lemma_sum_nonneg(s.drop_last());
    }
}

/// Bumping one counter by one raises the sum by one.
proof fn lemma_sum_increment(s: Seq<u64>, k: int)
    requires
        0 <= k < s.len(),
        s[k] < u64::MAX,
    ensures
        seq_sum(s.update(k, (s[k] + 1) as u64)) == seq_sum(s) + 1,
    decreases s.len(),
{
    let t = s.update(k, (s[k] + 1) as u64);
    if k == s.len() - 1 {
        assert(t.drop_last() =~= s.drop_last());
    } else {
        lemma_sum_increment(s.drop_last(), k);
        assert(t.drop_last() =~= s.drop_last().update(k, (s[k] + 1) as u64));
    }
}

/// A report is due at every cycle from the end of the report period on, not
/// only at its last cycle, and at no cycle before it.
pub proof fn law_report_due_from_period_end(c: Clock)
    ensures
        c.count() >= c.mark() + DEBUG_CLK ==> c.report_due(),
        c.count() < c.mark() + DEBUG_CLK ==> !c.report_due(),
{
}

/// Filing an advance bumps exactly one histogram counter by one: the one
/// numbered by the cycles it skipped, or the last for 19 or more; the others
/// stay as they were.
pub proof fn law_filing(c: Clock, new_clock: u64)
    requires
        c.count() < new_clock,
        c.histogram().len() == 20,
        forall|j: int| 0 <= j < 20 ==> #[trigger] c.histogram()[j] < u64::MAX,
    ensures
        c.filed(new_clock).len() == 20,
        forall|j: int|
            0 <= j < 20 ==> #[trigger] c.filed(new_clock)[j] == c.histogram()[j] + (if j == (if new_clock
                - c.count() > 19 {
                19
            } else {
                new_clock - c.count() - 1
            }) {
                1int
            } else {
                0int
            }),
{
}

/// One step of a run of ticks: `b` is the clock after a tick of `a` that
/// advanced it and handed out no report.
pub open spec fn ticked_without_report(a: Clock, b: Clock) -> bool {
    &&& a.count() < b.count()
    &&& !a.report_due()
    &&& b.histogram() == a.filed(b.count())
    &&& b.skipped() == a.skipped() + a.skip_to(b.count())
    &&& b.mark() == a.mark()
}

/// The cycles skipped by the advances of a run of clock states, summed.
pub open spec fn run_skips(states: Seq<Clock>) -> int
    decreases states.len(),
{
    if states.len() <= 1 {
        0
    } else {
        run_skips(states.drop_last()) + (states.last().count() - states[states.len() - 2].count() - 1)
    }
}

/// How many advances of a run of clock states skipped a number of cycles
/// filed in bucket `j`.
pub open spec fn run_bucket_count(states: Seq<Clock>, j: int) -> int
    decreases states.len(),
{
    if states.len() <= 1 {
        0
    } else {
        run_bucket_count(states.drop_last(), j) + (if bucket(
            states.last().count() - states[states.len() - 2].count() - 1,
        ) == j {
            1int
        } else {
            0int
        })
    }
}

/// A run of ticks from a fresh clock, none of which hands out a report,
/// accounts for every cycle: the clock stands at the sum of each advance's
/// skipped cycles plus one, the skip sum is the sum of the skipped cycles, the
/// histogram counts the advances by bucket (skips of 19 or more in the last),
/// and its total is the number of advances.
pub proof fn law_ticks_accumulate(states: Seq<Clock>)
    requires
        states.len() >= 1,
        states[0].count() == 0,
        states[0].histogram() == Seq::new(20, |i: int| 0u64),
        states[0].skipped() == 0,
        forall|i: int| 0 <= i < states.len() - 1 ==> ticked_without_report(#[trigger] states[i], states[i + 1]),
    ensures
        states.last().count() == run_skips(states) + (states.len() - 1),
        states.last().skipped() == run_skips(states),
        states.last().histogram().len() == 20,
        forall|j: int| 0 <= j < 20 ==> #[trigger] states.last().histogram()[j] == run_bucket_count(states, j),
        seq_sum(states.last().histogram()) == states.len() - 1,
    decreases states.len(),
{
    if states.len() == 1 {
        lemma_sum_zeros(states[0].histogram());
    } else {
        let prefix = states.drop_last();
        assert forall|i: int| 0 <= i < prefix.len() - 1 implies ticked_without_report(#[trigger] prefix[i], prefix[i + 1]) by {
            assert(ticked_without_report(states[i], states[i + 1]));
        }
        law_ticks_accumulate(prefix);
        lemma_run_bounds(prefix);
        let a = states[states.len() - 2];
        let b = states.last();
        assert(prefix.last() == a);
        assert(ticked_without_report(a, b));
        let k = bucket(a.skip_to(b.count()));
        assert(a.histogram()[k] == run_bucket_count(prefix, k));
        assert(a.histogram()[k] < u64::MAX);
        lemma_sum_increment(a.histogram(), k);
        assert forall|j: int| 0 <= j < 20 implies #[trigger] b.histogram()[j] == run_bucket_count(states, j) by {
            assert(a.histogram()[j] == run_bucket_count(prefix, j));
        }
    }
}

/// In a run of clock states, each bucket counts at most the advances, and the
/// advances are at most the cycles.
proof fn lemma_run_bounds(states: Seq<Clock>)
    requires
        states.len() >= 1,
        forall|i: int| 0 <= i < states.len() - 1 ==> ticked_without_report(#[trigger] states[i], states[i + 1]),
    ensures
        forall|j: int| 0 <= #[trigger] run_bucket_count(states, j) <= states.len() - 1,
        run_skips(states) >= 0,
    decreases states.len(),
{
    if states.len() > 1 {
        let prefix = states.drop_last();
        assert forall|i: int| 0 <= i < prefix.len() - 1 implies ticked_without_report(#[trigger] prefix[i], prefix[i + 1]) by {
            assert(ticked_without_report(states[i], states[i + 1]));
        }
        lemma_run_bounds(prefix);
        assert(ticked_without_report(states[states.len() - 2], states[states.len() - 1]));
        assert forall|j: int| 0 <= #[trigger] run_bucket_count(states, j) <= states.len() - 1 by {
            assert(0 <= run_bucket_count(prefix, j) <= prefix.len() - 1);
        }
    }
}

/// A sequence of zeros sums to zero.
proof fn lemma_sum_zeros(s: Seq<u64>)
    requires
        forall|i: int| 0 <= i < s.len() ==> s[i] == 0,
    ensures
        seq_sum(s) == 0,
    decreases s.len(),
{
    if s.len() > 0 {
        lemma_sum_zeros(s.drop_last());
    }
}

} // verus!
