//! Per-worker statistics and a reporter that turns their counters into
//! per-period samples.
use vstd::prelude::*;
use std::time::Instant;

verus! {

#[verifier::external_type_specification]
#[verifier::external_body]
pub struct ExInstant(Instant);

/// Relies on `std::time::Instant::now`: it returns the current instant of a
/// monotonic clock. Nothing is promised of the value.
#[verifier::external_body]
fn instant_now() -> (r: Instant) {
    Instant::now()
}

/// Integer division rounded toward zero, for a positive divisor.
pub open spec fn trunc_div(a: int, b: int) -> int {
    if a >= 0 { a / b } else { -((-a) / b) }
}

/// A running average and the number of samples it holds.
#[derive(Clone, Copy, Debug, PartialEq, Eq, Structural)]
pub struct AvgRdtsc {
    pub value: u64,
    pub cnt_num: i64,
}

/// The counters that one worker reports: operations finished, and a running
/// average of the cycles that an operation took.
#[derive(Clone, Copy, Debug, PartialEq, Eq, Structural)]
pub struct BenchStat {
    /// The number of operations finished.
    pub num_ops_finished: u64,
    /// The running average of cycles per operation.
    pub avg_rdtsc: AvgRdtsc,
}

impl BenchStat {
    /// The running average of cycles per operation.
    pub open spec fn avg_value(self) -> int {
        self.avg_rdtsc.value as int
    }

    /// How many samples the running average holds.
    pub open spec fn avg_count(self) -> int {
        self.avg_rdtsc.cnt_num as int
    }

    /// The running average fits a signed cycle count and its sample count is
    /// not negative.
    pub open spec fn wf(self) -> bool {
        0 <= self.avg_value() <= i64::MAX && 0 <= self.avg_count()
    }

    /// Zero operations and an empty average.
    pub fn new() -> (r: Self)
        ensures
            r.num_ops_finished == 0,
            r.avg_value() == 0,
            r.avg_count() == 0,
            r.wf(),
    {
        BenchStat { num_ops_finished: 0, avg_rdtsc: AvgRdtsc { value: 0, cnt_num: 0 } }
    }

    /// Resets every counter.
    pub fn reset(&mut self)
        ensures
            final(self).num_ops_finished == 0,
            final(self).avg_value() == 0,
            final(self).avg_count() == 0,
            final(self).wf(),
    {
        self.num_ops_finished = 0;
        self.avg_rdtsc = AvgRdtsc { value: 0, cnt_num: 0 };
    }

    /// Counts one more finished operation.
    pub fn finished_one_op(&mut self)
        requires
            old(self).num_ops_finished < u64::MAX,
        ensures
            final(self).num_ops_finished == old(self).num_ops_finished + 1,
            final(self).avg_rdtsc == old(self).avg_rdtsc,
    {
        self.finished_batch_ops(1);
    }

    /// Counts `num_ops` more finished operations.
    pub fn finished_batch_ops(&mut self, num_ops: u64)
        requires
            old(self).num_ops_finished + num_ops <= u64::MAX,
        ensures
            final(self).num_ops_finished == old(self).num_ops_finished + num_ops,
            final(self).avg_rdtsc == old(self).avg_rdtsc,
    {
        self.num_ops_finished = self.num_ops_finished + num_ops;
    }

    /// Adds the sample `num` to the running average: the average moves
    /// toward the sample by their difference over the new sample count,
    /// rounded toward zero.
    pub fn record_avg_rdtsc(&mut self, num: i64)
        requires
            old(self).wf(),
            old(self).avg_count() < i64::MAX,
            num >= 0,
        ensures
            final(self).wf(),
            final(self).avg_count() == old(self).avg_count() + 1,
            final(self).avg_value() == old(self).avg_value() + trunc_div(
                num - old(self).avg_value(),
                old(self).avg_count() + 1,
            ),
            final(self).num_ops_finished == old(self).num_ops_finished,
    {
        self.avg_rdtsc.cnt_num = self.avg_rdtsc.cnt_num + 1;
        let c = self.avg_rdtsc.cnt_num;
        let v = self.avg_rdtsc.value as i64;
        let d = (num - v) / c;
        assert(trunc_div(num - v, c as int) == d);
        assert(num >= v ==> 0 <= trunc_div(num - v, c as int) <= num - v) by (nonlinear_arith)
            requires c >= 1;
        assert(num < v ==> v - num >= -trunc_div(num - v, c as int) >= 0) by (nonlinear_arith)
            requires c >= 1;
        self.avg_rdtsc.value = (v + d) as u64;
    }

    /// The running average of cycles per operation.
    pub fn avg_rdtsc(&self) -> (r: u64)
        ensures
            r == self.avg_value(),
    {
        self.avg_rdtsc.value
    }
}

impl Default for BenchStat {
    fn default() -> (r: Self)
        ensures
            r.num_ops_finished == 0,
            r.avg_value() == 0,
            r.avg_count() == 0,
    {
        BenchStat::new()
    }
}

/// Sum of the finished operations of `stats`.
pub open spec fn total_ops(stats: Seq<BenchStat>) -> int
    decreases stats.len(),
{
    if stats.len() == 0 {
        0
    } else {
        total_ops(stats.drop_last()) + stats.last().num_ops_finished
    }
}

/// What a reporter saw in one period: the operations finished in it and the
/// instants that bound it.
#[derive(Clone, Copy, Debug)]
pub struct PeriodSample {
    pub id: usize,
    pub ops: u64,
    pub start: Instant,
    pub end: Instant,
}

/// A reporter of the workers of this machine: each period it takes the
/// difference of their summed counters since the previous period.
#[derive(Clone, Copy, Debug)]
pub struct SimpleBenchReporter {
    stats_of_last_period: BenchStat,
    last_record_time: Instant,
    id: usize,
}

impl SimpleBenchReporter {
    /// Operations counted up to the previous period.
    pub closed spec fn last_ops(self) -> int {
        self.stats_of_last_period.num_ops_finished as int
    }

    /// When the previous period ended.
    pub closed spec fn last_time(self) -> Instant {
        self.last_record_time
    }

    pub closed spec fn spec_id(self) -> int {
        self.id as int
    }

    /// A reporter with id 0 whose first period starts now.
    pub fn new() -> (r: Self)
        ensures
            r.spec_id() == 0,
            r.last_ops() == 0,
    {
        Self::new_with_id(0)
    }

    /// A reporter with id `id` whose first period starts now.
    pub fn new_with_id(id: usize) -> (r: Self)
        ensures
            r.spec_id() == id,
            r.last_ops() == 0,
    {
        SimpleBenchReporter {
            stats_of_last_period: BenchStat::new(),
            last_record_time: instant_now(),
            id,
        }
    }

    /// Operations counted up to the previous period.
    pub fn ops_of_last_period(&self) -> (r: u64)
        ensures
            r == self.last_ops(),
    {
        self.stats_of_last_period.num_ops_finished
    }

    /// The id of this reporter.
    pub fn id(&self) -> (r: usize)
        ensures
            r == self.spec_id(),
    {
        self.id
    }

    /// Ends the current period: sums the operations of `stats`, returns how
    /// many were finished since the previous period together with the
    /// period's bounds, and starts the next period.
    pub fn sample_period(&mut self, stats: &Vec<BenchStat>) -> (r: PeriodSample)
        requires
            total_ops(stats@) <= u64::MAX,
            total_ops(stats@) >= old(self).last_ops(),
        ensures
            r.id == old(self).spec_id(),
            r.ops == total_ops(stats@) - old(self).last_ops(),
            r.start == old(self).last_time(),
            r.end == final(self).last_time(),
            final(self).last_ops() == total_ops(stats@),
            final(self).spec_id() == old(self).spec_id(),
    {
        let mut total: u64 = 0;
        let mut i: usize = 0;
        while i < stats.len()
            invariant
                i <= stats@.len(),
                total == total_ops(stats@.take(i as int)),
                total_ops(stats@) <= u64::MAX,
            decreases stats@.len() - i,
        {
            proof {
                assert(stats@.take(i as int + 1).drop_last() =~= stats@.take(i as int));
                lemma_total_ops_prefix(stats@, i as int + 1);
            }
            total = total + stats[i].num_ops_finished;
            i = i + 1;
        }
        assert(stats@.take(i as int) =~= stats@);
        let now = instant_now();
        let start = self.last_record_time;
        let ops = total - self.stats_of_last_period.num_ops_finished;
        let mut last = BenchStat::new();
        last.num_ops_finished = total;
        self.stats_of_last_period = last;
        self.last_record_time = now;
        PeriodSample { id: self.id, ops, start, end: now }
    }
}

proof fn lemma_total_ops_prefix(s: Seq<BenchStat>, k: int)
    requires
        0 <= k <= s.len(),
    ensures
        total_ops(s.take(k)) <= total_ops(s),
        k > 0 ==> total_ops(s.take(k)) == total_ops(s.take(k - 1)) + s[k - 1].num_ops_finished,
    decreases s.len() - k,
{
    if k > 0 {
        assert(s.take(k).drop_last() =~= s.take(k - 1));
    }
    if k < s.len() {
        lemma_total_ops_prefix(s, k + 1);
        assert(s.take(k + 1).drop_last() =~= s.take(k));
    } else {
        assert(s.take(k) =~= s);
    }
}

impl Default for SimpleBenchReporter {
    fn default() -> (r: Self)
        ensures
            r.spec_id() == 0,
            r.last_ops() == 0,
    {
        Self::new_with_id(0)
    }
}

} // verus!
