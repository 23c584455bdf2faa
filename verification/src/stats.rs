//! Aggregation of per-operation outcomes into a run summary.

use vstd::prelude::*;

verus! {

/// The terminal result of one benchmark operation: on success, the amount
/// moved (bytes transferred, or items listed) and the operation's latency;
/// on failure, only the latency.
pub enum OperationOutcome {
    Success { amount: u64, latency_micros: u64 },
    Failure { latency_micros: u64 },
}

impl OperationOutcome {
    pub open spec fn is_success(self) -> bool {
        self is Success
    }

    /// The amount carried by a successful outcome; failures contribute nothing.
    pub open spec fn amount(self) -> int {
        match self {
            OperationOutcome::Success { amount, .. } => amount as int,
            OperationOutcome::Failure { .. } => 0,
        }
    }

    /// The latency carried by a successful outcome; failed operations are
    /// excluded from latency totals.
    pub open spec fn success_latency(self) -> int {
        match self {
            OperationOutcome::Success { latency_micros, .. } => latency_micros as int,
            OperationOutcome::Failure { .. } => 0,
        }
    }
}

/// How many outcomes in the sequence are successes.
pub open spec fn count_successes(s: Seq<OperationOutcome>) -> int
    decreases s.len(),
{
    if s.len() == 0 {
        0
    } else {
        count_successes(s.drop_last()) + if s.last().is_success() {
            1int
        } else {
            0int
        }
    }
}

/// Total amount (bytes or items) over the successful outcomes.
pub open spec fn sum_amounts(s: Seq<OperationOutcome>) -> int
    decreases s.len(),
{
    if s.len() == 0 {
        0
    } else {
        sum_amounts(s.drop_last()) + s.last().amount()
    }
}

/// Total latency over the successful outcomes.
pub open spec fn sum_success_latencies(s: Seq<OperationOutcome>) -> int
    decreases s.len(),
{
    if s.len() == 0 {
        0
    } else {
        sum_success_latencies(s.drop_last()) + s.last().success_latency()
    }
}

/// Summary of one benchmark run.
pub struct RunStats {
    /// Operations issued, successful or not.
    pub operations: u64,
    /// Operations that completed successfully.
    pub successes: u64,
    /// Operations that failed.
    pub errors: u64,
    /// Bytes transferred (or items listed) over successful operations.
    pub total_amount: u64,
    /// Sum of successful operations' latencies.
    pub total_latency_micros: u64,
    /// Observed wall-clock duration of the run, start to end of drain.
    pub duration_micros: u64,
}

impl RunStats {
    /// Every run's counts partition its operations.
    pub open spec fn wf(self) -> bool {
        self.operations == self.successes + self.errors
    }

    /// Average latency of the successful operations, defined as zero when
    /// there were none, so the summary is well defined even for an all-error
    /// run.
    pub fn average_latency_micros(&self) -> (r: u64)
        ensures
            self.successes == 0 ==> r == 0,
            self.successes > 0 ==> r == self.total_latency_micros as int / self.successes as int,
    {
        if self.successes == 0 {
            0
        } else {
            self.total_latency_micros / self.successes
        }
    }

    /// Average items listed per operation, defined as zero when no operation
    /// was issued.
    pub fn average_amount_per_operation(&self) -> (r: u64)
        ensures
            self.operations == 0 ==> r == 0,
            self.operations > 0 ==> r == self.total_amount as int / self.operations as int,
    {
        if self.operations == 0 {
            0
        } else {
            self.total_amount / self.operations
        }
    }
}

/// Folds the completed outcomes of a run into its summary. Counts are exact;
/// the amount and latency totals are exact whenever they fit in 64 bits and
/// saturate otherwise.
pub fn aggregate(outcomes: &Vec<OperationOutcome>, duration_micros: u64) -> (r: RunStats)
    ensures
        r.operations == outcomes@.len(),
        r.successes == count_successes(outcomes@),
        r.errors == outcomes@.len() - count_successes(outcomes@),
        r.wf(),
        sum_amounts(outcomes@) <= u64::MAX ==> r.total_amount == sum_amounts(outcomes@),
        sum_amounts(outcomes@) > u64::MAX ==> r.total_amount == u64::MAX,
        sum_success_latencies(outcomes@) <= u64::MAX ==> r.total_latency_micros
            == sum_success_latencies(outcomes@),
        sum_success_latencies(outcomes@) > u64::MAX ==> r.total_latency_micros == u64::MAX,
        r.duration_micros == duration_micros,
{
    let mut stats = RunStats {
        operations: 0,
        successes: 0,
        errors: 0,
        total_amount: 0,
        total_latency_micros: 0,
        duration_micros,
    };
    let mut i: usize = 0;
    while i < outcomes.len()
        invariant
            i <= outcomes@.len(),
            stats.duration_micros == duration_micros,
            stats.operations == i,
            stats.successes + stats.errors == i,
            stats.successes == count_successes(outcomes@.take(i as int)),
            stats.total_amount == if sum_amounts(outcomes@.take(i as int)) <= u64::MAX {
                sum_amounts(outcomes@.take(i as int))
            } else {
                u64::MAX as int
            },
            stats.total_latency_micros == if sum_success_latencies(outcomes@.take(i as int))
                <= u64::MAX {
                sum_success_latencies(outcomes@.take(i as int))
            } else {
                u64::MAX as int
            },
        decreases outcomes@.len() - i,
    {
        proof {
            assert(outcomes@.take(i + 1).drop_last() =~= outcomes@.take(i as int));
            assert(outcomes@.take(i + 1).last() == outcomes@[i as int]);
        }
        match outcomes[i] {
            OperationOutcome::Success { amount, latency_micros } => {
                stats.successes = stats.successes + 1;
                stats.total_amount = if amount <= u64::MAX - stats.total_amount {
                    stats.total_amount + amount
                } else {
                    u64::MAX
                };
                stats.total_latency_micros = if latency_micros <= u64::MAX
                    - stats.total_latency_micros {
                    stats.total_latency_micros + latency_micros
                } else {
                    u64::MAX
                };
            },
            OperationOutcome::Failure { .. } => {
                stats.errors = stats.errors + 1;
            },
        }
        stats.operations = stats.operations + 1;
        i = i + 1;
    }
    proof {
        assert(outcomes@.take(outcomes@.len() as int) =~= outcomes@);
    }
    stats
}

} // verus!
