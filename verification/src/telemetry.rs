//! Fixed-capacity self-observability for completed controller evaluations.
use std::collections::VecDeque;

use vstd::prelude::*;

verus! {

pub const DEFAULT_EVALUATION_WINDOW_SAMPLES: usize = 60;

/// Keeps the durations of the latest evaluations.
pub struct EvaluationAccumulator {
    capacity: usize,
    completed_total: u64,
    durations_us: VecDeque<u64>,
    last_scanned_processes: usize,
    last_eligible_processes: usize,
    last_decisions: usize,
}

/// What is published about the latest evaluations.
#[derive(Debug, Clone, Copy, PartialEq, Eq, Structural)]
pub struct EvaluationTelemetry {
    pub completed_total: u64,
    pub last_duration_us: u64,
    pub rolling_mean_us: u64,
    pub rolling_p95_us: u64,
    pub rolling_max_us: u64,
    pub window_samples: usize,
    pub last_scanned_processes: usize,
    pub last_eligible_processes: usize,
    pub last_decisions: usize,
}

impl Default for EvaluationTelemetry {
    fn default() -> (none: EvaluationTelemetry)
        ensures
            none == (EvaluationTelemetry {
                completed_total: 0,
                last_duration_us: 0,
                rolling_mean_us: 0,
                rolling_p95_us: 0,
                rolling_max_us: 0,
                window_samples: 0,
                last_scanned_processes: 0,
                last_eligible_processes: 0,
                last_decisions: 0,
            }),
    {
        EvaluationTelemetry {
            completed_total: 0,
            last_duration_us: 0,
            rolling_mean_us: 0,
            rolling_p95_us: 0,
            rolling_max_us: 0,
            window_samples: 0,
            last_scanned_processes: 0,
            last_eligible_processes: 0,
            last_decisions: 0,
        }
    }
}

/// What an accumulator holds.
#[verifier::ext_equal]
pub ghost struct Evaluations {
    pub capacity: nat,
    pub completed: u64,
    /// The durations of the latest evaluations, the oldest first.
    pub durations: Seq<u64>,
    pub scanned: usize,
    pub eligible: usize,
    pub decisions: usize,
}

/// The last `capacity` elements.
pub open spec fn newest(items: Seq<u64>, capacity: nat) -> Seq<u64> {
    if items.len() <= capacity {
        items
    } else {
        items.skip(items.len() - capacity)
    }
}

/// The order from the smallest on.
pub open spec fn smaller() -> spec_fn(u64, u64) -> bool {
    |a: u64, b: u64| a < b
}

/// The elements in ascending order.
pub open spec fn ascending(items: Seq<u64>) -> Seq<u64> {
    crate::ranking::ranking(items, smaller())
}

/// Whether no element is followed by a smaller one.
pub open spec fn is_ascending(items: Seq<u64>) -> bool {
    forall|i: int, j: int| 0 <= i <= j < items.len() ==> items[i] <= items[j]
}

/// The sum of the elements.
pub open spec fn total(items: Seq<u64>) -> nat
    decreases items.len(),
{
    if items.len() == 0 {
        0
    } else {
        total(items.drop_last()) + items.last() as nat
    }
}

/// The place of a percentile by the nearest-rank method, counted from one.
pub open spec fn rank_of(len: nat, percentile: usize) -> nat {
    let scaled = if len * percentile > usize::MAX {
        usize::MAX as nat
    } else {
        len * percentile as nat
    };
    if scaled % 100 == 0 {
        scaled / 100
    } else {
        scaled / 100 + 1
    }
}

/// The percentile of an ascending sequence by the nearest-rank method.
pub open spec fn percentile_of(sorted: Seq<u64>, percentile: usize) -> u64 {
    let rank = rank_of(sorted.len(), percentile);
    if sorted.len() == 0 {
        0
    } else if rank == 0 {
        sorted[0]
    } else if rank > sorted.len() {
        sorted[sorted.len() - 1]
    } else {
        sorted[rank - 1]
    }
}

/// Putting the elements in ascending order neither adds nor drops any.
pub proof fn ascending_is_the_same_in_order(items: Seq<u64>)
    ensures
        is_ascending(ascending(items)),
        ascending(items).to_multiset() == items.to_multiset(),
        ascending(items).len() == items.len(),
{
    assert(crate::ranking::orders(smaller()));
    crate::ranking::ranking_is_the_same_in_order(items, smaller());
    assert forall|i: int, j: int| 0 <= i <= j < ascending(items).len() implies ascending(items)[i]
        <= ascending(items)[j] by {
        if i < j {
            assert(!smaller()(ascending(items)[j], ascending(items)[i]));
        }
    }
}

/// The percentile of an ascending slice by the nearest-rank method, or zero.
pub fn nearest_rank(sorted: &Vec<u64>, percentile: usize) -> (value: u64)
    ensures
        value == percentile_of(sorted@, percentile),
{
    if sorted.len() == 0 {
        return 0;
    }
    let scaled: usize = match sorted.len().checked_mul(percentile) {
        Some(product) => product,
        None => usize::MAX,
    };
    let rank: usize = if scaled % 100 == 0 {
        scaled / 100
    } else {
        scaled / 100 + 1
    };
    if rank == 0 {
        sorted[0]
    } else if rank > sorted.len() {
        sorted[sorted.len() - 1]
    } else {
        sorted[rank - 1]
    }
}

proof fn mean_fits(sum: nat, count: nat)
    requires
        count > 0,
        sum <= count * u64::MAX,
    ensures
        sum / count <= u64::MAX,
{
    assert(sum / count <= u64::MAX) by (nonlinear_arith)
        requires
            count > 0,
            sum <= count * u64::MAX,
    ;
}

impl EvaluationAccumulator {
    /// What the accumulator holds.
    pub closed spec fn held(&self) -> Evaluations {
        Evaluations {
            capacity: self.capacity as nat,
            completed: self.completed_total,
            durations: self.durations_us@,
            scanned: self.last_scanned_processes,
            eligible: self.last_eligible_processes,
            decisions: self.last_decisions,
        }
    }

    /// There is room for at least one duration, and never more than there is
    /// room for.
    pub open spec fn wf(&self) -> bool {
        self.held().capacity > 0 && self.held().durations.len() <= self.held().capacity
    }

    /// An accumulator of the latest `capacity` evaluations, and at least one.
    pub fn new(capacity: usize) -> (accumulator: EvaluationAccumulator)
        ensures
            accumulator.wf(),
            accumulator.held() == (Evaluations {
                capacity: if capacity == 0 {
                    1
                } else {
                    capacity as nat
                },
                completed: 0,
                durations: Seq::<u64>::empty(),
                scanned: 0,
                eligible: 0,
                decisions: 0,
            }),
    {
        EvaluationAccumulator {
            capacity: if capacity == 0 {
                1
            } else {
                capacity
            },
            completed_total: 0,
            durations_us: VecDeque::new(),
            last_scanned_processes: 0,
            last_eligible_processes: 0,
            last_decisions: 0,
        }
    }

    /// Records a completed evaluation, in place of the oldest one where there
    /// is no more room.
    pub fn record(
        &mut self,
        duration_us: u64,
        scanned_processes: usize,
        eligible_processes: usize,
        decisions: usize,
    )
        requires
            old(self).wf(),
        ensures
            final(self).wf(),
            final(self).held() == (Evaluations {
                capacity: old(self).held().capacity,
                completed: if old(self).held().completed < u64::MAX {
                    (old(self).held().completed + 1) as u64
                } else {
                    u64::MAX
                },
                durations: newest(
                    old(self).held().durations.push(duration_us),
                    old(self).held().capacity,
                ),
                scanned: scanned_processes,
                eligible: eligible_processes,
                decisions,
            }),
            final(self).held() == evaluated_once_more(
                old(self).held(),
                duration_us,
                scanned_processes,
                eligible_processes,
                decisions,
            ),
    {
        let ghost before = self.durations_us@;
        if self.durations_us.len() == self.capacity {
            let _ = self.durations_us.pop_front();
        }
        self.durations_us.push_back(duration_us);
        self.completed_total = self.completed_total.saturating_add(1);
        self.last_scanned_processes = scanned_processes;
        self.last_eligible_processes = eligible_processes;
        self.last_decisions = decisions;
        proof {
            assert(self.durations_us@ =~= newest(before.push(duration_us), self.capacity as nat));
        }
    }

    /// Sums up the latest evaluations.
    pub fn status(&self) -> (telemetry: EvaluationTelemetry)
        requires
            self.wf(),
        ensures
            telemetry == (EvaluationTelemetry {
                completed_total: self.held().completed,
                last_duration_us: if self.held().durations.len() == 0 {
                    0
                } else {
                    self.held().durations.last()
                },
                rolling_mean_us: if self.held().durations.len() == 0 {
                    0
                } else {
                    (total(self.held().durations) / self.held().durations.len()) as u64
                },
                rolling_p95_us: percentile_of(ascending(self.held().durations), 95),
                rolling_max_us: if self.held().durations.len() == 0 {
                    0
                } else {
                    ascending(self.held().durations).last()
                },
                window_samples: self.held().durations.len() as usize,
                last_scanned_processes: self.held().scanned,
                last_eligible_processes: self.held().eligible,
                last_decisions: self.held().decisions,
            }),
            self.held().durations.len() > 0 ==> total(self.held().durations)
                / self.held().durations.len() <= u64::MAX,
            telemetry == telemetry_of(self.held()),
    {
        let ghost durations = self.durations_us@;
        let count: usize = self.durations_us.len();
        let mut sorted: Vec<u64> = Vec::new();
        let mut sum: u128 = 0;
        let mut at: usize = 0;
        while at < count
            invariant
                at <= count,
                count == durations.len(),
                durations == self.durations_us@,
                sorted@ == ascending(durations.take(at as int)),
                sum == total(durations.take(at as int)),
                sum <= at * 0xffff_ffff_ffff_ffff,
            decreases count - at,
        {
            let sample: u64 = self.durations_us[at];
            proof {
                assert(durations.take(at + 1).drop_last() =~= durations.take(at as int));
                assert(durations.take(at + 1).last() == sample);
                ascending_is_the_same_in_order(durations.take(at as int));
            }
            let mut place: usize = sorted.len();
            while place > 0 && sorted[place - 1] > sample
                invariant
                    place <= sorted.len(),
                    is_ascending(sorted@),
                    forall|i: int| place <= i < sorted.len() ==> sorted@[i] > sample,
                decreases place,
            {
                place = place - 1;
            }
            proof {
                assert(forall|i: int|
                    place <= i < sorted.len() ==> smaller()(sample, #[trigger] sorted@[i]));
                crate::ranking::ranked_in_at(sorted@, sample, place as int, smaller());
            }
            sorted.insert(place, sample);
            sum = sum + sample as u128;
            at = at + 1;
        }
        proof {
            assert(durations.take(at as int) =~= durations);
            ascending_is_the_same_in_order(durations);
            if count > 0 {
                mean_fits(sum as nat, count as nat);
            }
        }
        EvaluationTelemetry {
            completed_total: self.completed_total,
            last_duration_us: if count == 0 {
                0
            } else {
                self.durations_us[count - 1]
            },
            rolling_mean_us: if count == 0 {
                0
            } else {
                (sum / (count as u128)) as u64
            },
            rolling_p95_us: nearest_rank(&sorted, 95),
            rolling_max_us: if count == 0 {
                0
            } else {
                sorted[count - 1]
            },
            window_samples: count,
            last_scanned_processes: self.last_scanned_processes,
            last_eligible_processes: self.last_eligible_processes,
            last_decisions: self.last_decisions,
        }
    }
}

impl Default for EvaluationAccumulator {
    fn default() -> (accumulator: EvaluationAccumulator)
        ensures
            accumulator.wf(),
            accumulator.held().capacity == DEFAULT_EVALUATION_WINDOW_SAMPLES,
            accumulator.held().durations == Seq::<u64>::empty(),
            accumulator.held().completed == 0,
    {
        EvaluationAccumulator::new(DEFAULT_EVALUATION_WINDOW_SAMPLES)
    }
}

/// The percentile of a window is one of its durations, and no greater than
/// the maximum.
pub proof fn percentile_is_a_sample(items: Seq<u64>, percentile: usize)
    requires
        items.len() > 0,
    ensures
        items.contains(percentile_of(ascending(items), percentile)),
        percentile_of(ascending(items), percentile) <= ascending(items).last(),
{
    broadcast use vstd::seq_lib::group_to_multiset_ensures;

    ascending_is_the_same_in_order(items);
    let sorted = ascending(items);
    let value = percentile_of(sorted, percentile);
    assert(sorted.contains(value)) by {
        let rank = rank_of(sorted.len(), percentile);
        if rank == 0 {
            assert(sorted[0] == value);
        } else if rank > sorted.len() {
            assert(sorted[sorted.len() - 1] == value);
        } else {
            assert(sorted[rank - 1] == value);
        }
    }
    assert(sorted.to_multiset().count(value) > 0);
    assert(items.to_multiset().count(value) > 0);
}

/// The accumulator after one more evaluation.
pub open spec fn evaluated_once_more(
    held: Evaluations,
    duration_us: u64,
    scanned: usize,
    eligible: usize,
    decisions: usize,
) -> Evaluations {
    Evaluations {
        capacity: held.capacity,
        completed: if held.completed < u64::MAX {
            (held.completed + 1) as u64
        } else {
            u64::MAX
        },
        durations: newest(held.durations.push(duration_us), held.capacity),
        scanned,
        eligible,
        decisions,
    }
}

/// The latest evaluation is always kept, and the one before it stays before
/// it; only the oldest goes, and only where there is no room. Every evaluation
/// is counted, kept or not.
pub proof fn the_latest_evaluations_are_kept(
    held: Evaluations,
    duration_us: u64,
    scanned: usize,
    eligible: usize,
    decisions: usize,
)
    requires
        0 < held.capacity,
        held.durations.len() <= held.capacity,
    ensures
        ({
            let after = evaluated_once_more(held, duration_us, scanned, eligible, decisions);
            &&& after.durations.len() > 0
            &&& after.durations.last() == duration_us
            &&& held.durations.len() < held.capacity ==> after.durations.drop_last()
                == held.durations
            &&& held.durations.len() == held.capacity ==> after.durations.drop_last()
                == held.durations.skip(1)
            &&& after.durations.len() <= after.capacity
            &&& after.capacity == held.capacity
            &&& held.completed < u64::MAX ==> after.completed == held.completed + 1
            &&& after.scanned == scanned && after.eligible == eligible && after.decisions
                == decisions
        }),
{
    let after = evaluated_once_more(held, duration_us, scanned, eligible, decisions);
    if held.durations.len() < held.capacity {
        assert(after.durations.drop_last() =~= held.durations);
    } else {
        assert(after.durations.drop_last() =~= held.durations.skip(1));
    }
}

/// What is published about held evaluations.
pub open spec fn telemetry_of(held: Evaluations) -> EvaluationTelemetry {
    EvaluationTelemetry {
        completed_total: held.completed,
        last_duration_us: if held.durations.len() == 0 {
            0
        } else {
            held.durations.last()
        },
        rolling_mean_us: if held.durations.len() == 0 {
            0
        } else {
            (total(held.durations) / held.durations.len()) as u64
        },
        rolling_p95_us: percentile_of(ascending(held.durations), 95),
        rolling_max_us: if held.durations.len() == 0 {
            0
        } else {
            ascending(held.durations).last()
        },
        window_samples: held.durations.len() as usize,
        last_scanned_processes: held.scanned,
        last_eligible_processes: held.eligible,
        last_decisions: held.decisions,
    }
}

/// What is published is what was measured: the last duration is the last one,
/// no duration is longer than the longest, which is one of them, and the sum
/// lies between the mean times their number and the next.
pub proof fn telemetry_is_what_was_measured(held: Evaluations, i: int)
    requires
        0 < held.durations.len() <= usize::MAX,
        total(held.durations) / held.durations.len() <= u64::MAX,
        0 <= i < held.durations.len(),
    ensures
        ({
            let said = telemetry_of(held);
            let n = held.durations.len();
            &&& said.last_duration_us == held.durations[n - 1]
            &&& held.durations[i] <= said.rolling_max_us
            &&& held.durations.contains(said.rolling_max_us)
            &&& said.rolling_p95_us <= said.rolling_max_us
            &&& held.durations.contains(said.rolling_p95_us)
            &&& said.rolling_mean_us * n <= total(held.durations)
            &&& total(held.durations) < (said.rolling_mean_us + 1) * n
            &&& said.window_samples == n
            &&& said.completed_total == held.completed
            &&& said.last_scanned_processes == held.scanned
            &&& said.last_eligible_processes == held.eligible
            &&& said.last_decisions == held.decisions
        }),
{
    broadcast use vstd::seq_lib::group_to_multiset_ensures;

    let items = held.durations;
    let n = items.len();
    let sorted = ascending(items);
    ascending_is_the_same_in_order(items);
    assert(items.contains(items[i]));
    assert(items.to_multiset().count(items[i]) > 0);
    assert(sorted.to_multiset().count(items[i]) > 0);
    assert(sorted.contains(items[i]));
    let j = choose|j: int| 0 <= j < sorted.len() && sorted[j] == items[i];
    assert(sorted[j] <= sorted[sorted.len() - 1]);
    assert(sorted.contains(sorted.last()));
    assert(sorted.to_multiset().count(sorted.last()) > 0);
    assert(items.to_multiset().count(sorted.last()) > 0);
    assert(items.contains(sorted.last()));
    percentile_is_a_sample(items, 95);
    let sum = total(items);
    assert((sum / n) * n <= sum < (sum / n + 1) * n) by (nonlinear_arith)
        requires
            n > 0,
            sum >= 0,
    ;
}

/// Each duration counts once in the sum.
pub proof fn every_duration_is_added(items: Seq<u64>, item: u64)
    ensures
        total(items.push(item)) == total(items) + item,
        total(Seq::empty()) == 0,
{
    assert(items.push(item).drop_last() =~= items);
}

/// The rank of a percentile is the first that reaches it: so many of a hundred
/// elements are at most the one at the rank, and fewer at any before it.
pub proof fn ranks_reach_their_percentile(len: nat, percentile: usize)
    requires
        len * percentile <= usize::MAX,
    ensures
        100 * rank_of(len, percentile) >= len * percentile,
        rank_of(len, percentile) > 0 ==> 100 * (rank_of(len, percentile) - 1) < len * percentile,
        percentile <= 100 ==> rank_of(len, percentile) <= len,
{
    if percentile <= 100 {
        assert(len * percentile <= len * 100) by (nonlinear_arith)
            requires
                percentile <= 100,
                len >= 0,
        ;
    }
}

/// The percentile is the element at its rank, counted from one; that of no
/// elements is nothing.
pub proof fn percentiles_stand_at_their_rank(sorted: Seq<u64>, percentile: usize)
    ensures
        sorted.len() == 0 ==> percentile_of(sorted, percentile) == 0,
        1 <= rank_of(sorted.len(), percentile) <= sorted.len() ==> percentile_of(sorted, percentile)
            == sorted[rank_of(sorted.len(), percentile) - 1],
{
}

} // verus!
