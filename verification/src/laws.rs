//! The engine's aggregate guarantees, proved over the per-label-pair
//! transition model that `Registry::record_probe` is specified
//! against.
use vstd::prelude::*;
use crate::histogram::fits;
use crate::histogram::sum_seq;
use crate::registry::ProbeOutcome;
use crate::registry::Registry;
use crate::registry::SeriesState;
use crate::registry::initial_state;
use crate::registry::run_state;
use crate::registry::step_state;

verus! {

/// How many outcomes of the sequence are successes.
pub open spec fn count_successes(os: Seq<ProbeOutcome>) -> int
    decreases os.len(),
{
    if os.len() == 0 {
        0
    } else {
        count_successes(os.drop_last()) + (if os.last() is Success {
            1int
        } else {
            0int
        })
    }
}

/// The total latency of the successful outcomes, in nanoseconds.
pub open spec fn total_success_latency(os: Seq<ProbeOutcome>) -> int
    decreases os.len(),
{
    if os.len() == 0 {
        0
    } else {
        total_success_latency(os.drop_last()) + (match os.last() {
            ProbeOutcome::Success { latency_nanos } => latency_nanos as int,
            ProbeOutcome::Failure => 0int,
        })
    }
}

pub proof fn lemma_count_successes_bounds(os: Seq<ProbeOutcome>)
    ensures
        0 <= count_successes(os) <= os.len(),
    decreases os.len(),
{
    if os.len() > 0 {
        lemma_count_successes_bounds(os.drop_last());
    }
}

pub proof fn lemma_total_latency_nonneg(os: Seq<ProbeOutcome>)
    ensures
        total_success_latency(os) >= 0,
    decreases os.len(),
{
    if os.len() > 0 {
        lemma_total_latency_nonneg(os.drop_last());
    }
}

/// For any sequence of probe outcomes folded into a fresh label pair:
/// the success counter ends at the number of successes, the failure
/// counter at the number of failures, and the latency histogram holds
/// exactly one observation per success, their sum being the
/// successes' total latency. (Stated away from the inputs on which
/// the fixed-width counters would saturate: more than `u64::MAX`
/// outcomes, or a total latency beyond it.)
pub proof fn lemma_probe_totals(os: Seq<ProbeOutcome>)
    requires
        os.len() <= u64::MAX,
        total_success_latency(os) <= u64::MAX,
    ensures
        run_state(initial_state(), os).succ == count_successes(os),
        run_state(initial_state(), os).fail == os.len() - count_successes(os),
        run_state(initial_state(), os).obs.len() == count_successes(os),
        sum_seq(run_state(initial_state(), os).obs) == total_success_latency(os),
    decreases os.len(),
{
    if os.len() > 0 {
        let pre = os.drop_last();
        lemma_count_successes_bounds(pre);
        lemma_count_successes_bounds(os);
        lemma_total_latency_nonneg(pre);
        lemma_probe_totals(pre);
        let st = run_state(initial_state(), pre);
        match os.last() {
            ProbeOutcome::Success { latency_nanos } => {
                assert(fits(st.obs, latency_nanos));
                crate::histogram::lemma_sum_push(st.obs, latency_nanos);
            },
            ProbeOutcome::Failure => {
            },
        }
    }
}

/// A failed probe never adds an observation to the latency histogram,
/// nor touches the success counter.
pub proof fn lemma_failure_adds_no_observation(st: SeriesState)
    ensures
        step_state(st, ProbeOutcome::Failure).obs == st.obs,
        step_state(st, ProbeOutcome::Failure).succ == st.succ,
{
}

/// The histogram never holds more observations than the success
/// counter: every outcome sequence preserves the inequality.
pub proof fn lemma_observations_at_most_successes(st: SeriesState, os: Seq<ProbeOutcome>)
    requires
        st.obs.len() <= st.succ,
    ensures
        run_state(st, os).obs.len() <= run_state(st, os).succ,
    decreases os.len(),
{
    if os.len() > 0 {
        lemma_observations_at_most_successes(st, os.drop_last());
    }
}

/// No increment is lost: however the probers' outcomes interleave
/// into one recorded sequence, the success counter ends at its
/// starting value plus the number of success outcomes issued. (Stated
/// away from the inputs on which the fixed-width counter would
/// saturate.)
pub proof fn lemma_no_lost_increments(st: SeriesState, os: Seq<ProbeOutcome>)
    requires
        st.succ + count_successes(os) <= u64::MAX,
    ensures
        run_state(st, os).succ == st.succ + count_successes(os),
    decreases os.len(),
{
    if os.len() > 0 {
        lemma_count_successes_bounds(os.drop_last());
        lemma_count_successes_bounds(os);
        lemma_no_lost_increments(st, os.drop_last());
    }
}

/// Metric names are globally unique: the six registered families all
/// carry distinct names, so a name maps to exactly one kind — the
/// field that holds it.
pub proof fn lemma_metric_names_unique(r: Registry)
    requires
        r.wf(),
    ensures
        r.cpu_cores.metric_name@ != r.load_average.metric_name@,
        r.cpu_cores.metric_name@ != r.memory_total.metric_name@,
        r.cpu_cores.metric_name@ != r.ping_success.metric_name@,
        r.cpu_cores.metric_name@ != r.ping_fail.metric_name@,
        r.cpu_cores.metric_name@ != r.ping_latency.metric_name@,
        r.load_average.metric_name@ != r.memory_total.metric_name@,
        r.load_average.metric_name@ != r.ping_success.metric_name@,
        r.load_average.metric_name@ != r.ping_fail.metric_name@,
        r.load_average.metric_name@ != r.ping_latency.metric_name@,
        r.memory_total.metric_name@ != r.ping_success.metric_name@,
        r.memory_total.metric_name@ != r.ping_fail.metric_name@,
        r.memory_total.metric_name@ != r.ping_latency.metric_name@,
        r.ping_success.metric_name@ != r.ping_fail.metric_name@,
        r.ping_success.metric_name@ != r.ping_latency.metric_name@,
        r.ping_fail.metric_name@ != r.ping_latency.metric_name@,
{
    reveal_strlit("system_cpu_cores");
    reveal_strlit("system_load_average");
    reveal_strlit("system_memory_total");
    reveal_strlit("ping_success");
    reveal_strlit("ping_fail");
    reveal_strlit("ping_latency");
    assert("system_cpu_cores"@.len() == 16);
    assert("system_load_average"@.len() == 19);
    assert("system_memory_total"@.len() == 19);
    assert("ping_success"@.len() == 12);
    assert("ping_fail"@.len() == 9);
    assert("ping_latency"@.len() == 12);
    assert("system_load_average"@[7] == 'l' && "system_memory_total"@[7] == 'm');
    assert("ping_success"@[5] == 's' && "ping_latency"@[5] == 'l');
}

} // verus!
