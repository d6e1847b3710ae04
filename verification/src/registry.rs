//! The metrics registry: the fixed set of metric families the monitor
//! exposes, the record step of the per-endpoint probe loop, and the
//! host-sampler step.
use vstd::prelude::*;
use crate::counter::CounterVec;
use crate::counter::bump;
use crate::gauge::Gauge;
use crate::histogram::HistogramVec;
use crate::histogram::push_obs;

verus! {

/// One configured endpoint. Its identity for metrics purposes is the
/// `(name, address)` pair; `location` is configuration data the core
/// carries but never reads.
pub struct Endpoint {
    pub name: String,
    pub address: String,
    pub location: Option<String>,
}

/// The outcome of one reachability probe: success with the measured
/// round-trip time in nanoseconds, or failure.
pub enum ProbeOutcome {
    Success { latency_nanos: u64 },
    Failure,
}

/// The metric state one endpoint's label pair owns: its success and
/// failure counts and its recorded latency samples.
pub struct SeriesState {
    pub succ: u64,
    pub fail: u64,
    pub obs: Seq<u64>,
}

/// The state of a label pair nothing has been recorded for.
pub open spec fn initial_state() -> SeriesState {
    SeriesState { succ: 0, fail: 0, obs: Seq::empty() }
}

/// How one probe outcome changes a label pair's state: a success
/// increments the success count and records the latency sample, a
/// failure increments the failure count and records nothing.
pub open spec fn step_state(st: SeriesState, o: ProbeOutcome) -> SeriesState {
    match o {
        ProbeOutcome::Success { latency_nanos } => SeriesState {
            succ: bump(st.succ),
            fail: st.fail,
            obs: push_obs(st.obs, latency_nanos),
        },
        ProbeOutcome::Failure => SeriesState { succ: st.succ, fail: bump(st.fail), obs: st.obs },
    }
}

/// The state after a whole sequence of probe outcomes, oldest first.
pub open spec fn run_state(st: SeriesState, os: Seq<ProbeOutcome>) -> SeriesState
    decreases os.len(),
{
    if os.len() == 0 {
        st
    } else {
        step_state(run_state(st, os.drop_last()), os.last())
    }
}

/// Folding one more outcome: the state after `os` then `o` is one
/// step from the state after `os`. This is how the per-call contract
/// of `Registry::record_probe` chains into `run_state` over a whole
/// probe history.
pub proof fn lemma_run_state_snoc(st: SeriesState, os: Seq<ProbeOutcome>, o: ProbeOutcome)
    ensures
        run_state(st, os.push(o)) == step_state(run_state(st, os), o),
{
    assert(os.push(o).drop_last() =~= os);
    assert(os.push(o).last() == o);
}

/// The process-wide metrics registry: three unlabeled host gauges, the
/// two probe counters and the probe latency histogram, all created
/// once at startup. The fixed field layout makes a duplicate or
/// conflicting registration of a metric name impossible by
/// construction.
pub struct Registry {
    pub cpu_cores: Gauge,
    pub load_average: Gauge,
    pub memory_total: Gauge,
    pub ping_success: CounterVec,
    pub ping_fail: CounterVec,
    pub ping_latency: HistogramVec,
}

impl Registry {
    /// Families are well formed and every metric keeps its registered
    /// name and help text.
    pub open spec fn wf(self) -> bool {
        &&& self.ping_success.wf()
        &&& self.ping_fail.wf()
        &&& self.ping_latency.wf()
        &&& self.cpu_cores.metric_name@ == "system_cpu_cores"@
        &&& self.cpu_cores.help@ == "Number of CPU cores"@
        &&& self.load_average.metric_name@ == "system_load_average"@
        &&& self.load_average.help@ == "System load average"@
        &&& self.memory_total.metric_name@ == "system_memory_total"@
        &&& self.memory_total.help@ == "Total system memory"@
        &&& self.ping_success.metric_name@ == "ping_success"@
        &&& self.ping_success.help@ == "Count of successful pings"@
        &&& self.ping_fail.metric_name@ == "ping_fail"@
        &&& self.ping_fail.help@ == "Count of failed pings"@
        &&& self.ping_latency.metric_name@ == "ping_latency"@
        &&& self.ping_latency.help@ == "Ping latency in seconds"@
    }

    /// The metric state held for the label pair `(n, a)`.
    pub open spec fn series_state(self, n: Seq<char>, a: Seq<char>) -> SeriesState {
        SeriesState {
            succ: self.ping_success.spec_value(n, a),
            fail: self.ping_fail.spec_value(n, a),
            obs: self.ping_latency.spec_obs(n, a),
        }
    }

    /// Construct the registry with every metric registered once and
    /// no series or sample recorded yet.
    pub fn new() -> (r: Registry)
        ensures
            r.wf(),
            r.cpu_cores.milli == 0,
            r.load_average.milli == 0,
            r.memory_total.milli == 0,
            r.ping_success.series@.len() == 0,
            r.ping_fail.series@.len() == 0,
            r.ping_latency.series@.len() == 0,
            forall|n: Seq<char>, a: Seq<char>| #![auto] r.series_state(n, a) == initial_state(),
    {
        let r = Registry {
            cpu_cores: Gauge::new("system_cpu_cores", "Number of CPU cores"),
            load_average: Gauge::new("system_load_average", "System load average"),
            memory_total: Gauge::new("system_memory_total", "Total system memory"),
            ping_success: CounterVec::new("ping_success", "Count of successful pings"),
            ping_fail: CounterVec::new("ping_fail", "Count of failed pings"),
            ping_latency: HistogramVec::new("ping_latency", "Ping latency in seconds"),
        };
        proof {
            assert forall|n: Seq<char>, a: Seq<char>| #![auto] r.series_state(n, a)
                == initial_state() by {
                assert(r.ping_success.spec_value(n, a) == 0);
                assert(r.ping_fail.spec_value(n, a) == 0);
                assert(r.ping_latency.spec_obs(n, a) == Seq::<u64>::empty());
            }
        }
        r
    }

    /// The record step of an endpoint prober's cycle: fold one probe
    /// outcome into the endpoint's label pair. No other label pair and
    /// no gauge changes.
    pub fn record_probe(&mut self, endpoint: &Endpoint, outcome: ProbeOutcome)
        requires
            old(self).wf(),
        ensures
            final(self).wf(),
            final(self).series_state(endpoint.name@, endpoint.address@) == step_state(
                old(self).series_state(endpoint.name@, endpoint.address@),
                outcome,
            ),
            forall|n2: Seq<char>, a2: Seq<char>|
                !(n2 == endpoint.name@ && a2 == endpoint.address@) ==> final(self).series_state(
                    n2,
                    a2,
                ) == old(self).series_state(n2, a2),
            final(self).cpu_cores == old(self).cpu_cores,
            final(self).load_average == old(self).load_average,
            final(self).memory_total == old(self).memory_total,
    {
        match outcome {
            ProbeOutcome::Success { latency_nanos } => {
                self.ping_success.inc(&endpoint.name, &endpoint.address);
                self.ping_latency.observe(&endpoint.name, &endpoint.address, latency_nanos);
            },
            ProbeOutcome::Failure => {
                self.ping_fail.inc(&endpoint.name, &endpoint.address);
            },
        }
    }

    /// The host-sampler step: overwrite each host gauge whose reading
    /// this cycle succeeded, in thousandths of the source unit; a
    /// reading that failed leaves its gauge alone, and no counter or
    /// histogram changes.
    pub fn sample_host(&mut self, cpu_milli: Option<u64>, load_milli: Option<u64>, mem_milli: Option<u64>)
        requires
            old(self).wf(),
        ensures
            final(self).wf(),
            final(self).cpu_cores.milli == (match cpu_milli {
                Option::Some(v) => v,
                Option::None => old(self).cpu_cores.milli,
            }),
            final(self).load_average.milli == (match load_milli {
                Option::Some(v) => v,
                Option::None => old(self).load_average.milli,
            }),
            final(self).memory_total.milli == (match mem_milli {
                Option::Some(v) => v,
                Option::None => old(self).memory_total.milli,
            }),
            final(self).ping_success == old(self).ping_success,
            final(self).ping_fail == old(self).ping_fail,
            final(self).ping_latency == old(self).ping_latency,
    {
        if let Option::Some(v) = cpu_milli {
            self.cpu_cores.set(v);
        }
        if let Option::Some(v) = load_milli {
            self.load_average.set(v);
        }
        if let Option::Some(v) = mem_milli {
            self.memory_total.set(v);
        }
    }

    /// Read the success count for a label pair.
    pub fn success_count(&self, name: &String, address: &String) -> (v: u64)
        ensures
            v == self.ping_success.spec_value(name@, address@),
    {
        self.ping_success.get(name, address)
    }

    /// Read the failure count for a label pair.
    pub fn fail_count(&self, name: &String, address: &String) -> (v: u64)
        ensures
            v == self.ping_fail.spec_value(name@, address@),
    {
        self.ping_fail.get(name, address)
    }

    /// Read how many latency samples a label pair has recorded.
    pub fn latency_count(&self, name: &String, address: &String) -> (v: u64)
        requires
            self.wf(),
        ensures
            v as int == self.ping_latency.spec_obs(name@, address@).len() as int,
    {
        self.ping_latency.get_count(name, address)
    }
}

} // verus!
