//! Unlabeled gauges: a single current value, overwritten on each
//! sample. Values are held in thousandths of the source unit so that
//! fractional readings keep three decimal places.
use vstd::prelude::*;
use vstd::string::StringExecFns;

verus! {

/// An unlabeled gauge holding one current value in thousandths of the
/// source unit.
pub struct Gauge {
    pub metric_name: String,
    pub help: String,
    pub milli: u64,
}

impl Gauge {
    /// A fresh gauge reading 0.
    pub fn new(metric_name: &str, help: &str) -> (g: Gauge)
        ensures
            g.metric_name@ == metric_name@,
            g.help@ == help@,
            g.milli == 0,
    {
        Gauge {
            metric_name: String::from_str(metric_name),
            help: String::from_str(help),
            milli: 0,
        }
    }

    /// Overwrite the current value.
    pub fn set(&mut self, v: u64)
        ensures
            final(self).milli == v,
            final(self).metric_name@ == old(self).metric_name@,
            final(self).help@ == old(self).help@,
    {
        self.milli = v;
    }

    /// Read the current value.
    pub fn get(&self) -> (v: u64)
        ensures
            v == self.milli,
    {
        self.milli
    }
}

} // verus!
