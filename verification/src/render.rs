//! The exposition text format: one `# HELP`/`# TYPE` pair per metric
//! family followed by its series lines, counters and gauges as single
//! value lines, histograms as cumulative bucket lines with their sum
//! and count. The renderer's output is pinned down to the byte.
use vstd::prelude::*;
use vstd::string::StringExecFns;
use crate::counter::CounterSeries;
use crate::counter::CounterVec;
use crate::gauge::Gauge;
use crate::histogram::HistogramSeries;
use crate::histogram::HistogramVec;
use crate::histogram::latency_bounds;
use crate::histogram::latency_bounds_vec;
use crate::registry::Registry;
use crate::text::dec_str;
use crate::text::escape_label;
use crate::text::escape_str;
use crate::text::fixed_str;
use crate::text::fmt_fixed;
use crate::text::fmt_u64;

verus! {

/// The `# HELP` and `# TYPE` header of one metric family.
pub open spec fn help_type_str(metric: Seq<char>, help: Seq<char>, kind: Seq<char>) -> Seq<char> {
    "# HELP "@ + metric + " "@ + help + "\n# TYPE "@ + metric + " "@ + kind + "\n"@
}

/// The label set of a series, values escaped and quoted.
pub open spec fn label_str(n: Seq<char>, a: Seq<char>) -> Seq<char> {
    "{name=\""@ + escape_str(n) + "\",address=\""@ + escape_str(a) + "\"}"@
}

/// The label set of a histogram bucket, with its `le` bound, followed
/// by the value separator.
pub open spec fn label_le_str(n: Seq<char>, a: Seq<char>, le: Seq<char>) -> Seq<char> {
    "{name=\""@ + escape_str(n) + "\",address=\""@ + escape_str(a) + "\",le=\""@ + le + "\"} "@
}

/// One counter series line.
pub open spec fn counter_line_str(metric: Seq<char>, s: CounterSeries) -> Seq<char> {
    metric + label_str(s.name@, s.address@) + " "@ + dec_str(s.value as nat) + "\n"@
}

/// The series lines of a counter family, in creation order.
pub open spec fn counter_lines_str(metric: Seq<char>, ss: Seq<CounterSeries>) -> Seq<char>
    decreases ss.len(),
{
    if ss.len() == 0 {
        Seq::empty()
    } else {
        counter_lines_str(metric, ss.drop_last()) + counter_line_str(metric, ss.last())
    }
}

/// A counter family: nothing while it has no series, else its header
/// and series lines.
pub open spec fn counter_family_str(c: CounterVec) -> Seq<char> {
    if c.series@.len() == 0 {
        Seq::empty()
    } else {
        help_type_str(c.metric_name@, c.help@, "counter"@) + counter_lines_str(
            c.metric_name@,
            c.series@,
        )
    }
}

/// A gauge family: its header and single value line, the value in
/// thousandths rendered as a decimal.
pub open spec fn gauge_family_str(g: Gauge) -> Seq<char> {
    help_type_str(g.metric_name@, g.help@, "gauge"@) + g.metric_name@ + " "@ + fixed_str(
        g.milli as nat,
        1000,
        3,
    ) + "\n"@
}

/// One cumulative bucket line of a histogram series.
pub open spec fn bucket_line_str(metric: Seq<char>, s: HistogramSeries, k: int) -> Seq<char> {
    metric + "_bucket"@ + label_le_str(
        s.name@,
        s.address@,
        fixed_str(latency_bounds()[k] as nat, 1000000000, 9),
    ) + dec_str(s.hist.bucket_le@[k] as nat) + "\n"@
}

/// The first `k` bucket lines of a histogram series.
pub open spec fn bucket_lines_str(metric: Seq<char>, s: HistogramSeries, k: int) -> Seq<char>
    decreases k,
{
    if k <= 0 {
        Seq::empty()
    } else {
        bucket_lines_str(metric, s, k - 1) + bucket_line_str(metric, s, k - 1)
    }
}

/// One histogram series: its finite bucket lines, the `+Inf` bucket,
/// and its sum (nanoseconds rendered as seconds) and count lines.
pub open spec fn hist_series_str(metric: Seq<char>, s: HistogramSeries) -> Seq<char> {
    bucket_lines_str(metric, s, latency_bounds().len() as int) + metric + "_bucket"@ + label_le_str(
        s.name@,
        s.address@,
        "+Inf"@,
    ) + dec_str(s.hist.count as nat) + "\n"@ + metric + "_sum"@ + label_str(s.name@, s.address@)
        + " "@ + fixed_str(s.hist.sum as nat, 1000000000, 9) + "\n"@ + metric + "_count"@
        + label_str(s.name@, s.address@) + " "@ + dec_str(s.hist.count as nat) + "\n"@
}

/// The series blocks of a histogram family, in creation order.
pub open spec fn hist_lines_str(metric: Seq<char>, ss: Seq<HistogramSeries>) -> Seq<char>
    decreases ss.len(),
{
    if ss.len() == 0 {
        Seq::empty()
    } else {
        hist_lines_str(metric, ss.drop_last()) + hist_series_str(metric, ss.last())
    }
}

/// A histogram family: nothing while it has no series, else its
/// header and series blocks.
pub open spec fn hist_family_str(h: HistogramVec) -> Seq<char> {
    if h.series@.len() == 0 {
        Seq::empty()
    } else {
        help_type_str(h.metric_name@, h.help@, "histogram"@) + hist_lines_str(
            h.metric_name@,
            h.series@,
        )
    }
}

/// The whole exposition body: every family the registry holds, in
/// name order.
pub open spec fn exposition(r: Registry) -> Seq<char> {
    counter_family_str(r.ping_fail) + hist_family_str(r.ping_latency) + counter_family_str(
        r.ping_success,
    ) + gauge_family_str(r.cpu_cores) + gauge_family_str(r.load_average) + gauge_family_str(
        r.memory_total,
    )
}

fn append_help_type(out: &mut String, metric: &String, help: &String, kind: &str)
    ensures
        final(out)@ == old(out)@ + help_type_str(metric@, help@, kind@),
{
    out.append("# HELP ");
    out.append(metric.as_str());
    out.append(" ");
    out.append(help.as_str());
    out.append("\n# TYPE ");
    out.append(metric.as_str());
    out.append(" ");
    out.append(kind);
    out.append("\n");
    proof {
        assert(out@ =~= old(out)@ + help_type_str(metric@, help@, kind@));
    }
}

fn append_label(out: &mut String, name: &String, address: &String)
    ensures
        final(out)@ == old(out)@ + label_str(name@, address@),
{
    out.append("{name=\"");
    let en = escape_label(name.as_str());
    out.append(en.as_str());
    out.append("\",address=\"");
    let ea = escape_label(address.as_str());
    out.append(ea.as_str());
    out.append("\"}");
    proof {
        assert(out@ =~= old(out)@ + label_str(name@, address@));
    }
}

fn append_label_le(out: &mut String, name: &String, address: &String, le: &str)
    ensures
        final(out)@ == old(out)@ + label_le_str(name@, address@, le@),
{
    out.append("{name=\"");
    let en = escape_label(name.as_str());
    out.append(en.as_str());
    out.append("\",address=\"");
    let ea = escape_label(address.as_str());
    out.append(ea.as_str());
    out.append("\",le=\"");
    out.append(le);
    out.append("\"} ");
    proof {
        assert(out@ =~= old(out)@ + label_le_str(name@, address@, le@));
    }
}

fn append_counter(out: &mut String, c: &CounterVec)
    ensures
        final(out)@ == old(out)@ + counter_family_str(*c),
{
    if c.series.len() == 0 {
        proof {
            assert(out@ =~= old(out)@ + counter_family_str(*c));
        }
        return ;
    }
    append_help_type(out, &c.metric_name, &c.help, "counter");
    let mut i: usize = 0;
    while i < c.series.len()
        invariant
            c.series@.len() > 0,
            i <= c.series@.len(),
            out@ == old(out)@ + help_type_str(c.metric_name@, c.help@, "counter"@)
                + counter_lines_str(c.metric_name@, c.series@.take(i as int)),
        decreases c.series@.len() - i,
    {
        out.append(c.metric_name.as_str());
        append_label(out, &c.series[i].name, &c.series[i].address);
        out.append(" ");
        let val = fmt_u64(c.series[i].value);
        out.append(val.as_str());
        out.append("\n");
        proof {
            let ss = c.series@;
            assert(ss.take(i as int + 1).drop_last() =~= ss.take(i as int));
            assert(ss.take(i as int + 1).last() == ss[i as int]);
            assert(out@ =~= old(out)@ + help_type_str(c.metric_name@, c.help@, "counter"@)
                + counter_lines_str(c.metric_name@, ss.take(i as int + 1)));
        }
        i = i + 1;
    }
    proof {
        assert(c.series@.take(c.series@.len() as int) =~= c.series@);
        assert(out@ =~= old(out)@ + counter_family_str(*c));
    }
}

fn append_gauge(out: &mut String, g: &Gauge)
    ensures
        final(out)@ == old(out)@ + gauge_family_str(*g),
{
    append_help_type(out, &g.metric_name, &g.help, "gauge");
    out.append(g.metric_name.as_str());
    out.append(" ");
    let v = fmt_fixed(g.milli, 1000, 3);
    out.append(v.as_str());
    out.append("\n");
    proof {
        assert(out@ =~= old(out)@ + gauge_family_str(*g));
    }
}

#[verifier::rlimit(100)]
fn append_histogram(out: &mut String, h: &HistogramVec)
    requires
        h.wf(),
    ensures
        final(out)@ == old(out)@ + hist_family_str(*h),
{
    if h.series.len() == 0 {
        proof {
            assert(out@ =~= old(out)@ + hist_family_str(*h));
        }
        return ;
    }
    append_help_type(out, &h.metric_name, &h.help, "histogram");
    let bounds = latency_bounds_vec();
    let mut i: usize = 0;
    while i < h.series.len()
        invariant
            h.wf(),
            h.series@.len() > 0,
            bounds@ == latency_bounds(),
            i <= h.series@.len(),
            out@ == old(out)@ + help_type_str(h.metric_name@, h.help@, "histogram"@)
                + hist_lines_str(h.metric_name@, h.series@.take(i as int)),
        decreases h.series@.len() - i,
    {
        let ghost prefix = old(out)@ + help_type_str(h.metric_name@, h.help@, "histogram"@)
            + hist_lines_str(h.metric_name@, h.series@.take(i as int));
        let mut k: usize = 0;
        while k < bounds.len()
            invariant
                h.wf(),
                bounds@ == latency_bounds(),
                i < h.series@.len(),
                k <= bounds@.len(),
                out@ == prefix + bucket_lines_str(h.metric_name@, h.series@[i as int], k as int),
            decreases bounds@.len() - k,
        {
            out.append(h.metric_name.as_str());
            out.append("_bucket");
            let le = fmt_fixed(bounds[k], 1000000000, 9);
            append_label_le(out, &h.series[i].name, &h.series[i].address, le.as_str());
            let cv = fmt_u64(h.series[i].hist.bucket_le[k]);
            out.append(cv.as_str());
            out.append("\n");
            proof {
                assert(out@ =~= prefix + bucket_lines_str(
                    h.metric_name@,
                    h.series@[i as int],
                    k as int + 1,
                ));
            }
            k = k + 1;
        }
        out.append(h.metric_name.as_str());
        out.append("_bucket");
        append_label_le(out, &h.series[i].name, &h.series[i].address, "+Inf");
        let cv = fmt_u64(h.series[i].hist.count);
        out.append(cv.as_str());
        out.append("\n");
        out.append(h.metric_name.as_str());
        out.append("_sum");
        append_label(out, &h.series[i].name, &h.series[i].address);
        out.append(" ");
        let sv = fmt_fixed(h.series[i].hist.sum, 1000000000, 9);
        out.append(sv.as_str());
        out.append("\n");
        out.append(h.metric_name.as_str());
        out.append("_count");
        append_label(out, &h.series[i].name, &h.series[i].address);
        out.append(" ");
        let cv2 = fmt_u64(h.series[i].hist.count);
        out.append(cv2.as_str());
        out.append("\n");
        proof {
            let ss = h.series@;
            assert(ss.take(i as int + 1).drop_last() =~= ss.take(i as int));
            assert(ss.take(i as int + 1).last() == ss[i as int]);
            assert(out@ =~= old(out)@ + help_type_str(h.metric_name@, h.help@, "histogram"@)
                + hist_lines_str(h.metric_name@, ss.take(i as int + 1)));
        }
        i = i + 1;
    }
    proof {
        assert(h.series@.take(h.series@.len() as int) =~= h.series@);
        assert(out@ =~= old(out)@ + hist_family_str(*h));
    }
}

impl Registry {
    /// Render the scrape body: a consistent snapshot of every family
    /// the registry holds, in the exposition text format. Reading
    /// never mutates the registry, so two back-to-back scrapes with
    /// no intervening writes return identical bytes.
    pub fn render(&self) -> (out: String)
        requires
            self.wf(),
        ensures
            out@ == exposition(*self),
    {
        let mut out = String::new();
        append_counter(&mut out, &self.ping_fail);
        append_histogram(&mut out, &self.ping_latency);
        append_counter(&mut out, &self.ping_success);
        append_gauge(&mut out, &self.cpu_cores);
        append_gauge(&mut out, &self.load_average);
        append_gauge(&mut out, &self.memory_total);
        proof {
            assert(out@ =~= exposition(*self));
        }
        out
    }
}

/// A scrape is a pure function of the registry state: equal states
/// render equal exposition bodies, so two scrapes back to back with
/// no intervening probe or sampler activity return identical values.
pub proof fn lemma_scrape_idempotent(r1: Registry, r2: Registry)
    requires
        r1 == r2,
    ensures
        exposition(r1) == exposition(r2),
{
}

} // verus!
