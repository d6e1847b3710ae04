//! Labeled latency histograms: per label pair, the observed samples
//! (in nanoseconds) bucketed into cumulative counts, with their sum
//! and total count, created lazily on first observation.
use vstd::prelude::*;
use vstd::string::StringExecFns;

verus! {

/// The bucket upper bounds, in nanoseconds: 5ms, 10ms, 25ms, 50ms,
/// 100ms, 250ms, 500ms, 1s, 2.5s, 5s and 10s.
pub open spec fn latency_bounds() -> Seq<u64> {
    seq![
        5000000u64,
        10000000u64,
        25000000u64,
        50000000u64,
        100000000u64,
        250000000u64,
        500000000u64,
        1000000000u64,
        2500000000u64,
        5000000000u64,
        10000000000u64,
    ]
}

/// The bucket upper bounds as a vector.
pub fn latency_bounds_vec() -> (v: Vec<u64>)
    ensures
        v@ == latency_bounds(),
{
    let mut v: Vec<u64> = Vec::new();
    v.push(5000000);
    v.push(10000000);
    v.push(25000000);
    v.push(50000000);
    v.push(100000000);
    v.push(250000000);
    v.push(500000000);
    v.push(1000000000);
    v.push(2500000000);
    v.push(5000000000);
    v.push(10000000000);
    proof {
        assert(v@ =~= latency_bounds());
    }
    v
}

/// The sum of a sequence of samples.
pub open spec fn sum_seq(s: Seq<u64>) -> int
    decreases s.len(),
{
    if s.len() == 0 {
        0
    } else {
        sum_seq(s.drop_last()) + s.last()
    }
}

/// How many samples of `s` are at most `b`.
pub open spec fn count_le(s: Seq<u64>, b: u64) -> int
    decreases s.len(),
{
    if s.len() == 0 {
        0
    } else {
        count_le(s.drop_last(), b) + if s.last() <= b {
            1int
        } else {
            0int
        }
    }
}

/// Whether one more sample of `v` still fits the histogram's
/// fixed-width count and sum.
pub open spec fn fits(obs: Seq<u64>, v: u64) -> bool {
    obs.len() < u64::MAX && sum_seq(obs) + v <= u64::MAX
}

/// The observations after recording `v`: the sample is appended while
/// it fits, and dropped once count or sum would overflow.
pub open spec fn push_obs(obs: Seq<u64>, v: u64) -> Seq<u64> {
    if fits(obs, v) {
        obs.push(v)
    } else {
        obs
    }
}

pub proof fn lemma_sum_push(s: Seq<u64>, v: u64)
    ensures
        sum_seq(s.push(v)) == sum_seq(s) + v,
{
    assert(s.push(v).drop_last() =~= s);
    assert(s.push(v).last() == v);
}

pub proof fn lemma_count_le_push(s: Seq<u64>, v: u64, b: u64)
    ensures
        count_le(s.push(v), b) == count_le(s, b) + if v <= b {
            1int
        } else {
            0int
        },
{
    assert(s.push(v).drop_last() =~= s);
    assert(s.push(v).last() == v);
}

pub proof fn lemma_count_le_bound(s: Seq<u64>, b: u64)
    ensures
        0 <= count_le(s, b) <= s.len(),
    decreases s.len(),
{
    if s.len() > 0 {
        lemma_count_le_bound(s.drop_last(), b);
    }
}

/// One histogram: the cumulative per-bucket counts, the total count
/// and the sum of samples, together with the recorded samples
/// themselves as the mathematical model the fields must agree with.
pub struct Histogram {
    pub count: u64,
    pub sum: u64,
    pub bucket_le: Vec<u64>,
    pub obs: Ghost<Seq<u64>>,
}

impl Histogram {
    /// The fields agree with the recorded samples.
    pub open spec fn wf(self) -> bool {
        &&& self.bucket_le@.len() == latency_bounds().len()
        &&& self.count as int == self.obs@.len() as int
        &&& self.sum as int == sum_seq(self.obs@)
        &&& forall|k: int|
            0 <= k < latency_bounds().len() ==> self.bucket_le@[k] as int == count_le(
                self.obs@,
                latency_bounds()[k],
            )
    }

    /// A fresh histogram with no observations.
    pub fn new() -> (h: Histogram)
        ensures
            h.wf(),
            h.obs@ == Seq::<u64>::empty(),
            h.count == 0,
            h.sum == 0,
    {
        let mut b: Vec<u64> = Vec::new();
        let mut k: usize = 0;
        while k < 11
            invariant
                b@.len() == k,
                k <= 11,
                forall|i: int| 0 <= i < k ==> b@[i] == 0,
            decreases 11 - k,
        {
            b.push(0);
            k = k + 1;
        }
        let h = Histogram { count: 0, sum: 0, bucket_le: b, obs: Ghost(Seq::empty()) };
        proof {
            assert(latency_bounds().len() == 11);
            assert forall|k2: int| 0 <= k2 < latency_bounds().len() implies h.bucket_le@[k2] as int
                == count_le(h.obs@, latency_bounds()[k2]) by {
                assert(count_le(Seq::<u64>::empty(), latency_bounds()[k2]) == 0);
            }
        }
        h
    }

    /// Record one sample of `v` nanoseconds; the sample is dropped
    /// once count or sum would overflow.
    pub fn observe(&mut self, v: u64)
        requires
            old(self).wf(),
        ensures
            final(self).wf(),
            final(self).obs@ == push_obs(old(self).obs@, v),
    {
        if self.count < u64::MAX && v <= u64::MAX - self.sum {
            let ghost obs0 = self.obs@;
            self.count = self.count + 1;
            self.sum = self.sum + v;
            let bounds = latency_bounds_vec();
            let mut k: usize = 0;
            while k < bounds.len()
                invariant
                    bounds@ == latency_bounds(),
                    old(self).wf(),
                    obs0 == old(self).obs@,
                    fits(obs0, v),
                    self.obs@ == obs0,
                    self.count as int == obs0.len() + 1,
                    self.sum as int == sum_seq(obs0) + v,
                    self.bucket_le@.len() == latency_bounds().len(),
                    k <= latency_bounds().len(),
                    forall|i: int|
                        0 <= i < k ==> self.bucket_le@[i] as int == count_le(
                            obs0.push(v),
                            latency_bounds()[i],
                        ),
                    forall|i: int|
                        k <= i < latency_bounds().len() ==> self.bucket_le@[i] == old(
                            self,
                        ).bucket_le@[i],
                decreases latency_bounds().len() - k,
            {
                proof {
                    lemma_count_le_bound(obs0, latency_bounds()[k as int]);
                    lemma_count_le_push(obs0, v, latency_bounds()[k as int]);
                }
                if v <= bounds[k] {
                    let c = self.bucket_le[k];
                    self.bucket_le[k] = c + 1;
                } else {
                }
                k = k + 1;
            }
            self.obs = Ghost(obs0.push(v));
            proof {
                lemma_sum_push(obs0, v);
            }
        } else {
        }
    }
}

/// One histogram series: the label pair and its histogram.
pub struct HistogramSeries {
    pub name: String,
    pub address: String,
    pub hist: Histogram,
}

/// A family of histogram series sharing one metric name, keyed by the
/// `(name, address)` label pair.
pub struct HistogramVec {
    pub metric_name: String,
    pub help: String,
    pub series: Vec<HistogramSeries>,
}

/// Whether a series carries exactly the label pair `(n, a)`.
pub open spec fn hkey_matches(s: HistogramSeries, n: Seq<char>, a: Seq<char>) -> bool {
    s.name@ == n && s.address@ == a
}

/// The samples recorded for the label pair `(n, a)`: those of the
/// first series with that pair, or none when no such series exists.
pub open spec fn lookup_obs(s: Seq<HistogramSeries>, n: Seq<char>, a: Seq<char>) -> Seq<u64>
    decreases s.len(),
{
    if s.len() == 0 {
        Seq::empty()
    } else if hkey_matches(s[0], n, a) {
        s[0].hist.obs@
    } else {
        lookup_obs(s.drop_first(), n, a)
    }
}

proof fn lemma_hlookup_first_match(s: Seq<HistogramSeries>, n: Seq<char>, a: Seq<char>, j: int)
    requires
        0 <= j < s.len(),
        hkey_matches(s[j], n, a),
        forall|k: int| 0 <= k < j ==> !hkey_matches(s[k], n, a),
    ensures
        lookup_obs(s, n, a) == s[j].hist.obs@,
    decreases j,
{
    if j > 0 {
        lemma_hlookup_first_match(s.drop_first(), n, a, j - 1);
    }
}

proof fn lemma_hlookup_no_match(s: Seq<HistogramSeries>, n: Seq<char>, a: Seq<char>)
    requires
        forall|k: int| 0 <= k < s.len() ==> !hkey_matches(s[k], n, a),
    ensures
        lookup_obs(s, n, a) == Seq::<u64>::empty(),
    decreases s.len(),
{
    if s.len() > 0 {
        lemma_hlookup_no_match(s.drop_first(), n, a);
    }
}

proof fn lemma_hlookup_same_keys(
    s1: Seq<HistogramSeries>,
    s2: Seq<HistogramSeries>,
    n: Seq<char>,
    a: Seq<char>,
)
    requires
        s1.len() == s2.len(),
        forall|i: int| 0 <= i < s1.len() ==> s1[i].name@ == s2[i].name@ && s1[i].address@
            == s2[i].address@,
        forall|i: int| 0 <= i < s1.len() && hkey_matches(s1[i], n, a) ==> s1[i].hist.obs@
            == s2[i].hist.obs@,
    ensures
        lookup_obs(s1, n, a) == lookup_obs(s2, n, a),
    decreases s1.len(),
{
    if s1.len() > 0 {
        assert(s1[0].name@ == s2[0].name@ && s1[0].address@ == s2[0].address@);
        if !hkey_matches(s1[0], n, a) {
            assert(forall|i: int|
                0 <= i < s1.drop_first().len() ==> s1.drop_first()[i] == s1[i + 1]
                    && s2.drop_first()[i] == s2[i + 1]);
            lemma_hlookup_same_keys(s1.drop_first(), s2.drop_first(), n, a);
        }
    }
}

proof fn lemma_hlookup_push(s: Seq<HistogramSeries>, e: HistogramSeries, n: Seq<char>, a: Seq<char>)
    requires
        forall|k: int| 0 <= k < s.len() ==> !hkey_matches(s[k], n, a),
    ensures
        lookup_obs(s.push(e), n, a) == if hkey_matches(e, n, a) {
            e.hist.obs@
        } else {
            Seq::<u64>::empty()
        },
    decreases s.len(),
{
    if s.len() == 0 {
        assert(s.push(e)[0] == e);
        assert(s.push(e).drop_first() =~= Seq::<HistogramSeries>::empty());
        assert(lookup_obs(Seq::<HistogramSeries>::empty(), n, a) == Seq::<u64>::empty());
    } else {
        assert(s.push(e)[0] == s[0]);
        assert(!hkey_matches(s[0], n, a));
        assert(s.push(e).drop_first() =~= s.drop_first().push(e));
        assert(forall|k: int|
            0 <= k < s.drop_first().len() ==> s.drop_first()[k] == s[k + 1]);
        lemma_hlookup_push(s.drop_first(), e, n, a);
        assert(lookup_obs(s.push(e), n, a) == lookup_obs(s.drop_first().push(e), n, a));
    }
}

proof fn lemma_hlookup_push_other(
    s: Seq<HistogramSeries>,
    e: HistogramSeries,
    n: Seq<char>,
    a: Seq<char>,
)
    requires
        !hkey_matches(e, n, a),
    ensures
        lookup_obs(s.push(e), n, a) == lookup_obs(s, n, a),
    decreases s.len(),
{
    if s.len() == 0 {
        assert(s.push(e)[0] == e);
        assert(s.push(e).drop_first() =~= Seq::<HistogramSeries>::empty());
        assert(lookup_obs(Seq::<HistogramSeries>::empty(), n, a) == Seq::<u64>::empty());
    } else {
        assert(s.push(e)[0] == s[0]);
        if !hkey_matches(s[0], n, a) {
            assert(s.push(e).drop_first() =~= s.drop_first().push(e));
            lemma_hlookup_push_other(s.drop_first(), e, n, a);
            assert(lookup_obs(s.push(e), n, a) == lookup_obs(s.drop_first().push(e), n, a));
        }
    }
}

impl HistogramVec {
    /// Label pairs are unique and every histogram agrees with its
    /// recorded samples.
    pub open spec fn wf(self) -> bool {
        &&& forall|i: int, j: int|
            0 <= i < j < self.series@.len() ==> !(self.series@[i].name@ == self.series@[j].name@
                && self.series@[i].address@ == self.series@[j].address@)
        &&& forall|i: int| 0 <= i < self.series@.len() ==> self.series@[i].hist.wf()
    }

    /// The samples recorded for the label pair `(n, a)`.
    pub open spec fn spec_obs(self, n: Seq<char>, a: Seq<char>) -> Seq<u64> {
        lookup_obs(self.series@, n, a)
    }

    /// A fresh, empty family.
    pub fn new(metric_name: &str, help: &str) -> (h: HistogramVec)
        ensures
            h.wf(),
            h.metric_name@ == metric_name@,
            h.help@ == help@,
            h.series@.len() == 0,
            forall|n: Seq<char>, a: Seq<char>| #![auto] h.spec_obs(n, a) == Seq::<u64>::empty(),
    {
        HistogramVec {
            metric_name: String::from_str(metric_name),
            help: String::from_str(help),
            series: Vec::new(),
        }
    }

    /// Record a sample of `v` nanoseconds for the label pair
    /// `(name, address)`, creating its series first if absent; every
    /// other label pair keeps its samples.
    pub fn observe(&mut self, name: &String, address: &String, v: u64)
        requires
            old(self).wf(),
        ensures
            final(self).wf(),
            final(self).metric_name@ == old(self).metric_name@,
            final(self).help@ == old(self).help@,
            final(self).spec_obs(name@, address@) == push_obs(
                old(self).spec_obs(name@, address@),
                v,
            ),
            forall|n2: Seq<char>, a2: Seq<char>|
                !(n2 == name@ && a2 == address@) ==> final(self).spec_obs(n2, a2) == old(
                    self,
                ).spec_obs(n2, a2),
    {
        let ghost s0 = old(self).series@;
        let mut j: usize = 0;
        while j < self.series.len()
            invariant
                self == old(self),
                old(self).wf(),
                j <= s0.len(),
                s0 == old(self).series@,
                forall|k: int| 0 <= k < j ==> !hkey_matches(s0[k], name@, address@),
            decreases s0.len() - j,
        {
            if self.series[j].name == *name && self.series[j].address == *address {
                self.series[j].hist.observe(v);
                proof {
                    let s1 = self.series@;
                    assert(s1 == s0.update(j as int, s1[j as int]));
                    assert(s1.len() == s0.len());
                    assert(forall|i: int| 0 <= i < s1.len() && i != j ==> s1[i] == s0[i]);
                    assert(s1[j as int].name@ == s0[j as int].name@);
                    assert(s1[j as int].address@ == s0[j as int].address@);
                    assert(s1[j as int].hist.obs@ == push_obs(s0[j as int].hist.obs@, v));
                    assert forall|i: int, k: int| 0 <= i < k < s1.len() implies !(s1[i].name@
                        == s1[k].name@ && s1[i].address@ == s1[k].address@) by {
                        assert(s1[i].name@ == s0[i].name@ && s1[i].address@ == s0[i].address@);
                        assert(s1[k].name@ == s0[k].name@ && s1[k].address@ == s0[k].address@);
                    }
                    assert(hkey_matches(s0[j as int], name@, address@));
                    lemma_hlookup_first_match(s0, name@, address@, j as int);
                    lemma_hlookup_first_match(s1, name@, address@, j as int);
                    assert forall|n2: Seq<char>, a2: Seq<char>|
                        !(n2 == name@ && a2 == address@) implies lookup_obs(s1, n2, a2)
                        == lookup_obs(s0, n2, a2) by {
                        assert(forall|i: int|
                            0 <= i < s1.len() && hkey_matches(s1[i], n2, a2) ==> i != j
                                && s1[i].hist.obs@ == s0[i].hist.obs@);
                        lemma_hlookup_same_keys(s1, s0, n2, a2);
                    }
                }
                return ;
            }
            j = j + 1;
        }
        let mut h = Histogram::new();
        h.observe(v);
        proof {
            assert(fits(Seq::<u64>::empty(), v));
            assert(h.obs@ =~= Seq::<u64>::empty().push(v));
        }
        let e = HistogramSeries { name: name.clone(), address: address.clone(), hist: h };
        self.series.push(e);
        proof {
            let s1 = self.series@;
            lemma_hlookup_no_match(s0, name@, address@);
            lemma_hlookup_push(s0, e, name@, address@);
            assert(push_obs(lookup_obs(s0, name@, address@), v) =~= e.hist.obs@);
            assert forall|n2: Seq<char>, a2: Seq<char>|
                !(n2 == name@ && a2 == address@) implies lookup_obs(s1, n2, a2) == lookup_obs(
                s0,
                n2,
                a2,
            ) by {
                lemma_hlookup_push_other(s0, e, n2, a2);
            }
        }
    }

    /// Read the number of recorded samples for the label pair
    /// `(name, address)`.
    pub fn get_count(&self, name: &String, address: &String) -> (c: u64)
        requires
            self.wf(),
        ensures
            c as int == self.spec_obs(name@, address@).len() as int,
    {
        let mut j: usize = 0;
        while j < self.series.len()
            invariant
                self.wf(),
                j <= self.series@.len(),
                forall|k: int| 0 <= k < j ==> !hkey_matches(self.series@[k], name@, address@),
            decreases self.series@.len() - j,
        {
            if self.series[j].name == *name && self.series[j].address == *address {
                proof {
                    lemma_hlookup_first_match(self.series@, name@, address@, j as int);
                }
                return self.series[j].hist.count;
            }
            j = j + 1;
        }
        proof {
            lemma_hlookup_no_match(self.series@, name@, address@);
        }
        0
    }
}

} // verus!
