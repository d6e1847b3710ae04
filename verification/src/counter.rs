//! Labeled counter families: monotonically non-decreasing integer
//! counts keyed by the `(name, address)` label pair, created lazily on
//! first increment.
use vstd::prelude::*;
use vstd::string::StringExecFns;

verus! {

/// One counter series: the label pair and its current count.
pub struct CounterSeries {
    pub name: String,
    pub address: String,
    pub value: u64,
}

/// A family of counter series sharing one metric name, keyed by the
/// `(name, address)` label pair.
pub struct CounterVec {
    pub metric_name: String,
    pub help: String,
    pub series: Vec<CounterSeries>,
}

/// Whether a series carries exactly the label pair `(n, a)`.
pub open spec fn key_matches(s: CounterSeries, n: Seq<char>, a: Seq<char>) -> bool {
    s.name@ == n && s.address@ == a
}

/// The count held for the label pair `(n, a)`: the value of the first
/// series with that pair, or 0 when none exists (series start at 0 and
/// are only materialized on first increment).
pub open spec fn lookup(s: Seq<CounterSeries>, n: Seq<char>, a: Seq<char>) -> u64
    decreases s.len(),
{
    if s.len() == 0 {
        0
    } else if key_matches(s[0], n, a) {
        s[0].value
    } else {
        lookup(s.drop_first(), n, a)
    }
}

/// One increment of a saturating counter value.
pub open spec fn bump(v: u64) -> u64 {
    if v < u64::MAX {
        (v + 1) as u64
    } else {
        v
    }
}

proof fn lemma_lookup_first_match(s: Seq<CounterSeries>, n: Seq<char>, a: Seq<char>, j: int)
    requires
        0 <= j < s.len(),
        key_matches(s[j], n, a),
        forall|k: int| 0 <= k < j ==> !key_matches(s[k], n, a),
    ensures
        lookup(s, n, a) == s[j].value,
    decreases j,
{
    if j > 0 {
        lemma_lookup_first_match(s.drop_first(), n, a, j - 1);
    }
}

proof fn lemma_lookup_no_match(s: Seq<CounterSeries>, n: Seq<char>, a: Seq<char>)
    requires
        forall|k: int| 0 <= k < s.len() ==> !key_matches(s[k], n, a),
    ensures
        lookup(s, n, a) == 0,
    decreases s.len(),
{
    if s.len() > 0 {
        lemma_lookup_no_match(s.drop_first(), n, a);
    }
}

proof fn lemma_lookup_same_keys(
    s1: Seq<CounterSeries>,
    s2: Seq<CounterSeries>,
    n: Seq<char>,
    a: Seq<char>,
)
    requires
        s1.len() == s2.len(),
        forall|i: int| 0 <= i < s1.len() ==> s1[i].name@ == s2[i].name@ && s1[i].address@
            == s2[i].address@,
        forall|i: int| 0 <= i < s1.len() && key_matches(s1[i], n, a) ==> s1[i].value
            == s2[i].value,
    ensures
        lookup(s1, n, a) == lookup(s2, n, a),
    decreases s1.len(),
{
    if s1.len() > 0 {
        assert(s1[0].name@ == s2[0].name@ && s1[0].address@ == s2[0].address@);
        if !key_matches(s1[0], n, a) {
            assert(forall|i: int|
                0 <= i < s1.drop_first().len() ==> s1.drop_first()[i] == s1[i + 1]
                    && s2.drop_first()[i] == s2[i + 1]);
            lemma_lookup_same_keys(s1.drop_first(), s2.drop_first(), n, a);
        }
    }
}

proof fn lemma_lookup_push(s: Seq<CounterSeries>, e: CounterSeries, n: Seq<char>, a: Seq<char>)
    requires
        forall|k: int| 0 <= k < s.len() ==> !key_matches(s[k], n, a),
    ensures
        lookup(s.push(e), n, a) == if key_matches(e, n, a) {
            e.value
        } else {
            0 as u64
        },
    decreases s.len(),
{
    if s.len() == 0 {
        assert(s.push(e)[0] == e);
        assert(s.push(e).drop_first() =~= Seq::<CounterSeries>::empty());
        assert(lookup(Seq::<CounterSeries>::empty(), n, a) == 0);
    } else {
        assert(s.push(e)[0] == s[0]);
        assert(!key_matches(s[0], n, a));
        assert(s.push(e).drop_first() =~= s.drop_first().push(e));
        assert(forall|k: int|
            0 <= k < s.drop_first().len() ==> s.drop_first()[k] == s[k + 1]);
        lemma_lookup_push(s.drop_first(), e, n, a);
        assert(lookup(s.push(e), n, a) == lookup(s.drop_first().push(e), n, a));
    }
}

impl CounterVec {
    /// Label pairs are unique across the family's series.
    pub open spec fn wf(self) -> bool {
        forall|i: int, j: int|
            0 <= i < j < self.series@.len() ==> !(self.series@[i].name@ == self.series@[j].name@
                && self.series@[i].address@ == self.series@[j].address@)
    }

    /// The count held for the label pair `(n, a)`.
    pub open spec fn spec_value(self, n: Seq<char>, a: Seq<char>) -> u64 {
        lookup(self.series@, n, a)
    }

    /// A fresh, empty family.
    pub fn new(metric_name: &str, help: &str) -> (c: CounterVec)
        ensures
            c.wf(),
            c.metric_name@ == metric_name@,
            c.help@ == help@,
            c.series@.len() == 0,
            forall|n: Seq<char>, a: Seq<char>| #![auto] c.spec_value(n, a) == 0,
    {
        CounterVec {
            metric_name: String::from_str(metric_name),
            help: String::from_str(help),
            series: Vec::new(),
        }
    }

    /// Increment the counter for the label pair `(name, address)`,
    /// creating its series at 0 first if absent; every other label
    /// pair keeps its count.
    pub fn inc(&mut self, name: &String, address: &String)
        requires
            old(self).wf(),
        ensures
            final(self).wf(),
            final(self).metric_name@ == old(self).metric_name@,
            final(self).help@ == old(self).help@,
            final(self).spec_value(name@, address@) == bump(
                old(self).spec_value(name@, address@),
            ),
            forall|n2: Seq<char>, a2: Seq<char>|
                !(n2 == name@ && a2 == address@) ==> final(self).spec_value(n2, a2) == old(
                    self,
                ).spec_value(n2, a2),
    {
        let ghost s0 = old(self).series@;
        let mut j: usize = 0;
        while j < self.series.len()
            invariant
                self == old(self),
                old(self).wf(),
                j <= s0.len(),
                s0 == old(self).series@,
                forall|k: int| 0 <= k < j ==> !key_matches(s0[k], name@, address@),
            decreases s0.len() - j,
        {
            if self.series[j].name == *name && self.series[j].address == *address {
                let v = self.series[j].value;
                let nv: u64 = if v < u64::MAX {
                    v + 1
                } else {
                    v
                };
                self.series[j].value = nv;
                proof {
                    let s1 = self.series@;
                    assert(s1 == s0.update(j as int, s1[j as int]));
                    assert(s1.len() == s0.len());
                    assert(forall|i: int| 0 <= i < s1.len() && i != j ==> s1[i] == s0[i]);
                    assert(s1[j as int].name@ == s0[j as int].name@);
                    assert(s1[j as int].address@ == s0[j as int].address@);
                    assert(s1[j as int].value == nv);
                    assert forall|i: int, k: int| 0 <= i < k < s1.len() implies !(s1[i].name@
                        == s1[k].name@ && s1[i].address@ == s1[k].address@) by {
                        assert(s1[i].name@ == s0[i].name@ && s1[i].address@ == s0[i].address@);
                        assert(s1[k].name@ == s0[k].name@ && s1[k].address@ == s0[k].address@);
                    }
                    assert(key_matches(s0[j as int], name@, address@));
                    lemma_lookup_first_match(s0, name@, address@, j as int);
                    lemma_lookup_first_match(s1, name@, address@, j as int);
                    assert forall|n2: Seq<char>, a2: Seq<char>|
                        !(n2 == name@ && a2 == address@) implies lookup(s1, n2, a2) == lookup(
                        s0,
                        n2,
                        a2,
                    ) by {
                        assert(forall|i: int|
                            0 <= i < s1.len() && key_matches(s1[i], n2, a2) ==> i != j
                                && s1[i].value == s0[i].value);
                        lemma_lookup_same_keys(s1, s0, n2, a2);
                    }
                }
                return ;
            }
            j = j + 1;
        }
        let e = CounterSeries { name: name.clone(), address: address.clone(), value: 1 };
        self.series.push(e);
        proof {
            let s1 = self.series@;
            lemma_lookup_no_match(s0, name@, address@);
            lemma_lookup_push(s0, e, name@, address@);
            assert(bump(lookup(s0, name@, address@)) == 1);
            assert forall|n2: Seq<char>, a2: Seq<char>|
                !(n2 == name@ && a2 == address@) implies lookup(s1, n2, a2) == lookup(
                s0,
                n2,
                a2,
            ) by {
                lemma_lookup_push_other(s0, e, n2, a2);
            }
        }
    }

    /// Read the count for the label pair `(name, address)`.
    pub fn get(&self, name: &String, address: &String) -> (v: u64)
        ensures
            v == self.spec_value(name@, address@),
    {
        let mut j: usize = 0;
        while j < self.series.len()
            invariant
                j <= self.series@.len(),
                forall|k: int| 0 <= k < j ==> !key_matches(self.series@[k], name@, address@),
            decreases self.series@.len() - j,
        {
            if self.series[j].name == *name && self.series[j].address == *address {
                proof {
                    lemma_lookup_first_match(self.series@, name@, address@, j as int);
                }
                return self.series[j].value;
            }
            j = j + 1;
        }
        proof {
            lemma_lookup_no_match(self.series@, name@, address@);
        }
        0
    }
}

proof fn lemma_lookup_push_other(s: Seq<CounterSeries>, e: CounterSeries, n: Seq<char>, a: Seq<char>)
    requires
        !key_matches(e, n, a),
    ensures
        lookup(s.push(e), n, a) == lookup(s, n, a),
    decreases s.len(),
{
    if s.len() == 0 {
        assert(s.push(e)[0] == e);
        assert(s.push(e).drop_first() =~= Seq::<CounterSeries>::empty());
        assert(lookup(Seq::<CounterSeries>::empty(), n, a) == 0);
    } else {
        assert(s.push(e)[0] == s[0]);
        if !key_matches(s[0], n, a) {
            assert(s.push(e).drop_first() =~= s.drop_first().push(e));
            lemma_lookup_push_other(s.drop_first(), e, n, a);
            assert(lookup(s.push(e), n, a) == lookup(s.drop_first().push(e), n, a));
        }
    }
}

} // verus!
