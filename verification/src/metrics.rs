use vstd::prelude::*;

use crate::arith::{sat_add, sat_dec_i64, sat_inc_i64};
use crate::errors::CoreError;

verus! {

/// The three metric kinds a registry can hand out.
#[derive(Clone, Copy, Debug, PartialEq, Eq, Structural)]
pub enum MetricKind {
    Counter,
    Gauge,
    Histogram,
}

/// Handle to a registered counter; only the registry that issued it can
/// change or read the value it points at.
#[derive(Clone, Copy, Debug, PartialEq, Eq)]
pub struct CounterId {
    pub index: usize,
}

/// Handle to a registered gauge.
#[derive(Clone, Copy, Debug, PartialEq, Eq)]
pub struct GaugeId {
    pub index: usize,
}

/// Handle to a registered histogram.
#[derive(Clone, Copy, Debug, PartialEq, Eq)]
pub struct HistogramId {
    pub index: usize,
}

/// Whether some registered metric carries `name`.
pub open spec fn has_name(names: Seq<String>, name: Seq<char>) -> bool {
    exists|i: int| 0 <= i < names.len() && names[i]@ == name
}

/// The first position registered under `name` (the length of `names` if none
/// is).
pub open spec fn name_index(names: Seq<String>, name: Seq<char>) -> int
    decreases names.len(),
{
    if names.len() == 0 {
        0
    } else if names[0]@ == name {
        0
    } else {
        1 + name_index(names.drop_first(), name)
    }
}

pub proof fn lemma_name_index(names: Seq<String>, name: Seq<char>)
    requires
        has_name(names, name),
    ensures
        ({
            let i = name_index(names, name);
            &&& 0 <= i < names.len()
            &&& names[i]@ == name
            &&& forall|j: int| 0 <= j < i ==> names[j]@ != name
        }),
    decreases names.len(),
{
    if names.len() == 0 {
    } else if names[0]@ == name {
    } else {
        let k = choose|k: int| 0 <= k < names.len() && names[k]@ == name;
        assert(names.drop_first()[k - 1] == names[k]);
        lemma_name_index(names.drop_first(), name);
        let i = name_index(names, name);
        assert(names[i] == names.drop_first()[i - 1]);
        assert forall|j: int| 0 <= j < i implies names[j]@ != name by {
            if j >= 1 {
                assert(names.drop_first()[j - 1] == names[j]);
            }
        }
    }
}

/// A name's first position is decided within any prefix that already
/// carries it: entries appended later cannot change it.
pub proof fn lemma_name_index_extend(s: Seq<String>, t: Seq<String>, name: Seq<char>)
    requires
        has_name(s, name),
        s.len() <= t.len(),
        forall|i: int| 0 <= i < s.len() ==> t[i] == s[i],
    ensures
        has_name(t, name),
        name_index(t, name) == name_index(s, name),
{
    lemma_name_index(s, name);
    let i = name_index(s, name);
    assert(t[i]@ == name);
    assert(has_name(t, name));
    lemma_name_index(t, name);
    let j = name_index(t, name);
    if j < i {
        assert(t[j] == s[j]);
        assert(false);
    }
}

/// Registering one metric leaves every other name's registration alone:
/// whether `name` is taken, where it stands and with which kind is the same
/// before and after a lookup-or-create under a different name.
pub proof fn lemma_registered_preserves_other(
    m0: MetricsRegistry,
    m1: MetricsRegistry,
    other: Seq<char>,
    kind: MetricKind,
    r: Result<usize, CoreError>,
    name: Seq<char>,
)
    requires
        m0.wf(),
        registered(m0, m1, other, kind, r),
        name != other,
    ensures
        has_name(m1.names@, name) == has_name(m0.names@, name),
        has_name(m0.names@, name) ==> name_index(m1.names@, name) == name_index(m0.names@, name)
            && m1.kinds@[name_index(m0.names@, name)] == m0.kinds@[name_index(m0.names@, name)],
{
    if has_name(m0.names@, other) {
        // the registry is unchanged in both the match and the mismatch case
        if has_name(m0.names@, name) {
            lemma_name_index(m0.names@, name);
        }
    } else {
        // one entry carrying `other` was appended behind all existing ones
        if has_name(m0.names@, name) {
            lemma_name_index(m0.names@, name);
            lemma_name_index_extend(m0.names@, m1.names@, name);
        }
        if has_name(m1.names@, name) {
            lemma_name_index(m1.names@, name);
            let k = name_index(m1.names@, name);
            if k < m0.names@.len() {
                assert(m1.names@[k] == m0.names@[k]);
                assert(has_name(m0.names@, name));
            } else {
                assert(m1.names@[k]@ == other);
                assert(false);
            }
        }
    }
}

/// What one lookup-or-create call binds its position to: the name stands at
/// that position with the wanted kind, and the position is the name's first.
pub proof fn lemma_registered_binds(
    m0: MetricsRegistry,
    m1: MetricsRegistry,
    name: Seq<char>,
    kind: MetricKind,
    idx: usize,
)
    requires
        m0.wf(),
        registered(m0, m1, name, kind, Ok(idx)),
    ensures
        has_name(m1.names@, name),
        idx == name_index(m1.names@, name),
        (idx as int) < m1.names@.len(),
        m1.kinds@[idx as int] == kind,
{
    if has_name(m0.names@, name) {
        lemma_name_index(m0.names@, name);
    } else {
        assert(m1.names@[m0.names@.len() as int]@ == name);
        assert(has_name(m1.names@, name));
        lemma_name_index(m1.names@, name);
        let k = name_index(m1.names@, name);
        if k < m0.names@.len() {
            assert(m1.names@[k] == m0.names@[k]);
            assert(false);
        }
    }
}

/// What a batch of three registrations under pairwise distinct names leaves
/// behind: every pre-existing metric is untouched, every appended entry is
/// one of the three names with its kind and a zeroed value, and each of the
/// three positions `i1`, `i2`, `i3` denotes exactly the metric registered
/// under its name — so a later lookup by that name is a pure lookup
/// answering the same metric.
pub open spec fn three_registered(
    m0: MetricsRegistry,
    m1: MetricsRegistry,
    n1: Seq<char>,
    k1: MetricKind,
    i1: usize,
    n2: Seq<char>,
    k2: MetricKind,
    i2: usize,
    n3: Seq<char>,
    k3: MetricKind,
    i3: usize,
) -> bool {
    let len0 = m0.names@.len();
    &&& m0.names@.is_prefix_of(m1.names@)
    &&& m0.kinds@.is_prefix_of(m1.kinds@)
    &&& m0.counts@.is_prefix_of(m1.counts@)
    &&& m0.levels@.is_prefix_of(m1.levels@)
    &&& m0.samples@.len() <= m1.samples@.len()
    &&& (forall|j: int| 0 <= j < m0.samples@.len() ==> m1.samples@[j] == m0.samples@[j])
    &&& (forall|j: int|
        len0 <= j < m1.names@.len() ==> {
            &&& ((m1.names@[j]@ == n1 && m1.kinds@[j] == k1) || (m1.names@[j]@ == n2
                && m1.kinds@[j] == k2) || (m1.names@[j]@ == n3 && m1.kinds@[j] == k3))
            &&& m1.counts@[j] == 0
            &&& m1.levels@[j] == 0
            &&& m1.samples@[j]@ =~= Seq::<u64>::empty()
        })
    &&& has_name(m1.names@, n1) && i1 == name_index(m1.names@, n1) && m1.kinds@[i1 as int] == k1
    &&& has_name(m1.names@, n2) && i2 == name_index(m1.names@, n2) && m1.kinds@[i2 as int] == k2
    &&& has_name(m1.names@, n3) && i3 == name_index(m1.names@, n3) && m1.kinds@[i3 as int] == k3
}

/// Three successful registrations under pairwise distinct names add up to
/// `three_registered`: the batch's whole effect on the registry.
pub proof fn lemma_three_registrations(
    m0: MetricsRegistry,
    m1: MetricsRegistry,
    m2: MetricsRegistry,
    m3: MetricsRegistry,
    n1: Seq<char>,
    k1: MetricKind,
    i1: usize,
    n2: Seq<char>,
    k2: MetricKind,
    i2: usize,
    n3: Seq<char>,
    k3: MetricKind,
    i3: usize,
)
    requires
        m0.wf(),
        m1.wf(),
        m2.wf(),
        registered(m0, m1, n1, k1, Ok(i1)),
        registered(m1, m2, n2, k2, Ok(i2)),
        registered(m2, m3, n3, k3, Ok(i3)),
        n1 != n2,
        n1 != n3,
        n2 != n3,
    ensures
        three_registered(m0, m3, n1, k1, i1, n2, k2, i2, n3, k3, i3),
{
    let len0 = m0.names@.len();
    let len1 = m1.names@.len();
    let len2 = m2.names@.len();
    let len3 = m3.names@.len();
    lemma_registered_binds(m0, m1, n1, k1, i1);
    lemma_registered_binds(m1, m2, n2, k2, i2);
    lemma_registered_binds(m2, m3, n3, k3, i3);
    lemma_name_index_extend(m1.names@, m2.names@, n1);
    lemma_name_index_extend(m2.names@, m3.names@, n1);
    lemma_name_index_extend(m2.names@, m3.names@, n2);
    assert(m0.names@.is_prefix_of(m3.names@)) by {
        assert(m0.names@ =~= m3.names@.subrange(0, len0 as int));
    }
    assert(m0.kinds@.is_prefix_of(m3.kinds@)) by {
        assert(m0.kinds@ =~= m3.kinds@.subrange(0, len0 as int));
    }
    assert(m0.counts@.is_prefix_of(m3.counts@)) by {
        assert(m0.counts@ =~= m3.counts@.subrange(0, len0 as int));
    }
    assert(m0.levels@.is_prefix_of(m3.levels@)) by {
        assert(m0.levels@ =~= m3.levels@.subrange(0, len0 as int));
    }
    // the kind at each bound position survives the later registrations
    assert(m2.kinds@[i1 as int] == m1.kinds@[i1 as int]);
    assert(m3.kinds@[i1 as int] == m2.kinds@[i1 as int]);
    assert(m3.kinds@[i2 as int] == m2.kinds@[i2 as int]);
    assert forall|j: int| len0 <= j < len3 implies {
        &&& ((m3.names@[j]@ == n1 && m3.kinds@[j] == k1) || (m3.names@[j]@ == n2 && m3.kinds@[j]
            == k2) || (m3.names@[j]@ == n3 && m3.kinds@[j] == k3))
        &&& m3.counts@[j] == 0
        &&& m3.levels@[j] == 0
        &&& m3.samples@[j]@ =~= Seq::<u64>::empty()
    } by {
        if j < len1 {
            assert(j == len0);
            assert(m1.names@[j]@ == n1 && m1.kinds@[j] == k1);
            assert(m3.names@[j] == m1.names@[j]);
        } else if j < len2 {
            assert(j == len1);
            assert(m2.names@[j]@ == n2 && m2.kinds@[j] == k2);
            assert(m3.names@[j] == m2.names@[j]);
        } else {
            assert(j == len2);
        }
    }
}

/// Process-scoped registry of named counters, gauges and histograms, kept as
/// one table: position `i` holds the name and kind of the `i`-th registered
/// metric together with its value — `counts[i]` for a counter, `levels[i]`
/// for a gauge, `samples[i]` for a histogram. Lookup-or-create is keyed by
/// the dotted name; each name is registered exactly once. Reporting values
/// to a host-level sink is the embedder's business, outside this core.
pub struct MetricsRegistry {
    pub names: Vec<String>,
    pub kinds: Vec<MetricKind>,
    pub counts: Vec<u64>,
    pub levels: Vec<i64>,
    pub samples: Vec<Vec<u64>>,
}

/// One counter stepped up by one (sticking at the top of the range), all
/// other metrics untouched.
pub open spec fn counter_bumped(m0: MetricsRegistry, m1: MetricsRegistry, id: CounterId) -> bool {
    &&& m1.counts@ =~= m0.counts@.update(
        id.index as int,
        sat_add(m0.counts@[id.index as int], 1),
    )
    &&& m1.names@ == m0.names@
    &&& m1.kinds@ == m0.kinds@
    &&& m1.levels@ == m0.levels@
    &&& m1.samples@ == m0.samples@
}

/// One gauge moved one step up, all other metrics untouched.
pub open spec fn gauge_bumped(m0: MetricsRegistry, m1: MetricsRegistry, id: GaugeId) -> bool {
    &&& m1.levels@ =~= m0.levels@.update(
        id.index as int,
        sat_inc_i64(m0.levels@[id.index as int]),
    )
    &&& m1.names@ == m0.names@
    &&& m1.kinds@ == m0.kinds@
    &&& m1.counts@ == m0.counts@
    &&& m1.samples@ == m0.samples@
}

/// One gauge moved one step down, all other metrics untouched.
pub open spec fn gauge_dropped(m0: MetricsRegistry, m1: MetricsRegistry, id: GaugeId) -> bool {
    &&& m1.levels@ =~= m0.levels@.update(
        id.index as int,
        sat_dec_i64(m0.levels@[id.index as int]),
    )
    &&& m1.names@ == m0.names@
    &&& m1.kinds@ == m0.kinds@
    &&& m1.counts@ == m0.counts@
    &&& m1.samples@ == m0.samples@
}

/// One observation appended to one histogram, all other metrics untouched.
pub open spec fn histogram_recorded(
    m0: MetricsRegistry,
    m1: MetricsRegistry,
    id: HistogramId,
    value: u64,
) -> bool {
    &&& m1.samples@.len() == m0.samples@.len()
    &&& m1.samples@[id.index as int]@ =~= m0.samples@[id.index as int]@.push(value)
    &&& (forall|j: int|
        0 <= j < m0.samples@.len() && j != id.index ==> m1.samples@[j] == m0.samples@[j])
    &&& m1.names@ == m0.names@
    &&& m1.kinds@ == m0.kinds@
    &&& m1.counts@ == m0.counts@
    &&& m1.levels@ == m0.levels@
}

/// The registry is unchanged between `m0` and `m1`.
pub open spec fn metrics_unchanged(m0: MetricsRegistry, m1: MetricsRegistry) -> bool {
    &&& m1.names@ == m0.names@
    &&& m1.kinds@ == m0.kinds@
    &&& m1.counts@ == m0.counts@
    &&& m1.levels@ == m0.levels@
    &&& m1.samples@ == m0.samples@
}

/// What one lookup-or-create call does: an existing name answers with its
/// position if the kind matches and `MetricKindMismatch` otherwise, changing
/// nothing either way; a new name is appended with a zeroed value.
pub open spec fn registered(
    m0: MetricsRegistry,
    m1: MetricsRegistry,
    name: Seq<char>,
    kind: MetricKind,
    r: Result<usize, CoreError>,
) -> bool {
    let ns = m0.names@;
    if has_name(ns, name) {
        let i = name_index(ns, name);
        if m0.kinds@[i] == kind {
            &&& r matches Ok(idx) && idx == i
            &&& metrics_unchanged(m0, m1)
        } else {
            &&& r == Err::<usize, CoreError>(CoreError::MetricKindMismatch)
            &&& metrics_unchanged(m0, m1)
        }
    } else {
        &&& r matches Ok(idx) && idx == ns.len()
        &&& m1.names@.len() == ns.len() + 1
        &&& (forall|j: int| 0 <= j < ns.len() ==> m1.names@[j] == ns[j])
        &&& m1.names@[ns.len() as int]@ == name
        &&& m1.kinds@ =~= m0.kinds@.push(kind)
        &&& m1.counts@ =~= m0.counts@.push(0)
        &&& m1.levels@ =~= m0.levels@.push(0)
        &&& m1.samples@.len() == ns.len() + 1
        &&& (forall|j: int| 0 <= j < ns.len() ==> m1.samples@[j] == m0.samples@[j])
        &&& m1.samples@[ns.len() as int]@ =~= Seq::<u64>::empty()
    }
}

impl MetricsRegistry {
    /// The five columns describe the same metrics, and no name is registered
    /// twice.
    pub open spec fn wf(&self) -> bool {
        &&& self.kinds@.len() == self.names@.len()
        &&& self.counts@.len() == self.names@.len()
        &&& self.levels@.len() == self.names@.len()
        &&& self.samples@.len() == self.names@.len()
        &&& forall|i: int, j: int|
            0 <= i < j < self.names@.len() ==> self.names@[i]@ != self.names@[j]@
    }

    /// `id` is a counter handle this registry issued.
    pub open spec fn counter_wf(&self, id: CounterId) -> bool {
        id.index < self.names@.len() && self.kinds@[id.index as int] == MetricKind::Counter
    }

    /// `id` is a gauge handle this registry issued.
    pub open spec fn gauge_wf(&self, id: GaugeId) -> bool {
        id.index < self.names@.len() && self.kinds@[id.index as int] == MetricKind::Gauge
    }

    /// `id` is a histogram handle this registry issued.
    pub open spec fn histogram_wf(&self, id: HistogramId) -> bool {
        id.index < self.names@.len() && self.kinds@[id.index as int] == MetricKind::Histogram
    }

    /// Creates a registry with no metrics.
    pub fn new() -> (r: MetricsRegistry)
        ensures
            r.wf(),
            r.names@ =~= Seq::<String>::empty(),
    {
        MetricsRegistry {
            names: Vec::new(),
            kinds: Vec::new(),
            counts: Vec::new(),
            levels: Vec::new(),
            samples: Vec::new(),
        }
    }

    /// The position registered under `name`, if any.
    fn find(&self, name: &String) -> (r: Option<usize>)
        ensures
            r matches Some(i) ==> i == name_index(self.names@, name@) && i < self.names@.len()
                && self.names@[i as int]@ == name@,
            r is None <==> !has_name(self.names@, name@),
    {
        let n = self.names.len();
        let mut i: usize = 0;
        while i < n
            invariant
                n == self.names@.len(),
                i <= n,
                forall|j: int| 0 <= j < i ==> self.names@[j]@ != name@,
            decreases n - i,
        {
            if self.names[i] == *name {
                proof {
                    lemma_name_index(self.names@, name@);
                }
                return Some(i);
            }
            i = i + 1;
        }
        None
    }

    /// The kind registered under `name`, if any: a pure lookup that changes
    /// nothing.
    pub fn lookup_kind(&self, name: &str) -> (r: Option<MetricKind>)
        requires
            self.wf(),
        ensures
            r is Some <==> has_name(self.names@, name@),
            r matches Some(k) ==> k == self.kinds@[name_index(self.names@, name@)],
    {
        let owned = name.to_owned();
        match self.find(&owned) {
            Some(i) => Some(self.kinds[i]),
            None => None,
        }
    }

    /// Lookup-or-create under `name` with the wanted kind: the real work
    /// behind `counter`, `gauge` and `histogram`.
    fn register(&mut self, name: &str, kind: MetricKind) -> (r: Result<usize, CoreError>)
        requires
            old(self).wf(),
        ensures
            final(self).wf(),
            registered(*old(self), *final(self), name@, kind, r),
    {
        let owned = name.to_owned();
        match self.find(&owned) {
            Some(i) => {
                let found = self.kinds[i];
                if found == kind {
                    Ok(i)
                } else {
                    Err(CoreError::MetricKindMismatch)
                }
            },
            None => {
                let i = self.names.len();
                self.names.push(owned);
                self.kinds.push(kind);
                self.counts.push(0);
                self.levels.push(0);
                self.samples.push(Vec::new());
                proof {
                    assert forall|a: int, b: int|
                        0 <= a < b < self.names@.len() implies self.names@[a]@
                        != self.names@[b]@ by {
                        if b < old(self).names@.len() {
                            assert(old(self).wf());
                        }
                    }
                }
                Ok(i)
            },
        }
    }

    /// Idempotent lookup-or-create of a counter keyed by its dotted name.
    /// Fails with `MetricKindMismatch`, changing nothing, if `name` was
    /// previously registered as a different kind.
    pub fn counter(&mut self, name: &str) -> (r: Result<CounterId, CoreError>)
        requires
            old(self).wf(),
        ensures
            final(self).wf(),
            registered(
                *old(self),
                *final(self),
                name@,
                MetricKind::Counter,
                (match r {
                    Ok(id) => Ok(id.index),
                    Err(e) => Err(e),
                }),
            ),
            r matches Ok(id) ==> final(self).counter_wf(id),
    {
        let r0 = self.register(name, MetricKind::Counter);
        proof {
            if has_name(old(self).names@, name@) {
                lemma_name_index(old(self).names@, name@);
            }
        }
        match r0 {
            Ok(i) => Ok(CounterId { index: i }),
            Err(e) => Err(e),
        }
    }

    /// Idempotent lookup-or-create of a gauge; same name rules as `counter`.
    pub fn gauge(&mut self, name: &str) -> (r: Result<GaugeId, CoreError>)
        requires
            old(self).wf(),
        ensures
            final(self).wf(),
            registered(
                *old(self),
                *final(self),
                name@,
                MetricKind::Gauge,
                (match r {
                    Ok(id) => Ok(id.index),
                    Err(e) => Err(e),
                }),
            ),
            r matches Ok(id) ==> final(self).gauge_wf(id),
    {
        let r0 = self.register(name, MetricKind::Gauge);
        proof {
            if has_name(old(self).names@, name@) {
                lemma_name_index(old(self).names@, name@);
            }
        }
        match r0 {
            Ok(i) => Ok(GaugeId { index: i }),
            Err(e) => Err(e),
        }
    }

    /// Idempotent lookup-or-create of a histogram; same name rules as
    /// `counter`.
    pub fn histogram(&mut self, name: &str) -> (r: Result<HistogramId, CoreError>)
        requires
            old(self).wf(),
        ensures
            final(self).wf(),
            registered(
                *old(self),
                *final(self),
                name@,
                MetricKind::Histogram,
                (match r {
                    Ok(id) => Ok(id.index),
                    Err(e) => Err(e),
                }),
            ),
            r matches Ok(id) ==> final(self).histogram_wf(id),
    {
        let r0 = self.register(name, MetricKind::Histogram);
        proof {
            if has_name(old(self).names@, name@) {
                lemma_name_index(old(self).names@, name@);
            }
        }
        match r0 {
            Ok(i) => Ok(HistogramId { index: i }),
            Err(e) => Err(e),
        }
    }

    /// Monotonic increment of a counter, sticking at the top of the range.
    pub fn inc_counter(&mut self, id: CounterId)
        requires
            old(self).wf(),
            old(self).counter_wf(id),
        ensures
            final(self).wf(),
            final(self).counter_wf(id),
            counter_bumped(*old(self), *final(self), id),
    {
        let v = self.counts[id.index];
        let nv = if v < u64::MAX {
            v + 1
        } else {
            v
        };
        self.counts[id.index] = nv;
    }

    /// The current value of a counter.
    pub fn counter_value(&self, id: CounterId) -> (v: u64)
        requires
            self.wf(),
            self.counter_wf(id),
        ensures
            v == self.counts@[id.index as int],
    {
        self.counts[id.index]
    }

    /// Moves a gauge one step up, sticking at the top of the range.
    pub fn inc_gauge(&mut self, id: GaugeId)
        requires
            old(self).wf(),
            old(self).gauge_wf(id),
        ensures
            final(self).wf(),
            final(self).gauge_wf(id),
            gauge_bumped(*old(self), *final(self), id),
    {
        let v = self.levels[id.index];
        let nv = if v < i64::MAX {
            v + 1
        } else {
            v
        };
        self.levels[id.index] = nv;
    }

    /// Moves a gauge one step down, sticking at the bottom of the range.
    pub fn dec_gauge(&mut self, id: GaugeId)
        requires
            old(self).wf(),
            old(self).gauge_wf(id),
        ensures
            final(self).wf(),
            final(self).gauge_wf(id),
            gauge_dropped(*old(self), *final(self), id),
    {
        let v = self.levels[id.index];
        let nv = if v > i64::MIN {
            v - 1
        } else {
            v
        };
        self.levels[id.index] = nv;
    }

    /// The current level of a gauge.
    pub fn gauge_value(&self, id: GaugeId) -> (v: i64)
        requires
            self.wf(),
            self.gauge_wf(id),
        ensures
            v == self.levels@[id.index as int],
    {
        self.levels[id.index]
    }

    /// Appends one observation to a histogram.
    pub fn record_histogram(&mut self, id: HistogramId, value: u64)
        requires
            old(self).wf(),
            old(self).histogram_wf(id),
        ensures
            final(self).wf(),
            final(self).histogram_wf(id),
            histogram_recorded(*old(self), *final(self), id, value),
    {
        self.samples[id.index].push(value);
    }

    /// How many observations a histogram has recorded.
    pub fn histogram_count(&self, id: HistogramId) -> (n: usize)
        requires
            self.wf(),
            self.histogram_wf(id),
        ensures
            n == self.samples@[id.index as int]@.len(),
    {
        self.samples[id.index].len()
    }

    /// The `i`-th observation a histogram has recorded.
    pub fn histogram_sample(&self, id: HistogramId, i: usize) -> (v: u64)
        requires
            self.wf(),
            self.histogram_wf(id),
            i < self.samples@[id.index as int]@.len(),
        ensures
            v == self.samples@[id.index as int]@[i as int],
    {
        self.samples[id.index][i]
    }
}

} // verus!
