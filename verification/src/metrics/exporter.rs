use vstd::prelude::*;

use super::collector::{Metric, MetricType};
use super::registry::{entry_text, MetricsRegistry};
use super::Collector;

verus! {

/// The exported rows of registry entries `s`: for each collector in order,
/// each of its metrics in order, with the collector's name.
pub open spec fn rows_of(s: Seq<(Seq<char>, Collector)>) -> Seq<(Seq<char>, Metric)>
    decreases s.len(),
{
    if s.len() == 0 {
        Seq::empty()
    } else {
        rows_of(s.drop_last()) + s.last().1@.map_values(|m: Metric| (s.last().0, m))
    }
}

/// The number of metrics recorded in all the collectors of `s`.
pub open spec fn metric_total(s: Seq<(Seq<char>, Collector)>) -> nat
    decreases s.len(),
{
    if s.len() == 0 {
        0
    } else {
        metric_total(s.drop_last()) + s.last().1@.len()
    }
}

/// The collectors before position `k` hold no more metrics than all of them.
proof fn lemma_prefix_total_within(s: Seq<(Seq<char>, Collector)>, k: int)
    requires
        0 <= k <= s.len(),
    ensures
        metric_total(s.take(k)) <= metric_total(s),
    decreases s.len(),
{
    if k < s.len() {
        let p = s.drop_last();
        assert(s.take(k) =~= p.take(k));
        lemma_prefix_total_within(p, k);
    } else {
        assert(s.take(k) =~= s);
    }
}

/// The collectors before position `i + 1` hold those before `i` plus the
/// metrics of collector `i`.
proof fn lemma_prefix_total_step(s: Seq<(Seq<char>, Collector)>, i: int)
    requires
        0 <= i < s.len(),
    ensures
        metric_total(s.take(i + 1)) == metric_total(s.take(i)) + s[i].1@.len(),
{
    assert(s.take(i + 1).drop_last() =~= s.take(i));
}

/// Every recorded metric is exported, whatever its value: there are as many
/// rows as metrics in all collectors, and the metric at position `j` of
/// collector `i` is the row that follows the rows of the collectors before
/// `i` by `j`, paired with that collector's name.
pub proof fn law_export_rows_complete(s: Seq<(Seq<char>, Collector)>)
    ensures
        rows_of(s).len() == metric_total(s),
        forall|i: int, j: int|
            0 <= i < s.len() && 0 <= j < s[i].1@.len() ==> rows_of(s)[metric_total(s.take(i)) + j]
                == (s[i].0, #[trigger] s[i].1@[j]),
    decreases s.len(),
{
    if s.len() > 0 {
        let n = s.len() - 1;
        let p = s.drop_last();
        law_export_rows_complete(p);
        let last = s.last().1@.map_values(|m: Metric| (s.last().0, m));
        assert(rows_of(s) == rows_of(p) + last);
        assert forall|i: int, j: int|
            0 <= i < s.len() && 0 <= j < s[i].1@.len() implies rows_of(s)[metric_total(s.take(i)) + j]
                == (s[i].0, #[trigger] s[i].1@[j]) by {
            if i < n {
                assert(s.take(i) =~= p.take(i));
                assert(s[i] == p[i]);
                lemma_prefix_total_step(p, i);
                lemma_prefix_total_within(p, i + 1);
                assert(p[i].1@[j] == s[i].1@[j]);
            } else {
                assert(s.take(i) =~= p);
            }
        }
    }
}

/// A row as text: the collector's name and the metric.
pub open spec fn row_text(r: (&String, &Metric)) -> (Seq<char>, Metric) {
    (r.0@, *r.1)
}

/// The name under which a metric type is exported.
pub open spec fn type_label(t: MetricType) -> Seq<char> {
    match t {
        MetricType::Counter => "Counter"@,
        MetricType::Gauge => "Gauge"@,
        MetricType::Histogram => "Histogram"@,
    }
}

/// The name under which a metric type is exported: the name of its variant.
pub fn metric_type_label(t: MetricType) -> (s: &'static str)
    ensures
        s@ == type_label(t),
{
    match t {
        MetricType::Counter => "Counter",
        MetricType::Gauge => "Gauge",
        MetricType::Histogram => "Histogram",
    }
}

/// Metrics exporter over a registry.
pub struct MetricsExporter {
    registry: MetricsRegistry,
}

impl MetricsExporter {
    /// The exporter's registry.
    pub closed spec fn spec_registry(&self) -> MetricsRegistry {
        self.registry
    }

    /// An exporter over `registry`.
    pub fn new(registry: MetricsRegistry) -> (e: Self)
        ensures
            e.spec_registry() == registry,
    {
        MetricsExporter { registry }
    }

    /// The exporter's registry.
    pub fn registry(&self) -> (r: &MetricsRegistry)
        ensures
            *r == self.spec_registry(),
    {
        &self.registry
    }

    /// The rows to export: every metric of every collector, collectors in
    /// registry order and metrics in the order they were recorded, each with
    /// its collector's name.
    pub fn export_rows(&self) -> (rows: Vec<(&String, &Metric)>)
        ensures
            rows@.map_values(|r: (&String, &Metric)| row_text(r)) == rows_of(
                self.spec_registry().entries(),
            ),
            rows@.len() == metric_total(self.spec_registry().entries()),
            forall|i: int, j: int|
                0 <= i < self.spec_registry().entries().len() && 0 <= j
                    < self.spec_registry().entries()[i].1@.len() ==> row_text(
                    rows@[metric_total(self.spec_registry().entries().take(i)) + j],
                ) == (
                    self.spec_registry().entries()[i].0,
                    #[trigger] self.spec_registry().entries()[i].1@[j],
                ),
    {
        let cs = self.registry.collectors();
        let ghost s = self.registry.entries();
        let mut rows: Vec<(&String, &Metric)> = Vec::new();
        let mut i: usize = 0;
        assert(s.take(0) =~= Seq::<(Seq<char>, Collector)>::empty());
        assert(rows@.map_values(|r: (&String, &Metric)| row_text(r)) =~= rows_of(s.take(0)));
        while i < cs.len()
            invariant
                i <= cs@.len(),
                cs@.map_values(|e: (String, Collector)| entry_text(e)) == s,
                rows@.map_values(|r: (&String, &Metric)| row_text(r)) == rows_of(s.take(i as int)),
            decreases cs@.len() - i,
        {
            let name = &cs[i].0;
            let ms = cs[i].1.metrics();
            let ghost before = rows@.map_values(|r: (&String, &Metric)| row_text(r));
            let mut j: usize = 0;
            assert(before + ms@.take(0).map_values(|m: Metric| (name@, m)) =~= before);
            while j < ms.len()
                invariant
                    j <= ms@.len(),
                    rows@.map_values(|r: (&String, &Metric)| row_text(r)) == before + ms@.take(
                        j as int,
                    ).map_values(|m: Metric| (name@, m)),
                decreases ms@.len() - j,
            {
                let ghost old_rows = rows@;
                rows.push((name, &ms[j]));
                let ghost added = (name@, ms@[j as int]);
                assert(rows@.map_values(|r: (&String, &Metric)| row_text(r)) =~= old_rows.map_values(
                    |r: (&String, &Metric)| row_text(r),
                ).push(added));
                assert(ms@.take(j + 1).map_values(|m: Metric| (name@, m)) =~= ms@.take(
                    j as int,
                ).map_values(|m: Metric| (name@, m)).push(added));
                assert(rows@.map_values(|r: (&String, &Metric)| row_text(r)) =~= before + ms@.take(
                    j + 1,
                ).map_values(|m: Metric| (name@, m)));
                j += 1;
            }
            assert(ms@.take(ms@.len() as int) =~= ms@);
            assert(s.take(i + 1).drop_last() =~= s.take(i as int));
            assert(s.take(i + 1).last() == s[i as int]);
            assert(s[i as int] == (name@, cs@[i as int].1));
            i += 1;
        }
        assert(s.take(cs@.len() as int) =~= s);
        proof {
            law_export_rows_complete(s);
            assert forall|i: int, j: int|
                0 <= i < s.len() && 0 <= j < s[i].1@.len() implies row_text(
                rows@[metric_total(s.take(i)) + j],
            ) == (s[i].0, #[trigger] s[i].1@[j]) by {
                let k = metric_total(s.take(i)) + j;
                lemma_prefix_total_step(s, i);
                lemma_prefix_total_within(s, i + 1);
                assert(row_text(rows@[k]) == rows@.map_values(
                    |r: (&String, &Metric)| row_text(r),
                )[k]);
            }
        }
        rows
    }
}

} // verus!
