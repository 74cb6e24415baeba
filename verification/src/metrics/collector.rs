use vstd::prelude::*;

verus! {

/// Type of metric.
#[derive(Debug, Clone, Copy, PartialEq, Eq, Structural)]
pub enum MetricType {
    /// Counter (monotonically increasing).
    Counter,
    /// Gauge (can go up or down).
    Gauge,
    /// Histogram.
    Histogram,
}

/// The text of a label: its key and its value.
pub open spec fn label_text(l: (String, String)) -> (Seq<char>, Seq<char>) {
    (l.0@, l.1@)
}

/// A metric: a name, a type, a value (the bit pattern of an `f64`) and
/// key/value labels.
#[derive(Debug, Clone)]
pub struct Metric {
    name: String,
    metric_type: MetricType,
    value: u64,
    labels: Vec<(String, String)>,
}

impl Metric {
    /// The metric's name.
    pub closed spec fn spec_name(&self) -> Seq<char> {
        self.name@
    }

    /// The metric's type.
    pub closed spec fn spec_type(&self) -> MetricType {
        self.metric_type
    }

    /// The bit pattern of the metric's value.
    pub closed spec fn spec_value(&self) -> u64 {
        self.value
    }

    /// The metric's labels, as text, in the order they were added.
    pub closed spec fn spec_labels(&self) -> Seq<(Seq<char>, Seq<char>)> {
        self.labels@.map_values(|l: (String, String)| label_text(l))
    }

    /// A metric with no labels.
    pub fn new(name: &str, metric_type: MetricType, value: u64) -> (m: Self)
        ensures
            m.spec_name() == name@,
            m.spec_type() == metric_type,
            m.spec_value() == value,
            m.spec_labels() == Seq::<(Seq<char>, Seq<char>)>::empty(),
    {
        let m = Metric { name: name.to_owned(), metric_type, value, labels: Vec::new() };
        assert(m.spec_labels() =~= Seq::<(Seq<char>, Seq<char>)>::empty());
        m
    }

    /// The same metric with one more label, after the others.
    pub fn with_label(self, key: &str, value: &str) -> (m: Self)
        ensures
            m.spec_name() == self.spec_name(),
            m.spec_type() == self.spec_type(),
            m.spec_value() == self.spec_value(),
            m.spec_labels() == self.spec_labels().push((key@, value@)),
    {
        let mut m = self;
        m.labels.push((key.to_owned(), value.to_owned()));
        assert(m.spec_labels() =~= self.spec_labels().push((key@, value@)));
        m
    }

    /// The metric's name.
    pub fn name(&self) -> (n: &str)
        ensures
            n@ == self.spec_name(),
    {
        self.name.as_str()
    }

    /// The metric's type.
    pub fn metric_type(&self) -> (t: MetricType)
        ensures
            t == self.spec_type(),
    {
        self.metric_type
    }

    /// The bit pattern of the metric's value.
    pub fn value(&self) -> (v: u64)
        ensures
            v == self.spec_value(),
    {
        self.value
    }

    /// The metric's labels, in the order they were added.
    pub fn labels(&self) -> (l: &[(String, String)])
        ensures
            l@.map_values(|p: (String, String)| label_text(p)) == self.spec_labels(),
    {
        self.labels.as_slice()
    }
}

/// Metrics collector: the metrics recorded, in order.
pub struct Collector {
    metrics: Vec<Metric>,
}

impl View for Collector {
    type V = Seq<Metric>;

    /// The metrics recorded, oldest first.
    closed spec fn view(&self) -> Seq<Metric> {
        self.metrics@
    }
}

impl Collector {
    /// A collector with no metrics.
    pub fn new() -> (c: Self)
        ensures
            c@ == Seq::<Metric>::empty(),
    {
        Collector { metrics: Vec::new() }
    }

    /// Record a metric after the others.
    pub fn record(&mut self, metric: Metric)
        ensures
            final(self)@ == old(self)@.push(metric),
    {
        self.metrics.push(metric);
    }

    /// The metrics recorded, oldest first.
    pub fn metrics(&self) -> (m: &[Metric])
        ensures
            m@ == self@,
    {
        self.metrics.as_slice()
    }

    /// Forget all metrics.
    pub fn clear(&mut self)
        ensures
            final(self)@ == Seq::<Metric>::empty(),
    {
        self.metrics.clear();
    }
}

impl Default for Collector {
    /// A collector with no metrics.
    fn default() -> (c: Self)
        ensures
            c@ == Seq::<Metric>::empty(),
    {
        Collector::new()
    }
}

} // verus!
