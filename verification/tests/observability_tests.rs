use agentropic_runtime::isolation::{IsolationConfig, ResourceLimits, ResourceMonitor, ResourceUsage};
use agentropic_runtime::metrics::exporter::metric_type_label;
use agentropic_runtime::metrics::{Collector, Metric, MetricType, MetricsExporter, MetricsRegistry};
use agentropic_runtime::tracing_agent::{Span, Tracer};
use agentropic_runtime::Executor;

#[test]
fn executor_names() {
    assert_eq!(Executor::new("pool").name(), "pool");
    assert_eq!(Executor::default().name(), "default");
}

#[test]
fn tracer_hands_out_spans_only_when_enabled() {
    let t = Tracer::default();
    assert!(t.is_enabled());
    let s = t.span("work").unwrap();
    assert_eq!(s.name(), "work");
    let first = s.elapsed();
    let second = s.elapsed();
    assert!(second >= first);
    let off = Tracer::new(false);
    assert!(!off.is_enabled());
    assert!(off.span("work").is_none());
    assert_eq!(Span::new("x").name(), "x");
}

#[test]
fn isolation_defaults_and_builders() {
    let c = IsolationConfig::new();
    assert!(c.enabled);
    assert_eq!(f64::from_bits(c.cpu_quota_bits), 100.0);
    assert_eq!(c.memory_limit, 1024 * 1024 * 1024);
    assert!(!c.network_isolation);
    let c = IsolationConfig::default().with_memory_limit(42).with_network_isolation(true);
    assert_eq!(c.memory_limit, 42);
    assert!(c.network_isolation);
    assert!(c.enabled);
}

#[test]
fn limit_defaults_and_builders() {
    let l = ResourceLimits::new();
    assert_eq!(f64::from_bits(l.max_cpu_bits), 100.0);
    assert_eq!(l.max_memory, 512 * 1024 * 1024);
    assert_eq!(l.max_file_descriptors, 1024);
    assert_eq!(l.max_threads, 10);
    let l = ResourceLimits::default()
        .with_max_memory(1)
        .with_max_file_descriptors(2)
        .with_max_threads(3);
    assert_eq!((l.max_memory, l.max_file_descriptors, l.max_threads), (1, 2, 3));
}

#[test]
fn monitor_keeps_last_usage() {
    let mut m = ResourceMonitor::new();
    assert_eq!(m.current_usage().memory_usage, 0);
    assert_eq!(m.current_usage().thread_count, 0);
    assert_eq!(f64::from_bits(ResourceUsage::default().cpu_usage_bits), 0.0);
    m.update(ResourceUsage { cpu_usage_bits: 12.5f64.to_bits(), memory_usage: 99, thread_count: 4 });
    assert_eq!(m.current_usage().memory_usage, 99);
    assert_eq!(f64::from_bits(m.current_usage().cpu_usage_bits), 12.5);
    let _ = m.uptime();
    let _ = ResourceMonitor::default();
}

#[test]
fn metric_and_collector() {
    let m = Metric::new("requests", MetricType::Counter, 3.0f64.to_bits())
        .with_label("route", "/a")
        .with_label("code", "200");
    assert_eq!(m.name(), "requests");
    assert_eq!(m.metric_type(), MetricType::Counter);
    assert_eq!(f64::from_bits(m.value()), 3.0);
    assert_eq!(
        m.labels(),
        &[("route".to_string(), "/a".to_string()), ("code".to_string(), "200".to_string())]
    );
    let mut c = Collector::new();
    c.record(m);
    c.record(Metric::new("load", MetricType::Gauge, 0.5f64.to_bits()));
    assert_eq!(c.metrics().len(), 2);
    assert_eq!(c.metrics()[1].name(), "load");
    c.clear();
    assert!(c.metrics().is_empty());
    assert!(Collector::default().metrics().is_empty());
}

#[test]
fn registry_register_get_and_replace() {
    let mut r = MetricsRegistry::new();
    assert!(r.get("a").is_none());
    let mut c = Collector::new();
    c.record(Metric::new("m1", MetricType::Gauge, 0));
    r.register("a", c);
    r.register("b", Collector::new());
    assert_eq!(r.get("a").unwrap().metrics().len(), 1);
    assert_eq!(r.get("b").unwrap().metrics().len(), 0);
    r.get_mut("b").unwrap().record(Metric::new("m2", MetricType::Histogram, 0));
    assert_eq!(r.get("b").unwrap().metrics()[0].name(), "m2");
    assert!(r.get_mut("zzz").is_none());
    r.register("a", Collector::new());
    assert_eq!(r.get("a").unwrap().metrics().len(), 0);
    let names: Vec<&str> = r.collectors().iter().map(|(n, _)| n.as_str()).collect();
    assert_eq!(names, vec!["a", "b"]);
    assert!(MetricsRegistry::default().collectors().is_empty());
}

#[test]
fn exporter_rows_in_registry_order() {
    let mut r = MetricsRegistry::new();
    let mut c1 = Collector::new();
    c1.record(Metric::new("x", MetricType::Counter, 1.0f64.to_bits()));
    c1.record(Metric::new("y", MetricType::Gauge, 2.0f64.to_bits()));
    let mut c2 = Collector::new();
    c2.record(Metric::new("z", MetricType::Histogram, 3.0f64.to_bits()));
    r.register("first", c1);
    r.register("empty", Collector::new());
    r.register("second", c2);
    let e = MetricsExporter::new(r);
    let rows: Vec<(String, String)> = e
        .export_rows()
        .iter()
        .map(|(c, m)| (c.to_string(), m.name().to_string()))
        .collect();
    assert_eq!(
        rows,
        vec![
            ("first".to_string(), "x".to_string()),
            ("first".to_string(), "y".to_string()),
            ("second".to_string(), "z".to_string()),
        ]
    );
    assert_eq!(e.registry().collectors().len(), 3);
}

#[test]
fn metric_type_labels() {
    assert_eq!(metric_type_label(MetricType::Counter), "Counter");
    assert_eq!(metric_type_label(MetricType::Gauge), "Gauge");
    assert_eq!(metric_type_label(MetricType::Histogram), "Histogram");
}
