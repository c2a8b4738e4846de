use prometheus_exporter_base::MetricType;

#[test]
fn test_as_ref() {
    assert_eq!("gauge", MetricType::Gauge.as_ref());
    assert_eq!("counter", MetricType::Counter.as_ref());
    assert_eq!("gauge", MetricType::Gauge.as_ref());
    assert_eq!("histogram", MetricType::Histogram.as_ref());
}

#[test]
fn test_display() {
    assert_eq!("gauge", MetricType::Gauge.to_text());
}

#[test]
fn test_try_from_ok() {
    assert_eq!(
        MetricType::Histogram,
        MetricType::try_from("histogram").unwrap()
    );
}

#[test]
fn type_text_round_trips() {
    for s in ["counter", "gauge", "histogram", "summary"] {
        assert_eq!(MetricType::try_from(s).unwrap().to_text(), s);
    }
    assert_eq!(MetricType::Summary.as_ref(), "summary");
}

#[test]
fn unknown_type_keeps_text() {
    for s in ["Counter", "", "gauges", "untyped", " gauge"] {
        let e = MetricType::try_from(s).unwrap_err();
        assert_eq!(e.passed_name(), s);
    }
    let e = MetricType::try_from("timer").unwrap_err();
    assert_eq!(e.message(), "enum MetricType does not have the timer variant");
}
