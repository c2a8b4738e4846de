use prometheus_exporter_base::{
    MandatoryField, MetricType, PrometheusInstance, PrometheusMetric, PrometheusMetricBuilder,
    RenderToPrometheus,
};

#[test]
fn test_header() {
    let pc = PrometheusMetric::build()
        .with_name("pippo_total")
        .with_metric_type(MetricType::Counter)
        .with_help("Number of pippos")
        .build();

    assert_eq!(
        pc.render_header(),
        "# HELP pippo_total Number of pippos\n# TYPE pippo_total counter\n"
    );
}

#[test]
fn test_labels() {
    let mut pc = PrometheusMetric::build()
        .with_name("pippo_total")
        .with_metric_type(MetricType::Counter)
        .with_help("Number of pippos")
        .build();

    for number in 0..4 {
        pc.render_and_append_instance(
            &PrometheusInstance::new()
                .with_label("food", "chicken")
                .with_label("instance", &*number.to_string())
                .with_value(number),
        );
    }

    assert_eq!(
        pc.render(),
        "# HELP pippo_total Number of pippos\n\
    # TYPE pippo_total counter\n\
    pippo_total{food=\"chicken\",instance=\"0\"} 0\n\
    pippo_total{food=\"chicken\",instance=\"1\"} 1\n\
    pippo_total{food=\"chicken\",instance=\"2\"} 2\n\
    pippo_total{food=\"chicken\",instance=\"3\"} 3\n"
    );
}

#[test]
fn test_no_labels() {
    let final_string = PrometheusMetric::build()
        .with_name("gigino_total")
        .with_metric_type(MetricType::Counter)
        .with_help("Number of giginos")
        .build()
        .render_and_append_instance(&PrometheusInstance::new().with_value(100))
        .render();

    assert_eq!(
        final_string,
        "# HELP gigino_total Number of giginos\n\
    # TYPE gigino_total counter\n\
    gigino_total 100\n"
    );

    let final_string = PrometheusMetric::build()
        .with_name("gigino_total")
        .with_metric_type(MetricType::Counter)
        .with_help("Number of giginos")
        .build()
        .render_and_append_instance(
            &PrometheusInstance::new()
                .with_value(100)
                .with_timestamp(9223372036854775807),
        )
        .render();

    assert_eq!(
        final_string,
        "# HELP gigino_total Number of giginos\n\
    # TYPE gigino_total counter\n\
    gigino_total 100 9223372036854775807\n"
    );
}

#[test]
fn header_of_each_type() {
    let m = PrometheusMetric::new("q", MetricType::Summary, "latency of q");
    assert_eq!(m.render_header(), "# HELP q latency of q\n# TYPE q summary\n");
    assert_eq!(m.render(), "# HELP q latency of q\n# TYPE q summary\n");
    let m = PrometheusMetric::new("h", MetricType::Histogram, "");
    assert_eq!(m.render_header(), "# HELP h \n# TYPE h histogram\n");
}

#[test]
fn render_twice_is_identical() {
    let mut m = PrometheusMetric::build()
        .with_name("x")
        .with_metric_type(MetricType::Gauge)
        .with_help("an x")
        .build();
    m.render_and_append_instance(&PrometheusInstance::new().with_label("a", "b").with_value(-3));
    let first = m.render();
    let second = m.render();
    assert_eq!(first, second);
    assert_eq!(first, "# HELP x an x\n# TYPE x gauge\nx{a=\"b\"} -3\n");
}

#[test]
fn labels_keep_insertion_order() {
    let s = PrometheusInstance::new()
        .with_label("zeta", "1")
        .with_label("alpha", "2")
        .with_label("zeta", "3")
        .with_value(7)
        .render();
    assert_eq!(s, "{zeta=\"1\",alpha=\"2\",zeta=\"3\"} 7");
}

#[test]
fn label_values_are_not_escaped() {
    let s = PrometheusInstance::new().with_label("k", "a\"b").with_value(1).render();
    assert_eq!(s, "{k=\"a\"b\"} 1");
}

#[test]
fn value_extremes_and_timestamps() {
    assert_eq!(PrometheusInstance::new().with_value(0).render(), " 0");
    assert_eq!(
        PrometheusInstance::new().with_value(i128::MIN).render(),
        " -170141183460469231731687303715884105728"
    );
    assert_eq!(
        PrometheusInstance::new().with_value(i128::MAX).render(),
        " 170141183460469231731687303715884105727"
    );
    assert_eq!(
        PrometheusInstance::new().with_timestamp(u128::MAX).with_value(10).render(),
        " 10 340282366920938463463374607431768211455"
    );
    assert_eq!(
        PrometheusInstance::new()
            .with_label("l", "v")
            .with_value(5)
            .with_timestamp(0)
            .render(),
        "{l=\"v\"} 5 0"
    );
}

#[test]
fn current_timestamp_is_set() {
    let s = PrometheusInstance::new()
        .with_value(1)
        .with_current_timestamp()
        .unwrap()
        .render();
    let parts: Vec<&str> = s.split(' ').collect();
    assert_eq!(parts.len(), 3);
    assert_eq!(parts[1], "1");
    assert!(parts[2].parse::<u128>().unwrap() > 1_500_000_000_000);
}

#[test]
fn builder_getters_and_any_order() {
    let b = PrometheusMetricBuilder::new()
        .with_help("h")
        .with_metric_type(MetricType::Gauge)
        .with_name("n");
    assert_eq!(b.name(), "n");
    assert_eq!(b.metric_type(), MetricType::Gauge);
    assert_eq!(b.help(), "h");
    assert_eq!(b.build().render_header(), "# HELP n h\n# TYPE n gauge\n");
}

#[test]
fn try_build_reports_all_missing() {
    let e = PrometheusMetric::build().with_help("h").try_build().unwrap_err();
    assert_eq!(e, vec![MandatoryField::Name, MandatoryField::MetricType]);
    let e = PrometheusMetric::build().try_build().unwrap_err();
    assert_eq!(
        e,
        vec![MandatoryField::Name, MandatoryField::MetricType, MandatoryField::Help]
    );
    let e = PrometheusMetric::build()
        .with_name("n")
        .with_metric_type(MetricType::Counter)
        .try_build()
        .unwrap_err();
    assert_eq!(e, vec![MandatoryField::Help]);
    let m = PrometheusMetric::build()
        .with_name("n")
        .with_metric_type(MetricType::Counter)
        .with_help("h")
        .try_build()
        .unwrap();
    assert_eq!(m.render(), "# HELP n h\n# TYPE n counter\n");
}

#[test]
fn default_sample_is_empty() {
    let s = PrometheusInstance::default().with_value(42).render();
    assert_eq!(s, " 42");
}
