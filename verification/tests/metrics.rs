use tailnet_runtime::metrics::{is_valid_name, write_prometheus, Metric, MetricType, Registry};

#[test]
fn counter_add_and_export() {
    let mut registry = Registry::new();
    let c = Metric::new_counter(&mut registry, "ts_metrics_test_counter_a");
    assert_eq!(c.value(), 0);
    c.add(3);
    c.inc();
    assert_eq!(c.value(), 4);

    let out = write_prometheus(&registry);
    assert!(out.contains("# TYPE ts_metrics_test_counter_a counter\n"));
    assert!(out.contains("ts_metrics_test_counter_a 4\n"));
}

#[test]
fn gauge_set_and_negative() {
    let mut registry = Registry::new();
    let g = Metric::new_gauge(&mut registry, "ts_metrics_test_gauge_b");
    g.set(10);
    assert_eq!(g.value(), 10);
    g.add(-4);
    assert_eq!(g.value(), 6);

    let out = write_prometheus(&registry);
    assert!(out.contains("# TYPE ts_metrics_test_gauge_b gauge\n"));
    assert!(out.contains("ts_metrics_test_gauge_b 6\n"));
}

#[test]
fn export_is_name_sorted() {
    // Register out of alphabetical order; export must be sorted.
    let mut registry = Registry::new();
    let _z = Metric::new_counter(&mut registry, "ts_metrics_test_zzz");
    let _a = Metric::new_counter(&mut registry, "ts_metrics_test_aaa");
    let out = write_prometheus(&registry);
    let zpos = out.find("ts_metrics_test_zzz 0").unwrap();
    let apos = out.find("ts_metrics_test_aaa 0").unwrap();
    assert!(apos < zpos, "aaa must sort before zzz in the export");
}

#[test]
fn name_validation() {
    assert!(is_valid_name("magicsock_send_udp"));
    assert!(is_valid_name("a1_B2"));
    assert!(!is_valid_name(""));
    assert!(!is_valid_name("has space"));
    assert!(!is_valid_name("has-dash"));
    assert!(!is_valid_name("has/slash"));
    assert!(!is_valid_name("dot.name"));
}

#[test]
fn names_that_cannot_be_registered_are_told() {
    assert!(!is_valid_name("bad name with spaces"));
}

#[test]
fn names_outside_ascii_are_illegal() {
    assert!(!is_valid_name("gr\u{f6}sse"));
    assert!(!is_valid_name("caf\u{e9}"));
    assert!(!is_valid_name("a\u{ff10}"));
    assert!(is_valid_name("_"));
    assert!(is_valid_name("Z"));
    assert!(is_valid_name("0"));
}

#[test]
fn export_renders_every_metric_in_name_order() {
    let mut registry = Registry::new();
    Metric::new_gauge(&mut registry, "peers").set(-12);
    Metric::new_counter(&mut registry, "Zulu").add(1000);
    Metric::new_counter(&mut registry, "pee");
    assert_eq!(
        write_prometheus(&registry),
        "# TYPE Zulu counter\nZulu 1000\n\
         # TYPE pee counter\npee 0\n\
         # TYPE peers gauge\npeers -12\n"
    );
}

#[test]
fn export_does_not_depend_on_registration_order() {
    let mut one = Registry::new();
    Metric::new_counter(&mut one, "b").add(2);
    Metric::new_gauge(&mut one, "a").set(1);
    let mut two = Registry::new();
    Metric::new_gauge(&mut two, "a").set(1);
    Metric::new_counter(&mut two, "b").add(2);
    assert_eq!(write_prometheus(&one), write_prometheus(&two));
}

#[test]
fn empty_registry_exports_nothing() {
    assert_eq!(write_prometheus(&Registry::new()), "");
}

#[test]
fn a_duplicate_name_hands_back_the_first_metric() {
    let mut registry = Registry::new();
    Metric::new_counter(&mut registry, "dup").add(5);
    let again = Metric::new_gauge(&mut registry, "dup");
    assert_eq!(again.value(), 5);
    assert_eq!(again.metric_type(), MetricType::Counter);
    assert_eq!(again.name(), "dup");
    again.inc();
    assert_eq!(write_prometheus(&registry), "# TYPE dup counter\ndup 6\n");
}

#[test]
fn values_wrap_around_like_i64() {
    let mut registry = Registry::new();
    let g = Metric::new_gauge(&mut registry, "edge");
    g.set(i64::MAX);
    g.inc();
    assert_eq!(g.value(), i64::MIN);
    g.add(-1);
    assert_eq!(g.value(), i64::MAX);
    g.set(i64::MIN);
    assert_eq!(
        write_prometheus(&registry),
        "# TYPE edge gauge\nedge -9223372036854775808\n"
    );
}

#[test]
fn additions_accumulate() {
    let mut registry = Registry::new();
    let g = Metric::new_gauge(&mut registry, "sum");
    g.set(-7);
    g.add(3);
    g.add(-40);
    assert_eq!(g.value(), -44);
    assert_eq!(MetricType::Gauge.prometheus_token(), "gauge");
    assert_eq!(MetricType::Counter.prometheus_token(), "counter");
}

#[test]
fn registered_names_are_known() {
    let mut registry = Registry::new();
    assert!(!registry.is_registered("ts_metrics_test_known"));
    let _ = Metric::new_counter(&mut registry, "ts_metrics_test_known");
    assert!(registry.is_registered("ts_metrics_test_known"));
    assert!(!registry.is_registered("ts_metrics_test_know"));
    assert!(!registry.is_registered("ts_metrics_test_known_"));
}
