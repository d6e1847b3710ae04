use pingmon::registry::Endpoint;
use pingmon::registry::ProbeOutcome;
use pingmon::registry::Registry;
use pingmon::text::fmt_fixed;
use pingmon::text::fmt_u64;

fn endpoint(name: &str, address: &str) -> Endpoint {
    Endpoint { name: name.to_string(), address: address.to_string(), location: None }
}

#[test]
fn counts_match_outcomes() {
    let mut r = Registry::new();
    let a = endpoint("A", "10.0.0.1");
    for _ in 0..3 {
        r.record_probe(&a, ProbeOutcome::Success { latency_nanos: 7_000_000 });
    }
    for _ in 0..2 {
        r.record_probe(&a, ProbeOutcome::Failure);
    }
    let name = "A".to_string();
    let addr = "10.0.0.1".to_string();
    assert_eq!(r.success_count(&name, &addr), 3);
    assert_eq!(r.fail_count(&name, &addr), 2);
    assert_eq!(r.latency_count(&name, &addr), 3);
}

#[test]
fn failed_probe_adds_no_observation() {
    let mut r = Registry::new();
    let a = endpoint("A", "10.0.0.1");
    r.record_probe(&a, ProbeOutcome::Success { latency_nanos: 5_000_000 });
    let name = "A".to_string();
    let addr = "10.0.0.1".to_string();
    assert_eq!(r.latency_count(&name, &addr), 1);
    r.record_probe(&a, ProbeOutcome::Failure);
    r.record_probe(&a, ProbeOutcome::Failure);
    assert_eq!(r.latency_count(&name, &addr), 1);
    assert!(r.latency_count(&name, &addr) <= r.success_count(&name, &addr));
}

#[test]
fn interleaved_increments_all_counted() {
    let mut r = Registry::new();
    let a = endpoint("A", "10.0.0.1");
    let b = endpoint("B", "10.0.0.2");
    for i in 0..10 {
        if i % 2 == 0 {
            r.record_probe(&a, ProbeOutcome::Success { latency_nanos: 1_000_000 });
        } else {
            r.record_probe(&b, ProbeOutcome::Success { latency_nanos: 2_000_000 });
        }
    }
    assert_eq!(r.success_count(&"A".to_string(), &"10.0.0.1".to_string()), 5);
    assert_eq!(r.success_count(&"B".to_string(), &"10.0.0.2".to_string()), 5);
}

#[test]
fn host_sampler_partial_failure_updates_the_rest() {
    let mut r = Registry::new();
    r.sample_host(Some(4000), Some(850), Some(16_000_000));
    assert_eq!(r.cpu_cores.get(), 4000);
    assert_eq!(r.load_average.get(), 850);
    assert_eq!(r.memory_total.get(), 16_000_000);
    r.sample_host(Some(8000), None, Some(32_000_000));
    assert_eq!(r.cpu_cores.get(), 8000);
    assert_eq!(r.load_average.get(), 850);
    assert_eq!(r.memory_total.get(), 32_000_000);
}

#[test]
fn gauge_is_overwritten_not_accumulated() {
    let mut r = Registry::new();
    r.sample_host(Some(2000), None, None);
    r.sample_host(Some(6000), None, None);
    assert_eq!(r.cpu_cores.get(), 6000);
}

#[test]
fn two_endpoint_scenario_renders_expected_series() {
    let mut r = Registry::new();
    let a = endpoint("A", "10.0.0.1");
    let b = endpoint("B", "10.0.0.2");
    r.record_probe(&a, ProbeOutcome::Success { latency_nanos: 10_000_000 });
    r.record_probe(&b, ProbeOutcome::Failure);
    let body = r.render();
    assert!(body.contains("ping_success{name=\"A\",address=\"10.0.0.1\"} 1"));
    assert!(body.contains("ping_fail{name=\"B\",address=\"10.0.0.2\"} 1"));
    assert!(body.contains("ping_latency_count{name=\"A\",address=\"10.0.0.1\"} 1"));
    assert!(body.contains("ping_latency_sum{name=\"A\",address=\"10.0.0.1\"} 0.01"));
    assert!(body.contains("ping_latency_bucket{name=\"A\",address=\"10.0.0.1\",le=\"0.005\"} 0"));
    assert!(body.contains("ping_latency_bucket{name=\"A\",address=\"10.0.0.1\",le=\"0.01\"} 1"));
    assert!(body.contains("ping_latency_bucket{name=\"A\",address=\"10.0.0.1\",le=\"+Inf\"} 1"));
    assert!(!body.contains("ping_latency_count{name=\"B\""));
    assert!(!body.contains("ping_latency_bucket{name=\"B\""));
    assert!(!body.contains("ping_success{name=\"B\""));
    assert!(!body.contains("ping_fail{name=\"A\""));
}

#[test]
fn empty_endpoint_list_renders_only_host_gauges() {
    let r = Registry::new();
    let body = r.render();
    let expected = "# HELP system_cpu_cores Number of CPU cores\n\
                    # TYPE system_cpu_cores gauge\n\
                    system_cpu_cores 0\n\
                    # HELP system_load_average System load average\n\
                    # TYPE system_load_average gauge\n\
                    system_load_average 0\n\
                    # HELP system_memory_total Total system memory\n\
                    # TYPE system_memory_total gauge\n\
                    system_memory_total 0\n";
    assert_eq!(body, expected);
    assert!(!body.contains("ping_"));
}

#[test]
fn back_to_back_scrapes_are_identical() {
    let mut r = Registry::new();
    let a = endpoint("A", "10.0.0.1");
    r.record_probe(&a, ProbeOutcome::Success { latency_nanos: 3_000_000 });
    r.sample_host(Some(4000), Some(120), Some(1_000_000));
    let first = r.render();
    let second = r.render();
    assert_eq!(first, second);
}

#[test]
fn label_values_are_escaped() {
    let mut r = Registry::new();
    let odd = Endpoint {
        name: "a\"b\\c\nd".to_string(),
        address: "10.0.0.9".to_string(),
        location: None,
    };
    r.record_probe(&odd, ProbeOutcome::Failure);
    let body = r.render();
    assert!(body.contains("ping_fail{name=\"a\\\"b\\\\c\\nd\",address=\"10.0.0.9\"} 1"));
}

#[test]
fn same_label_pair_is_one_series() {
    let mut r = Registry::new();
    let first = endpoint("A", "10.0.0.1");
    let second = Endpoint {
        name: "A".to_string(),
        address: "10.0.0.1".to_string(),
        location: Some("elsewhere".to_string()),
    };
    r.record_probe(&first, ProbeOutcome::Success { latency_nanos: 1_000_000 });
    r.record_probe(&second, ProbeOutcome::Success { latency_nanos: 2_000_000 });
    assert_eq!(r.success_count(&"A".to_string(), &"10.0.0.1".to_string()), 2);
    let body = r.render();
    assert!(body.contains("ping_success{name=\"A\",address=\"10.0.0.1\"} 2"));
    assert_eq!(body.matches("ping_success{").count(), 1);
}

#[test]
fn decimal_rendering_is_exact() {
    assert_eq!(fmt_u64(0), "0");
    assert_eq!(fmt_u64(7), "7");
    assert_eq!(fmt_u64(12345), "12345");
    assert_eq!(fmt_u64(u64::MAX), "18446744073709551615");
}

#[test]
fn fixed_point_rendering_is_exact() {
    assert_eq!(fmt_fixed(0, 1000, 3), "0");
    assert_eq!(fmt_fixed(4000, 1000, 3), "4");
    assert_eq!(fmt_fixed(850, 1000, 3), "0.85");
    assert_eq!(fmt_fixed(1205, 1000, 3), "1.205");
    assert_eq!(fmt_fixed(5_000_000, 1_000_000_000, 9), "0.005");
    assert_eq!(fmt_fixed(10_000_000, 1_000_000_000, 9), "0.01");
    assert_eq!(fmt_fixed(2_500_000_000, 1_000_000_000, 9), "2.5");
    assert_eq!(fmt_fixed(10_000_000_000, 1_000_000_000, 9), "10");
}

#[test]
fn latency_sum_accumulates_in_seconds() {
    let mut r = Registry::new();
    let a = endpoint("A", "10.0.0.1");
    r.record_probe(&a, ProbeOutcome::Success { latency_nanos: 10_000_000 });
    r.record_probe(&a, ProbeOutcome::Success { latency_nanos: 15_000_000 });
    let body = r.render();
    assert!(body.contains("ping_latency_sum{name=\"A\",address=\"10.0.0.1\"} 0.025"));
    assert!(body.contains("ping_latency_count{name=\"A\",address=\"10.0.0.1\"} 2"));
    assert!(body.contains("ping_latency_bucket{name=\"A\",address=\"10.0.0.1\",le=\"0.025\"} 2"));
    assert!(body.contains("ping_latency_bucket{name=\"A\",address=\"10.0.0.1\",le=\"0.01\"} 1"));
}
