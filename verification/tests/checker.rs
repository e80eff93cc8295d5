use uptime_monitor::checker::check_target;
use uptime_monitor::checker::prior_status;
use uptime_monitor::checker::ProbeOutcome;
use uptime_monitor::checker::Target;
use uptime_monitor::messages::status_key;
use uptime_monitor::messages::u16_to_string;
use uptime_monitor::store::DIM;

fn target(name: &str) -> Target {
    Target { url: format!("http://{}.example", name), name: name.to_string() }
}

#[test]
fn unchecked_target_is_assumed_healthy() {
    let db: DIM<bool> = DIM::new();
    assert!(prior_status(&db, "X"));
}

#[test]
fn prior_status_reads_the_stored_value() {
    let mut db: DIM<bool> = DIM::new();
    db.set("X_status".to_string(), false);
    assert!(!prior_status(&db, "X"));
    db.set("X_status".to_string(), true);
    assert!(prior_status(&db, "X"));
}

#[test]
fn status_key_appends_suffix_to_name() {
    assert_eq!(status_key("web").as_str(), "web_status");
    assert_eq!(status_key("").as_str(), "_status");
}

#[test]
fn scenario_unset_then_success_stores_true_without_message() {
    let mut db: DIM<bool> = DIM::new();
    let msg = check_target(&mut db, &target("X"), &ProbeOutcome::Response { status: 200 });
    assert_eq!(msg, None);
    assert_eq!(db.get("X_status"), Some(&true));
}

#[test]
fn scenario_up_then_failure_stores_false_and_reports_status() {
    let mut db: DIM<bool> = DIM::new();
    db.set("X_status".to_string(), true);
    let msg = check_target(&mut db, &target("X"), &ProbeOutcome::Response { status: 500 });
    assert_eq!(msg.as_deref(), Some("The service X check got status: 500"));
    assert_eq!(db.get("X_status"), Some(&false));
}

#[test]
fn scenario_down_then_success_stores_true_and_reports_back_up() {
    let mut db: DIM<bool> = DIM::new();
    db.set("X_status".to_string(), false);
    let msg = check_target(&mut db, &target("X"), &ProbeOutcome::Response { status: 200 });
    assert_eq!(msg.as_deref(), Some("The service X is back up"));
    assert_eq!(db.get("X_status"), Some(&true));
}

#[test]
fn scenario_down_then_failure_again_repeats_the_message() {
    let mut db: DIM<bool> = DIM::new();
    db.set("X_status".to_string(), false);
    let first = check_target(&mut db, &target("X"), &ProbeOutcome::Response { status: 500 });
    assert_eq!(first.as_deref(), Some("The service X check got status: 500"));
    assert_eq!(db.get("X_status"), Some(&false));
    let second = check_target(&mut db, &target("X"), &ProbeOutcome::Response { status: 500 });
    assert_eq!(second.as_deref(), Some("The service X check got status: 500"));
    assert_eq!(db.get("X_status"), Some(&false));
}

#[test]
fn scenario_transport_error_reports_and_keeps_store() {
    let error = || ProbeOutcome::TransportError { error: "connection refused".to_string() };
    let expected = "Failed to make the request to X: connection refused";

    let mut db: DIM<bool> = DIM::new();
    let msg = check_target(&mut db, &target("X"), &error());
    assert_eq!(msg.as_deref(), Some(expected));
    assert_eq!(db.get("X_status"), None);

    db.set("X_status".to_string(), false);
    let msg = check_target(&mut db, &target("X"), &error());
    assert_eq!(msg.as_deref(), Some(expected));
    assert_eq!(db.get("X_status"), Some(&false));

    db.set("X_status".to_string(), true);
    let msg = check_target(&mut db, &target("X"), &error());
    assert_eq!(msg.as_deref(), Some(expected));
    assert_eq!(db.get("X_status"), Some(&true));
}

#[test]
fn success_while_up_stays_silent() {
    let mut db: DIM<bool> = DIM::new();
    db.set("X_status".to_string(), true);
    let msg = check_target(&mut db, &target("X"), &ProbeOutcome::Response { status: 204 });
    assert_eq!(msg, None);
    assert_eq!(db.get("X_status"), Some(&true));
}

#[test]
fn success_boundaries_are_the_two_hundreds() {
    for status in [200u16, 299] {
        let mut db: DIM<bool> = DIM::new();
        let msg = check_target(&mut db, &target("X"), &ProbeOutcome::Response { status });
        assert_eq!(msg, None);
        assert_eq!(db.get("X_status"), Some(&true));
    }
    for status in [199u16, 300, 301, 404] {
        let mut db: DIM<bool> = DIM::new();
        let msg = check_target(&mut db, &target("X"), &ProbeOutcome::Response { status });
        assert_eq!(msg.as_deref(), Some(format!("The service X check got status: {}", status).as_str()));
        assert_eq!(db.get("X_status"), Some(&false));
    }
}

#[test]
fn targets_are_tracked_independently() {
    let mut db: DIM<bool> = DIM::new();
    check_target(&mut db, &target("a"), &ProbeOutcome::Response { status: 500 });
    check_target(&mut db, &target("b"), &ProbeOutcome::Response { status: 200 });
    assert_eq!(db.get("a_status"), Some(&false));
    assert_eq!(db.get("b_status"), Some(&true));
}

#[test]
fn status_codes_render_in_decimal() {
    assert_eq!(u16_to_string(0).as_str(), "0");
    assert_eq!(u16_to_string(7).as_str(), "7");
    assert_eq!(u16_to_string(42).as_str(), "42");
    assert_eq!(u16_to_string(500).as_str(), "500");
    assert_eq!(u16_to_string(1000).as_str(), "1000");
    assert_eq!(u16_to_string(65535).as_str(), "65535");
}
