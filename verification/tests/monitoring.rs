use argos::{CliArgs, Config, EyeOfArgos, Report, UrlResponse};

fn config(interval: u64, threshold: u64) -> Config {
    Config {
        web_address: String::from("http://example.invalid/"),
        check_interval_sec: interval,
        max_fail_count: threshold,
    }
}

fn response(status: u16, body: &str) -> UrlResponse {
    UrlResponse { status, body: String::from(body) }
}

#[test]
fn config_from_cli_args() {
    let args = CliArgs {
        web_address: String::from("http://example.invalid/"),
        check_interval_sec: 30,
        max_num_of_failures: 10,
    };
    let c = Config::from(args);
    assert_eq!(c.web_address, "http://example.invalid/");
    assert_eq!(c.check_interval_sec, 30);
    assert_eq!(c.max_fail_count, 10);
}

#[test]
fn status_200_is_valid_even_with_empty_body() {
    assert!(response(200, "").is_valid());
    assert!(response(200, "anything").is_valid());
}

#[test]
fn non_ok_statuses_are_invalid() {
    assert!(!response(301, "moved").is_valid());
    assert!(!response(404, "missing").is_valid());
    assert!(!response(500, "broken").is_valid());
}

#[test]
fn transport_error_substitute_is_invalid() {
    let r = UrlResponse::invalid();
    assert_eq!(r.status, 204);
    assert_eq!(r.body, "");
    assert!(!r.is_valid());
}

#[test]
fn first_success_reports_change() {
    let mut m = EyeOfArgos::from(config(30, 10));
    assert!(m.last_fingerprint().is_none());
    assert_eq!(m.step(response(200, "A")), Report::Changed);
    assert_eq!(m.last_fingerprint().as_deref(), Some(response(0, "A").hash().as_str()));
}

#[test]
fn same_body_twice_reports_no_change_and_keeps_fingerprint() {
    let mut m = EyeOfArgos::from(config(30, 10));
    assert_eq!(m.step(response(200, "A")), Report::Changed);
    let before = m.last_fingerprint().clone();
    assert_eq!(m.step(response(200, "A")), Report::NoChange);
    assert_eq!(m.last_fingerprint(), &before);
}

#[test]
fn changed_body_reports_change_and_updates_fingerprint() {
    let mut m = EyeOfArgos::from(config(30, 10));
    assert_eq!(m.step(response(200, "A")), Report::Changed);
    assert_eq!(m.step(response(200, "B")), Report::Changed);
    assert_eq!(m.last_fingerprint().as_deref(), Some(response(0, "B").hash().as_str()));
}

#[test]
fn failures_count_up_and_success_resets() {
    let mut m = EyeOfArgos::from(config(30, 10));
    assert_eq!(m.step(response(500, "")), Report::Failed(500));
    assert_eq!(m.consecutive_failures(), 1);
    assert_eq!(m.step(response(404, "")), Report::Failed(404));
    assert_eq!(m.consecutive_failures(), 2);
    assert_eq!(m.step(response(200, "A")), Report::Changed);
    assert_eq!(m.consecutive_failures(), 0);
}

#[test]
fn failure_keeps_last_fingerprint() {
    let mut m = EyeOfArgos::from(config(30, 10));
    assert_eq!(m.step(response(200, "A")), Report::Changed);
    let before = m.last_fingerprint().clone();
    assert_eq!(m.step(response(500, "oops")), Report::Failed(500));
    assert_eq!(m.last_fingerprint(), &before);
}

#[test]
fn threshold_of_one_stops_after_first_failure() {
    let mut m = EyeOfArgos::from(config(30, 1));
    assert!(!m.threshold_reached());
    assert_eq!(m.step(UrlResponse::invalid()), Report::Failed(204));
    assert!(m.threshold_reached());
}

#[test]
fn scenario_run_to_threshold() {
    // interval 30 s, threshold 3, fetches: 200 "A", 200 "A", 500, 500, 500.
    let mut m = EyeOfArgos::from(config(30, 3));
    assert_eq!(m.step(response(200, "A")), Report::Changed);
    assert!(!m.threshold_reached());
    assert_eq!(m.step(response(200, "A")), Report::NoChange);
    assert!(!m.threshold_reached());
    assert_eq!(m.step(response(500, "")), Report::Failed(500));
    assert_eq!(m.consecutive_failures(), 1);
    assert!(!m.threshold_reached());
    assert_eq!(m.step(response(500, "")), Report::Failed(500));
    assert_eq!(m.consecutive_failures(), 2);
    assert!(!m.threshold_reached());
    assert_eq!(m.step(response(500, "")), Report::Failed(500));
    assert_eq!(m.consecutive_failures(), 3);
    assert!(m.threshold_reached());
}

#[test]
fn scenario_interleaved_failures_stay_below_threshold() {
    // Fetches: 200 "A", 500, 200 "B", 500, 500 with threshold 3.
    let mut m = EyeOfArgos::from(config(30, 3));
    assert_eq!(m.step(response(200, "A")), Report::Changed);
    assert_eq!(m.consecutive_failures(), 0);
    assert_eq!(m.step(response(500, "")), Report::Failed(500));
    assert_eq!(m.consecutive_failures(), 1);
    assert_eq!(m.step(response(200, "B")), Report::Changed);
    assert_eq!(m.consecutive_failures(), 0);
    assert_eq!(m.step(response(500, "")), Report::Failed(500));
    assert_eq!(m.consecutive_failures(), 1);
    assert_eq!(m.step(response(500, "")), Report::Failed(500));
    assert_eq!(m.consecutive_failures(), 2);
    assert!(!m.threshold_reached());
    assert_eq!(m.last_fingerprint().as_deref(), Some(response(0, "B").hash().as_str()));
}
