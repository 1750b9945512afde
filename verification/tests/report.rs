use healthcheck::check::{is_success, report_line, CheckOutcome};
use healthcheck::config::Configuration;
use healthcheck::decimal::{parse_u64, u16_to_decimal};

fn cfg_for(host: &str) -> Configuration {
    Configuration {
        interval: 0,
        host: host.to_string(),
    }
}

#[test]
fn success_response_line() {
    let cfg = cfg_for("http://ok.test/");
    let line = report_line(&cfg, &CheckOutcome::Response(200));
    assert_eq!(line, "Checking 'http://ok.test/'. Result: OK(200)");
}

#[test]
fn error_response_line() {
    let cfg = cfg_for("http://fail.test/");
    let line = report_line(&cfg, &CheckOutcome::Response(500));
    assert_eq!(line, "Checking 'http://fail.test/'. Result: ERR(500)");
}

#[test]
fn transport_failure_line() {
    let cfg = cfg_for("http://down.test/");
    let line = report_line(&cfg, &CheckOutcome::TransportFailure);
    assert_eq!(line, "The 'http://down.test/' host error");
}

#[test]
fn repeated_outcomes_give_identical_lines() {
    let cfg = cfg_for("http://ok.test/");
    let outcome = CheckOutcome::Response(204);
    let first = report_line(&cfg, &outcome);
    let second = report_line(&cfg, &outcome);
    let third = report_line(&cfg, &outcome);
    assert_eq!(first, second);
    assert_eq!(second, third);
}

#[test]
fn success_range_boundaries() {
    assert!(!is_success(199));
    assert!(is_success(200));
    assert!(is_success(299));
    assert!(!is_success(300));
    assert!(!is_success(404));
}

#[test]
fn boundary_codes_in_lines() {
    let cfg = cfg_for("http://edge.test/");
    assert_eq!(
        report_line(&cfg, &CheckOutcome::Response(299)),
        "Checking 'http://edge.test/'. Result: OK(299)"
    );
    assert_eq!(
        report_line(&cfg, &CheckOutcome::Response(300)),
        "Checking 'http://edge.test/'. Result: ERR(300)"
    );
}

#[test]
fn decimal_formatting_of_codes() {
    assert_eq!(u16_to_decimal(0), "0");
    assert_eq!(u16_to_decimal(7), "7");
    assert_eq!(u16_to_decimal(100), "100");
    assert_eq!(u16_to_decimal(65535), "65535");
}

#[test]
fn decimal_parsing_of_intervals() {
    assert_eq!(parse_u64("0"), Some(0));
    assert_eq!(parse_u64("42"), Some(42));
    assert_eq!(parse_u64("18446744073709551615"), Some(u64::MAX));
    assert_eq!(parse_u64("18446744073709551616"), None);
    assert_eq!(parse_u64(""), None);
    assert_eq!(parse_u64(" 5"), None);
    assert_eq!(parse_u64("5 "), None);
    assert_eq!(parse_u64("0x10"), None);
}
