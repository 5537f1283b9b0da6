use rong_core::net::{
    body_plan, check_small_body, default_user_agent, is_success_status, parse_content_length, validate_user_agent,
    BodyPlan, SinkForwarding,
};

#[test]
fn content_length_plain_digits() {
    assert_eq!(parse_content_length(Some("1234")), 1234);
    assert_eq!(parse_content_length(Some("0")), 0);
    assert_eq!(parse_content_length(Some("+12")), 12);
}

#[test]
fn content_length_absent_or_malformed_is_zero() {
    assert_eq!(parse_content_length(None), 0);
    assert_eq!(parse_content_length(Some("")), 0);
    assert_eq!(parse_content_length(Some("+")), 0);
    assert_eq!(parse_content_length(Some("abc")), 0);
    assert_eq!(parse_content_length(Some("12a")), 0);
    assert_eq!(parse_content_length(Some("-5")), 0);
    assert_eq!(parse_content_length(Some(" 5")), 0);
}

#[test]
fn content_length_overflow_is_zero() {
    let max = usize::MAX.to_string();
    assert_eq!(parse_content_length(Some(&max)), usize::MAX);
    let over = format!("{}0", max);
    assert_eq!(parse_content_length(Some(&over)), 0);
    assert_eq!(parse_content_length(Some("99999999999999999999999999")), 0);
}

#[test]
fn body_plan_small_or_stream() {
    assert_eq!(body_plan(10, 64), BodyPlan::Small(10));
    assert_eq!(body_plan(64, 64), BodyPlan::Small(64));
    assert_eq!(body_plan(65, 64), BodyPlan::Stream);
    assert_eq!(body_plan(0, 64), BodyPlan::Stream);
    assert_eq!(body_plan(5, 0), BodyPlan::Stream);
}

#[test]
fn small_body_limit() {
    assert!(check_small_body(64, 64).is_ok());
    assert!(check_small_body(0, 0).is_ok());
    assert_eq!(check_small_body(65, 64), Err("body exceeded small threshold".to_string()));
}

#[test]
fn success_statuses() {
    assert!(is_success_status(200));
    assert!(is_success_status(204));
    assert!(is_success_status(299));
    assert!(!is_success_status(199));
    assert!(!is_success_status(300));
    assert!(!is_success_status(404));
}

#[test]
fn user_agent_validation() {
    assert!(validate_user_agent("RongJS/1.0 (test)").is_ok());
    assert!(validate_user_agent("tab\tinside").is_ok());
    assert!(validate_user_agent("").is_ok());
    assert_eq!(
        validate_user_agent("bad\nagent"),
        Err("invalid user agent header: failed to parse header value".to_string())
    );
    assert!(validate_user_agent("del\u{7f}").is_err());
}

#[test]
fn default_user_agent_names_version() {
    assert_eq!(default_user_agent("0.3.1"), "RongJS/0.3.1");
    assert_eq!(default_user_agent(""), "RongJS/");
}

#[test]
fn sink_closes_once_on_error() {
    let mut s = SinkForwarding::new(true);
    assert!(s.forwards());
    assert!(!s.on_write(true));
    assert!(s.forwards());
    assert!(s.on_write(false));
    assert!(!s.forwards());
    assert!(!s.on_write(false));
    assert!(!s.on_write(true));
    assert!(!s.forwards());
    let mut none = SinkForwarding::new(false);
    assert!(!none.forwards());
    assert!(!none.on_write(false));
}
