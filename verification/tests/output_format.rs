use ec2im::GlobalConfig;
use ec2im::QueryResult;
use ec2im::Timestamp;
use ec2im::TimestampFormat;
use ec2im::render_output;
use ec2im::to_json;
use serde_json::Value;

#[test]
fn test_to_json_success_iso_timestamp() {
    // given
    let result = QueryResult::Success { value: "i-0b22a22eec53b9321".to_string() };
    let config = GlobalConfig::new(TimestampFormat::Iso);

    // when
    let res = to_json(&result, &config);

    // then
    let ser_res: Value = serde_json::from_str(&res).expect("valid json");
    assert_eq!(ser_res["status"], "success");
    assert_eq!(ser_res["value"], "i-0b22a22eec53b9321");
    assert!(ser_res["timestamp"].is_string());
}

#[test]
fn test_to_json_success_unix_timestamp() {
    // given
    let result = QueryResult::Success { value: "i-0b22a22eec53b9321".to_string() };
    let config = GlobalConfig::new(TimestampFormat::Unix);

    // when
    let res = to_json(&result, &config);

    // then
    let ser_res: Value = serde_json::from_str(&res).expect("valid json");
    assert_eq!(ser_res["status"], "success");
    assert_eq!(ser_res["value"], "i-0b22a22eec53b9321");
    assert!(ser_res["timestamp"].is_number());
}

#[test]
fn test_to_json_error() {
    // given
    let result = QueryResult::Error { reason: "connection timeout".to_string() };
    let config = GlobalConfig::new(TimestampFormat::Unix);

    // when
    let res = to_json(&result, &config);

    // then
    let ser_res: Value = serde_json::from_str(&res).expect("valid json");
    assert_eq!(ser_res["value"], Value::Null);
}

#[test]
fn to_json_error_carries_reason_and_null_value() {
    let result = QueryResult::Error { reason: "connection timeout".to_string() };
    let config = GlobalConfig::new(TimestampFormat::Iso);
    let res = to_json(&result, &config);
    let ser_res: Value = serde_json::from_str(&res).expect("valid json");
    assert_eq!(ser_res["status"], "error");
    assert_eq!(ser_res["reason"], "connection timeout");
    assert_eq!(ser_res["value"], Value::Null);
    assert!(ser_res["timestamp"].is_string());
}

#[test]
fn escaped_values_round_trip_through_json() {
    let result = QueryResult::Success { value: "a\"b\\c\nd\te\u{1}f".to_string() };
    let config = GlobalConfig::new(TimestampFormat::Unix);
    let res = to_json(&result, &config);
    let ser_res: Value = serde_json::from_str(&res).expect("valid json");
    assert_eq!(ser_res["value"], "a\"b\\c\nd\te\u{1}f");
}

#[test]
fn iso_output_renders_exactly() {
    let ts = Timestamp::Iso("2024-05-01T10:30:00.123".to_string());
    let res = QueryResult::Success { value: "ok".to_string() };
    let line = render_output(&ts, &res);
    assert_eq!(
        line,
        "{\"timestamp\":\"2024-05-01T10:30:00.123\",\"status\":\"success\",\"value\":\"ok\"}"
    );
}

#[test]
fn unix_output_renders_exactly() {
    let ts = Timestamp::Unix(1714559400123);
    let res = QueryResult::Error { reason: "boom".to_string() };
    let line = render_output(&ts, &res);
    assert_eq!(
        line,
        "{\"timestamp\":1714559400123,\"status\":\"error\",\"value\":null,\"reason\":\"boom\"}"
    );
}

#[test]
fn negative_and_zero_timestamps_render_in_decimal() {
    let res = QueryResult::Success { value: "v".to_string() };
    let line = render_output(&Timestamp::Unix(0), &res);
    assert_eq!(line, "{\"timestamp\":0,\"status\":\"success\",\"value\":\"v\"}");
    let line = render_output(&Timestamp::Unix(-1234567890123), &res);
    assert_eq!(line, "{\"timestamp\":-1234567890123,\"status\":\"success\",\"value\":\"v\"}");
    let line = render_output(&Timestamp::Unix(i64::MIN), &res);
    assert_eq!(
        line,
        "{\"timestamp\":-9223372036854775808,\"status\":\"success\",\"value\":\"v\"}"
    );
}
