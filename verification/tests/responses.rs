use ec2im::QueryResult;
use ec2im::RawResponse;
use ec2im::interpret_metadata_response;
use ec2im::interpret_token_response;
use ec2im::trim;

#[test]
fn healthy_fetch_returns_trimmed_value() {
    let path = "meta-data/instance-id".to_string();
    let resp = RawResponse::Body { text: "i-0b22a22eec53b9321\n".to_string() };
    let r = interpret_metadata_response(&path, resp);
    assert_eq!(r, QueryResult::Success { value: "i-0b22a22eec53b9321".to_string() });
}

#[test]
fn bad_status_reports_the_path_in_the_reason() {
    let path = "meta-data/instance-id".to_string();
    let r = interpret_metadata_response(&path, RawResponse::BadStatus);
    assert_eq!(
        r,
        QueryResult::Error { reason: "Failed to get data for meta-data/instance-id.".to_string() }
    );
}

#[test]
fn transport_failure_passes_the_reason_through() {
    let path = "meta-data/instance-id".to_string();
    let resp = RawResponse::Failed { why: "connection timeout".to_string() };
    let r = interpret_metadata_response(&path, resp);
    assert_eq!(r, QueryResult::Error { reason: "connection timeout".to_string() });
}

#[test]
fn token_acquisition_fails_on_bad_status() {
    let r = interpret_token_response(RawResponse::BadStatus);
    assert_eq!(r, Err("Failed to get token.".to_string()));
}

#[test]
fn token_acquisition_fails_on_transport_error() {
    let r = interpret_token_response(RawResponse::Failed { why: "could not resolve".to_string() });
    assert_eq!(r, Err("could not resolve".to_string()));
}

#[test]
fn token_acquisition_trims_the_token_body() {
    let r = interpret_token_response(RawResponse::Body { text: "  AQAEAtok==  \n".to_string() });
    assert_eq!(r, Ok("AQAEAtok==".to_string()));
}

#[test]
fn trim_strips_both_ends_only() {
    assert_eq!(trim(" \t hello world \r\n").as_str(), "hello world");
    assert_eq!(trim("unchanged").as_str(), "unchanged");
    assert_eq!(trim(" \r\n\t ").as_str(), "");
    assert_eq!(trim("").as_str(), "");
}
