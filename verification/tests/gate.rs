use grounded_dispatch::gate::{screen, validate_api_key, Admission};

#[test]
fn every_request_passes_when_no_key_is_set() {
    assert!(validate_api_key("", None));
    assert!(validate_api_key("", Some("")));
    assert!(validate_api_key("", Some("anything")));
}

#[test]
fn request_passes_with_the_key_that_is_set() {
    assert!(validate_api_key("s3cret", Some("s3cret")));
}

#[test]
fn request_is_refused_with_another_key_or_none() {
    assert!(!validate_api_key("s3cret", None));
    assert!(!validate_api_key("s3cret", Some("")));
    assert!(!validate_api_key("s3cret", Some("S3CRET")));
    assert!(!validate_api_key("s3cret", Some("s3cret ")));
    assert!(!validate_api_key("s3cret", Some("s3cre")));
}

#[test]
fn preflight_is_answered_without_a_key() {
    assert_eq!(screen("OPTIONS", "s3cret", None), Admission::Preflight);
    assert_eq!(screen("OPTIONS", "s3cret", Some("wrong")), Admission::Preflight);
    assert_eq!(screen("OPTIONS", "", None), Admission::Preflight);
}

#[test]
fn method_is_compared_as_written() {
    assert_eq!(screen("options", "s3cret", None), Admission::Unauthorized);
    assert_eq!(screen("OPTIONS ", "", None), Admission::Proceed);
}

#[test]
fn request_with_the_key_proceeds() {
    assert_eq!(screen("POST", "s3cret", Some("s3cret")), Admission::Proceed);
    assert_eq!(screen("GET", "s3cret", Some("s3cret")), Admission::Proceed);
    assert_eq!(screen("POST", "", None), Admission::Proceed);
}

#[test]
fn request_without_the_key_is_turned_away() {
    assert_eq!(screen("POST", "s3cret", None), Admission::Unauthorized);
    assert_eq!(screen("POST", "s3cret", Some("other")), Admission::Unauthorized);
}
