use udemy_http::error::HttpError;
use udemy_http::fetch::{read_content_length, read_post, read_range_support, read_text, text_wants_body};
use udemy_http::response::{Outcome, Response};
use udemy_http::status::Status;

const URL: &str = "https://www.example.com/api/courses/42";

fn status(code: u16) -> Status {
    Status::new(code).unwrap()
}

fn text(code: u16, body: &str) -> Outcome<String> {
    Outcome::Response(Response {
        status: status(code),
        accept_ranges: false,
        content_length: None,
        body: body.to_string(),
    })
}

fn head(code: u16, accept_ranges: bool, content_length: Option<u64>) -> Outcome<()> {
    Outcome::Response(Response { status: status(code), accept_ranges, content_length, body: () })
}

fn down(detail: &str) -> Outcome<()> {
    Outcome::TransportFailure { detail: detail.to_string() }
}

#[test]
fn text_of_a_successful_response_is_its_body() {
    assert_eq!(read_text(URL, text(200, "{\"id\": 42}")), Ok("{\"id\": 42}".to_string()));
    assert_eq!(read_text(URL, text(204, "")), Ok(String::new()));
    assert_eq!(read_text(URL, text(299, "x")), Ok("x".to_string()));
}

#[test]
fn text_of_any_other_status_fails_with_address_and_status() {
    assert_eq!(
        read_text(URL, text(404, "not here")),
        Err(HttpError::TextStatus { url: URL.to_string(), status: status(404) })
    );
    assert_eq!(
        read_text(URL, text(199, "")),
        Err(HttpError::TextStatus { url: URL.to_string(), status: status(199) })
    );
    assert_eq!(
        read_text(URL, text(300, "")),
        Err(HttpError::TextStatus { url: URL.to_string(), status: status(300) })
    );
    assert_eq!(
        read_text(URL, text(500, "")),
        Err(HttpError::TextStatus { url: URL.to_string(), status: status(500) })
    );
}

#[test]
fn text_without_a_response_fails_with_the_transport() {
    assert_eq!(
        read_text(URL, Outcome::TransportFailure { detail: "tls handshake failed".to_string() }),
        Err(HttpError::Transport { detail: "tls handshake failed".to_string() })
    );
}

#[test]
fn text_body_is_read_on_success_only() {
    assert!(text_wants_body(status(200)));
    assert!(text_wants_body(status(299)));
    assert!(!text_wants_body(status(300)));
    assert!(!text_wants_body(status(404)));
    assert!(!text_wants_body(status(100)));
}

#[test]
fn content_length_of_a_successful_response() {
    assert_eq!(read_content_length(URL, &head(200, true, Some(5_000_000))), Ok(5_000_000));
    assert_eq!(read_content_length(URL, &head(200, false, Some(0))), Ok(0));
    assert_eq!(read_content_length(URL, &head(206, false, Some(u64::MAX))), Ok(u64::MAX));
}

#[test]
fn content_length_missing_is_a_failure_not_zero() {
    assert_eq!(
        read_content_length(URL, &head(200, true, None)),
        Err(HttpError::MissingLength { url: URL.to_string() })
    );
}

#[test]
fn content_length_of_an_error_status_fails_with_address_and_status() {
    assert_eq!(
        read_content_length(URL, &head(404, true, Some(17))),
        Err(HttpError::LengthStatus { url: URL.to_string(), status: status(404) })
    );
    assert_eq!(
        read_content_length(URL, &head(301, true, None)),
        Err(HttpError::LengthStatus { url: URL.to_string(), status: status(301) })
    );
}

#[test]
fn content_length_without_a_response_fails_with_the_transport() {
    assert_eq!(
        read_content_length(URL, &down("no route to host")),
        Err(HttpError::Transport { detail: "no route to host".to_string() })
    );
}

#[test]
fn range_support_is_the_presence_of_the_header() {
    assert_eq!(read_range_support(&head(200, true, None)), Ok(true));
    assert_eq!(read_range_support(&head(200, false, Some(3))), Ok(false));
    assert_eq!(read_range_support(&head(500, true, None)), Ok(true));
    assert_eq!(read_range_support(&head(404, false, None)), Ok(false));
}

#[test]
fn range_support_without_a_response_is_one_fixed_failure() {
    assert_eq!(read_range_support(&down("dns failure")), Err(HttpError::RangeProbe));
    assert_eq!(read_range_support(&down("")), Err(HttpError::RangeProbe));
}

#[test]
fn post_succeeds_on_any_response() {
    assert_eq!(read_post(&head(200, false, None)), Ok(()));
    assert_eq!(read_post(&head(404, false, None)), Ok(()));
    assert_eq!(read_post(&head(500, false, None)), Ok(()));
}

#[test]
fn post_without_a_response_fails_with_the_transport() {
    assert_eq!(
        read_post(&down("connection refused")),
        Err(HttpError::Transport { detail: "connection refused".to_string() })
    );
}
