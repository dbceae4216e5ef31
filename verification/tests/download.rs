use udemy_http::download::{Download, Next, Request, Step, CHUNK};
use udemy_http::error::HttpError;
use udemy_http::response::{Outcome, Response};
use udemy_http::status::Status;

const URL: &str = "https://cdn.example.com/lecture.mp4";

fn status(code: u16) -> Status {
    Status::new(code).unwrap()
}

fn head(code: u16, accept_ranges: bool, content_length: Option<u64>) -> Outcome<Vec<u8>> {
    Outcome::Response(Response { status: status(code), accept_ranges, content_length, body: Vec::new() })
}

fn data(code: u16, body: Vec<u8>) -> Outcome<Vec<u8>> {
    Outcome::Response(Response { status: status(code), accept_ranges: false, content_length: None, body })
}

fn failure(detail: &str) -> Outcome<Vec<u8>> {
    Outcome::TransportFailure { detail: detail.to_string() }
}

fn pattern(len: usize) -> Vec<u8> {
    (0..len).map(|i| (i % 251) as u8).collect()
}

/// What a driver has seen of one download.
struct Seen {
    requests: Vec<Request>,
    progress: Vec<u64>,
    result: Result<Vec<u8>, HttpError>,
}

/// Drives a download as a client does: performs each request against
/// `server`, reports progress, and stops where the download says so.
fn drive(url: &str, server: &mut dyn FnMut(Request) -> Outcome<Vec<u8>>) -> Seen {
    let mut requests = Vec::new();
    let mut progress = Vec::new();
    let mut download = Download::new(url);
    loop {
        let request = download.request();
        requests.push(request);
        let outcome = server(request);
        assert!(download.accepts(&outcome));
        let Step { progress: reported, next } = download.step(outcome);
        if let Some(done) = reported {
            progress.push(done);
        }
        match next {
            Next::Continue(following) => download = following,
            Next::Done(bytes) => return Seen { requests, progress, result: Ok(bytes) },
            Next::Failed(error) => return Seen { requests, progress, result: Err(error) },
        }
    }
}

/// A server that holds `resource` and grants every range.
fn ranged_server(resource: Vec<u8>) -> impl FnMut(Request) -> Outcome<Vec<u8>> {
    let mut heads = 0;
    move |request| match request {
        Request::Head => {
            heads += 1;
            if heads == 1 {
                head(200, true, None)
            } else {
                head(200, true, Some(resource.len() as u64))
            }
        }
        Request::GetRange { first, last } => {
            let from = (first as usize).min(resource.len());
            let to = (last as usize + 1).min(resource.len());
            data(206, resource[from..to].to_vec())
        }
        Request::Get => data(200, resource.clone()),
    }
}

#[test]
fn chunk_is_two_mebibytes() {
    assert_eq!(CHUNK, 2 * 1024 * 1024);
}

#[test]
fn new_download_probes_first() {
    let download = Download::new(URL);
    assert_eq!(download.request(), Request::Head);
    assert_eq!(download.url(), URL);
}

#[test]
fn five_million_bytes_take_three_ranges() {
    let resource = pattern(5_000_000);
    let mut server = ranged_server(resource.clone());
    let seen = drive(URL, &mut server);
    assert_eq!(
        seen.requests,
        vec![
            Request::Head,
            Request::Head,
            Request::GetRange { first: 0, last: 2097151 },
            Request::GetRange { first: 2097152, last: 4194303 },
            Request::GetRange { first: 4194304, last: 6291455 },
        ]
    );
    assert_eq!(seen.progress, vec![2097152, 4194304, 6291456]);
    let bytes = seen.result.unwrap();
    assert_eq!(bytes.len(), 5_000_000);
    assert_eq!(bytes, resource);
}

#[test]
fn ranged_bodies_are_joined_in_request_order() {
    let mut served = 0u8;
    let mut heads = 0;
    let mut server = |request: Request| match request {
        Request::Head => {
            heads += 1;
            head(200, true, if heads == 1 { None } else { Some(5_000_000) })
        }
        _ => {
            served += 1;
            data(206, vec![served; served as usize])
        }
    };
    let seen = drive(URL, &mut server);
    assert_eq!(seen.result, Ok(vec![1, 2, 2, 3, 3, 3]));
    assert_eq!(seen.progress, vec![CHUNK, 2 * CHUNK, 3 * CHUNK]);
}

#[test]
fn progress_rises_strictly() {
    let mut server = ranged_server(pattern(9_000_000));
    let seen = drive(URL, &mut server);
    assert_eq!(seen.progress.len(), 5);
    for pair in seen.progress.windows(2) {
        assert!(pair[0] < pair[1]);
    }
    assert_eq!(seen.result.unwrap().len(), 9_000_000);
}

#[test]
fn length_of_a_whole_number_of_chunks_takes_one_more_range() {
    let resource = pattern(2 * CHUNK as usize);
    let mut server = ranged_server(resource.clone());
    let seen = drive(URL, &mut server);
    assert_eq!(
        seen.requests,
        vec![
            Request::Head,
            Request::Head,
            Request::GetRange { first: 0, last: CHUNK - 1 },
            Request::GetRange { first: CHUNK, last: 2 * CHUNK - 1 },
            Request::GetRange { first: 2 * CHUNK, last: 3 * CHUNK - 1 },
        ]
    );
    assert_eq!(seen.progress, vec![CHUNK, 2 * CHUNK, 3 * CHUNK]);
    assert_eq!(seen.result, Ok(resource));
}

#[test]
fn empty_resource_takes_one_range() {
    let mut server = ranged_server(Vec::new());
    let seen = drive(URL, &mut server);
    assert_eq!(
        seen.requests,
        vec![Request::Head, Request::Head, Request::GetRange { first: 0, last: CHUNK - 1 }]
    );
    assert_eq!(seen.progress, vec![CHUNK]);
    assert_eq!(seen.result, Ok(Vec::new()));
}

#[test]
fn full_body_on_first_range_ends_the_download() {
    let resource = pattern(5_000_000);
    let mut heads = 0;
    let mut server = |request: Request| match request {
        Request::Head => {
            heads += 1;
            head(200, true, if heads == 1 { None } else { Some(5_000_000) })
        }
        _ => data(200, resource.clone()),
    };
    let seen = drive(URL, &mut server);
    assert_eq!(
        seen.requests,
        vec![Request::Head, Request::Head, Request::GetRange { first: 0, last: 2097151 }]
    );
    assert!(seen.progress.is_empty());
    assert_eq!(seen.result, Ok(resource.clone()));
}

#[test]
fn full_body_after_a_range_replaces_what_was_gathered() {
    let mut heads = 0;
    let mut gets = 0;
    let mut server = |request: Request| match request {
        Request::Head => {
            heads += 1;
            head(200, true, if heads == 1 { None } else { Some(5_000_000) })
        }
        _ => {
            gets += 1;
            if gets == 1 {
                data(206, vec![1, 1, 1])
            } else {
                data(200, vec![7, 8, 9, 10])
            }
        }
    };
    let seen = drive(URL, &mut server);
    assert_eq!(seen.requests.len(), 4);
    assert_eq!(seen.progress, vec![CHUNK]);
    assert_eq!(seen.result, Ok(vec![7, 8, 9, 10]));
}

#[test]
fn without_range_support_one_get_and_one_report() {
    let resource = pattern(1234);
    let mut server = |request: Request| match request {
        Request::Head => head(200, false, Some(1234)),
        Request::Get => data(200, resource.clone()),
        Request::GetRange { .. } => panic!("no range was offered"),
    };
    let seen = drive(URL, &mut server);
    assert_eq!(seen.requests, vec![Request::Head, Request::Get]);
    assert_eq!(seen.progress, vec![1234]);
    assert_eq!(seen.result, Ok(resource.clone()));
}

#[test]
fn probe_reads_the_header_whatever_the_status() {
    let mut server = |request: Request| match request {
        Request::Head => head(404, false, None),
        _ => data(204, Vec::new()),
    };
    let seen = drive(URL, &mut server);
    assert_eq!(seen.requests, vec![Request::Head, Request::Get]);
    assert_eq!(seen.progress, vec![0]);
    assert_eq!(seen.result, Ok(Vec::new()));
}

#[test]
fn failed_probe_drops_the_detail() {
    let mut server = |_request: Request| failure("dns error: no such host");
    let seen = drive(URL, &mut server);
    assert_eq!(seen.requests, vec![Request::Head]);
    assert!(seen.progress.is_empty());
    assert_eq!(seen.result, Err(HttpError::RangeProbe));
}

#[test]
fn failed_length_probe_passes_the_detail_on() {
    let mut heads = 0;
    let mut server = |_request: Request| {
        heads += 1;
        if heads == 1 {
            head(200, true, None)
        } else {
            failure("connection reset")
        }
    };
    let seen = drive(URL, &mut server);
    assert_eq!(seen.requests, vec![Request::Head, Request::Head]);
    assert_eq!(seen.result, Err(HttpError::Transport { detail: "connection reset".to_string() }));
}

#[test]
fn length_probe_without_length_fails() {
    let mut server = |_request: Request| head(200, true, None);
    let seen = drive(URL, &mut server);
    assert_eq!(seen.requests, vec![Request::Head, Request::Head]);
    assert_eq!(seen.result, Err(HttpError::MissingLength { url: URL.to_string() }));
}

#[test]
fn length_probe_with_error_status_fails() {
    let mut heads = 0;
    let mut server = |_request: Request| {
        heads += 1;
        if heads == 1 {
            head(200, true, Some(10))
        } else {
            head(403, true, Some(10))
        }
    };
    let seen = drive(URL, &mut server);
    assert_eq!(
        seen.result,
        Err(HttpError::LengthStatus { url: URL.to_string(), status: status(403) })
    );
}

#[test]
fn other_status_on_a_range_fails_with_the_status() {
    let mut heads = 0;
    let mut gets = 0;
    let mut server = |request: Request| match request {
        Request::Head => {
            heads += 1;
            head(200, true, if heads == 1 { None } else { Some(5_000_000) })
        }
        _ => {
            gets += 1;
            if gets == 1 {
                data(206, vec![1; 10])
            } else {
                data(416, Vec::new())
            }
        }
    };
    let seen = drive(URL, &mut server);
    assert_eq!(seen.requests.len(), 4);
    assert_eq!(seen.progress, vec![CHUNK]);
    assert_eq!(seen.result, Err(HttpError::ChunkStatus { status: status(416) }));
}

#[test]
fn other_success_status_on_a_range_fails_too() {
    let mut heads = 0;
    let mut server = |request: Request| match request {
        Request::Head => {
            heads += 1;
            head(200, true, if heads == 1 { None } else { Some(100) })
        }
        _ => data(204, Vec::new()),
    };
    let seen = drive(URL, &mut server);
    assert_eq!(seen.result, Err(HttpError::ChunkStatus { status: status(204) }));
}

#[test]
fn transport_failure_on_a_range_fails() {
    let mut heads = 0;
    let mut server = |request: Request| match request {
        Request::Head => {
            heads += 1;
            head(200, true, if heads == 1 { None } else { Some(100) })
        }
        _ => failure("timed out"),
    };
    let seen = drive(URL, &mut server);
    assert_eq!(seen.result, Err(HttpError::Transport { detail: "timed out".to_string() }));
    assert!(seen.progress.is_empty());
}

#[test]
fn error_status_on_the_whole_get_names_the_address() {
    let mut server = |request: Request| match request {
        Request::Head => head(200, false, None),
        _ => data(500, b"oops".to_vec()),
    };
    let seen = drive(URL, &mut server);
    assert_eq!(seen.requests, vec![Request::Head, Request::Get]);
    assert!(seen.progress.is_empty());
    assert_eq!(seen.result, Err(HttpError::DataStatus { url: URL.to_string() }));
}

#[test]
fn transport_failure_on_the_whole_get_fails() {
    let mut server = |request: Request| match request {
        Request::Head => head(200, false, None),
        _ => failure("broken pipe"),
    };
    let seen = drive(URL, &mut server);
    assert_eq!(seen.result, Err(HttpError::Transport { detail: "broken pipe".to_string() }));
}

#[test]
fn length_that_leaves_no_room_for_a_chunk_is_not_accepted() {
    let probing = Download::new(URL);
    let sizing = match probing.step(head(200, true, None)).next {
        Next::Continue(download) => download,
        other => panic!("unexpected {:?}", other),
    };
    assert!(!sizing.accepts(&head(200, true, Some(u64::MAX))));
    assert!(!sizing.accepts(&head(200, true, Some(u64::MAX - CHUNK + 1))));
    assert!(sizing.accepts(&head(200, true, Some(u64::MAX - CHUNK))));
    assert!(sizing.accepts(&head(404, true, Some(u64::MAX))));
    assert!(sizing.accepts(&head(200, true, None)));
    assert!(sizing.accepts(&failure("down")));
}

#[test]
fn largest_accepted_length_starts_at_offset_zero() {
    let probing = Download::new(URL);
    let sizing = match probing.step(head(200, true, None)).next {
        Next::Continue(download) => download,
        other => panic!("unexpected {:?}", other),
    };
    let ranged = match sizing.step(head(200, true, Some(u64::MAX - CHUNK))).next {
        Next::Continue(download) => download,
        other => panic!("unexpected {:?}", other),
    };
    assert_eq!(ranged.request(), Request::GetRange { first: 0, last: CHUNK - 1 });
}

#[test]
fn body_is_wanted_only_where_it_is_read() {
    let probing = Download::new(URL);
    assert!(!probing.wants_body(status(200)));
    let sizing = match probing.step(head(200, true, None)).next {
        Next::Continue(download) => download,
        other => panic!("unexpected {:?}", other),
    };
    assert!(!sizing.wants_body(status(200)));
    let ranged = match sizing.step(head(200, true, Some(10))).next {
        Next::Continue(download) => download,
        other => panic!("unexpected {:?}", other),
    };
    assert!(ranged.wants_body(status(206)));
    assert!(ranged.wants_body(status(200)));
    assert!(!ranged.wants_body(status(204)));
    assert!(!ranged.wants_body(status(404)));
    let whole = match Download::new(URL).step(head(200, false, None)).next {
        Next::Continue(download) => download,
        other => panic!("unexpected {:?}", other),
    };
    assert!(whole.wants_body(status(200)));
    assert!(whole.wants_body(status(206)));
    assert!(whole.wants_body(status(299)));
    assert!(!whole.wants_body(status(300)));
    assert!(!whole.wants_body(status(199)));
}

#[test]
fn range_header_names_both_ends() {
    assert_eq!(
        Request::GetRange { first: 0, last: 2097151 }.range_header(),
        Some("bytes=0-2097151".to_string())
    );
    assert_eq!(
        Request::GetRange { first: 4194304, last: 6291455 }.range_header(),
        Some("bytes=4194304-6291455".to_string())
    );
    assert_eq!(Request::Get.range_header(), None);
    assert_eq!(Request::Head.range_header(), None);
}
