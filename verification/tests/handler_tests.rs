//! The request pipeline, driven end to end with the real parser linked in.

use syserve::config::Config;
use syserve::handler::{
    request_outcome, response_bytes, state_after_check, RequestOutcome, RequestState,
};

fn site_config(not_found: Option<&[u8]>) -> Config {
    Config::new(
        b"/site".to_vec(),
        b"index.html".to_vec(),
        not_found.map(|n| n.to_vec()),
        String::from("127.0.0.1:7878"),
    )
}

fn candidate_of(outcome: &RequestOutcome) -> Vec<u8> {
    match outcome {
        RequestOutcome::ResolvedFile(p) => p.clone(),
        RequestOutcome::Unparsable => panic!("expected a candidate, request did not parse"),
        RequestOutcome::MissingPath => panic!("expected a candidate, request had no path"),
    }
}

#[test]
fn root_request_serves_index_exactly() {
    let cfg = site_config(None);
    let outcome = request_outcome(b"GET / HTTP/1.1\r\n\r\n", &cfg);
    assert_eq!(candidate_of(&outcome), b"/site/index.html".to_vec());
    let state = state_after_check(outcome, true, &cfg);
    let resp = response_bytes(&state, Some(b"<html></html>\n".to_vec()));
    assert_eq!(
        resp,
        b"HTTP/1.1 200 OK\r\nContent-type: text/html\r\nContent-Length: 14\r\n\r\n<html></html>\n"
            .to_vec()
    );
}

#[test]
fn zero_padded_buffer_parses_like_the_socket_read() {
    // The program reads into a fixed zero-filled buffer and hands the whole
    // buffer over; the zeros sit after the blank line and change nothing.
    let cfg = site_config(None);
    let mut buf = [0u8; 1024];
    let req = b"GET /app.js HTTP/1.1\r\nHost: localhost\r\n\r\n";
    buf[..req.len()].copy_from_slice(req);
    let outcome = request_outcome(&buf, &cfg);
    assert_eq!(candidate_of(&outcome), b"/site/app.js".to_vec());
}

#[test]
fn existing_file_round_trips_its_bytes() {
    let cfg = site_config(None);
    let outcome = request_outcome(b"GET /data.json HTTP/1.1\r\n\r\n", &cfg);
    assert_eq!(candidate_of(&outcome), b"/site/data.json".to_vec());
    let state = state_after_check(outcome, true, &cfg);
    let body = b"{\"k\": [1, 2, 3]}".to_vec();
    let resp = response_bytes(&state, Some(body.clone()));
    let expected_head = b"HTTP/1.1 200 OK\r\nContent-type: application/json\r\nContent-Length: 16\r\n\r\n";
    assert_eq!(resp[..expected_head.len()], expected_head[..]);
    assert_eq!(resp[expected_head.len()..], body[..]);
}

#[test]
fn missing_file_without_fallback_is_404() {
    let cfg = site_config(None);
    let outcome = request_outcome(b"GET /absent.html HTTP/1.1\r\n\r\n", &cfg);
    let state = state_after_check(outcome, false, &cfg);
    assert!(matches!(state, RequestState::FileNotFound));
    let resp = response_bytes(&state, None);
    assert_eq!(resp, b"HTTP/1.1 404 NOT FOUND\r\n\r\n".to_vec());
}

#[test]
fn missing_file_with_fallback_serves_the_fallback() {
    let cfg = site_config(Some(b"404.html"));
    let outcome = request_outcome(b"GET /absent.html HTTP/1.1\r\n\r\n", &cfg);
    let state = state_after_check(outcome, false, &cfg);
    match &state {
        RequestState::FileFound(p) => assert_eq!(p.clone(), b"/site/404.html".to_vec()),
        _ => panic!("expected the fallback file to be served"),
    }
    let resp = response_bytes(&state, Some(b"gone".to_vec()));
    assert_eq!(
        resp,
        b"HTTP/1.1 200 OK\r\nContent-type: text/html\r\nContent-Length: 4\r\n\r\ngone".to_vec()
    );
}

#[test]
fn traversal_attempt_stays_under_the_root() {
    let cfg = site_config(None);
    let outcome = request_outcome(b"GET /../../etc/passwd HTTP/1.1\r\n\r\n", &cfg);
    assert_eq!(candidate_of(&outcome), b"/site/etc/passwd".to_vec());
}

#[test]
fn space_escape_is_decoded() {
    let cfg = site_config(None);
    let outcome = request_outcome(b"GET /my%20notes.txt HTTP/1.1\r\n\r\n", &cfg);
    assert_eq!(candidate_of(&outcome), b"/site/my notes.txt".to_vec());
}

#[test]
fn request_without_version_token_is_500() {
    let cfg = site_config(None);
    let outcome = request_outcome(b"GET /x\r\n\r\n", &cfg);
    assert!(matches!(outcome, RequestOutcome::Unparsable));
    let state = state_after_check(outcome, false, &cfg);
    let resp = response_bytes(&state, None);
    assert_eq!(resp, b"HTTP/1.1 500 INTERNAL SERVER ERROR\r\n\r\n".to_vec());
}

#[test]
fn garbage_bytes_are_500() {
    let cfg = site_config(None);
    let outcome = request_outcome(&[0u8; 32], &cfg);
    assert!(matches!(outcome, RequestOutcome::Unparsable));
}

#[test]
fn incomplete_request_fails_closed() {
    let cfg = site_config(None);
    let outcome = request_outcome(b"GET /index.html HTT", &cfg);
    assert!(matches!(outcome, RequestOutcome::Unparsable));
}

#[test]
fn missing_path_is_400() {
    let cfg = site_config(Some(b"404.html"));
    let state = state_after_check(RequestOutcome::MissingPath, true, &cfg);
    assert!(matches!(state, RequestState::BadRequest));
    let resp = response_bytes(&state, None);
    assert_eq!(resp, b"HTTP/1.1 400 BAD REQUEST\r\n\r\n".to_vec());
}

#[test]
fn unprocessed_state_answers_500() {
    let resp = response_bytes(&RequestState::NotProcessed, None);
    assert_eq!(resp, b"HTTP/1.1 500 INTERNAL SERVER ERROR\r\n\r\n".to_vec());
}

#[test]
fn failed_read_of_a_found_file_is_500() {
    let state = RequestState::FileFound(b"/site/index.html".to_vec());
    let resp = response_bytes(&state, None);
    assert_eq!(resp, b"HTTP/1.1 500 INTERNAL SERVER ERROR\r\n\r\n".to_vec());
}

#[test]
fn distinct_requests_get_their_own_bodies() {
    let cfg = site_config(None);
    let first = request_outcome(b"GET /a.txt HTTP/1.1\r\n\r\n", &cfg);
    let second = request_outcome(b"GET /b.txt HTTP/1.1\r\n\r\n", &cfg);
    assert_eq!(candidate_of(&first), b"/site/a.txt".to_vec());
    assert_eq!(candidate_of(&second), b"/site/b.txt".to_vec());
    let resp_a = response_bytes(&state_after_check(first, true, &cfg), Some(b"alpha".to_vec()));
    let resp_b = response_bytes(&state_after_check(second, true, &cfg), Some(b"beta".to_vec()));
    assert!(resp_a.ends_with(b"alpha"));
    assert!(resp_b.ends_with(b"beta"));
    assert_ne!(resp_a, resp_b);
}

#[test]
fn config_keeps_its_fields() {
    let cfg = site_config(Some(b"404.html"));
    assert_eq!(cfg.dir, b"/site".to_vec());
    assert_eq!(cfg.index, b"index.html".to_vec());
    assert_eq!(cfg.not_found, Some(b"404.html".to_vec()));
    assert_eq!(cfg.address, "127.0.0.1:7878");
}
