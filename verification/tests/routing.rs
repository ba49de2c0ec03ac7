//! Parsing and routing of raw request buffers.

use rawhttp::handler::{plan_request, Plan};
use rawhttp::request::{first_line, request_tokens, tokenize};
use rawhttp::bytes_eq;

fn plan_of(raw: &[u8]) -> Plan {
    let data: Vec<u8> = raw.to_vec();
    plan_request(&data)
}

fn expect_serve(raw: &[u8]) -> Vec<u8> {
    match plan_of(raw) {
        Plan::Serve { file_path } => file_path,
        Plan::Reply { response } => {
            panic!("expected a file lookup, got status {}", response.status)
        }
    }
}

fn expect_reply(raw: &[u8]) -> (u16, Vec<u8>, Vec<u8>) {
    match plan_of(raw) {
        Plan::Serve { file_path } => {
            panic!("expected an immediate reply, got lookup of {:?}", file_path)
        }
        Plan::Reply { response } => (response.status, response.reason, response.body),
    }
}

#[test]
fn get_root_resolves_to_index_html() {
    let path = expect_serve(b"GET / HTTP/1.1\r\nHost: localhost\r\n\r\n");
    assert_eq!(path, b"public/index.html".to_vec());
}

#[test]
fn get_explicit_index_html_resolves_the_same() {
    let via_root = expect_serve(b"GET / HTTP/1.1\r\n\r\n");
    let via_name = expect_serve(b"GET /index.html HTTP/1.1\r\n\r\n");
    assert_eq!(via_root, via_name);
}

#[test]
fn get_plain_file_path_is_prefixed_with_document_root() {
    let path = expect_serve(b"GET /notes.txt HTTP/1.1\r\n\r\n");
    assert_eq!(path, b"public/notes.txt".to_vec());
}

#[test]
fn path_concatenation_is_naive_about_dotdot() {
    // The resolver concatenates without normalizing `..` segments; this pins
    // that (documented) behavior rather than hiding it.
    let path = expect_serve(b"GET /../outside.txt HTTP/1.1\r\n\r\n");
    assert_eq!(path, b"public/../outside.txt".to_vec());
}

#[test]
fn delete_method_is_rejected_with_405() {
    let (status, reason, body) = expect_reply(b"DELETE / HTTP/1.1\r\n\r\n");
    assert_eq!(status, 405);
    assert_eq!(reason, b"Method Not Allowed".to_vec());
    assert_eq!(body, b"Only GET method is supported".to_vec());
}

#[test]
fn post_method_is_rejected_regardless_of_path() {
    let (status, _, _) = expect_reply(b"POST /index.html HTTP/1.1\r\n\r\n");
    assert_eq!(status, 405);
    let (status, _, _) = expect_reply(b"PUT /anything/else HTTP/1.1\r\n\r\n");
    assert_eq!(status, 405);
}

#[test]
fn lowercase_get_is_not_get() {
    let (status, _, _) = expect_reply(b"get / HTTP/1.1\r\n\r\n");
    assert_eq!(status, 405);
}

#[test]
fn empty_request_is_rejected_with_400() {
    let (status, reason, body) = expect_reply(b"");
    assert_eq!(status, 400);
    assert_eq!(reason, b"Bad Request".to_vec());
    assert_eq!(body, b"Invalid request format".to_vec());
}

#[test]
fn blank_first_line_is_rejected_with_400() {
    let (status, _, body) = expect_reply(b"\r\nGET / HTTP/1.1\r\n");
    assert_eq!(status, 400);
    assert_eq!(body, b"Invalid request format".to_vec());
}

#[test]
fn single_token_line_is_rejected_with_400() {
    let (status, _, _) = expect_reply(b"GET\r\n\r\n");
    assert_eq!(status, 400);
}

#[test]
fn two_tokens_suffice_without_version() {
    let path = expect_serve(b"GET /a.txt\r\n");
    assert_eq!(path, b"public/a.txt".to_vec());
}

#[test]
fn method_check_looks_only_at_first_line() {
    // A second line starting with GET does not rescue a rejected method.
    let (status, _, _) = expect_reply(b"HEAD / HTTP/1.1\r\nGET / HTTP/1.1\r\n");
    assert_eq!(status, 405);
}

#[test]
fn first_line_stops_at_line_feed_and_strips_carriage_return() {
    let data: Vec<u8> = b"GET / HTTP/1.1\r\nHost: x\r\n".to_vec();
    assert_eq!(first_line(&data), b"GET / HTTP/1.1".to_vec());
    let data: Vec<u8> = b"GET / HTTP/1.1\nrest".to_vec();
    assert_eq!(first_line(&data), b"GET / HTTP/1.1".to_vec());
}

#[test]
fn first_line_without_line_feed_is_the_whole_buffer() {
    let data: Vec<u8> = b"GET / HTTP/1.1".to_vec();
    assert_eq!(first_line(&data), b"GET / HTTP/1.1".to_vec());
    // A trailing carriage return without a line feed is kept.
    let data: Vec<u8> = b"GET /\r".to_vec();
    assert_eq!(first_line(&data), b"GET /\r".to_vec());
}

#[test]
fn tokenize_splits_on_runs_of_whitespace() {
    let line: Vec<u8> = b"  GET \t /index.html   HTTP/1.1 ".to_vec();
    let toks = tokenize(&line);
    assert_eq!(toks.len(), 3);
    assert_eq!(toks[0], b"GET".to_vec());
    assert_eq!(toks[1], b"/index.html".to_vec());
    assert_eq!(toks[2], b"HTTP/1.1".to_vec());
}

#[test]
fn tokenize_of_whitespace_only_line_is_empty() {
    let line: Vec<u8> = b" \t ".to_vec();
    let toks = tokenize(&line);
    assert_eq!(toks.len(), 0);
}

#[test]
fn request_tokens_come_from_the_first_line_only() {
    let data: Vec<u8> = b"GET /x HTTP/1.1\r\nHost: localhost\r\n".to_vec();
    let toks = request_tokens(&data);
    assert_eq!(toks.len(), 3);
    assert_eq!(toks[0], b"GET".to_vec());
    assert_eq!(toks[1], b"/x".to_vec());
}

#[test]
fn non_utf8_bytes_in_the_path_are_carried_through() {
    let data: Vec<u8> = b"GET /\xff\xfe HTTP/1.1\r\n".to_vec();
    let path = expect_serve(&data);
    assert_eq!(path, b"public/\xff\xfe".to_vec());
}

#[test]
fn bytes_eq_compares_contents() {
    let a: Vec<u8> = b"abc".to_vec();
    let b: Vec<u8> = b"abc".to_vec();
    let c: Vec<u8> = b"abd".to_vec();
    let d: Vec<u8> = b"ab".to_vec();
    assert!(bytes_eq(&a, &b));
    assert!(!bytes_eq(&a, &c));
    assert!(!bytes_eq(&a, &d));
}
