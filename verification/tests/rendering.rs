//! Content-type classification, response framing, and the end-to-end
//! request scenarios.

use rawhttp::handler::{file_outcome, plan_request, Plan};
use rawhttp::response::{get_content_type, render_response, Response};

fn content_type_of(body: &[u8]) -> Vec<u8> {
    let body: Vec<u8> = body.to_vec();
    get_content_type(&body)
}

/// The exact bytes the server writes for one response.
fn expected_bytes(status: u16, reason: &str, content_type: &str, body: &[u8]) -> Vec<u8> {
    let mut out = format!(
        "HTTP/1.1 {} {}\r\nServer: RustRawHTTP/1.0\r\nContent-Length: {}\r\nContent-Type: {}\r\nConnection: close\r\n\r\n",
        status,
        reason,
        body.len(),
        content_type
    )
    .into_bytes();
    out.extend_from_slice(body);
    out
}

/// Runs the whole pipeline on one raw request, with `tree` playing the
/// filesystem: the file contents served for the resolved path, if any.
fn respond(raw: &[u8], tree: &[(&[u8], &[u8])]) -> Vec<u8> {
    let data: Vec<u8> = raw.to_vec();
    let response = match plan_request(&data) {
        Plan::Serve { file_path } => {
            let read = tree
                .iter()
                .find(|(p, _)| p.to_vec() == file_path)
                .map(|(_, c)| c.to_vec());
            file_outcome(read)
        }
        Plan::Reply { response } => response,
    };
    render_response(response)
}

#[test]
fn doctype_body_is_html() {
    assert_eq!(
        content_type_of(b"<!DOCTYPE html><html></html>"),
        b"text/html; charset=utf-8".to_vec()
    );
}

#[test]
fn html_tag_body_is_html() {
    assert_eq!(content_type_of(b"<html><body>x</body></html>"), b"text/html; charset=utf-8".to_vec());
}

#[test]
fn leading_whitespace_is_ignored_by_the_classifier() {
    assert_eq!(content_type_of(b"  \t\r\n <html>"), b"text/html; charset=utf-8".to_vec());
}

#[test]
fn plain_body_is_plain_text() {
    assert_eq!(content_type_of(b"hello world"), b"text/plain; charset=utf-8".to_vec());
}

#[test]
fn classifier_is_case_sensitive() {
    assert_eq!(content_type_of(b"<HTML>"), b"text/plain; charset=utf-8".to_vec());
    assert_eq!(content_type_of(b"<!doctype html>"), b"text/plain; charset=utf-8".to_vec());
}

#[test]
fn empty_body_is_plain_text() {
    assert_eq!(content_type_of(b""), b"text/plain; charset=utf-8".to_vec());
}

#[test]
fn ok_outcome_carries_the_contents() {
    let r = file_outcome(Some(b"hello world".to_vec()));
    assert_eq!(r.status, 200);
    assert_eq!(r.reason, b"OK".to_vec());
    assert_eq!(r.body, b"hello world".to_vec());
}

#[test]
fn failed_read_becomes_404_with_fixed_body() {
    let r = file_outcome(None);
    assert_eq!(r.status, 404);
    assert_eq!(r.reason, b"Not Found".to_vec());
    assert_eq!(r.body, b"The requested file was not found".to_vec());
}

#[test]
fn render_produces_the_exact_wire_format() {
    let out = render_response(Response {
        status: 200,
        reason: b"OK".to_vec(),
        body: b"hello world".to_vec(),
    });
    assert_eq!(out, expected_bytes(200, "OK", "text/plain; charset=utf-8", b"hello world"));
}

#[test]
fn content_length_counts_bytes_not_characters() {
    // "héllo" is five characters but six bytes in UTF-8.
    let body = "héllo".as_bytes().to_vec();
    assert_eq!(body.len(), 6);
    let out = render_response(Response { status: 200, reason: b"OK".to_vec(), body: body.clone() });
    assert_eq!(out, expected_bytes(200, "OK", "text/plain; charset=utf-8", &body));
}

#[test]
fn empty_body_renders_with_content_length_zero() {
    let out = render_response(Response { status: 200, reason: b"OK".to_vec(), body: Vec::new() });
    assert_eq!(out, expected_bytes(200, "OK", "text/plain; charset=utf-8", b""));
}

#[test]
fn serving_index_html_end_to_end() {
    let index: &[u8] = b"<!DOCTYPE html><html><body>Hi</body></html>";
    let tree: &[(&[u8], &[u8])] = &[(b"public/index.html", index)];
    let out = respond(b"GET / HTTP/1.1\r\nHost: localhost\r\n\r\n", tree);
    assert_eq!(out, expected_bytes(200, "OK", "text/html; charset=utf-8", index));
}

#[test]
fn serving_a_text_file_end_to_end() {
    let tree: &[(&[u8], &[u8])] = &[(b"public/notes.txt", b"hello world")];
    let out = respond(b"GET /notes.txt HTTP/1.1\r\n\r\n", tree);
    assert_eq!(out, expected_bytes(200, "OK", "text/plain; charset=utf-8", b"hello world"));
}

#[test]
fn missing_file_end_to_end() {
    let tree: &[(&[u8], &[u8])] = &[];
    let out = respond(b"GET /missing.html HTTP/1.1\r\n\r\n", tree);
    assert_eq!(
        out,
        expected_bytes(
            404,
            "Not Found",
            "text/plain; charset=utf-8",
            b"The requested file was not found"
        )
    );
}

#[test]
fn delete_end_to_end() {
    let tree: &[(&[u8], &[u8])] = &[(b"public/index.html", b"x")];
    let out = respond(b"DELETE / HTTP/1.1\r\n\r\n", tree);
    assert_eq!(
        out,
        expected_bytes(
            405,
            "Method Not Allowed",
            "text/plain; charset=utf-8",
            b"Only GET method is supported"
        )
    );
}

#[test]
fn empty_request_end_to_end() {
    let tree: &[(&[u8], &[u8])] = &[(b"public/index.html", b"x")];
    let out = respond(b"", tree);
    assert_eq!(
        out,
        expected_bytes(400, "Bad Request", "text/plain; charset=utf-8", b"Invalid request format")
    );
}

#[test]
fn root_and_index_html_yield_identical_responses() {
    let index: &[u8] = b"<!DOCTYPE html><html><body>Hi</body></html>";
    let tree: &[(&[u8], &[u8])] = &[(b"public/index.html", index)];
    let via_root = respond(b"GET / HTTP/1.1\r\n\r\n", tree);
    let via_name = respond(b"GET /index.html HTTP/1.1\r\n\r\n", tree);
    assert_eq!(via_root, via_name);
}

#[test]
fn status_digits_are_rendered_in_decimal() {
    let out = render_response(Response { status: 404, reason: b"Not Found".to_vec(), body: Vec::new() });
    let text = String::from_utf8(out).unwrap();
    assert!(text.starts_with("HTTP/1.1 404 Not Found\r\n"));
}
