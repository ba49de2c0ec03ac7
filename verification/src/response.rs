//! Response construction: the content-type heuristic and the framing of the
//! full HTTP response bytes from a status code, reason phrase, and body.

use vstd::prelude::*;
use crate::ascii::{dec_rep, is_ascii_ws, is_ws_byte, push_dec};
use crate::text::{
    connection_close_line, connection_close_line_bytes, content_length_prefix,
    content_length_prefix_bytes, content_type_html, content_type_html_bytes, content_type_plain,
    content_type_plain_bytes, content_type_prefix, content_type_prefix_bytes, crlf, crlf_bytes,
    doctype_marker, doctype_marker_bytes, html_open_marker, html_open_marker_bytes, http_version,
    http_version_bytes, server_line, server_line_bytes,
};

verus! {

/// One HTTP response: status code, reason phrase, body. The content type and
/// the `Content-Length` are derived from the body when the response is
/// rendered.
pub struct Response {
    pub status: u16,
    pub reason: Vec<u8>,
    pub body: Vec<u8>,
}

/// `s` without its leading ASCII whitespace.
pub open spec fn trim_start(s: Seq<u8>) -> Seq<u8>
    decreases s.len(),
{
    if s.len() > 0 && is_ascii_ws(s[0]) {
        trim_start(s.drop_first())
    } else {
        s
    }
}

/// `s` begins with `p`.
pub open spec fn starts_with(s: Seq<u8>, p: Seq<u8>) -> bool {
    p.len() <= s.len() && s.subrange(0, p.len() as int) == p
}

/// The body looks like HTML: after leading whitespace it begins with the
/// literal `<!DOCTYPE html>` or `<html`, case-sensitively.
pub open spec fn spec_is_html(body: Seq<u8>) -> bool {
    starts_with(trim_start(body), doctype_marker()) || starts_with(
        trim_start(body),
        html_open_marker(),
    )
}

/// The content type a body is served with: `text/html; charset=utf-8` for a
/// body that looks like HTML, `text/plain; charset=utf-8` for every other.
pub open spec fn spec_content_type(body: Seq<u8>) -> Seq<u8> {
    if spec_is_html(body) {
        content_type_html()
    } else {
        content_type_plain()
    }
}

/// Decides whether the bytes of `s` from position `from` on begin with `p`.
fn suffix_starts_with(s: &Vec<u8>, from: usize, p: &Vec<u8>) -> (r: bool)
    requires
        from <= s@.len(),
    ensures
        r == starts_with(s@.subrange(from as int, s@.len() as int), p@),
{
    let ghost suf = s@.subrange(from as int, s@.len() as int);
    if s.len() - from < p.len() {
        return false;
    }
    let mut j: usize = 0;
    while j < p.len()
        invariant
            0 <= j <= p@.len(),
            p@.len() <= s@.len() - from,
            from <= s@.len() <= usize::MAX,
            suf == s@.subrange(from as int, s@.len() as int),
            forall|k: int| 0 <= k < j ==> suf[k] == p@[k],
        decreases p@.len() - j,
    {
        if s[from + j] != p[j] {
            proof {
                assert(suf[j as int] == s@[from + j]);
                assert(suf.subrange(0, p@.len() as int)[j as int] == suf[j as int]);
            }
            return false;
        }
        j += 1;
    }
    assert(suf.subrange(0, p@.len() as int) =~= p@);
    true
}

/// Classifies a body as HTML or plain text by its leading bytes and returns
/// the `Content-Type` value it will be served with.
pub fn get_content_type(body: &Vec<u8>) -> (r: Vec<u8>)
    ensures
        r@ == spec_content_type(body@),
{
    assert(body@.subrange(0, body@.len() as int) =~= body@);
    let mut i: usize = 0;
    while i < body.len() && is_ws_byte(body[i])
        invariant
            0 <= i <= body@.len(),
            trim_start(body@) == trim_start(body@.subrange(i as int, body@.len() as int)),
        decreases body@.len() - i,
    {
        proof {
            let suf = body@.subrange(i as int, body@.len() as int);
            assert(suf.drop_first() =~= body@.subrange(i + 1, body@.len() as int));
        }
        i += 1;
    }
    proof {
        let suf = body@.subrange(i as int, body@.len() as int);
        assert(trim_start(suf) == suf);
    }
    let doctype = doctype_marker_bytes();
    let htmlopen = html_open_marker_bytes();
    if suffix_starts_with(body, i, &doctype) || suffix_starts_with(body, i, &htmlopen) {
        content_type_html_bytes()
    } else {
        content_type_plain_bytes()
    }
}

/// The status line: protocol token, status code in decimal, reason phrase.
pub open spec fn spec_status_line(status: int, reason: Seq<u8>) -> Seq<u8> {
    http_version() + seq![32u8] + dec_rep(status) + seq![32u8] + reason + crlf()
}

/// The `Content-Length` header line; the number is the body's byte length.
pub open spec fn spec_content_length_line(body: Seq<u8>) -> Seq<u8> {
    content_length_prefix() + dec_rep(body.len() as int) + crlf()
}

/// The `Content-Type` header line, derived from the body.
pub open spec fn spec_content_type_line(body: Seq<u8>) -> Seq<u8> {
    content_type_prefix() + spec_content_type(body) + crlf()
}

/// The full response bytes: status line, the fixed server line, content
/// length, content type, the fixed connection-close line, a blank line, then
/// the body verbatim.
pub open spec fn spec_render(status: int, reason: Seq<u8>, body: Seq<u8>) -> Seq<u8> {
    spec_status_line(status, reason) + server_line() + spec_content_length_line(body)
        + spec_content_type_line(body) + connection_close_line() + crlf() + body
}

/// Renders a response into the exact byte sequence written to the socket.
pub fn render_response(resp: Response) -> (out: Vec<u8>)
    ensures
        out@ == spec_render(resp.status as int, resp.reason@, resp.body@),
{
    let Response { status, reason, body } = resp;
    let mut out: Vec<u8> = Vec::new();
    let mut piece = http_version_bytes();
    out.append(&mut piece);
    out.push(32u8);
    push_dec(&mut out, status as u64);
    out.push(32u8);
    let mut reason = reason;
    out.append(&mut reason);
    let mut piece = crlf_bytes();
    out.append(&mut piece);
    let mut piece = server_line_bytes();
    out.append(&mut piece);
    let mut piece = content_length_prefix_bytes();
    out.append(&mut piece);
    push_dec(&mut out, body.len() as u64);
    let mut piece = crlf_bytes();
    out.append(&mut piece);
    let mut piece = content_type_prefix_bytes();
    out.append(&mut piece);
    let mut piece = get_content_type(&body);
    out.append(&mut piece);
    let mut piece = crlf_bytes();
    out.append(&mut piece);
    let mut piece = connection_close_line_bytes();
    out.append(&mut piece);
    let mut piece = crlf_bytes();
    out.append(&mut piece);
    let mut body = body;
    out.append(&mut body);
    assert(out@ =~= spec_render(resp.status as int, resp.reason@, resp.body@));
    out
}

} // verus!
