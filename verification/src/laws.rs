//! The guarantees that tie the pieces together, stated once as proved laws.

use vstd::prelude::*;
use crate::ascii::{dec_rep, dec_value, lemma_dec_rep_value};
use crate::handler::{spec_file_path, spec_is_get};
use crate::request::spec_request_tokens;
use crate::response::{
    spec_content_length_line, spec_content_type, spec_content_type_line, spec_is_html,
    spec_render, spec_status_line,
};
use crate::text::{
    connection_close_line, content_length_prefix, content_type_html, content_type_plain, crlf,
    index_html_path, reason_ok, root_path, server_line,
};

verus! {

/// A served file comes back verbatim. For any file contents, the rendered
/// 200 response is the status line and the fixed headers followed by the
/// contents unchanged; the `Content-Length` digits in it denote exactly the
/// contents' byte length; and the response's trailing bytes are the contents
/// themselves.
pub proof fn lemma_served_contents_verbatim(contents: Seq<u8>)
    ensures
        spec_render(200, reason_ok(), contents) == spec_status_line(200, reason_ok())
            + server_line() + spec_content_length_line(contents) + spec_content_type_line(contents)
            + connection_close_line() + crlf() + contents,
        spec_content_length_line(contents) == content_length_prefix() + dec_rep(
            contents.len() as int,
        ) + crlf(),
        dec_value(dec_rep(contents.len() as int)) == contents.len(),
        ({
            let r = spec_render(200, reason_ok(), contents);
            r.subrange(r.len() - contents.len(), r.len() as int) == contents
        }),
{
    lemma_dec_rep_value(contents.len() as int);
    let r = spec_render(200, reason_ok(), contents);
    assert(r.subrange(r.len() - contents.len(), r.len() as int) =~= contents);
}

/// Requesting `/` and requesting `/index.html` are the same request: both
/// resolve to the same file path under the document root, so on the same
/// file tree they are answered with identical responses.
pub proof fn lemma_root_is_index(d1: Seq<u8>, d2: Seq<u8>)
    requires
        spec_is_get(d1),
        spec_is_get(d2),
        spec_request_tokens(d1)[1] == root_path(),
        spec_request_tokens(d2)[1] == index_html_path(),
    ensures
        spec_file_path(spec_request_tokens(d1)[1]) == spec_file_path(
            spec_request_tokens(d2)[1],
        ),
{
}

/// The content-type heuristic, both ways: a body whose bytes after leading
/// whitespace begin with `<!DOCTYPE html>` or `<html` is served as HTML, and
/// every other body as plain text.
pub proof fn lemma_content_type_classification(body: Seq<u8>)
    ensures
        spec_is_html(body) <==> spec_content_type(body) == content_type_html(),
        !spec_is_html(body) <==> spec_content_type(body) == content_type_plain(),
{
    assert(content_type_html()[5] != content_type_plain()[5]);
}

} // verus!
