//! The per-connection decisions: route a parsed request to a file lookup or
//! an immediate error response, and turn the outcome of the file read into
//! the response that is sent.

use vstd::prelude::*;
use crate::ascii::{bytes_eq, copy_bytes};
use crate::request::{request_tokens, spec_request_tokens};
use crate::response::Response;
use crate::text::{
    bad_request_body, bad_request_body_bytes, document_root, document_root_bytes, get_method,
    get_method_bytes, index_html_path, index_html_path_bytes, method_not_allowed_body,
    method_not_allowed_body_bytes, not_found_body, not_found_body_bytes, reason_bad_request,
    reason_bad_request_bytes, reason_method_not_allowed, reason_method_not_allowed_bytes,
    reason_not_found, reason_not_found_bytes, reason_ok, reason_ok_bytes, root_path,
    root_path_bytes,
};

verus! {

/// The request path after normalization: the bare root `/` stands for
/// `/index.html`; every other path stands for itself.
pub open spec fn spec_normalize_path(p: Seq<u8>) -> Seq<u8> {
    if p == root_path() {
        index_html_path()
    } else {
        p
    }
}

/// The filesystem path a request path is looked up under: the document root
/// directory name directly followed by the normalized request path.
pub open spec fn spec_file_path(p: Seq<u8>) -> Seq<u8> {
    document_root() + spec_normalize_path(p)
}

/// A malformed request: its first line has fewer than two
/// whitespace-separated tokens.
pub open spec fn spec_is_malformed(data: Seq<u8>) -> bool {
    spec_request_tokens(data).len() < 2
}

/// A well-formed GET request: at least two tokens, the first being `GET`.
pub open spec fn spec_is_get(data: Seq<u8>) -> bool {
    &&& spec_request_tokens(data).len() >= 2
    &&& spec_request_tokens(data)[0] == get_method()
}

/// A well-formed request whose method is anything but `GET`.
pub open spec fn spec_is_unsupported(data: Seq<u8>) -> bool {
    &&& spec_request_tokens(data).len() >= 2
    &&& spec_request_tokens(data)[0] != get_method()
}

/// What the server does with one raw request.
pub enum Plan {
    /// A GET request: look this path up on the filesystem and serve the file.
    Serve { file_path: Vec<u8> },
    /// Anything else: send this response at once.
    Reply { response: Response },
}

/// Routes one raw request buffer.
///
/// A GET request with a path becomes a file lookup under the document root;
/// a request with two tokens and any other method becomes a 405 with the
/// fixed `Only GET method is supported` body; a request line with fewer than
/// two tokens becomes a 400 with the fixed `Invalid request format` body.
pub fn plan_request(data: &Vec<u8>) -> (plan: Plan)
    ensures
        match plan {
            Plan::Serve { file_path } => spec_is_get(data@) && file_path@ == spec_file_path(
                spec_request_tokens(data@)[1],
            ),
            Plan::Reply { response } => if spec_is_malformed(data@) {
                response.status == 400 && response.reason@ == reason_bad_request()
                    && response.body@ == bad_request_body()
            } else {
                spec_is_unsupported(data@) && response.status == 405 && response.reason@
                    == reason_method_not_allowed() && response.body@ == method_not_allowed_body()
            },
        },
{
    let toks = request_tokens(data);
    if toks.len() >= 2 {
        proof {
            assert(toks.deep_view()[0] == toks@[0].deep_view());
            assert(toks@[0].deep_view() =~= toks@[0]@);
            assert(toks.deep_view()[1] == toks@[1].deep_view());
            assert(toks@[1].deep_view() =~= toks@[1]@);
        }
        let getm = get_method_bytes();
        if bytes_eq(&toks[0], &getm) {
            let root = root_path_bytes();
            let mut norm = if bytes_eq(&toks[1], &root) {
                index_html_path_bytes()
            } else {
                copy_bytes(&toks[1])
            };
            let mut file_path = document_root_bytes();
            file_path.append(&mut norm);
            Plan::Serve { file_path }
        } else {
            Plan::Reply {
                response: Response {
                    status: 405,
                    reason: reason_method_not_allowed_bytes(),
                    body: method_not_allowed_body_bytes(),
                },
            }
        }
    } else {
        Plan::Reply {
            response: Response {
                status: 400,
                reason: reason_bad_request_bytes(),
                body: bad_request_body_bytes(),
            },
        }
    }
}

/// Turns the outcome of the file read into the response the client gets: the
/// complete contents with 200 `OK` when the read succeeded, the fixed
/// `The requested file was not found` body with 404 `Not Found` when it
/// failed for any reason.
pub fn file_outcome(read: Option<Vec<u8>>) -> (r: Response)
    ensures
        match read {
            Some(contents) => r.status == 200 && r.reason@ == reason_ok() && r.body@ == contents@,
            None => r.status == 404 && r.reason@ == reason_not_found() && r.body@
                == not_found_body(),
        },
{
    match read {
        Some(contents) => Response { status: 200, reason: reason_ok_bytes(), body: contents },
        None => Response {
            status: 404,
            reason: reason_not_found_bytes(),
            body: not_found_body_bytes(),
        },
    }
}

} // verus!
