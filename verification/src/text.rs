//! The fixed byte strings of the wire protocol: method and path tokens, header
//! fragments, reason phrases and error bodies. Each has a spec-level value and
//! an executable builder proved to produce exactly that value.

use vstd::prelude::*;

verus! {

/// The one supported method token, `GET`.
pub open spec fn get_method() -> Seq<u8> {
    seq![71u8, 69u8, 84u8]
}

pub fn get_method_bytes() -> (r: Vec<u8>)
    ensures
        r@ == get_method(),
{
    let r: Vec<u8> = vec![71u8, 69u8, 84u8];
    assert(r@ =~= get_method());
    r
}

/// The bare root path, `/`.
pub open spec fn root_path() -> Seq<u8> {
    seq![47u8]
}

pub fn root_path_bytes() -> (r: Vec<u8>)
    ensures
        r@ == root_path(),
{
    let r: Vec<u8> = vec![47u8];
    assert(r@ =~= root_path());
    r
}

/// What the root path stands for, `/index.html`.
pub open spec fn index_html_path() -> Seq<u8> {
    seq![47u8, 105u8, 110u8, 100u8, 101u8, 120u8, 46u8, 104u8, 116u8, 109u8, 108u8]
}

pub fn index_html_path_bytes() -> (r: Vec<u8>)
    ensures
        r@ == index_html_path(),
{
    let r: Vec<u8> = vec![47u8, 105u8, 110u8, 100u8, 101u8, 120u8, 46u8, 104u8, 116u8, 109u8, 108u8];
    assert(r@ =~= index_html_path());
    r
}

/// The document root directory name, `public`.
pub open spec fn document_root() -> Seq<u8> {
    seq![112u8, 117u8, 98u8, 108u8, 105u8, 99u8]
}

pub fn document_root_bytes() -> (r: Vec<u8>)
    ensures
        r@ == document_root(),
{
    let r: Vec<u8> = vec![112u8, 117u8, 98u8, 108u8, 105u8, 99u8];
    assert(r@ =~= document_root());
    r
}

/// The protocol token of every status line, `HTTP/1.1`.
pub open spec fn http_version() -> Seq<u8> {
    seq![72u8, 84u8, 84u8, 80u8, 47u8, 49u8, 46u8, 49u8]
}

pub fn http_version_bytes() -> (r: Vec<u8>)
    ensures
        r@ == http_version(),
{
    let r: Vec<u8> = vec![72u8, 84u8, 84u8, 80u8, 47u8, 49u8, 46u8, 49u8];
    assert(r@ =~= http_version());
    r
}

/// A carriage return and line feed, ending every header line.
pub open spec fn crlf() -> Seq<u8> {
    seq![13u8, 10u8]
}

pub fn crlf_bytes() -> (r: Vec<u8>)
    ensures
        r@ == crlf(),
{
    let r: Vec<u8> = vec![13u8, 10u8];
    assert(r@ =~= crlf());
    r
}

/// The fixed server identification line, `Server: RustRawHTTP/1.0\r\n`.
pub open spec fn server_line() -> Seq<u8> {
    seq![
        83u8, 101u8, 114u8, 118u8, 101u8, 114u8, 58u8, 32u8, 82u8, 117u8, 115u8, 116u8, 82u8,
        97u8, 119u8, 72u8, 84u8, 84u8, 80u8, 47u8, 49u8, 46u8, 48u8, 13u8, 10u8,
    ]
}

pub fn server_line_bytes() -> (r: Vec<u8>)
    ensures
        r@ == server_line(),
{
    let r: Vec<u8> = vec![
        83u8, 101u8, 114u8, 118u8, 101u8, 114u8, 58u8, 32u8, 82u8, 117u8, 115u8, 116u8, 82u8,
        97u8, 119u8, 72u8, 84u8, 84u8, 80u8, 47u8, 49u8, 46u8, 48u8, 13u8, 10u8,
    ];
    assert(r@ =~= server_line());
    r
}

/// The header name `Content-Length: `, up to where the number goes.
pub open spec fn content_length_prefix() -> Seq<u8> {
    seq![
        67u8, 111u8, 110u8, 116u8, 101u8, 110u8, 116u8, 45u8, 76u8, 101u8, 110u8, 103u8, 116u8,
        104u8, 58u8, 32u8,
    ]
}

pub fn content_length_prefix_bytes() -> (r: Vec<u8>)
    ensures
        r@ == content_length_prefix(),
{
    let r: Vec<u8> = vec![
        67u8, 111u8, 110u8, 116u8, 101u8, 110u8, 116u8, 45u8, 76u8, 101u8, 110u8, 103u8, 116u8,
        104u8, 58u8, 32u8,
    ];
    assert(r@ =~= content_length_prefix());
    r
}

/// The header name `Content-Type: `, up to where the type goes.
pub open spec fn content_type_prefix() -> Seq<u8> {
    seq![
        67u8, 111u8, 110u8, 116u8, 101u8, 110u8, 116u8, 45u8, 84u8, 121u8, 112u8, 101u8, 58u8,
        32u8,
    ]
}

pub fn content_type_prefix_bytes() -> (r: Vec<u8>)
    ensures
        r@ == content_type_prefix(),
{
    let r: Vec<u8> = vec![
        67u8, 111u8, 110u8, 116u8, 101u8, 110u8, 116u8, 45u8, 84u8, 121u8, 112u8, 101u8, 58u8,
        32u8,
    ];
    assert(r@ =~= content_type_prefix());
    r
}

/// The fixed `Connection: close\r\n` line.
pub open spec fn connection_close_line() -> Seq<u8> {
    seq![
        67u8, 111u8, 110u8, 110u8, 101u8, 99u8, 116u8, 105u8, 111u8, 110u8, 58u8, 32u8, 99u8,
        108u8, 111u8, 115u8, 101u8, 13u8, 10u8,
    ]
}

pub fn connection_close_line_bytes() -> (r: Vec<u8>)
    ensures
        r@ == connection_close_line(),
{
    let r: Vec<u8> = vec![
        67u8, 111u8, 110u8, 110u8, 101u8, 99u8, 116u8, 105u8, 111u8, 110u8, 58u8, 32u8, 99u8,
        108u8, 111u8, 115u8, 101u8, 13u8, 10u8,
    ];
    assert(r@ =~= connection_close_line());
    r
}

/// The content type for HTML bodies, `text/html; charset=utf-8`.
pub open spec fn content_type_html() -> Seq<u8> {
    seq![
        116u8, 101u8, 120u8, 116u8, 47u8, 104u8, 116u8, 109u8, 108u8, 59u8, 32u8, 99u8, 104u8,
        97u8, 114u8, 115u8, 101u8, 116u8, 61u8, 117u8, 116u8, 102u8, 45u8, 56u8,
    ]
}

pub fn content_type_html_bytes() -> (r: Vec<u8>)
    ensures
        r@ == content_type_html(),
{
    let r: Vec<u8> = vec![
        116u8, 101u8, 120u8, 116u8, 47u8, 104u8, 116u8, 109u8, 108u8, 59u8, 32u8, 99u8, 104u8,
        97u8, 114u8, 115u8, 101u8, 116u8, 61u8, 117u8, 116u8, 102u8, 45u8, 56u8,
    ];
    assert(r@ =~= content_type_html());
    r
}

/// The content type for everything else, `text/plain; charset=utf-8`.
pub open spec fn content_type_plain() -> Seq<u8> {
    seq![
        116u8, 101u8, 120u8, 116u8, 47u8, 112u8, 108u8, 97u8, 105u8, 110u8, 59u8, 32u8, 99u8,
        104u8, 97u8, 114u8, 115u8, 101u8, 116u8, 61u8, 117u8, 116u8, 102u8, 45u8, 56u8,
    ]
}

pub fn content_type_plain_bytes() -> (r: Vec<u8>)
    ensures
        r@ == content_type_plain(),
{
    let r: Vec<u8> = vec![
        116u8, 101u8, 120u8, 116u8, 47u8, 112u8, 108u8, 97u8, 105u8, 110u8, 59u8, 32u8, 99u8,
        104u8, 97u8, 114u8, 115u8, 101u8, 116u8, 61u8, 117u8, 116u8, 102u8, 45u8, 56u8,
    ];
    assert(r@ =~= content_type_plain());
    r
}

/// The HTML marker `<!DOCTYPE html>`.
pub open spec fn doctype_marker() -> Seq<u8> {
    seq![
        60u8, 33u8, 68u8, 79u8, 67u8, 84u8, 89u8, 80u8, 69u8, 32u8, 104u8, 116u8, 109u8, 108u8,
        62u8,
    ]
}

pub fn doctype_marker_bytes() -> (r: Vec<u8>)
    ensures
        r@ == doctype_marker(),
{
    let r: Vec<u8> = vec![
        60u8, 33u8, 68u8, 79u8, 67u8, 84u8, 89u8, 80u8, 69u8, 32u8, 104u8, 116u8, 109u8, 108u8,
        62u8,
    ];
    assert(r@ =~= doctype_marker());
    r
}

/// The HTML marker `<html`.
pub open spec fn html_open_marker() -> Seq<u8> {
    seq![60u8, 104u8, 116u8, 109u8, 108u8]
}

pub fn html_open_marker_bytes() -> (r: Vec<u8>)
    ensures
        r@ == html_open_marker(),
{
    let r: Vec<u8> = vec![60u8, 104u8, 116u8, 109u8, 108u8];
    assert(r@ =~= html_open_marker());
    r
}

/// The reason phrase `OK`.
pub open spec fn reason_ok() -> Seq<u8> {
    seq![79u8, 75u8]
}

pub fn reason_ok_bytes() -> (r: Vec<u8>)
    ensures
        r@ == reason_ok(),
{
    let r: Vec<u8> = vec![79u8, 75u8];
    assert(r@ =~= reason_ok());
    r
}

/// The reason phrase `Not Found`.
pub open spec fn reason_not_found() -> Seq<u8> {
    seq![78u8, 111u8, 116u8, 32u8, 70u8, 111u8, 117u8, 110u8, 100u8]
}

pub fn reason_not_found_bytes() -> (r: Vec<u8>)
    ensures
        r@ == reason_not_found(),
{
    let r: Vec<u8> = vec![78u8, 111u8, 116u8, 32u8, 70u8, 111u8, 117u8, 110u8, 100u8];
    assert(r@ =~= reason_not_found());
    r
}

/// The reason phrase `Method Not Allowed`.
pub open spec fn reason_method_not_allowed() -> Seq<u8> {
    seq![
        77u8, 101u8, 116u8, 104u8, 111u8, 100u8, 32u8, 78u8, 111u8, 116u8, 32u8, 65u8, 108u8,
        108u8, 111u8, 119u8, 101u8, 100u8,
    ]
}

pub fn reason_method_not_allowed_bytes() -> (r: Vec<u8>)
    ensures
        r@ == reason_method_not_allowed(),
{
    let r: Vec<u8> = vec![
        77u8, 101u8, 116u8, 104u8, 111u8, 100u8, 32u8, 78u8, 111u8, 116u8, 32u8, 65u8, 108u8,
        108u8, 111u8, 119u8, 101u8, 100u8,
    ];
    assert(r@ =~= reason_method_not_allowed());
    r
}

/// The reason phrase `Bad Request`.
pub open spec fn reason_bad_request() -> Seq<u8> {
    seq![66u8, 97u8, 100u8, 32u8, 82u8, 101u8, 113u8, 117u8, 101u8, 115u8, 116u8]
}

pub fn reason_bad_request_bytes() -> (r: Vec<u8>)
    ensures
        r@ == reason_bad_request(),
{
    let r: Vec<u8> = vec![66u8, 97u8, 100u8, 32u8, 82u8, 101u8, 113u8, 117u8, 101u8, 115u8, 116u8];
    assert(r@ =~= reason_bad_request());
    r
}

/// The body sent with a 404, `The requested file was not found`.
pub open spec fn not_found_body() -> Seq<u8> {
    seq![
        84u8, 104u8, 101u8, 32u8, 114u8, 101u8, 113u8, 117u8, 101u8, 115u8, 116u8, 101u8, 100u8,
        32u8, 102u8, 105u8, 108u8, 101u8, 32u8, 119u8, 97u8, 115u8, 32u8, 110u8, 111u8, 116u8,
        32u8, 102u8, 111u8, 117u8, 110u8, 100u8,
    ]
}

pub fn not_found_body_bytes() -> (r: Vec<u8>)
    ensures
        r@ == not_found_body(),
{
    let r: Vec<u8> = vec![
        84u8, 104u8, 101u8, 32u8, 114u8, 101u8, 113u8, 117u8, 101u8, 115u8, 116u8, 101u8, 100u8,
        32u8, 102u8, 105u8, 108u8, 101u8, 32u8, 119u8, 97u8, 115u8, 32u8, 110u8, 111u8, 116u8,
        32u8, 102u8, 111u8, 117u8, 110u8, 100u8,
    ];
    assert(r@ =~= not_found_body());
    r
}

/// The body sent with a 405, `Only GET method is supported`.
pub open spec fn method_not_allowed_body() -> Seq<u8> {
    seq![
        79u8, 110u8, 108u8, 121u8, 32u8, 71u8, 69u8, 84u8, 32u8, 109u8, 101u8, 116u8, 104u8,
        111u8, 100u8, 32u8, 105u8, 115u8, 32u8, 115u8, 117u8, 112u8, 112u8, 111u8, 114u8, 116u8,
        101u8, 100u8,
    ]
}

pub fn method_not_allowed_body_bytes() -> (r: Vec<u8>)
    ensures
        r@ == method_not_allowed_body(),
{
    let r: Vec<u8> = vec![
        79u8, 110u8, 108u8, 121u8, 32u8, 71u8, 69u8, 84u8, 32u8, 109u8, 101u8, 116u8, 104u8,
        111u8, 100u8, 32u8, 105u8, 115u8, 32u8, 115u8, 117u8, 112u8, 112u8, 111u8, 114u8, 116u8,
        101u8, 100u8,
    ];
    assert(r@ =~= method_not_allowed_body());
    r
}

/// The body sent with a 400, `Invalid request format`.
pub open spec fn bad_request_body() -> Seq<u8> {
    seq![
        73u8, 110u8, 118u8, 97u8, 108u8, 105u8, 100u8, 32u8, 114u8, 101u8, 113u8, 117u8, 101u8,
        115u8, 116u8, 32u8, 102u8, 111u8, 114u8, 109u8, 97u8, 116u8,
    ]
}

pub fn bad_request_body_bytes() -> (r: Vec<u8>)
    ensures
        r@ == bad_request_body(),
{
    let r: Vec<u8> = vec![
        73u8, 110u8, 118u8, 97u8, 108u8, 105u8, 100u8, 32u8, 114u8, 101u8, 113u8, 117u8, 101u8,
        115u8, 116u8, 32u8, 102u8, 111u8, 114u8, 109u8, 97u8, 116u8,
    ];
    assert(r@ =~= bad_request_body());
    r
}

} // verus!
