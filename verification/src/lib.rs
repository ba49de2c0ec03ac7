//! A minimal HTTP/1.1 static file server, with its request handling verified.
//!
//! The library covers the whole decision pipeline of the server: parsing the
//! request line out of the raw bytes read from a socket, routing on the
//! method, resolving the requested path to a file path under the document
//! root, and framing the HTTP response bytes. All of it works on plain byte
//! vectors, so every step carries a contract. The surrounding binary does the
//! socket and file I/O and hands the bytes in and out: it reads one request,
//! asks [`handler::plan_request`] what to do with it, performs the file read
//! a [`handler::Plan::Serve`] asks for, turns the outcome into a response
//! with [`handler::file_outcome`], and writes the bytes that
//! [`response::render_response`] produces.

pub mod ascii;
pub mod handler;
pub mod laws;
pub mod request;
pub mod response;
pub mod text;

pub use ascii::bytes_eq;
pub use handler::{file_outcome, plan_request, Plan};
pub use response::{get_content_type, render_response, Response};
