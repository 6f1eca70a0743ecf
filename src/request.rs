//! The request pipeline's decisions: what a request is made of, which URL
//! it goes to, and whether a response is a success.

use vstd::prelude::*;

use crate::query::{pairs_view, PairView};
use crate::text::{push_text, starts_with, text_starts_with};

verus! {

/// Base URL of the data API; paths of requests are relative to it.
pub const DF_BASE_URL: &'static str = "https://api.neople.co.kr/df";

/// Base URL of the image API; its URLs are absolute.
pub const IMAGE_BASE_URL: &'static str = "https://img-api.neople.co.kr/df";

/// A GET request to send: a path (relative to [`DF_BASE_URL`], or an
/// absolute URL) that already holds any hand-encoded part of the query,
/// and the remaining `key=value` pairs, to be URL-encoded by the transport
/// and appended after it.
#[derive(Debug, Clone)]
pub struct Request {
    pub path: String,
    pub query: Vec<(String, String)>,
}

impl Request {
    /// The query pairs as text.
    pub open spec fn query_view(&self) -> Seq<PairView> {
        pairs_view(self.query@)
    }
}

/// The URL that a request path goes to.
pub open spec fn full_url_of(path: Seq<char>) -> Seq<char> {
    if starts_with(path, "https://"@) {
        path
    } else {
        DF_BASE_URL@ + path
    }
}

/// An absolute URL is used as it is; any other path is appended to the
/// base URL of the data API.
pub fn full_url(path: &str) -> (r: String)
    ensures
        r@ == full_url_of(path@),
{
    if text_starts_with(path, "https://") {
        path.to_owned()
    } else {
        let mut u = DF_BASE_URL.to_owned();
        push_text(&mut u, path);
        u
    }
}

/// A 2xx status is a success; any other carries an error body.
pub fn is_success(status: u16) -> (r: bool)
    ensures
        r == (200 <= status <= 299),
{
    200 <= status && status <= 299
}

} // verus!
