//! The fixed policy of outbound HTTP requests.
//!
//! Nothing here touches the network. A [`Request`] says what is to be sent;
//! sending it, with a client built from [`TIMEOUT_SECS`] and [`USER_AGENT`],
//! is the caller's part.

use vstd::prelude::*;
use vstd::string::*;

verus! {

/// The seconds after which a request is given up: half an hour.
pub const TIMEOUT_SECS: u64 = 60 * 30;

/// The user agent that every request names.
pub const USER_AGENT: &'static str =
    "Mozilla/5.0 (Windows NT 10.0; Win64; x64) AppleWebKit/537.36 (KHTML, like Gecko) Chrome/131.0.0.0 Safari/537.36";

/// How a request asks.
#[derive(Clone, Copy, Debug, PartialEq, Eq, Structural)]
pub enum Method {
    Get,
    Post,
}

/// One header line of a request.
#[derive(Clone, Copy, Debug)]
pub struct Header {
    pub name: &'static str,
    pub value: &'static str,
}

/// A request that has not been sent yet.
#[derive(Debug)]
pub struct Request {
    pub method: Method,
    pub url: String,
    pub headers: Vec<Header>,
}

/// The mathematical content of a [`Request`].
pub struct RequestView {
    pub method: Method,
    pub url: Seq<char>,
    pub headers: Seq<(Seq<char>, Seq<char>)>,
}

/// Header lines as pairs of name and value.
pub open spec fn lines(headers: Seq<Header>) -> Seq<(Seq<char>, Seq<char>)> {
    Seq::new(headers.len(), |i: int| (headers[i].name@, headers[i].value@))
}

impl View for Request {
    type V = RequestView;

    open spec fn view(&self) -> RequestView {
        RequestView { method: self.method, url: self.url@, headers: lines(self.headers@) }
    }
}

/// The header lines that every request carries.
pub open spec fn fixed_headers() -> Seq<(Seq<char>, Seq<char>)> {
    seq![("Accept"@, "*/*"@), ("Connection"@, "Keep-Alive"@)]
}

impl Request {
    /// A request to `url` without header lines.
    pub fn new(method: Method, url: &str) -> (request: Request)
        ensures
            request@ == (RequestView { method, url: url@, headers: Seq::empty() }),
    {
        let request = Request { method, url: String::from_str(url), headers: Vec::new() };
        assert(lines(request.headers@) =~= Seq::empty());
        request
    }
}

/// Adds the fixed header lines to a request, after those it has, and leaves
/// the rest of it as it is.
pub fn config_request(request: Request) -> (configured: Request)
    ensures
        configured@ == (RequestView { headers: request@.headers + fixed_headers(), ..request@ }),
{
    let mut configured = request;
    configured.headers.push(Header { name: "Accept", value: "*/*" });
    configured.headers.push(Header { name: "Connection", value: "Keep-Alive" });
    assert(lines(configured.headers@) =~= lines(request.headers@) + fixed_headers());
    configured
}

/// The request that fetches `url`.
pub fn get_request(url: &str) -> (request: Request)
    ensures
        request@ == (RequestView { method: Method::Get, url: url@, headers: fixed_headers() }),
{
    config_request(Request::new(Method::Get, url))
}

/// The request that posts a JSON document to `url`. The document itself is
/// attached by the caller.
pub fn post_json_request(url: &str) -> (request: Request)
    ensures
        request@ == (RequestView { method: Method::Post, url: url@, headers: fixed_headers() }),
{
    config_request(Request::new(Method::Post, url))
}

} // verus!
