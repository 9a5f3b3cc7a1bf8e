//! The HTTP exchange itself.
//!
//! One request is a plain value — method, URL, header list, optional body —
//! built and reasoned about in verified code. Only the exchange goes through
//! `reqwest`, behind the trusted items below; nothing is promised of what the
//! network returns, and the classification of whatever came back is verified
//! separately.

use vstd::prelude::*;

use crate::errors::Error;

verus! {

/// The HTTP methods the engine can send.
#[derive(Clone, Copy, Debug)]
pub enum Method {
    Get,
    Post,
    Put,
    Delete,
}

/// One request, ready to send: everything the exchange needs, as plain
/// values.
#[derive(Debug)]
pub struct HttpRequest {
    pub method: Method,
    pub url: String,
    pub headers: Vec<(String, String)>,
    pub body: Option<Vec<u8>>,
}

#[verifier::external_type_specification]
#[verifier::external_body]
pub struct ExClient(reqwest::blocking::Client);

#[verifier::external_type_specification]
#[verifier::external_body]
pub struct ExRequestBuilder(reqwest::blocking::RequestBuilder);

#[verifier::external_type_specification]
#[verifier::external_body]
pub struct ExResponse(reqwest::blocking::Response);

/// Relies on `reqwest::blocking::Client::clone`: the handle shares one
/// transport, so cloning a client is cheap and changes nothing observable
/// here.
pub assume_specification[ <reqwest::blocking::Client as Clone>::clone ](
    c: &reqwest::blocking::Client,
) -> reqwest::blocking::Client;

/// Relies on `reqwest::blocking::ClientBuilder::build`: constructs the shared
/// transport handle, or reports why it could not.
#[verifier::external_body]
pub(crate) fn client_build() -> (r: Result<reqwest::blocking::Client, String>)
{
    reqwest::blocking::Client::builder().build().map_err(|e| format!("{}", e))
}

/// What a builder holds, as plain values.
pub struct BuiltRequest {
    pub method: Method,
    pub url: Seq<char>,
    pub headers: Seq<(Seq<char>, Seq<char>)>,
    pub body: Option<Seq<u8>>,
}

/// The model of a request builder: `None` where the builder has already
/// failed — an unusable URL, header name or header value — and can only
/// error at send; otherwise exactly what was set so far.
pub uninterp spec fn builder_model(rb: reqwest::blocking::RequestBuilder) -> Option<BuiltRequest>;

/// The views of a header list, pair by pair.
pub open spec fn header_views(headers: Seq<(String, String)>) -> Seq<(Seq<char>, Seq<char>)> {
    Seq::new(headers.len(), |i: int| (headers[i].0@, headers[i].1@))
}

/// The model of the builder that faithfully holds `req`.
pub open spec fn request_model(req: HttpRequest) -> BuiltRequest {
    BuiltRequest {
        method: req.method,
        url: req.url@,
        headers: header_views(req.headers@),
        body: match req.body {
            Some(b) => Some(b@),
            None => None,
        },
    }
}

/// Relies on `reqwest::blocking::Client::request`: starts one request with
/// the given method and URL, no headers and no body; an unusable URL leaves
/// the builder failed, surfacing as an error at send.
#[verifier::external_body]
fn client_request(
    client: &reqwest::blocking::Client,
    method: &Method,
    url: &str,
) -> (rb: reqwest::blocking::RequestBuilder)
    ensures
        builder_model(rb) matches Some(b) ==> b == (BuiltRequest {
            method: *method,
            url: url@,
            headers: Seq::empty(),
            body: None,
        }),
{
    let m = match method {
        Method::Get => reqwest::Method::GET,
        Method::Post => reqwest::Method::POST,
        Method::Put => reqwest::Method::PUT,
        Method::Delete => reqwest::Method::DELETE,
    };
    client.request(m, url)
}

/// Relies on `reqwest::blocking::RequestBuilder::header`: appends exactly
/// the one header; an unusable name or value leaves the builder failed,
/// surfacing as an error at send.
#[verifier::external_body]
fn builder_header(
    rb: reqwest::blocking::RequestBuilder,
    name: &str,
    value: &str,
) -> (r: reqwest::blocking::RequestBuilder)
    ensures
        match builder_model(rb) {
            Some(b) => builder_model(r) is None || builder_model(r) == Some(
                (BuiltRequest {
                    method: b.method,
                    url: b.url,
                    headers: b.headers.push((name@, value@)),
                    body: b.body,
                }),
            ),
            None => builder_model(r) is None,
        },
{
    rb.header(name, value)
}

/// Relies on `reqwest::blocking::RequestBuilder::body`: sets the request
/// body to exactly these bytes.
#[verifier::external_body]
fn builder_body(
    rb: reqwest::blocking::RequestBuilder,
    body: Vec<u8>,
) -> (r: reqwest::blocking::RequestBuilder)
    ensures
        match builder_model(rb) {
            Some(b) => builder_model(r) == Some(
                (BuiltRequest {
                    method: b.method,
                    url: b.url,
                    headers: b.headers,
                    body: Some(body@),
                }),
            ),
            None => builder_model(r) is None,
        },
{
    rb.body(body)
}

/// Relies on `reqwest::blocking::RequestBuilder::send`: performs the one
/// exchange; any failure to send is reported, never a panic, and a builder
/// that already failed can only error.
#[verifier::external_body]
fn builder_send(rb: reqwest::blocking::RequestBuilder) -> (r: Result<
    reqwest::blocking::Response,
    String,
>)
    ensures
        builder_model(rb) is None ==> r is Err,
{
    rb.send().map_err(|e| format!("{}", e))
}

/// Relies on `reqwest::blocking::Response::status` and
/// `http::StatusCode::as_u16`: the numeric status of the response.
#[verifier::external_body]
fn response_status(resp: &reqwest::blocking::Response) -> (r: u16)
{
    resp.status().as_u16()
}

/// Relies on `reqwest::blocking::Response::text`: reads the whole body into
/// memory; a failed or truncated read is reported, never a panic.
#[verifier::external_body]
fn response_text(resp: reqwest::blocking::Response) -> (r: Result<String, String>)
{
    resp.text().map_err(|e| format!("{}", e))
}

/// Builds the one request: exactly the method, URL, headers in order, and
/// body of `req` reach the builder, unless an unusable URL or header has
/// already failed it — in which case send can only error.
fn build(client: &reqwest::blocking::Client, req: HttpRequest) -> (rb:
    reqwest::blocking::RequestBuilder)
    ensures
        builder_model(rb) is None || builder_model(rb) == Some(request_model(req)),
{
    let ghost req0 = req;
    let HttpRequest { method, url, headers, body } = req;
    let mut rb = client_request(client, &method, url.as_str());
    proof {
        assert(header_views(req0.headers@.take(0)) =~= Seq::<(Seq<char>, Seq<char>)>::empty());
    }
    let n = headers.len();
    let mut i: usize = 0;
    while i < n
        invariant
            n == headers@.len(),
            i <= n,
            headers@ == req0.headers@,
            builder_model(rb) is None || builder_model(rb) == Some(
                (BuiltRequest {
                    method: req0.method,
                    url: req0.url@,
                    headers: header_views(req0.headers@.take(i as int)),
                    body: None,
                }),
            ),
        decreases n - i,
    {
        rb = builder_header(rb, headers[i].0.as_str(), headers[i].1.as_str());
        proof {
            assert(header_views(req0.headers@.take(i as int)).push(
                (headers@[i as int].0@, headers@[i as int].1@),
            ) =~= header_views(req0.headers@.take(i + 1)));
        }
        i = i + 1;
    }
    proof {
        assert(req0.headers@.take(n as int) == req0.headers@);
    }
    if let Some(bytes) = body {
        rb = builder_body(rb, bytes);
    }
    rb
}

/// Performs one HTTP exchange: builds the request faithfully (see `build`),
/// sends, and buffers the whole response. Every failure between sending and
/// reading is a `Transport` error; classification of the status and body is
/// the caller's.
pub(crate) fn execute(client: &reqwest::blocking::Client, req: HttpRequest) -> (r: Result<
    (u16, String),
    Error,
>)
    ensures
        r matches Err(e) ==> e is Transport,
{
    let rb = build(client, req);
    let resp = match builder_send(rb) {
        Ok(resp) => resp,
        Err(m) => {
            return Err(Error::Transport(m));
        },
    };
    let status = response_status(&resp);
    match response_text(resp) {
        Ok(text) => Ok((status, text)),
        Err(m) => Err(Error::Transport(m)),
    }
}

} // verus!
