//! Plain descriptions of the HTTP calls that a driver performs for the
//! library, and of what came back.

use vstd::prelude::*;

verus! {

/// The request methods that the remote API is called with.
#[derive(Debug, Clone, Copy, PartialEq, Eq, Structural)]
pub enum Method {
    Get,
    Post,
}

/// One header line of a request.
#[derive(Debug, Clone, PartialEq, Eq)]
pub struct Header {
    pub name: String,
    pub value: String,
}

impl View for Header {
    type V = (Seq<char>, Seq<char>);

    open spec fn view(&self) -> (Seq<char>, Seq<char>) {
        (self.name@, self.value@)
    }
}

/// A request for the driver to send.
#[derive(Debug, Clone, PartialEq, Eq)]
pub struct HttpRequest {
    pub method: Method,
    pub url: String,
    pub headers: Vec<Header>,
    pub body: Option<String>,
}

/// The mathematical content of an [`HttpRequest`].
pub struct HttpRequestView {
    pub method: Method,
    pub url: Seq<char>,
    pub headers: Seq<(Seq<char>, Seq<char>)>,
    pub body: Option<Seq<char>>,
}

impl View for HttpRequest {
    type V = HttpRequestView;

    open spec fn view(&self) -> HttpRequestView {
        HttpRequestView {
            method: self.method,
            url: self.url@,
            headers: self.headers@.map_values(|h: Header| h@),
            body: match self.body {
                Some(text) => Some(text@),
                None => None,
            },
        }
    }
}

/// What the driver observed after sending a request.
#[derive(Debug, Clone, PartialEq, Eq)]
pub enum HttpOutcome {
    /// No response arrived: the connection failed, timed out or broke off.
    Unreachable,
    /// The endpoint answered with this status line and body.
    Response { status: u16, body: Vec<u8> },
}

/// The mathematical content of an [`HttpOutcome`].
pub enum HttpOutcomeView {
    Unreachable,
    Response { status: u16, body: Seq<u8> },
}

impl View for HttpOutcome {
    type V = HttpOutcomeView;

    open spec fn view(&self) -> HttpOutcomeView {
        match *self {
            HttpOutcome::Unreachable => HttpOutcomeView::Unreachable,
            HttpOutcome::Response { status, body } => HttpOutcomeView::Response { status, body: body@ },
        }
    }
}

/// The status on which both endpoints deliver their document.
pub const STATUS_OK: u16 = 200;

impl HttpRequest {
    /// A request with the given method and address, no headers and no body.
    pub fn new(method: Method, url: &str) -> (r: HttpRequest)
        ensures
            r@ == (HttpRequestView { method, url: url@, headers: Seq::empty(), body: None }),
    {
        let r = HttpRequest { method, url: url.to_owned(), headers: Vec::new(), body: None };
        assert(r@.headers =~= Seq::empty());
        r
    }

    /// Appends one header line.
    pub fn header(self, name: &str, value: String) -> (r: HttpRequest)
        ensures
            r@ == (HttpRequestView { headers: self@.headers.push((name@, value@)), ..self@ }),
    {
        let ghost before = self@;
        let mut headers = self.headers;
        headers.push(Header { name: name.to_owned(), value });
        let r = HttpRequest { method: self.method, url: self.url, headers, body: self.body };
        assert(r@.headers =~= before.headers.push((name@, value@)));
        r
    }

    /// Sets the body.
    pub fn body(self, text: String) -> (r: HttpRequest)
        ensures
            r@ == (HttpRequestView { body: Some(text@), ..self@ }),
    {
        HttpRequest { method: self.method, url: self.url, headers: self.headers, body: Some(text) }
    }
}

} // verus!
