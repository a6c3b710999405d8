//! Plain-value model of HTTP requests and responses.
//!
//! The surrounding server translates its transport types into these values
//! before asking the library for a decision, and translates the decision
//! back. Header values are kept as raw bytes, since a header value need not
//! be valid UTF-8; header names are the lowercase names the transport
//! reports. Bodies are not modelled: a locally synthesized response carries
//! its fixed text, and a forwarded response keeps the upstream body stream
//! untouched.

use vstd::prelude::*;

verus! {

/// The request method, as far as the proxy distinguishes methods: only GET
/// and POST are ever forwarded.
#[derive(Clone, Copy, Debug, PartialEq, Eq, Structural)]
pub enum Method {
    Get,
    Post,
    Put,
    Delete,
    Patch,
    Head,
    Options,
    Connect,
    Trace,
    Other,
}

/// Whether the proxy forwards requests of this method at all.
pub open spec fn method_allowed(m: Method) -> bool {
    m == Method::Get || m == Method::Post
}

/// One header, as received: lowercase name and raw value bytes.
#[derive(Clone, Debug, PartialEq, Eq)]
pub struct HeaderEntry {
    pub name: String,
    pub value: Vec<u8>,
}

impl View for HeaderEntry {
    type V = (Seq<char>, Seq<u8>);

    open spec fn view(&self) -> (Seq<char>, Seq<u8>) {
        (self.name@, self.value@)
    }
}

impl DeepView for HeaderEntry {
    type V = (Seq<char>, Seq<u8>);

    open spec fn deep_view(&self) -> (Seq<char>, Seq<u8>) {
        (self.name@, self.value@)
    }
}

/// The parts of an inbound request that the proxy inspects or copies.
/// `path` is the URI path alone; `path_and_query` is the full path plus
/// query, absent when the URI carries neither.
#[derive(Clone, Debug, PartialEq, Eq)]
pub struct RequestHead {
    pub method: Method,
    pub path: String,
    pub path_and_query: Option<String>,
    pub headers: Vec<HeaderEntry>,
}

/// The status and headers of an upstream response; the body stays with the
/// transport and is passed through untouched.
#[derive(Clone, Debug, PartialEq, Eq)]
pub struct ResponseHead {
    pub status: u16,
    pub headers: Vec<HeaderEntry>,
}

/// A response the proxy synthesizes itself: a status code and a fixed
/// plain-text body.
#[derive(Clone, Debug, PartialEq, Eq)]
pub struct LocalResponse {
    pub status: u16,
    pub body: String,
}

/// The request to issue upstream: the inbound method and headers verbatim,
/// and the rewritten URI.
#[derive(Clone, Debug, PartialEq, Eq)]
pub struct ForwardRequest {
    pub method: Method,
    pub uri: String,
    pub headers: Vec<HeaderEntry>,
}

/// What to do with an inbound request: answer it locally (blocked path or
/// disallowed method) or forward it upstream.
#[derive(Clone, Debug, PartialEq, Eq)]
pub enum RouteDecision {
    Respond(LocalResponse),
    Forward(ForwardRequest),
}

/// How the upstream call ended: a response arrived, or the transport failed
/// (connection refused, reset, and the like) and no response exists.
#[derive(Clone, Debug, PartialEq, Eq)]
pub enum UpstreamOutcome {
    Response(ResponseHead),
    TransportFailure,
}

/// The proxy's answer to the client: a synthesized response with its own
/// body, or the upstream response (possibly with a rewritten content type)
/// whose body is passed through.
#[derive(Clone, Debug, PartialEq, Eq)]
pub enum ProxyResponse {
    Local(LocalResponse),
    Forwarded(ResponseHead),
}

} // verus!
