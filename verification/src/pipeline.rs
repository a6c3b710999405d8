//! The request-handling pipeline.
//!
//! For each inbound request the proxy decides, in this order: a blocked path
//! is answered 403 on the spot; a method other than GET or POST is answered
//! 405; everything else is forwarded to the configured upstream with the
//! inbound headers copied verbatim and the URI rewritten to
//! `target + path_and_query`. When the upstream call fails at the transport,
//! the client gets 502 `Bad Gateway`; when it succeeds, the response passes
//! through with one adjustment: a `Content-Type` value beginning with
//! `text/plain` is overwritten to `text/plain; charset=utf-8`.

use vstd::prelude::*;
use vstd::string::StringSliceAdditionalSpecFns;

use crate::blocklist::is_path_blocked;
use crate::blocklist::spec_is_blocked;
use crate::config::Config;
use crate::model::ForwardRequest;
use crate::model::HeaderEntry;
use crate::model::LocalResponse;
use crate::model::Method;
use crate::model::ProxyResponse;
use crate::model::RequestHead;
use crate::model::ResponseHead;
use crate::model::RouteDecision;
use crate::model::UpstreamOutcome;
use crate::model::method_allowed;

verus! {

/// A header at the spec level: name characters and value bytes.
pub type HeaderView = (Seq<char>, Seq<u8>);

/// The name of the header the rewriter inspects.
pub open spec fn content_type_name() -> Seq<char> {
    "content-type"@
}

/// The value prefix that marks a plain-text response.
pub open spec fn text_plain_prefix() -> Seq<u8> {
    "text/plain".spec_bytes()
}

/// The value the rewriter installs, discarding any previous parameters.
pub open spec fn utf8_content_type() -> Seq<u8> {
    "text/plain; charset=utf-8".spec_bytes()
}

/// Body of the 403 answer for a blocked path.
pub open spec fn forbidden_body() -> Seq<char> {
    "Access to this folder is forbidden"@
}

/// Body of the 405 answer for a method the proxy does not forward.
pub open spec fn method_not_allowed_body() -> Seq<char> {
    "method not allowed (we only use get and post.)"@
}

/// Body of the 502 answer when the upstream cannot be reached.
pub open spec fn bad_gateway_body() -> Seq<char> {
    "Bad Gateway"@
}

/// The URI of the forwarded request: the target base followed by the
/// inbound path and query, or by `/` when the request carries neither.
pub open spec fn spec_forward_uri(target: Seq<char>, pq: Option<Seq<char>>) -> Seq<char> {
    match pq {
        Some(s) => target + s,
        None => target + "/"@,
    }
}

/// Spec-level routing decision.
pub enum SpecRoute {
    Respond { status: u16, body: Seq<char> },
    Forward { method: Method, uri: Seq<char>, headers: Seq<HeaderView> },
}

/// What `route_request` decides, as a function of the request and the
/// configuration: blocked paths get 403 before anything else, disallowed
/// methods get 405, and the rest is forwarded with the headers verbatim.
pub open spec fn spec_route(
    method: Method,
    path: Seq<char>,
    pq: Option<Seq<char>>,
    headers: Seq<HeaderView>,
    target: Seq<char>,
    blocked: Seq<Seq<char>>,
) -> SpecRoute {
    if spec_is_blocked(path, blocked) {
        SpecRoute::Respond { status: 403, body: forbidden_body() }
    } else if !method_allowed(method) {
        SpecRoute::Respond { status: 405, body: method_not_allowed_body() }
    } else {
        SpecRoute::Forward { method, uri: spec_forward_uri(target, pq), headers }
    }
}

/// The decision an exec `RouteDecision` stands for.
pub open spec fn decision_view(d: RouteDecision) -> SpecRoute {
    match d {
        RouteDecision::Respond(l) => SpecRoute::Respond { status: l.status, body: l.body@ },
        RouteDecision::Forward(f) => SpecRoute::Forward {
            method: f.method,
            uri: f.uri@,
            headers: f.headers.deep_view(),
        },
    }
}

/// Index `i` holds the first `content-type` header of `hs`.
pub open spec fn is_first_content_type(hs: Seq<HeaderView>, i: int) -> bool {
    &&& 0 <= i < hs.len()
    &&& hs[i].0 == content_type_name()
    &&& forall|j: int| 0 <= j < i ==> hs[j].0 != content_type_name()
}

/// The value bytes begin with `text/plain`.
pub open spec fn starts_with_text_plain(v: Seq<u8>) -> bool {
    v.len() >= text_plain_prefix().len() && v.subrange(
        0,
        text_plain_prefix().len() as int,
    ) == text_plain_prefix()
}

/// The rewriter overwrites exactly the entry at `i`: the first
/// `content-type` header, when its value begins with `text/plain`.
pub open spec fn rewrites_at(hs: Seq<HeaderView>, i: int) -> bool {
    is_first_content_type(hs, i) && starts_with_text_plain(hs[i].1)
}

/// The response headers after rewriting: every entry keeps its name and,
/// except for a plain-text `content-type`, its value.
pub open spec fn spec_rewrite_headers(hs: Seq<HeaderView>) -> Seq<HeaderView> {
    Seq::new(
        hs.len(),
        |i: int|
            if rewrites_at(hs, i) {
                (hs[i].0, utf8_content_type())
            } else {
                hs[i]
            },
    )
}

/// Spec-level upstream outcome.
pub enum SpecOutcome {
    Response { status: u16, headers: Seq<HeaderView> },
    TransportFailure,
}

/// Spec-level proxy response.
pub enum SpecProxyResponse {
    Local { status: u16, body: Seq<char> },
    Forwarded { status: u16, headers: Seq<HeaderView> },
}

/// The outcome an exec `UpstreamOutcome` stands for.
pub open spec fn outcome_view(o: UpstreamOutcome) -> SpecOutcome {
    match o {
        UpstreamOutcome::Response(h) => SpecOutcome::Response {
            status: h.status,
            headers: h.headers.deep_view(),
        },
        UpstreamOutcome::TransportFailure => SpecOutcome::TransportFailure,
    }
}

/// The response an exec `ProxyResponse` stands for.
pub open spec fn response_view(r: ProxyResponse) -> SpecProxyResponse {
    match r {
        ProxyResponse::Local(l) => SpecProxyResponse::Local { status: l.status, body: l.body@ },
        ProxyResponse::Forwarded(h) => SpecProxyResponse::Forwarded {
            status: h.status,
            headers: h.headers.deep_view(),
        },
    }
}

/// What the proxy answers once the upstream call has ended: 502 with body
/// `Bad Gateway` on transport failure, otherwise the upstream status with
/// the headers rewritten and the body passed through.
pub open spec fn spec_handle_upstream(o: SpecOutcome) -> SpecProxyResponse {
    match o {
        SpecOutcome::TransportFailure => SpecProxyResponse::Local {
            status: 502,
            body: bad_gateway_body(),
        },
        SpecOutcome::Response { status, headers } => SpecProxyResponse::Forwarded {
            status,
            headers: spec_rewrite_headers(headers),
        },
    }
}

/// Decide an inbound request: 403 for a blocked path, 405 for a method
/// other than GET or POST, otherwise the request to issue upstream, with
/// the inbound headers verbatim and the URI `target + path_and_query`
/// (defaulting to `/`).
pub fn route_request(req: RequestHead, config: &Config) -> (d: RouteDecision)
    ensures
        decision_view(d) == spec_route(
            req.method,
            req.path@,
            req.path_and_query.deep_view(),
            req.headers.deep_view(),
            config.target@,
            config.blocked_folders.deep_view(),
        ),
{
    let blocked_slice: &[String] = config.blocked_folders.as_slice();
    assert(blocked_slice.deep_view() =~= config.blocked_folders.deep_view());
    if is_path_blocked(req.path.as_str(), blocked_slice) {
        return RouteDecision::Respond(
            LocalResponse { status: 403, body: "Access to this folder is forbidden".to_owned() },
        );
    }
    if !(req.method == Method::Get || req.method == Method::Post) {
        return RouteDecision::Respond(
            LocalResponse {
                status: 405,
                body: "method not allowed (we only use get and post.)".to_owned(),
            },
        );
    }
    let uri: String = match &req.path_and_query {
        Some(pq) => config.target.clone().concat(pq.as_str()),
        None => config.target.clone().concat("/"),
    };
    RouteDecision::Forward(ForwardRequest { method: req.method, uri, headers: req.headers })
}

/// Whether the value bytes begin with `text/plain`.
fn value_starts_with_text_plain(v: &Vec<u8>) -> (r: bool)
    ensures
        r == starts_with_text_plain(v@),
{
    let prefix: Vec<u8> = "text/plain".as_bytes_vec();
    if v.len() < prefix.len() {
        return false;
    }
    let plen = prefix.len();
    let mut j: usize = 0;
    while j < plen
        invariant
            j <= plen,
            plen == text_plain_prefix().len(),
            prefix@ == text_plain_prefix(),
            plen <= v@.len(),
            forall|k: int| 0 <= k < j ==> v@[k] == text_plain_prefix()[k],
        decreases plen - j,
    {
        if v[j] != prefix[j] {
            assert(!starts_with_text_plain(v@)) by {
                if v@.subrange(0, text_plain_prefix().len() as int) == text_plain_prefix() {
                    assert(v@.subrange(0, text_plain_prefix().len() as int)[j as int] == v@[
                        j as int
                    ]);
                }
            }
            return false;
        }
        j += 1;
    }
    assert(v@.subrange(0, text_plain_prefix().len() as int) =~= text_plain_prefix());
    true
}

/// Rewrite the headers of an upstream response: when the first
/// `content-type` value begins with `text/plain`, overwrite it to exactly
/// `text/plain; charset=utf-8`; the status and every other entry stay as
/// they were.
pub fn rewrite_response(resp: ResponseHead) -> (r: ResponseHead)
    ensures
        r.status == resp.status,
        r.headers.deep_view() == spec_rewrite_headers(resp.headers.deep_view()),
{
    let ghost orig: Seq<HeaderView> = resp.headers.deep_view();
    let ResponseHead { status, headers } = resp;
    let mut headers = headers;
    let needle: String = "content-type".to_owned();
    let n = headers.len();
    let mut i: usize = 0;
    while i < n
        invariant
            i <= n,
            n == headers.len(),
            headers.deep_view() == orig,
            orig == resp.headers.deep_view(),
            status == resp.status,
            forall|j: int| 0 <= j < i ==> orig[j].0 != content_type_name(),
            needle@ == content_type_name(),
        decreases n - i,
    {
        assert(orig[i as int] == (headers@[i as int].name@, headers@[i as int].value@));
        if headers[i].name.eq(&needle) {
            if value_starts_with_text_plain(&headers[i].value) {
                let name = headers[i].name.clone();
                let fresh: Vec<u8> = "text/plain; charset=utf-8".as_bytes_vec();
                headers.set(i, HeaderEntry { name, value: fresh });
                assert(headers.deep_view() =~= spec_rewrite_headers(orig)) by {
                    assert(rewrites_at(orig, i as int));
                    assert(forall|k: int|
                        0 <= k < orig.len() && k != i ==> !rewrites_at(orig, k));
                    assert(headers.deep_view()[i as int] == (
                        orig[i as int].0,
                        utf8_content_type(),
                    ));
                }
            } else {
                assert(headers.deep_view() =~= spec_rewrite_headers(orig)) by {
                    assert(is_first_content_type(orig, i as int));
                    assert(forall|k: int| 0 <= k < orig.len() ==> !rewrites_at(orig, k));
                }
            }
            return ResponseHead { status, headers };
        }
        i += 1;
    }
    assert(headers.deep_view() =~= spec_rewrite_headers(orig)) by {
        assert(forall|k: int| 0 <= k < orig.len() ==> !rewrites_at(orig, k));
    }
    ResponseHead { status, headers }
}

/// Turn the outcome of the upstream call into the proxy's answer: a
/// transport failure becomes 502 `Bad Gateway`; a response passes through
/// with its headers rewritten and its status and body untouched.
pub fn upstream_to_proxy_response(outcome: UpstreamOutcome) -> (r: ProxyResponse)
    ensures
        response_view(r) == spec_handle_upstream(outcome_view(outcome)),
{
    match outcome {
        UpstreamOutcome::Response(head) => ProxyResponse::Forwarded(rewrite_response(head)),
        UpstreamOutcome::TransportFailure => ProxyResponse::Local(
            LocalResponse { status: 502, body: "Bad Gateway".to_owned() },
        ),
    }
}

} // verus!
