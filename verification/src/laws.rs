//! Laws of the pipeline, stated over the spec-level model that the exec
//! functions are proved against.

use vstd::prelude::*;

use crate::blocklist::spec_is_blocked;
use crate::model::Method;
use crate::model::method_allowed;
use crate::pipeline::HeaderView;
use crate::pipeline::SpecOutcome;
use crate::pipeline::SpecProxyResponse;
use crate::pipeline::SpecRoute;
use crate::pipeline::bad_gateway_body;
use crate::pipeline::forbidden_body;
use crate::pipeline::method_not_allowed_body;
use crate::pipeline::rewrites_at;
use crate::pipeline::spec_forward_uri;
use crate::pipeline::spec_handle_upstream;
use crate::pipeline::spec_rewrite_headers;
use crate::pipeline::spec_route;
use crate::pipeline::utf8_content_type;

verus! {

/// A GET to a path that is not blocked is forwarded, and whatever response
/// the upstream then gives comes back with its status untouched and its
/// headers rewritten only at a plain-text `content-type`: that entry's
/// value becomes exactly `text/plain; charset=utf-8`, every other entry
/// keeps name and value. The body is the upstream's by construction, since
/// a forwarded response never carries one of its own.
pub proof fn lemma_get_forwarded_and_rewritten(
    path: Seq<char>,
    pq: Option<Seq<char>>,
    headers: Seq<HeaderView>,
    target: Seq<char>,
    blocked: Seq<Seq<char>>,
    status: u16,
    upstream_headers: Seq<HeaderView>,
)
    requires
        !spec_is_blocked(path, blocked),
    ensures
        spec_route(Method::Get, path, pq, headers, target, blocked) == (SpecRoute::Forward {
            method: Method::Get,
            uri: spec_forward_uri(target, pq),
            headers,
        }),
        spec_handle_upstream(SpecOutcome::Response { status, headers: upstream_headers })
            == (SpecProxyResponse::Forwarded {
            status,
            headers: spec_rewrite_headers(upstream_headers),
        }),
        spec_rewrite_headers(upstream_headers).len() == upstream_headers.len(),
        forall|i: int|
            0 <= i < upstream_headers.len() && !rewrites_at(upstream_headers, i)
                ==> #[trigger] spec_rewrite_headers(upstream_headers)[i] == upstream_headers[i],
        forall|i: int|
            0 <= i < upstream_headers.len() && rewrites_at(upstream_headers, i)
                ==> #[trigger] spec_rewrite_headers(upstream_headers)[i] == (
            upstream_headers[i].0,
            utf8_content_type(),
            ),
{
}

/// A request whose method is neither GET nor POST is never forwarded, so
/// the upstream is never contacted for it; when its path is not blocked,
/// the answer is 405 with the fixed explanatory body. (On a blocked path
/// the block wins and the answer is 403 instead.)
pub proof fn lemma_disallowed_method_never_forwarded(
    method: Method,
    path: Seq<char>,
    pq: Option<Seq<char>>,
    headers: Seq<HeaderView>,
    target: Seq<char>,
    blocked: Seq<Seq<char>>,
)
    requires
        !method_allowed(method),
    ensures
        !(spec_route(method, path, pq, headers, target, blocked) matches SpecRoute::Forward {
            ..
        }),
        !spec_is_blocked(path, blocked) ==> spec_route(method, path, pq, headers, target, blocked)
            == (SpecRoute::Respond { status: 405, body: method_not_allowed_body() }),
{
}

/// A request for a blocked path is answered 403 with the fixed body and is
/// never forwarded, whatever its method: the upstream is not contacted, so
/// the answer does not depend on the upstream being reachable.
pub proof fn lemma_blocked_path_short_circuits(
    method: Method,
    path: Seq<char>,
    pq: Option<Seq<char>>,
    headers: Seq<HeaderView>,
    target: Seq<char>,
    blocked: Seq<Seq<char>>,
)
    requires
        spec_is_blocked(path, blocked),
    ensures
        spec_route(method, path, pq, headers, target, blocked) == (SpecRoute::Respond {
            status: 403,
            body: forbidden_body(),
        }),
{
}

/// When the upstream cannot be reached, the client gets 502 with the body
/// `Bad Gateway`, whatever the request was.
pub proof fn lemma_unreachable_upstream_bad_gateway()
    ensures
        spec_handle_upstream(SpecOutcome::TransportFailure) == (SpecProxyResponse::Local {
            status: 502,
            body: bad_gateway_body(),
        }),
{
}

/// A forwarded request carries the inbound headers verbatim, in order:
/// whenever routing decides to forward, the outbound header sequence is the
/// inbound one.
pub proof fn lemma_headers_forwarded_verbatim(
    method: Method,
    path: Seq<char>,
    pq: Option<Seq<char>>,
    headers: Seq<HeaderView>,
    target: Seq<char>,
    blocked: Seq<Seq<char>>,
)
    requires
        !spec_is_blocked(path, blocked),
        method_allowed(method),
    ensures
        spec_route(method, path, pq, headers, target, blocked) == (SpecRoute::Forward {
            method,
            uri: spec_forward_uri(target, pq),
            headers,
        }),
{
}

/// The pipeline holds no state: both decisions are functions of their
/// inputs alone, so two identical requests, and two identical upstream
/// outcomes, always produce identical answers.
pub proof fn lemma_pipeline_deterministic(
    method1: Method,
    path1: Seq<char>,
    pq1: Option<Seq<char>>,
    headers1: Seq<HeaderView>,
    target1: Seq<char>,
    blocked1: Seq<Seq<char>>,
    o1: SpecOutcome,
    method2: Method,
    path2: Seq<char>,
    pq2: Option<Seq<char>>,
    headers2: Seq<HeaderView>,
    target2: Seq<char>,
    blocked2: Seq<Seq<char>>,
    o2: SpecOutcome,
)
    requires
        method1 == method2,
        path1 == path2,
        pq1 == pq2,
        headers1 == headers2,
        target1 == target2,
        blocked1 == blocked2,
        o1 == o2,
    ensures
        spec_route(method1, path1, pq1, headers1, target1, blocked1) == spec_route(
            method2,
            path2,
            pq2,
            headers2,
            target2,
            blocked2,
        ),
        spec_handle_upstream(o1) == spec_handle_upstream(o2),
{
}

} // verus!
