pub mod b;
pub mod index;

use vstd::prelude::*;

use crate::routing::{dispatch_spec, HandlerId, Method, RouteView, Router};
use crate::session::{Config, Session};

verus! {

/// The payload of the named handler under this configuration and
/// session.
pub open spec fn respond_spec(h: HandlerId, cfg: &Config, session: &Session) -> Seq<char> {
    match h {
        HandlerId::BufferView => b::b_response_spec(cfg, session),
        HandlerId::Index => index::index_response_spec(cfg, session),
        HandlerId::OrgIndex => index::org_index_response_spec(cfg, session),
    }
}

/// What one request produces against a route table: the matched
/// handler's payload, or nothing when no route matches.
pub open spec fn handle_spec(
    routes: Seq<RouteView>,
    cfg: &Config,
    path: Seq<char>,
    method: Method,
    session: &Session,
) -> Option<Seq<char>> {
    match dispatch_spec(routes, path, method) {
        Some(h) => Some(respond_spec(h, cfg, session)),
        None => None,
    }
}

/// The whole console's table: the front page, then the buffer view.
pub fn router() -> (r: Router)
    ensures
        r@ == index::routes_spec() + b::routes_spec(),
{
    index::router().merge(b::router())
}

/// Serves one request end to end: dispatch, then the matched
/// responder; `None` reports the not-found condition.
pub fn handle(router: &Router, cfg: &Config, path: &str, method: Method, session: &Session) -> (r:
    Option<String>)
    ensures
        r is Some <==> handle_spec(router@, cfg, path@, method, session) is Some,
        r is Some ==> r->0@ == handle_spec(router@, cfg, path@, method, session)->0,
{
    match router.dispatch(path, method) {
        Some(HandlerId::BufferView) => Some(b::b(cfg, session)),
        Some(HandlerId::Index) => Some(index::index(cfg, session)),
        Some(HandlerId::OrgIndex) => Some(index::org_index(cfg, session)),
        None => None,
    }
}

/// For every request to `/b` over the console's table, the body is the
/// buffer view's payload: `"buffer"` when authentication is disabled
/// or an authenticated session is present, and the configured fallback
/// for an anonymous request under enforced authentication.
pub proof fn lemma_b_request_payload(cfg: &Config, session: &Session)
    ensures
        handle_spec(index::routes_spec() + b::routes_spec(), cfg, "/b"@, Method::Get, session)
            == Some(b::b_response_spec(cfg, session)),
{
    reveal_strlit("/");
    reveal_strlit("/b");
    let s = index::routes_spec() + b::routes_spec();
    assert(s[0].path =~= "/"@);
    assert(s[0].path != "/b"@);
    assert(s.drop_first() =~= b::routes_spec());
    assert(s.drop_first()[0].path =~= "/b"@);
    assert(dispatch_spec(s.drop_first(), "/b"@, Method::Get) == Some(HandlerId::BufferView));
}

/// Toggling the authentication configuration, or swapping the session,
/// never changes which requests are routed: the same route table serves
/// the same paths, and only the payload per session state differs.
pub proof fn lemma_routing_independent_of_config(
    routes: Seq<RouteView>,
    path: Seq<char>,
    method: Method,
    cfg_a: &Config,
    session_a: &Session,
    cfg_b: &Config,
    session_b: &Session,
)
    ensures
        handle_spec(routes, cfg_a, path, method, session_a) is Some <==> handle_spec(
            routes,
            cfg_b,
            path,
            method,
            session_b,
        ) is Some,
{
}

} // verus!
