use vstd::prelude::*;

use crate::routing::{get, HandlerId, Method, RouteView, Router};
use crate::session::{Config, Session};

verus! {

/// The route entries this module serves: exactly `GET /b`.
pub open spec fn routes_spec() -> Seq<RouteView> {
    seq![RouteView { path: "/b"@, method: Method::Get, handler: HandlerId::BufferView }]
}

/// The table for the buffer view.
pub fn router() -> (r: Router)
    ensures
        r@ == routes_spec(),
{
    let r = Router::new().route("/b", get(HandlerId::BufferView));
    proof {
        assert(r@ =~~= routes_spec());
    }
    r
}

/// The payload of the buffer view: `"buffer"` whenever the request
/// is granted (authentication disabled, or an authenticated session
/// present), and the configured fallback otherwise.
pub open spec fn b_response_spec(cfg: &Config, session: &Session) -> Seq<char> {
    if cfg.grants(session) {
        "buffer"@
    } else {
        cfg.unauth_default@
    }
}

/// Serves the buffer view for one request.
pub fn b(cfg: &Config, session: &Session) -> (r: String)
    ensures
        r@ == b_response_spec(cfg, session),
{
    match session {
        Session::Authenticated(_) => String::from_str("buffer"),
        Session::Anonymous => {
            if cfg.auth_enabled {
                cfg.unauth_default.clone()
            } else {
                String::from_str("buffer")
            }
        },
    }
}

} // verus!
