use vstd::prelude::*;

use crate::routing::{get, HandlerId, Method, RouteView, Router};
use crate::session::{Config, Session};
use crate::text::{contains_substr, lemma_contains_substr_concat_right};

verus! {

/// The route entries this module serves: exactly `GET /`.
pub open spec fn routes_spec() -> Seq<RouteView> {
    seq![RouteView { path: "/"@, method: Method::Get, handler: HandlerId::Index }]
}

/// The table for the front page.
pub fn router() -> (r: Router)
    ensures
        r@ == routes_spec(),
{
    let r = Router::new().route("/", get(HandlerId::Index));
    proof {
        assert(r@ =~~= routes_spec());
    }
    r
}

/// The help lines of the front page, pointing at the other endpoints.
pub open spec fn help_lines() -> Seq<char> {
    "\n/el -- execute elisp\n/b -- view buffers"@
}

/// The payload of the front page. With authentication disabled the
/// operator line reads `nil`; with it enabled an authenticated session
/// sees its own identity descriptor on that line, and an anonymous
/// request gets the configured fallback.
pub open spec fn index_response_spec(cfg: &Config, session: &Session) -> Seq<char> {
    if !cfg.auth_enabled {
        "operator: nil"@ + help_lines()
    } else {
        match session {
            Session::Authenticated(id) => "operator: "@ + id.descriptor@ + help_lines(),
            Session::Anonymous => cfg.unauth_default@,
        }
    }
}

/// Serves the front page for one request.
pub fn index(cfg: &Config, session: &Session) -> (r: String)
    ensures
        r@ == index_response_spec(cfg, session),
{
    if !cfg.auth_enabled {
        let mut r = String::from_str("operator: nil");
        r.append("\n/el -- execute elisp\n/b -- view buffers");
        r
    } else {
        match session {
            Session::Authenticated(id) => {
                let mut r = String::from_str("operator: ");
                r.append(id.descriptor.as_str());
                r.append("\n/el -- execute elisp\n/b -- view buffers");
                r
            },
            Session::Anonymous => cfg.unauth_default.clone(),
        }
    }
}

/// The help lines name the elisp endpoint and the buffer view.
proof fn lemma_help_lines_have_links()
    ensures
        contains_substr(help_lines(), "/el"@),
        contains_substr(help_lines(), "/b"@),
{
    reveal_strlit("\n/el -- execute elisp\n/b -- view buffers");
    reveal_strlit("/el");
    reveal_strlit("/b");
    assert(help_lines().subrange(1int, 1int + "/el"@.len()) =~= "/el"@);
    assert(help_lines().subrange(22int, 22int + "/b"@.len()) =~= "/b"@);
}

/// Wherever the request is granted (authentication disabled, or
/// an authenticated session present), the front page names the
/// `/el` and `/b` endpoints. An anonymous request under enforced
/// authentication gets the configured fallback instead, of whose text
/// nothing is promised.
pub proof fn lemma_index_help_links(cfg: &Config, session: &Session)
    requires
        cfg.grants(session),
    ensures
        contains_substr(index_response_spec(cfg, session), "/el"@),
        contains_substr(index_response_spec(cfg, session), "/b"@),
{
    lemma_help_lines_have_links();
    if !cfg.auth_enabled {
        lemma_contains_substr_concat_right("operator: nil"@, help_lines(), "/el"@);
        lemma_contains_substr_concat_right("operator: nil"@, help_lines(), "/b"@);
    } else {
        match session {
            Session::Authenticated(id) => {
                lemma_contains_substr_concat_right(
                    "operator: "@ + id.descriptor@,
                    help_lines(),
                    "/el"@,
                );
                lemma_contains_substr_concat_right(
                    "operator: "@ + id.descriptor@,
                    help_lines(),
                    "/b"@,
                );
            },
            Session::Anonymous => {
            },
        }
    }
}

/// The payload of the org index. The feature itself is future work:
/// an authenticated request gets an empty body, an anonymous one the
/// configured fallback, and with authentication disabled the
/// placeholder name of the endpoint.
pub open spec fn org_index_response_spec(cfg: &Config, session: &Session) -> Seq<char> {
    if !cfg.auth_enabled {
        "org_index"@
    } else {
        match session {
            Session::Authenticated(_) => Seq::<char>::empty(),
            Session::Anonymous => cfg.unauth_default@,
        }
    }
}

/// Serves the org index stub for one request.
pub fn org_index(cfg: &Config, session: &Session) -> (r: String)
    ensures
        r@ == org_index_response_spec(cfg, session),
{
    if !cfg.auth_enabled {
        String::from_str("org_index")
    } else {
        match session {
            Session::Authenticated(_) => String::new(),
            Session::Anonymous => cfg.unauth_default.clone(),
        }
    }
}

} // verus!
