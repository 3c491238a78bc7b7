use opsite::api;
use opsite::api::b;
use opsite::api::index;
use opsite::routing::{get, HandlerId, Method, Router};
use opsite::session::{Config, Identity, Session};
use opsite::startup::{startup_lines, startup_log_level, LogLevel};

fn open_config() -> Config {
    Config { auth_enabled: false, unauth_default: String::from("please sign in") }
}

fn gated_config() -> Config {
    Config { auth_enabled: true, unauth_default: String::from("please sign in") }
}

fn operator() -> Session {
    Session::Authenticated(Identity { descriptor: String::from("ada") })
}

#[test]
fn b_auth_disabled_returns_buffer() {
    assert_eq!(b::b(&open_config(), &Session::Anonymous), "buffer");
    assert_eq!(b::b(&open_config(), &operator()), "buffer");
}

#[test]
fn b_gated_with_session_returns_buffer() {
    assert_eq!(b::b(&gated_config(), &operator()), "buffer");
}

#[test]
fn b_gated_anonymous_returns_fallback() {
    assert_eq!(b::b(&gated_config(), &Session::Anonymous), "please sign in");
}

#[test]
fn index_auth_disabled_mentions_endpoints() {
    let body = index::index(&open_config(), &Session::Anonymous);
    assert!(body.contains("/el"));
    assert!(body.contains("/b"));
    assert_eq!(body, "operator: nil\n/el -- execute elisp\n/b -- view buffers");
}

#[test]
fn index_gated_with_session_shows_identity() {
    let body = index::index(&gated_config(), &operator());
    assert!(body.contains("/el"));
    assert!(body.contains("/b"));
    assert_eq!(body, "operator: ada\n/el -- execute elisp\n/b -- view buffers");
}

#[test]
fn index_gated_anonymous_returns_fallback() {
    assert_eq!(index::index(&gated_config(), &Session::Anonymous), "please sign in");
}

#[test]
fn org_index_auth_disabled_returns_placeholder() {
    assert_eq!(index::org_index(&open_config(), &Session::Anonymous), "org_index");
}

#[test]
fn org_index_gated_with_session_is_empty() {
    assert_eq!(index::org_index(&gated_config(), &operator()), "");
}

#[test]
fn org_index_gated_anonymous_returns_fallback() {
    assert_eq!(index::org_index(&gated_config(), &Session::Anonymous), "please sign in");
}

#[test]
fn dispatch_finds_registered_paths() {
    let router = api::router();
    assert_eq!(router.dispatch("/", Method::Get), Some(HandlerId::Index));
    assert_eq!(router.dispatch("/b", Method::Get), Some(HandlerId::BufferView));
}

#[test]
fn dispatch_reports_not_found() {
    let router = api::router();
    assert_eq!(router.dispatch("/missing", Method::Get), None);
    assert_eq!(router.dispatch("", Method::Get), None);
    assert_eq!(router.dispatch("/bb", Method::Get), None);
}

#[test]
fn dispatch_first_registration_wins() {
    let router = Router::new()
        .route("/x", get(HandlerId::Index))
        .route("/x", get(HandlerId::OrgIndex));
    assert_eq!(router.dispatch("/x", Method::Get), Some(HandlerId::Index));
}

#[test]
fn merge_keeps_both_tables() {
    let router = index::router().merge(b::router());
    assert_eq!(router.dispatch("/", Method::Get), Some(HandlerId::Index));
    assert_eq!(router.dispatch("/b", Method::Get), Some(HandlerId::BufferView));
}

#[test]
fn handle_serves_matched_payload() {
    let router = api::router();
    let body = api::handle(&router, &gated_config(), "/b", Method::Get, &operator());
    assert_eq!(body, Some(String::from("buffer")));
    let missing = api::handle(&router, &gated_config(), "/el", Method::Get, &operator());
    assert_eq!(missing, None);
}

#[test]
fn routed_paths_do_not_depend_on_config_or_session() {
    let router = api::router();
    for path in ["/", "/b", "/missing", ""] {
        let open_hit =
            api::handle(&router, &open_config(), path, Method::Get, &Session::Anonymous).is_some();
        let gated_anon_hit =
            api::handle(&router, &gated_config(), path, Method::Get, &Session::Anonymous).is_some();
        let gated_op_hit =
            api::handle(&router, &gated_config(), path, Method::Get, &operator()).is_some();
        assert_eq!(open_hit, gated_anon_hit);
        assert_eq!(open_hit, gated_op_hit);
    }
}

#[test]
fn startup_logs_one_informational_line() {
    let lines = startup_lines();
    assert_eq!(lines.len(), 1);
    assert_eq!(lines[0].level, LogLevel::Info);
    assert_eq!(lines[0].text, "greetings, stranger.");
}

#[test]
fn startup_level_follows_build_kind() {
    assert_eq!(startup_log_level(true), LogLevel::Trace);
    assert_eq!(startup_log_level(false), LogLevel::Info);
}
