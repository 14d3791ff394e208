use dashboard::api::auth_api::{try_login, LoginResponse};
use dashboard::api::product_api::base_url;
use dashboard::api::request::{finish, receive, ApiError, Method, NetworkReply};
use dashboard::pages::home::{
    demo_credentials, login_button_label, server_response, ServerResponse,
};
use dashboard::session::{
    complete_login, gate, logout, placeholder, render_protected, session_state, token_state,
    GateOutcome, LoginOutcome, Navigation, ProtectedView, SessionState, AUTH_COOKIE,
    DASHBOARD_PATH, LOGIN_PATH, REDIRECT_PLACEHOLDER,
};
use dashboard::utils::cookies::{delete_cookie, get_cookie, set_cookie, SessionStore};

fn redirect() -> GateOutcome {
    GateOutcome {
        view: ProtectedView::Redirecting,
        navigations: vec![Navigation { path: "/login", replace: true }],
    }
}

fn content() -> GateOutcome {
    GateOutcome { view: ProtectedView::Content, navigations: vec![] }
}

#[test]
fn the_names_and_routes_are_fixed() {
    assert_eq!(AUTH_COOKIE, "auth_token");
    assert_eq!(LOGIN_PATH, "/login");
    assert_eq!(DASHBOARD_PATH, "/dashboard");
    assert_eq!(REDIRECT_PLACEHOLDER, "Redirecting...");
}

#[test]
fn a_new_store_holds_nothing() {
    let store = SessionStore::new();
    assert_eq!(get_cookie(&store, "auth_token"), None);
    assert_eq!(get_cookie(&store, ""), None);
}

#[test]
fn a_cookie_that_was_set_is_read_back() {
    let mut store = SessionStore::new();
    set_cookie(&mut store, "auth_token", "abc123".to_string());
    assert_eq!(get_cookie(&store, "auth_token"), Some("abc123".to_string()));
    assert_eq!(get_cookie(&store, "auth_tok"), None);
    assert_eq!(get_cookie(&store, "AUTH_TOKEN"), None);
}

#[test]
fn setting_a_cookie_again_replaces_its_value() {
    let mut store = SessionStore::new();
    set_cookie(&mut store, "theme", "dark".to_string());
    set_cookie(&mut store, "auth_token", "first".to_string());
    set_cookie(&mut store, "auth_token", "second".to_string());
    assert_eq!(get_cookie(&store, "auth_token"), Some("second".to_string()));
    assert_eq!(get_cookie(&store, "theme"), Some("dark".to_string()));
    delete_cookie(&mut store, "auth_token");
    assert_eq!(get_cookie(&store, "auth_token"), None);
    assert_eq!(get_cookie(&store, "theme"), Some("dark".to_string()));
}

#[test]
fn deleting_a_cookie_leaves_the_others() {
    let mut store = SessionStore::new();
    set_cookie(&mut store, "a", "1".to_string());
    set_cookie(&mut store, "b", "2".to_string());
    set_cookie(&mut store, "c", "3".to_string());
    delete_cookie(&mut store, "b");
    assert_eq!(get_cookie(&store, "a"), Some("1".to_string()));
    assert_eq!(get_cookie(&store, "b"), None);
    assert_eq!(get_cookie(&store, "c"), Some("3".to_string()));
    delete_cookie(&mut store, "missing");
    assert_eq!(get_cookie(&store, "a"), Some("1".to_string()));
    assert_eq!(get_cookie(&store, "c"), Some("3".to_string()));
}

#[test]
fn a_token_decides_the_state() {
    assert_eq!(token_state(&None), SessionState::Unauthenticated);
    assert_eq!(token_state(&Some(String::new())), SessionState::Unauthenticated);
    assert_eq!(token_state(&Some("abc123".to_string())), SessionState::Authenticated);
    assert_eq!(token_state(&Some(" ".to_string())), SessionState::Authenticated);
}

#[test]
fn without_a_token_a_protected_route_redirects_once() {
    let store = SessionStore::new();
    assert_eq!(session_state(&store), SessionState::Unauthenticated);
    let outcome = render_protected(&store);
    assert_eq!(outcome, redirect());
    assert_eq!(outcome.navigations.len(), 1);
    assert_eq!(outcome.navigations[0].path, LOGIN_PATH);
    assert!(outcome.navigations[0].replace);
    assert_ne!(outcome.view, ProtectedView::Content);
}

#[test]
fn an_empty_token_counts_as_none() {
    let mut store = SessionStore::new();
    set_cookie(&mut store, AUTH_COOKIE, String::new());
    assert_eq!(session_state(&store), SessionState::Unauthenticated);
    assert_eq!(render_protected(&store), redirect());
}

#[test]
fn another_cookie_is_no_token() {
    let mut store = SessionStore::new();
    set_cookie(&mut store, "theme", "dark".to_string());
    assert_eq!(render_protected(&store), redirect());
}

#[test]
fn with_a_token_a_protected_route_shows_its_content() {
    let mut store = SessionStore::new();
    set_cookie(&mut store, AUTH_COOKIE, "abc123".to_string());
    assert_eq!(session_state(&store), SessionState::Authenticated);
    let outcome = render_protected(&store);
    assert_eq!(outcome, content());
    assert!(outcome.navigations.is_empty());
}

#[test]
fn the_gate_goes_by_the_state_alone() {
    assert_eq!(gate(SessionState::Authenticated), content());
    assert_eq!(gate(SessionState::Unauthenticated), redirect());
}

#[test]
fn the_placeholder_stands_in_for_the_content() {
    assert_eq!(placeholder(ProtectedView::Redirecting), Some("Redirecting..."));
    assert_eq!(placeholder(ProtectedView::Content), None);
}

#[test]
fn a_login_that_succeeds_opens_the_gate() {
    let request = try_login(base_url(), demo_credentials());
    assert_eq!(request.method, Method::Post);
    assert_eq!(request.url, "https://fakestoreapi.com/auth/login");
    let sent = request.body.unwrap();
    assert_eq!(sent.username, "johnd");
    assert_eq!(sent.password, "m38rmF$");

    let reply = NetworkReply::Response { status: 200, status_text: "OK".to_string() };
    let ticket = receive(reply).unwrap();
    let decoded = Ok::<LoginResponse, String>(LoginResponse { token: "abc123".to_string() });
    let result = finish(ticket, decoded);

    let mut store = SessionStore::new();
    assert_eq!(render_protected(&store), redirect());
    let outcome = complete_login(&mut store, result.map_err(|error| error.message()));
    assert_eq!(
        outcome,
        LoginOutcome {
            navigation: Some(Navigation { path: "/dashboard", replace: false }),
            error: None,
        }
    );
    assert_eq!(get_cookie(&store, "auth_token"), Some("abc123".to_string()));
    assert_eq!(render_protected(&store), content());
}

#[test]
fn a_login_that_is_refused_shows_an_error_and_writes_no_token() {
    let reply = NetworkReply::Response { status: 401, status_text: "Unauthorized".to_string() };
    let error = receive(reply).unwrap_err();
    assert_eq!(
        error,
        ApiError::Transport { status: Some(401), detail: "Unauthorized".to_string() }
    );

    let mut store = SessionStore::new();
    let outcome = complete_login(&mut store, Err(error.message()));
    assert_eq!(
        outcome,
        LoginOutcome { navigation: None, error: Some("HTTP 401 Unauthorized".to_string()) }
    );
    assert_eq!(get_cookie(&store, AUTH_COOKIE), None);
    assert_eq!(render_protected(&store), redirect());

    let panel = server_response(Some(Err(error.message())));
    assert_eq!(panel, ServerResponse::Failure { line: "Error: HTTP 401 Unauthorized".to_string() });
}

#[test]
fn a_login_that_fails_keeps_an_earlier_token() {
    let mut store = SessionStore::new();
    set_cookie(&mut store, AUTH_COOKIE, "old".to_string());
    let error = ApiError::Decode { detail: "eof".to_string() };
    let outcome = complete_login(&mut store, Err(error.message()));
    assert_eq!(outcome.error, Some("failed to parse JSON response".to_string()));
    assert_eq!(outcome.navigation, None);
    assert_eq!(get_cookie(&store, AUTH_COOKIE), Some("old".to_string()));
}

#[test]
fn a_logout_closes_the_gate() {
    let mut store = SessionStore::new();
    set_cookie(&mut store, "theme", "dark".to_string());
    complete_login(&mut store, Ok(LoginResponse { token: "abc123".to_string() }));
    assert_eq!(render_protected(&store), content());
    logout(&mut store);
    assert_eq!(get_cookie(&store, AUTH_COOKIE), None);
    assert_eq!(get_cookie(&store, "theme"), Some("dark".to_string()));
    assert_eq!(render_protected(&store), redirect());
    logout(&mut store);
    assert_eq!(render_protected(&store), redirect());
}

#[test]
fn the_home_page_sends_fixed_credentials() {
    let credentials = demo_credentials();
    assert_eq!(credentials.username, "johnd");
    assert_eq!(credentials.password, "m38rmF$");
}

#[test]
fn the_login_button_says_when_a_login_is_under_way() {
    assert_eq!(login_button_label(false), "Login");
    assert_eq!(login_button_label(true), "Authenticating...");
}

#[test]
fn the_panel_shows_the_result_of_the_last_login() {
    assert_eq!(server_response(None), ServerResponse::Waiting);
    assert_eq!(
        server_response(Some(Ok(LoginResponse { token: "abc123".to_string() }))),
        ServerResponse::Success { token: "abc123".to_string() }
    );
    assert_eq!(
        server_response(Some(Err("network request failed".to_string()))),
        ServerResponse::Failure { line: "Error: network request failed".to_string() }
    );
}
