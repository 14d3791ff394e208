//! The session gate.
//!
//! A session is authenticated exactly while the store holds a non-empty
//! token under [`AUTH_COOKIE`]. The state is computed afresh from the store
//! each time a protected route is rendered; nothing else is remembered. A
//! successful login writes the token, a logout deletes it.

use vstd::prelude::*;
use crate::api::auth_api::LoginResponse;
use crate::utils::cookies::{
    cookie_path,
    delete_cookie,
    get_cookie,
    set_cookie,
    stored_value,
    text_view,
    CookieView,
    SessionStore,
};

verus! {

/// The name under which the session token is stored.
pub const AUTH_COOKIE: &'static str = "auth_token";

/// The public route that an unauthenticated visitor is sent to.
pub const LOGIN_PATH: &'static str = "/login";

/// The protected route that a visitor lands on after logging in.
pub const DASHBOARD_PATH: &'static str = "/dashboard";

/// What is shown in place of protected content while a redirect is under
/// way.
pub const REDIRECT_PLACEHOLDER: &'static str = "Redirecting...";

/// The two states of a session.
#[derive(Clone, Copy, Debug, PartialEq, Eq, Structural)]
pub enum SessionState {
    Unauthenticated,
    Authenticated,
}

/// The state that a stored token stands for. A missing token and an empty
/// one both mean that nobody is logged in; the token is not examined any
/// further.
pub open spec fn state_of_token(token: Option<Seq<char>>) -> SessionState {
    match token {
        Some(text) => if text.len() > 0 {
            SessionState::Authenticated
        } else {
            SessionState::Unauthenticated
        },
        None => SessionState::Unauthenticated,
    }
}

/// The state of the session whose store has the given contents.
pub open spec fn state_of_store(contents: Map<Seq<char>, CookieView>) -> SessionState {
    state_of_token(stored_value(contents, AUTH_COOKIE@))
}

/// The state that a token read from the store stands for.
pub fn token_state(token: &Option<String>) -> (state: SessionState)
    ensures
        state == state_of_token(text_view(*token)),
{
    match token {
        Some(text) => {
            if text.as_str().is_empty() {
                SessionState::Unauthenticated
            } else {
                SessionState::Authenticated
            }
        },
        None => SessionState::Unauthenticated,
    }
}

/// The state of the session, read from the store.
pub fn session_state(store: &SessionStore) -> (state: SessionState)
    ensures
        state == state_of_store(store@),
{
    let token = get_cookie(store, AUTH_COOKIE);
    token_state(&token)
}

/// A request to the router to go to a route. With `replace`, the route
/// takes the place of the current history entry; without, it is pushed.
#[derive(Clone, Debug, PartialEq, Eq)]
pub struct Navigation {
    pub path: &'static str,
    pub replace: bool,
}

/// A [`Navigation`] as a mathematical value.
pub struct NavigationView {
    pub path: Seq<char>,
    pub replace: bool,
}

impl View for Navigation {
    type V = NavigationView;

    open spec fn view(&self) -> NavigationView {
        NavigationView { path: self.path@, replace: self.replace }
    }
}

/// What a protected route shows.
#[derive(Clone, Copy, Debug, PartialEq, Eq, Structural)]
pub enum ProtectedView {
    /// The protected content itself.
    Content,
    /// The neutral placeholder, [`REDIRECT_PLACEHOLDER`].
    Redirecting,
}

/// The result of rendering a protected route: what to show, and the
/// navigations to perform, in order.
#[derive(Clone, Debug, PartialEq, Eq)]
pub struct GateOutcome {
    pub view: ProtectedView,
    pub navigations: Vec<Navigation>,
}

/// A [`GateOutcome`] as a mathematical value.
pub struct GateOutcomeView {
    pub view: ProtectedView,
    pub navigations: Seq<NavigationView>,
}

impl View for GateOutcome {
    type V = GateOutcomeView;

    open spec fn view(&self) -> GateOutcomeView {
        GateOutcomeView {
            view: self.view,
            navigations: self.navigations@.map_values(|n: Navigation| n@),
        }
    }
}

/// What rendering a protected route comes to in each state: with a session,
/// the content and no navigation; without one, the placeholder and a single
/// navigation to the login route that replaces the current history entry.
pub open spec fn gate_decision(state: SessionState) -> GateOutcomeView {
    match state {
        SessionState::Authenticated => GateOutcomeView {
            view: ProtectedView::Content,
            navigations: Seq::empty(),
        },
        SessionState::Unauthenticated => GateOutcomeView {
            view: ProtectedView::Redirecting,
            navigations: seq![NavigationView { path: LOGIN_PATH@, replace: true }],
        },
    }
}

/// Decides what a protected route shows in the given state.
pub fn gate(state: SessionState) -> (outcome: GateOutcome)
    ensures
        outcome@ == gate_decision(state),
{
    match state {
        SessionState::Authenticated => {
            let outcome = GateOutcome { view: ProtectedView::Content, navigations: Vec::new() };
            assert(outcome@.navigations =~= Seq::empty());
            outcome
        },
        SessionState::Unauthenticated => {
            let mut navigations: Vec<Navigation> = Vec::new();
            navigations.push(Navigation { path: LOGIN_PATH, replace: true });
            let outcome = GateOutcome { view: ProtectedView::Redirecting, navigations };
            assert(outcome@.navigations =~= seq![
                NavigationView { path: LOGIN_PATH@, replace: true },
            ]);
            outcome
        },
    }
}

/// Renders a protected route against the store: reads the token and decides
/// by it alone.
pub fn render_protected(store: &SessionStore) -> (outcome: GateOutcome)
    ensures
        outcome@ == gate_decision(state_of_store(store@)),
{
    gate(session_state(store))
}

/// The text to show in place of the content, where the view is not the
/// content.
pub fn placeholder(view: ProtectedView) -> (text: Option<&'static str>)
    ensures
        match view {
            ProtectedView::Content => text is None,
            ProtectedView::Redirecting => text matches Some(line) && line@
                == REDIRECT_PLACEHOLDER@,
        },
{
    match view {
        ProtectedView::Content => None,
        ProtectedView::Redirecting => Some(REDIRECT_PLACEHOLDER),
    }
}

/// What the login form does once the login call has ended.
#[derive(Clone, Debug, PartialEq, Eq)]
pub struct LoginOutcome {
    /// Where to go, after a login that succeeded.
    pub navigation: Option<Navigation>,
    /// The line to show under the form, after a login that failed.
    pub error: Option<String>,
}

/// Ends a login, given the response or else the message of the error that
/// ended the call. A successful login writes the returned token into the
/// store and asks for a navigation to the dashboard. A failed one leaves the
/// store as it was and yields the message for display.
pub fn complete_login(store: &mut SessionStore, result: Result<LoginResponse, String>) -> (outcome:
    LoginOutcome)
    ensures
        match result {
            Ok(response) => {
                &&& final(store)@ == old(store)@.insert(
                    AUTH_COOKIE@,
                    CookieView { value: response.token@, path: cookie_path() },
                )
                &&& outcome.navigation matches Some(target) && target@ == (NavigationView {
                    path: DASHBOARD_PATH@,
                    replace: false,
                })
                &&& outcome.error is None
            },
            Err(message) => {
                &&& final(store)@ == old(store)@
                &&& outcome.navigation is None
                &&& text_view(outcome.error) == Some(message@)
            },
        },
{
    match result {
        Ok(response) => {
            set_cookie(store, AUTH_COOKIE, response.token);
            LoginOutcome {
                navigation: Some(Navigation { path: DASHBOARD_PATH, replace: false }),
                error: None,
            }
        },
        Err(message) => LoginOutcome { navigation: None, error: Some(message) },
    }
}

/// Ends the session: deletes the token from the store.
pub fn logout(store: &mut SessionStore)
    ensures
        final(store)@ == old(store)@.remove(AUTH_COOKIE@),
{
    delete_cookie(store, AUTH_COOKIE);
}

/// Without a token, a protected route shows the placeholder, never the
/// content, and asks for exactly one navigation: to the login route,
/// replacing the current history entry. An empty token counts as none.
pub proof fn lemma_no_token_redirects_once(token: Option<Seq<char>>)
    requires
        token is None || token == Some(Seq::<char>::empty()),
    ensures
        gate_decision(state_of_token(token)).view == ProtectedView::Redirecting,
        gate_decision(state_of_token(token)).navigations.len() == 1,
        gate_decision(state_of_token(token)).navigations[0] == (NavigationView {
            path: LOGIN_PATH@,
            replace: true,
        }),
{
}

/// With a token, a protected route shows the content and asks for no
/// navigation.
pub proof fn lemma_token_shows_content(token: Seq<char>)
    requires
        token.len() > 0,
    ensures
        gate_decision(state_of_token(Some(token))).view == ProtectedView::Content,
        gate_decision(state_of_token(Some(token))).navigations.len() == 0,
{
}

/// The content is shown only in the authenticated state, whatever the store
/// holds.
pub proof fn lemma_content_only_when_authenticated(contents: Map<Seq<char>, CookieView>)
    ensures
        gate_decision(state_of_store(contents)).view == ProtectedView::Content <==> {
            &&& contents.contains_key(AUTH_COOKIE@)
            &&& contents[AUTH_COOKIE@].value.len() > 0
        },
{
}

/// After a login that returned a non-empty token, protected routes show
/// their content.
pub proof fn lemma_login_opens_the_gate(contents: Map<Seq<char>, CookieView>, token: Seq<char>)
    requires
        token.len() > 0,
    ensures
        gate_decision(
            state_of_store(
                contents.insert(AUTH_COOKIE@, CookieView { value: token, path: cookie_path() }),
            ),
        ) == gate_decision(SessionState::Authenticated),
{
}

/// After a logout, protected routes redirect to the login route.
pub proof fn lemma_logout_closes_the_gate(contents: Map<Seq<char>, CookieView>)
    ensures
        gate_decision(state_of_store(contents.remove(AUTH_COOKIE@))) == gate_decision(
            SessionState::Unauthenticated,
        ),
{
}

} // verus!
