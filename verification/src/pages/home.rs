//! The home page: a login with fixed credentials and a panel that shows
//! what the server answered.

use vstd::prelude::*;
use vstd::string::*;
use crate::api::auth_api::{LoginRequest, LoginResponse};

verus! {

/// The user name that the login button sends.
pub const DEMO_USERNAME: &'static str = "johnd";

/// The password that the login button sends.
pub const DEMO_PASSWORD: &'static str = "m38rmF$";

/// The label of the login button while no login is under way.
pub const LOGIN_LABEL: &'static str = "Login";

/// The label of the login button while a login is under way.
pub const PENDING_LABEL: &'static str = "Authenticating...";

/// What the panel shows before any login has ended.
pub const WAITING_TEXT: &'static str = "Waiting for login...";

/// The heading that the panel shows above the token of a login that
/// succeeded.
pub const SUCCESS_TEXT: &'static str = "\u{2713} Success";

/// What the panel writes before the message of a login that failed.
pub const ERROR_PREFIX: &'static str = "Error: ";

/// The credentials that the login button sends.
pub fn demo_credentials() -> (credentials: LoginRequest)
    ensures
        credentials.username@ == DEMO_USERNAME@,
        credentials.password@ == DEMO_PASSWORD@,
{
    LoginRequest {
        username: String::from_str(DEMO_USERNAME),
        password: String::from_str(DEMO_PASSWORD),
    }
}

/// The label of the login button. The button is disabled while a login is
/// under way.
pub fn login_button_label(pending: bool) -> (label: &'static str)
    ensures
        label@ == if pending {
            PENDING_LABEL@
        } else {
            LOGIN_LABEL@
        },
{
    if pending {
        PENDING_LABEL
    } else {
        LOGIN_LABEL
    }
}

/// What the panel shows.
#[derive(Clone, Debug, PartialEq, Eq)]
pub enum ServerResponse {
    /// No login has ended yet: [`WAITING_TEXT`].
    Waiting,
    /// The last login succeeded: [`SUCCESS_TEXT`] and the token.
    Success { token: String },
    /// The last login failed: the line to show.
    Failure { line: String },
}

/// A [`ServerResponse`] as a mathematical value.
pub enum ServerResponseView {
    Waiting,
    Success { token: Seq<char> },
    Failure { line: Seq<char> },
}

impl View for ServerResponse {
    type V = ServerResponseView;

    open spec fn view(&self) -> ServerResponseView {
        match self {
            ServerResponse::Waiting => ServerResponseView::Waiting,
            ServerResponse::Success { token } => ServerResponseView::Success { token: token@ },
            ServerResponse::Failure { line } => ServerResponseView::Failure { line: line@ },
        }
    }
}

/// What the panel shows for the result of the last login, if one has ended:
/// the token of a login that succeeded, and for one that failed its message
/// after [`ERROR_PREFIX`].
pub open spec fn panel_for(result: Option<Result<LoginResponse, String>>) -> ServerResponseView {
    match result {
        None => ServerResponseView::Waiting,
        Some(Ok(response)) => ServerResponseView::Success { token: response.token@ },
        Some(Err(message)) => ServerResponseView::Failure { line: ERROR_PREFIX@ + message@ },
    }
}

/// Decides what the panel shows.
pub fn server_response(result: Option<Result<LoginResponse, String>>) -> (panel: ServerResponse)
    ensures
        panel@ == panel_for(result),
{
    match result {
        None => ServerResponse::Waiting,
        Some(Ok(response)) => ServerResponse::Success { token: response.token },
        Some(Err(message)) => {
            let mut line = String::from_str(ERROR_PREFIX);
            line.append(message.as_str());
            ServerResponse::Failure { line }
        },
    }
}

} // verus!
