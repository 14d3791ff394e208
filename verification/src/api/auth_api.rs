//! The login endpoint.

use vstd::prelude::*;
use crate::api::request::{planned_request, Method, RequestDescriptor};
use crate::api::url::{collection_address, collection_url};

verus! {

/// The credentials that a login sends.
#[derive(Clone, Debug, PartialEq, Eq)]
pub struct LoginRequest {
    pub username: String,
    pub password: String,
}

/// What a successful login returns.
#[derive(Clone, Debug, PartialEq, Eq)]
pub struct LoginResponse {
    pub token: String,
}

/// Plans the login call: the credentials are posted to `auth/login`.
pub fn try_login(base: &str, credentials: LoginRequest) -> (request: RequestDescriptor<
    LoginRequest,
>)
    ensures
        request@ == planned_request(
            Method::Post,
            collection_address(base@, "auth/login"@),
            Some(credentials),
        ),
{
    RequestDescriptor::new(
        Method::Post,
        collection_url(base, "auth/login").as_str(),
        Some(credentials),
    )
}

} // verus!
