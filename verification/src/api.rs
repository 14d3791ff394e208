//! The REST boundary: the request pipeline and the resource endpoints.

pub mod auth_api;
pub mod cart_api;
pub mod product_api;
pub mod request;
pub mod url;
pub mod users_api;
