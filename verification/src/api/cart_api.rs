//! The cart endpoints.
//!
//! Each function plans one call. The cart itself passes through untouched,
//! so these functions take it as a value of any type.

use vstd::prelude::*;
use crate::api::request::{planned_request, Method, RequestDescriptor};
use crate::api::url::{collection_address, collection_url, item_address, item_url};

verus! {

/// Plans the call that lists all carts.
pub fn get_all_carts(base: &str) -> (request: RequestDescriptor<()>)
    ensures
        request@ == planned_request(Method::Get, collection_address(base@, "carts"@), None::<()>),
{
    RequestDescriptor::new(Method::Get, collection_url(base, "carts").as_str(), None)
}

/// Plans the call that fetches one cart.
pub fn get_a_cart(base: &str, cart_id: u32) -> (request: RequestDescriptor<()>)
    ensures
        request@ == planned_request(
            Method::Get,
            item_address(base@, "carts"@, cart_id as nat),
            None::<()>,
        ),
{
    RequestDescriptor::new(Method::Get, item_url(base, "carts", cart_id).as_str(), None)
}

/// Plans the call that adds a cart.
pub fn add_a_cart<C>(base: &str, new_cart: C) -> (request: RequestDescriptor<C>)
    ensures
        request@ == planned_request(
            Method::Post,
            collection_address(base@, "carts"@),
            Some(new_cart),
        ),
{
    RequestDescriptor::new(Method::Post, collection_url(base, "carts").as_str(), Some(new_cart))
}

/// Plans the call that replaces a cart. The cart goes to the collection's
/// address; which cart is meant is part of the body.
pub fn update_a_cart<C>(base: &str, updated_cart: C) -> (request: RequestDescriptor<C>)
    ensures
        request@ == planned_request(
            Method::Put,
            collection_address(base@, "carts"@),
            Some(updated_cart),
        ),
{
    RequestDescriptor::new(
        Method::Put,
        collection_url(base, "carts").as_str(),
        Some(updated_cart),
    )
}

/// Plans the call that deletes one cart.
pub fn delete_a_cart(base: &str, cart_id: u32) -> (request: RequestDescriptor<()>)
    ensures
        request@ == planned_request(
            Method::Delete,
            item_address(base@, "carts"@, cart_id as nat),
            None::<()>,
        ),
{
    RequestDescriptor::new(Method::Delete, item_url(base, "carts", cart_id).as_str(), None)
}

} // verus!
