//! The product endpoints.
//!
//! Each function plans one call. The product itself passes through
//! untouched, so these functions take it as a value of any type.

use vstd::prelude::*;
use crate::api::request::{planned_request, Method, RequestDescriptor};
use crate::api::url::{collection_address, collection_url, item_address, item_url};

verus! {

/// The API origin that is used when none was configured.
pub open spec fn default_origin() -> Seq<char> {
    "https://fakestoreapi.com/"@
}

/// The API origin that is used when none was configured.
pub fn base_url() -> (origin: &'static str)
    ensures
        origin@ == default_origin(),
{
    "https://fakestoreapi.com/"
}

/// The API origin to use: the configured one where there is one, else the
/// default.
pub fn base_url_or<'a>(configured: Option<&'a str>) -> (origin: &'a str)
    ensures
        origin@ == match configured {
            Some(url) => url@,
            None => default_origin(),
        },
{
    match configured {
        Some(url) => url,
        None => base_url(),
    }
}

/// Plans the call that lists all products.
pub fn get_all_products(base: &str) -> (request: RequestDescriptor<()>)
    ensures
        request@ == planned_request(
            Method::Get,
            collection_address(base@, "products"@),
            None::<()>,
        ),
{
    RequestDescriptor::new(Method::Get, collection_url(base, "products").as_str(), None)
}

/// Plans the call that fetches one product.
pub fn get_a_product(base: &str, product_id: u32) -> (request: RequestDescriptor<()>)
    ensures
        request@ == planned_request(
            Method::Get,
            item_address(base@, "products"@, product_id as nat),
            None::<()>,
        ),
{
    RequestDescriptor::new(Method::Get, item_url(base, "products", product_id).as_str(), None)
}

/// Plans the call that adds a product.
pub fn add_a_product<P>(base: &str, new_product: P) -> (request: RequestDescriptor<P>)
    ensures
        request@ == planned_request(
            Method::Post,
            collection_address(base@, "products"@),
            Some(new_product),
        ),
{
    RequestDescriptor::new(
        Method::Post,
        collection_url(base, "products").as_str(),
        Some(new_product),
    )
}

/// Plans the call that replaces a product. The product goes to the
/// collection's address; which product is meant is part of the body.
pub fn update_a_product<P>(base: &str, updated_product: P) -> (request: RequestDescriptor<P>)
    ensures
        request@ == planned_request(
            Method::Put,
            collection_address(base@, "products"@),
            Some(updated_product),
        ),
{
    RequestDescriptor::new(
        Method::Put,
        collection_url(base, "products").as_str(),
        Some(updated_product),
    )
}

/// Plans the call that deletes one product.
pub fn delete_a_product(base: &str, product_id: u32) -> (request: RequestDescriptor<()>)
    ensures
        request@ == planned_request(
            Method::Delete,
            item_address(base@, "products"@, product_id as nat),
            None::<()>,
        ),
{
    RequestDescriptor::new(Method::Delete, item_url(base, "products", product_id).as_str(), None)
}

} // verus!
