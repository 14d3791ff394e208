//! Addresses of the REST resources.

use vstd::prelude::*;
use vstd::string::*;
use crate::utils::text::{decimal, lemma_decimal_is_injective, u32_to_decimal};

verus! {

/// The address of a resource collection: the base followed by the
/// collection's path.
pub open spec fn collection_address(base: Seq<char>, path: Seq<char>) -> Seq<char> {
    base + path
}

/// The address of one item of a collection: the collection's address, a
/// slash, and the item's number in decimal.
pub open spec fn item_address(base: Seq<char>, path: Seq<char>, id: nat) -> Seq<char> {
    base + path + "/"@ + decimal(id)
}

/// Builds the address of a resource collection.
pub fn collection_url(base: &str, path: &str) -> (url: String)
    ensures
        url@ == collection_address(base@, path@),
{
    let mut url = String::from_str(base);
    url.append(path);
    url
}

/// Builds the address of one item of a collection.
pub fn item_url(base: &str, path: &str, id: u32) -> (url: String)
    ensures
        url@ == item_address(base@, path@, id as nat),
{
    let mut url = String::from_str(base);
    url.append(path);
    url.append("/");
    let digits = u32_to_decimal(id);
    url.append(digits.as_str());
    url
}

/// Two items of one collection have the same address only if they have
/// the same number.
pub proof fn lemma_item_addresses_differ(base: Seq<char>, path: Seq<char>, a: nat, b: nat)
    requires
        item_address(base, path, a) == item_address(base, path, b),
    ensures
        a == b,
{
    let stem = base + path + "/"@;
    let first = item_address(base, path, a);
    let second = item_address(base, path, b);
    assert(first.subrange(stem.len() as int, first.len() as int) =~= decimal(a));
    assert(second.subrange(stem.len() as int, second.len() as int) =~= decimal(b));
    lemma_decimal_is_injective(a, b);
}

} // verus!
