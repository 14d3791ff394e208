//! The user endpoints.

use vstd::prelude::*;
use vstd::string::*;
use crate::api::request::{planned_request, Method, RequestDescriptor};
use crate::api::url::{collection_address, collection_url, item_address, item_url};
use crate::utils::text::{decimal, u32_to_decimal};

verus! {

/// A user record as the API exchanges it.
#[derive(Clone, Debug, PartialEq, Eq)]
pub struct User {
    pub id: u32,
    pub username: String,
    pub email: String,
    pub password: String,
}

impl User {
    /// The one-line description of this user.
    pub open spec fn display(&self) -> Seq<char> {
        "User:: ID:"@ + decimal(self.id as nat) + ", Username:"@ + self.username@ + ", email:"@
            + self.email@ + ", password:"@ + self.password@
    }

    /// Writes the one-line description of this user.
    pub fn to_string(&self) -> (line: String)
        ensures
            line@ == self.display(),
    {
        let mut line = String::from_str("User:: ID:");
        let digits = u32_to_decimal(self.id);
        line.append(digits.as_str());
        line.append(", Username:");
        line.append(self.username.as_str());
        line.append(", email:");
        line.append(self.email.as_str());
        line.append(", password:");
        line.append(self.password.as_str());
        line
    }
}

/// Plans the call that lists all users.
pub fn get_all_users(base: &str) -> (request: RequestDescriptor<()>)
    ensures
        request@ == planned_request(Method::Get, collection_address(base@, "users"@), None::<()>),
{
    RequestDescriptor::new(Method::Get, collection_url(base, "users").as_str(), None)
}

/// Plans the call that fetches one user.
pub fn get_a_user(base: &str, user_id: u32) -> (request: RequestDescriptor<()>)
    ensures
        request@ == planned_request(
            Method::Get,
            item_address(base@, "users"@, user_id as nat),
            None::<()>,
        ),
{
    RequestDescriptor::new(Method::Get, item_url(base, "users", user_id).as_str(), None)
}

/// Plans the call that adds a user.
pub fn add_a_user(base: &str, new_user: User) -> (request: RequestDescriptor<User>)
    ensures
        request@ == planned_request(
            Method::Post,
            collection_address(base@, "users"@),
            Some(new_user),
        ),
{
    RequestDescriptor::new(Method::Post, collection_url(base, "users").as_str(), Some(new_user))
}

/// Plans the call that replaces a user. The request goes to the address of
/// the user with the record's own number.
pub fn update_a_user(base: &str, updated_user: User) -> (request: RequestDescriptor<User>)
    ensures
        request@ == planned_request(
            Method::Put,
            item_address(base@, "users"@, updated_user.id as nat),
            Some(updated_user),
        ),
{
    let url = item_url(base, "users", updated_user.id);
    RequestDescriptor::new(Method::Put, url.as_str(), Some(updated_user))
}

/// Plans the call that deletes one user.
pub fn delete_a_user(base: &str, user_id: u32) -> (request: RequestDescriptor<()>)
    ensures
        request@ == planned_request(
            Method::Delete,
            item_address(base@, "users"@, user_id as nat),
            None::<()>,
        ),
{
    RequestDescriptor::new(Method::Delete, item_url(base, "users", user_id).as_str(), None)
}

} // verus!
