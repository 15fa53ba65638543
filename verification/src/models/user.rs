//! Users.

use vstd::prelude::*;

verus! {

/// A stored user. `password` is the stored hash of the user's password.
#[derive(Clone, Debug, PartialEq, Eq)]
pub struct User {
    pub id: i32,
    pub username: String,
    pub password: String,
    pub role_name: String,
    pub name: String,
    pub shop_id: i32,
}

} // verus!
