//! The roles that a user can have.

use vstd::prelude::*;

verus! {

/// A stored role.
#[derive(Clone, Debug, PartialEq, Eq)]
pub struct Role {
    pub id: i32,
    pub role_name: String,
}

} // verus!
