//! Menu categories.

use vstd::prelude::*;

verus! {

/// A stored category with the name of its shop.
#[derive(Clone, Debug, PartialEq, Eq)]
pub struct Category {
    pub id: i32,
    pub name: String,
    pub description: String,
    pub shop_id: i32,
    pub shop_name: String,
    pub created_at: String,
}

/// The content of a category that is added or updated.
#[derive(Clone, Debug, PartialEq, Eq)]
pub struct CategoryRequest {
    pub name: String,
    pub description: String,
    pub shop_id: i32,
}

} // verus!
