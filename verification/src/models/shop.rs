//! Shops.

use vstd::prelude::*;

verus! {

/// A stored shop.
#[derive(Clone, Debug, PartialEq, Eq)]
pub struct Shop {
    pub id: i32,
    pub name: String,
    pub address: String,
    pub created_at: String,
}

/// The content of a shop that is added or updated.
#[derive(Clone, Debug, PartialEq, Eq)]
pub struct ShopRequest {
    pub name: String,
    pub address: String,
}

} // verus!
