//! The discount types that a shop offers.

use vstd::prelude::*;

verus! {

/// A stored discount type with the name of its shop.
#[derive(Clone, Debug, PartialEq, Eq)]
pub struct DiscountType {
    pub id: i32,
    pub description: String,
    pub shop_id: i32,
    pub shop_name: String,
    pub created_at: String,
}

/// The content of a discount type that is added or updated.
#[derive(Clone, Debug, PartialEq, Eq)]
pub struct DiscountTypeRequest {
    pub description: String,
    pub shop_id: i32,
}

} // verus!
