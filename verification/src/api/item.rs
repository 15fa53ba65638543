//! Requests about menu items.

use vstd::prelude::*;
use crate::models::paging::{page_info, pages_needed, PageInfo};
use crate::api::access::{authorize, role_fault, Endpoint, Reply};
use crate::text::same_text;
use crate::models::item::ItemRequest;

verus! {

/// What a listing of items is asked for.
#[derive(Clone, Debug, PartialEq, Eq)]
pub struct GetItemsQuery {
    pub search: Option<String>,
    pub category_id: Option<i32>,
    pub page: Option<usize>,
    pub per_page: Option<usize>,
}

impl GetItemsQuery {
    /// Where the page that is asked for stands in a listing of `total`
    /// records.
    pub fn pages(&self, total: i64) -> (r: PageInfo)
        ensures
            r.total == total,
            match (self.page, self.per_page) {
                (Some(p), Some(n)) => {
                    &&& r.page == p
                    &&& r.per_page == n
                    &&& r.page_counts == if pages_needed(total as int, n as int) <= usize::MAX {
                        pages_needed(total as int, n as int)
                    } else {
                        usize::MAX as int
                    }
                },
                _ => r.page == 0 && r.per_page == 0 && r.page_counts == 0,
            },
    {
        page_info(self.page, self.per_page, total)
    }
}

/// The message that says what is wrong with the content of an item, if
/// anything is. The name, the description, the price and the discount type
/// are held first. A percentage discount needs a percentage that is not
/// negative and an expiration; a fixed-price discount needs a price that is
/// not negative; every discount needs a reason.
pub open spec fn item_fault(body: ItemRequest) -> Option<&'static str> {
    if body.name@.len() == 0 {
        Some("Name must not be empty!")
    } else if body.description@.len() == 0 {
        Some("Description must not be empty!")
    } else if body.price < 0 {
        Some("Price must not be negative!")
    } else if body.discount_type@.len() == 0 {
        Some("Discount type must not be empty!")
    } else if body.discount_type@ == "Discount by Specific Percentage"@ && body.discount_percent
        < 0 {
        Some("Discount percent must not be negative!")
    } else if body.discount_type@ == "Discount by Specific Percentage"@
        && body.discount_expiration is None {
        Some("Discount expire data must not be empty!")
    } else if body.discount_type@ != "Discount by Specific Percentage"@ && body.discount_type@
        == "Discount by Specific Amount"@ && body.discounted_price < 0 {
        Some("Discounted price must not be negative!")
    } else if body.discount_type@ != "No Discount"@ && body.discount_reason@.len() == 0 {
        Some("Discount reason must not be empty!")
    } else {
        None
    }
}

/// Finds what [`item_fault`] describes.
pub fn check_item(body: &ItemRequest) -> (r: Option<&'static str>)
    ensures
        r == item_fault(*body),
{
    if body.name.as_str().is_empty() {
        return Some("Name must not be empty!");
    }
    if body.description.as_str().is_empty() {
        return Some("Description must not be empty!");
    }
    if body.price < 0 {
        return Some("Price must not be negative!");
    }
    let kind = body.discount_type.as_str();
    if kind.is_empty() {
        return Some("Discount type must not be empty!");
    }
    if same_text(kind, "Discount by Specific Percentage") {
        if body.discount_percent < 0 {
            return Some("Discount percent must not be negative!");
        }
        if body.discount_expiration.is_none() {
            return Some("Discount expire data must not be empty!");
        }
    } else if same_text(kind, "Discount by Specific Amount") {
        if body.discounted_price < 0 {
            return Some("Discounted price must not be negative!");
        }
    }
    if !same_text(kind, "No Discount") && body.discount_reason.as_str().is_empty() {
        return Some("Discount reason must not be empty!");
    }
    None
}

/// Decides whether an item may be added: by anyone but a waiter, with
/// content that [`item_fault`] finds nothing wrong with.
pub fn add_item(role: &str, body: &ItemRequest) -> (r: Result<(), Reply>)
    ensures
        match role_fault(Endpoint::AddItem, role@) {
            Some(reply) => r == Err::<(), Reply>(reply),
            None => match item_fault(*body) {
                Some(message) => r == Err::<(), Reply>(Reply { status: 400, code: 400, message }),
                None => r is Ok,
            },
        },
{
    match authorize(Endpoint::AddItem, role) {
        Err(reply) => Err(reply),
        Ok(()) => match check_item(body) {
            Some(message) => Err(Reply { status: 400, code: 400, message }),
            None => Ok(()),
        },
    }
}

/// Decides whether an item may be updated: by anyone but a waiter, with
/// content that [`item_fault`] finds nothing wrong with.
pub fn update_item(role: &str, body: &ItemRequest) -> (r: Result<(), Reply>)
    ensures
        match role_fault(Endpoint::UpdateItem, role@) {
            Some(reply) => r == Err::<(), Reply>(reply),
            None => match item_fault(*body) {
                Some(message) => r == Err::<(), Reply>(Reply { status: 400, code: 400, message }),
                None => r is Ok,
            },
        },
{
    match authorize(Endpoint::UpdateItem, role) {
        Err(reply) => Err(reply),
        Ok(()) => match check_item(body) {
            Some(message) => Err(Reply { status: 400, code: 400, message }),
            None => Ok(()),
        },
    }
}

/// Whether updating an item replaces its image, so that the stored image is
/// to be removed.
pub fn image_changes(old_image_url: &str, body: &ItemRequest) -> (r: bool)
    ensures
        r == (old_image_url@ != body.image_url@),
{
    !same_text(old_image_url, body.image_url.as_str())
}

} // verus!
