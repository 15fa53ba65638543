//! Requests about discount types.

use vstd::prelude::*;
use crate::models::paging::{page_info, pages_needed, PageInfo};
use crate::api::access::{authorize, role_fault, Endpoint, Reply};
use crate::models::discount_type::DiscountTypeRequest;

verus! {

/// What a listing of discount types is asked for.
#[derive(Clone, Debug, PartialEq, Eq)]
pub struct GetCategoriesQuery {
    pub search: Option<String>,
    pub page: Option<usize>,
    pub per_page: Option<usize>,
}

impl GetCategoriesQuery {
    /// Where the page that is asked for stands in a listing of `total`
    /// records.
    pub fn pages(&self, total: i64) -> (r: PageInfo)
        ensures
            r.total == total,
            match (self.page, self.per_page) {
                (Some(p), Some(n)) => {
                    &&& r.page == p
                    &&& r.per_page == n
                    &&& r.page_counts == if pages_needed(total as int, n as int) <= usize::MAX {
                        pages_needed(total as int, n as int)
                    } else {
                        usize::MAX as int
                    }
                },
                _ => r.page == 0 && r.per_page == 0 && r.page_counts == 0,
            },
    {
        page_info(self.page, self.per_page, total)
    }
}

/// What is wrong with the content of a discount type: no description.
pub open spec fn discount_type_fault(body: DiscountTypeRequest) -> Option<Reply> {
    if body.description@.len() == 0 {
        Some(Reply { status: 400, code: 400, message: "Description must not be empty!" })
    } else {
        None
    }
}

fn check_discount_type(body: &DiscountTypeRequest) -> (r: Result<(), Reply>)
    ensures
        match discount_type_fault(*body) {
            Some(reply) => r == Err::<(), Reply>(reply),
            None => r is Ok,
        },
{
    if body.description.as_str().is_empty() {
        Err(Reply { status: 400, code: 400, message: "Description must not be empty!" })
    } else {
        Ok(())
    }
}

/// Decides whether a discount type may be added: by an admin or a manager,
/// with a description.
pub fn add_discount_type(role: &str, body: &DiscountTypeRequest) -> (r: Result<(), Reply>)
    ensures
        match role_fault(Endpoint::AddDiscountType, role@) {
            Some(reply) => r == Err::<(), Reply>(reply),
            None => match discount_type_fault(*body) {
                Some(reply) => r == Err::<(), Reply>(reply),
                None => r is Ok,
            },
        },
{
    match authorize(Endpoint::AddDiscountType, role) {
        Err(reply) => Err(reply),
        Ok(()) => check_discount_type(body),
    }
}

/// Decides whether a discount type may be updated: by an admin or a manager,
/// with a description.
pub fn update_discount_type(role: &str, body: &DiscountTypeRequest) -> (r: Result<(), Reply>)
    ensures
        match role_fault(Endpoint::UpdateDiscountType, role@) {
            Some(reply) => r == Err::<(), Reply>(reply),
            None => match discount_type_fault(*body) {
                Some(reply) => r == Err::<(), Reply>(reply),
                None => r is Ok,
            },
        },
{
    match authorize(Endpoint::UpdateDiscountType, role) {
        Err(reply) => Err(reply),
        Ok(()) => check_discount_type(body),
    }
}

/// Decides whether a discount type may be deleted: by an admin or a manager,
/// and only once no item uses it.
pub fn delete_discount_type(role: &str, has_items: bool) -> (r: Result<(), Reply>)
    ensures
        match role_fault(Endpoint::DeleteDiscountType, role@) {
            Some(reply) => r == Err::<(), Reply>(reply),
            None => if has_items {
                r == Err::<(), Reply>(
                    Reply {
                        status: 400,
                        code: 400,
                        message: "Please delete the associated items first before deleting the discount_type. Ensure all products related to this discount_type are removed to proceed with discount_type deletion!",
                    },
                )
            } else {
                r is Ok
            },
        },
{
    match authorize(Endpoint::DeleteDiscountType, role) {
        Err(reply) => Err(reply),
        Ok(()) => if has_items {
            Err(
                Reply {
                    status: 400,
                    code: 400,
                    message: "Please delete the associated items first before deleting the discount_type. Ensure all products related to this discount_type are removed to proceed with discount_type deletion!",
                },
            )
        } else {
            Ok(())
        },
    }
}

} // verus!
