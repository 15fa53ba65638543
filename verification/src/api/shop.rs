//! Requests about shops.

use vstd::prelude::*;
use crate::models::paging::{page_info, pages_needed, PageInfo};
use crate::api::access::{authorize, role_fault, Endpoint, Reply};
use crate::models::shop::ShopRequest;

verus! {

/// What a listing of shops is asked for.
#[derive(Clone, Debug, PartialEq, Eq)]
pub struct GetShopsQuery {
    pub search: Option<String>,
    pub page: Option<usize>,
    pub per_page: Option<usize>,
}

impl GetShopsQuery {
    /// Where the page that is asked for stands in a listing of `total`
    /// records.
    pub fn pages(&self, total: i64) -> (r: PageInfo)
        ensures
            r.total == total,
            match (self.page, self.per_page) {
                (Some(p), Some(n)) => {
                    &&& r.page == p
                    &&& r.per_page == n
                    &&& r.page_counts == if pages_needed(total as int, n as int) <= usize::MAX {
                        pages_needed(total as int, n as int)
                    } else {
                        usize::MAX as int
                    }
                },
                _ => r.page == 0 && r.per_page == 0 && r.page_counts == 0,
            },
    {
        page_info(self.page, self.per_page, total)
    }
}

/// What is wrong with the content of a shop: no name, or no address.
pub open spec fn shop_fault(body: ShopRequest) -> Option<Reply> {
    if body.name@.len() == 0 {
        Some(Reply { status: 400, code: 400, message: "Name must not be empty!" })
    } else if body.address@.len() == 0 {
        Some(Reply { status: 400, code: 400, message: "Address must not be empty!" })
    } else {
        None
    }
}

fn check_shop(body: &ShopRequest) -> (r: Result<(), Reply>)
    ensures
        match shop_fault(*body) {
            Some(reply) => r == Err::<(), Reply>(reply),
            None => r is Ok,
        },
{
    if body.name.as_str().is_empty() {
        Err(Reply { status: 400, code: 400, message: "Name must not be empty!" })
    } else if body.address.as_str().is_empty() {
        Err(Reply { status: 400, code: 400, message: "Address must not be empty!" })
    } else {
        Ok(())
    }
}

/// Decides whether a shop may be added: by an admin, with a name and an
/// address.
pub fn add_shop(role: &str, body: &ShopRequest) -> (r: Result<(), Reply>)
    ensures
        match role_fault(Endpoint::AddShop, role@) {
            Some(reply) => r == Err::<(), Reply>(reply),
            None => match shop_fault(*body) {
                Some(reply) => r == Err::<(), Reply>(reply),
                None => r is Ok,
            },
        },
{
    match authorize(Endpoint::AddShop, role) {
        Err(reply) => Err(reply),
        Ok(()) => check_shop(body),
    }
}

/// Decides whether a shop may be updated: by an admin, with a name and an
/// address.
pub fn update_shop(role: &str, body: &ShopRequest) -> (r: Result<(), Reply>)
    ensures
        match role_fault(Endpoint::UpdateShop, role@) {
            Some(reply) => r == Err::<(), Reply>(reply),
            None => match shop_fault(*body) {
                Some(reply) => r == Err::<(), Reply>(reply),
                None => r is Ok,
            },
        },
{
    match authorize(Endpoint::UpdateShop, role) {
        Err(reply) => Err(reply),
        Ok(()) => check_shop(body),
    }
}

/// Decides whether a shop may be deleted: by an admin, and only once it has
/// no items left.
pub fn delete_shop(role: &str, has_items: bool) -> (r: Result<(), Reply>)
    ensures
        match role_fault(Endpoint::DeleteShop, role@) {
            Some(reply) => r == Err::<(), Reply>(reply),
            None => if has_items {
                r == Err::<(), Reply>(
                    Reply {
                        status: 400,
                        code: 400,
                        message: "Please delete the associated items first before deleting the shop. Ensure all items related to this shop are removed to proceed with shop deletion!",
                    },
                )
            } else {
                r is Ok
            },
        },
{
    match authorize(Endpoint::DeleteShop, role) {
        Err(reply) => Err(reply),
        Ok(()) => if has_items {
            Err(
                Reply {
                    status: 400,
                    code: 400,
                    message: "Please delete the associated items first before deleting the shop. Ensure all items related to this shop are removed to proceed with shop deletion!",
                },
            )
        } else {
            Ok(())
        },
    }
}

} // verus!
