//! Requests about users.

use vstd::prelude::*;
use crate::models::paging::{page_info, pages_needed, PageInfo};
use crate::api::access::{authorize, role_fault, Endpoint, Reply};

verus! {

/// What a listing of users is asked for.
#[derive(Clone, Debug, PartialEq, Eq)]
pub struct GetUsersQuery {
    pub search: Option<String>,
    pub page: Option<usize>,
    pub per_page: Option<usize>,
    pub role_id: Option<i32>,
}

impl GetUsersQuery {
    /// Where the page that is asked for stands in a listing of `total`
    /// records.
    pub fn pages(&self, total: i64) -> (r: PageInfo)
        ensures
            r.total == total,
            match (self.page, self.per_page) {
                (Some(p), Some(n)) => {
                    &&& r.page == p
                    &&& r.per_page == n
                    &&& r.page_counts == if pages_needed(total as int, n as int) <= usize::MAX {
                        pages_needed(total as int, n as int)
                    } else {
                        usize::MAX as int
                    }
                },
                _ => r.page == 0 && r.per_page == 0 && r.page_counts == 0,
            },
    {
        page_info(self.page, self.per_page, total)
    }
}

/// What is wrong with a user that is to be added: no name, or a login name
/// that is taken.
pub open spec fn new_user_fault(name: Seq<char>, taken: bool) -> Option<Reply> {
    if name.len() == 0 {
        Some(Reply { status: 400, code: 400, message: "Name must not be empty!" })
    } else if taken {
        Some(Reply { status: 400, code: 400, message: "User already exists!" })
    } else {
        None
    }
}

/// Decides whether a user may be added: by an admin, with a name, under a
/// login name that no user has yet.
pub fn add_user(role: &str, name: &str, taken: bool) -> (r: Result<(), Reply>)
    ensures
        match role_fault(Endpoint::AddUser, role@) {
            Some(reply) => r == Err::<(), Reply>(reply),
            None => match new_user_fault(name@, taken) {
                Some(reply) => r == Err::<(), Reply>(reply),
                None => r is Ok,
            },
        },
{
    match authorize(Endpoint::AddUser, role) {
        Err(reply) => Err(reply),
        Ok(()) => if name.is_empty() {
            Err(Reply { status: 400, code: 400, message: "Name must not be empty!" })
        } else if taken {
            Err(Reply { status: 400, code: 400, message: "User already exists!" })
        } else {
            Ok(())
        },
    }
}

/// Decides whether a user may be updated: by an admin, with a name.
pub fn update_user(role: &str, name: &str) -> (r: Result<(), Reply>)
    ensures
        match role_fault(Endpoint::UpdateUser, role@) {
            Some(reply) => r == Err::<(), Reply>(reply),
            None => match new_user_fault(name@, false) {
                Some(reply) => r == Err::<(), Reply>(reply),
                None => r is Ok,
            },
        },
{
    match authorize(Endpoint::UpdateUser, role) {
        Err(reply) => Err(reply),
        Ok(()) => if name.is_empty() {
            Err(Reply { status: 400, code: 400, message: "Name must not be empty!" })
        } else {
            Ok(())
        },
    }
}

} // verus!
