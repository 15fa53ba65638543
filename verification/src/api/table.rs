//! Requests about tables.

use vstd::prelude::*;
use crate::models::paging::{page_info, pages_needed, PageInfo};
use crate::api::access::{authorize, role_fault, Endpoint, Reply};
use crate::text::same_text;
use crate::models::table::{Table, TableRequest};

verus! {

/// What a listing of tables is asked for.
#[derive(Clone, Debug, PartialEq, Eq)]
pub struct GetTablesQuery {
    pub search: Option<String>,
    pub page: Option<usize>,
    pub per_page: Option<usize>,
}

impl GetTablesQuery {
    /// Where the page that is asked for stands in a listing of `total`
    /// records.
    pub fn pages(&self, total: i64) -> (r: PageInfo)
        ensures
            r.total == total,
            match (self.page, self.per_page) {
                (Some(p), Some(n)) => {
                    &&& r.page == p
                    &&& r.per_page == n
                    &&& r.page_counts == if pages_needed(total as int, n as int) <= usize::MAX {
                        pages_needed(total as int, n as int)
                    } else {
                        usize::MAX as int
                    }
                },
                _ => r.page == 0 && r.per_page == 0 && r.page_counts == 0,
            },
    {
        page_info(self.page, self.per_page, total)
    }
}

/// What is wrong with a table that is to be stored: no number, or a number
/// that another table of the shop has.
pub open spec fn table_fault(body: TableRequest, taken: bool) -> Option<Reply> {
    if body.table_number@.len() == 0 {
        Some(Reply { status: 400, code: 400, message: "Table number must not be empty!" })
    } else if taken {
        Some(Reply { status: 400, code: 400, message: "Table Name already exists!" })
    } else {
        None
    }
}

/// Decides whether a table may be added: by an admin or a manager, with a
/// number that no table of the shop has yet.
pub fn add_table(role: &str, body: &TableRequest, taken: bool) -> (r: Result<(), Reply>)
    ensures
        match role_fault(Endpoint::AddTable, role@) {
            Some(reply) => r == Err::<(), Reply>(reply),
            None => match table_fault(*body, taken) {
                Some(reply) => r == Err::<(), Reply>(reply),
                None => r is Ok,
            },
        },
{
    match authorize(Endpoint::AddTable, role) {
        Err(reply) => Err(reply),
        Ok(()) => if body.table_number.as_str().is_empty() {
            Err(Reply { status: 400, code: 400, message: "Table number must not be empty!" })
        } else if taken {
            Err(Reply { status: 400, code: 400, message: "Table Name already exists!" })
        } else {
            Ok(())
        },
    }
}

/// Whether updating a stored table changes its number, so that the new
/// number has to be looked up among the shop's tables.
pub fn table_number_changes(stored: &Table, body: &TableRequest) -> (r: bool)
    ensures
        r == (stored.table_number@ != body.table_number@),
{
    !same_text(stored.table_number.as_str(), body.table_number.as_str())
}

/// Decides whether a stored table may be updated: by an admin or a manager,
/// with a number, which if it changes must be one that no table of the shop
/// has yet. `taken` says whether another table has the new number; it is
/// only read when the number changes.
pub fn update_table(role: &str, stored: &Table, body: &TableRequest, taken: bool) -> (r: Result<
    (),
    Reply,
>)
    ensures
        match role_fault(Endpoint::UpdateTable, role@) {
            Some(reply) => r == Err::<(), Reply>(reply),
            None => match table_fault(*body, taken && stored.table_number@ != body.table_number@) {
                Some(reply) => r == Err::<(), Reply>(reply),
                None => r is Ok,
            },
        },
{
    match authorize(Endpoint::UpdateTable, role) {
        Err(reply) => Err(reply),
        Ok(()) => if body.table_number.as_str().is_empty() {
            Err(Reply { status: 400, code: 400, message: "Table number must not be empty!" })
        } else if taken && table_number_changes(stored, body) {
            Err(Reply { status: 400, code: 400, message: "Table Name already exists!" })
        } else {
            Ok(())
        },
    }
}

} // verus!
