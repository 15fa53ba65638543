//! Pages of a listing.

use vstd::prelude::*;

verus! {

/// Where a page stands in a listing of `total` records.
#[derive(Clone, Copy, Debug, PartialEq, Eq)]
pub struct PageInfo {
    pub total: i64,
    pub page: usize,
    pub per_page: usize,
    pub page_counts: usize,
}

/// The number of pages of `per_page` records that `total` records fill, the
/// last page possibly in part. With no records there is no page. A page of
/// no records never fills: the count is then the largest there is.
pub open spec fn pages_needed(total: int, per_page: int) -> int {
    if total <= 0 {
        0
    } else if per_page <= 0 {
        usize::MAX as int
    } else {
        (total + per_page - 1) / per_page
    }
}

/// Counts what [`pages_needed`] describes, up to the largest count there is.
pub fn page_count(total: i64, per_page: usize) -> (r: usize)
    ensures
        r == if pages_needed(total as int, per_page as int) <= usize::MAX {
            pages_needed(total as int, per_page as int)
        } else {
            usize::MAX as int
        },
{
    if total <= 0 {
        0
    } else if per_page == 0 {
        usize::MAX
    } else {
        let pages: u128 = (total as u128 + per_page as u128 - 1) / (per_page as u128);
        if pages > usize::MAX as u128 {
            usize::MAX
        } else {
            pages as usize
        }
    }
}

/// The page information of a listing: the page asked for and the number of
/// pages when both a page and a page size are given, zeros otherwise.
pub fn page_info(page: Option<usize>, per_page: Option<usize>, total: i64) -> (r: PageInfo)
    ensures
        r.total == total,
        match (page, per_page) {
            (Some(p), Some(n)) => {
                &&& r.page == p
                &&& r.per_page == n
                &&& r.page_counts == if pages_needed(total as int, n as int) <= usize::MAX {
                    pages_needed(total as int, n as int)
                } else {
                    usize::MAX as int
                }
            },
            _ => r.page == 0 && r.per_page == 0 && r.page_counts == 0,
        },
{
    match (page, per_page) {
        (Some(p), Some(n)) => PageInfo { total, page: p, per_page: n, page_counts: page_count(total, n) },
        _ => PageInfo { total, page: 0, per_page: 0, page_counts: 0 },
    }
}

} // verus!
