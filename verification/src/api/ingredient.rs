//! Requests about ingredients.

use vstd::prelude::*;
use crate::models::paging::{page_info, pages_needed, PageInfo};
use crate::api::access::{authorize, role_fault, Endpoint, Reply};
use crate::models::ingredient::IngredientRequest;

verus! {

/// What a listing of ingredients is asked for.
#[derive(Clone, Debug, PartialEq, Eq)]
pub struct GetIngredientsQuery {
    pub search: Option<String>,
    pub page: Option<usize>,
    pub per_page: Option<usize>,
}

impl GetIngredientsQuery {
    /// Where the page that is asked for stands in a listing of `total`
    /// records.
    pub fn pages(&self, total: i64) -> (r: PageInfo)
        ensures
            r.total == total,
            match (self.page, self.per_page) {
                (Some(p), Some(n)) => {
                    &&& r.page == p
                    &&& r.per_page == n
                    &&& r.page_counts == if pages_needed(total as int, n as int) <= usize::MAX {
                        pages_needed(total as int, n as int)
                    } else {
                        usize::MAX as int
                    }
                },
                _ => r.page == 0 && r.per_page == 0 && r.page_counts == 0,
            },
    {
        page_info(self.page, self.per_page, total)
    }
}

/// What is wrong with the content of an ingredient: no name, or a stock
/// that is negative.
pub open spec fn ingredient_fault(body: IngredientRequest) -> Option<Reply> {
    if body.name@.len() == 0 {
        Some(Reply { status: 400, code: 400, message: "Name must not be empty!" })
    } else if body.stock_quantity < 0 {
        Some(Reply { status: 400, code: 400, message: "Stock quantity must not be negative!" })
    } else {
        None
    }
}

fn check_ingredient(body: &IngredientRequest) -> (r: Result<(), Reply>)
    ensures
        match ingredient_fault(*body) {
            Some(reply) => r == Err::<(), Reply>(reply),
            None => r is Ok,
        },
{
    if body.name.as_str().is_empty() {
        Err(Reply { status: 400, code: 400, message: "Name must not be empty!" })
    } else if body.stock_quantity < 0 {
        Err(Reply { status: 400, code: 400, message: "Stock quantity must not be negative!" })
    } else {
        Ok(())
    }
}

/// Decides whether an ingredient may be added: by an admin, with a name and
/// a stock that is not negative.
pub fn add_ingredient(role: &str, body: &IngredientRequest) -> (r: Result<(), Reply>)
    ensures
        match role_fault(Endpoint::AddIngredient, role@) {
            Some(reply) => r == Err::<(), Reply>(reply),
            None => match ingredient_fault(*body) {
                Some(reply) => r == Err::<(), Reply>(reply),
                None => r is Ok,
            },
        },
{
    match authorize(Endpoint::AddIngredient, role) {
        Err(reply) => Err(reply),
        Ok(()) => check_ingredient(body),
    }
}

/// Decides whether an ingredient may be updated: by an admin, with a name
/// and a stock that is not negative.
pub fn update_ingredient(role: &str, body: &IngredientRequest) -> (r: Result<(), Reply>)
    ensures
        match role_fault(Endpoint::UpdateIngredient, role@) {
            Some(reply) => r == Err::<(), Reply>(reply),
            None => match ingredient_fault(*body) {
                Some(reply) => r == Err::<(), Reply>(reply),
                None => r is Ok,
            },
        },
{
    match authorize(Endpoint::UpdateIngredient, role) {
        Err(reply) => Err(reply),
        Ok(()) => check_ingredient(body),
    }
}

} // verus!
