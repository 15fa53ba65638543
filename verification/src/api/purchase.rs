//! Requests about purchases.

use vstd::prelude::*;
use crate::models::paging::{page_info, pages_needed, PageInfo};
use crate::api::access::{authorize, role_fault, Endpoint, Reply};
use crate::error::{CoreError, Entity, ValidationError};
use crate::ledger::StockLedger;
use crate::models::purchase::{
    all_struck, amendment_of_purchase, purchase_credits, purchase_deltas, receipt_outcome,
    AddPurchaseRequest, Purchase, UpdatePurchaseRequest,
};

verus! {

/// What a listing of purchases is asked for.
#[derive(Clone, Debug, PartialEq, Eq)]
pub struct GetPurchasesQuery {
    pub search: Option<String>,
    pub page: Option<usize>,
    pub per_page: Option<usize>,
}

impl GetPurchasesQuery {
    /// Where the page that is asked for stands in a listing of `total`
    /// records.
    pub fn pages(&self, total: i64) -> (r: PageInfo)
        ensures
            r.total == total,
            match (self.page, self.per_page) {
                (Some(p), Some(n)) => {
                    &&& r.page == p
                    &&& r.per_page == n
                    &&& r.page_counts == if pages_needed(total as int, n as int) <= usize::MAX {
                        pages_needed(total as int, n as int)
                    } else {
                        usize::MAX as int
                    }
                },
                _ => r.page == 0 && r.per_page == 0 && r.page_counts == 0,
            },
    {
        page_info(self.page, self.per_page, total)
    }
}

/// The answer to a unit of work on a purchase that was refused. A malformed
/// request and a want of stock are answered with status 400, a purchase that
/// is not found with status 404, and everything else with status 500 and the
/// message `failure`.
pub open spec fn purchase_refusal(failure: &'static str, e: CoreError) -> Reply {
    match e {
        CoreError::Validation(ValidationError::MissingTotalCost) => Reply {
            status: 400,
            code: 400,
            message: "Total Cost  must not be empty!",
        },
        CoreError::Validation(ValidationError::NonPositiveQuantity) => Reply {
            status: 400,
            code: 400,
            message: "Quantity Purchased must be greater than 0!",
        },
        CoreError::InsufficientStock { .. } => Reply {
            status: 400,
            code: 400,
            message: "Insufficient ingredients!",
        },
        CoreError::NotFound { entity: Entity::Purchase, .. } => Reply {
            status: 404,
            code: 404,
            message: "Purchase not found!",
        },
        _ => Reply { status: 500, code: 500, message: failure },
    }
}

/// Gives what [`purchase_refusal`] describes.
pub fn purchase_reply(failure: &'static str, e: CoreError) -> (r: Reply)
    ensures
        r == purchase_refusal(failure, e),
{
    match e {
        CoreError::Validation(ValidationError::MissingTotalCost) => Reply {
            status: 400,
            code: 400,
            message: "Total Cost  must not be empty!",
        },
        CoreError::Validation(ValidationError::NonPositiveQuantity) => Reply {
            status: 400,
            code: 400,
            message: "Quantity Purchased must be greater than 0!",
        },
        CoreError::InsufficientStock { .. } => Reply {
            status: 400,
            code: 400,
            message: "Insufficient ingredients!",
        },
        CoreError::NotFound { entity: Entity::Purchase, .. } => Reply {
            status: 404,
            code: 404,
            message: "Purchase not found!",
        },
        _ => Reply { status: 500, code: 500, message: failure },
    }
}

/// Receives a purchase for an admin. A caller who may not, and a purchase
/// that is refused, leave the ledger as it was.
pub fn add_purchase(role: &str, body: &AddPurchaseRequest, ledger: &mut StockLedger) -> (r: Result<
    (),
    Reply,
>)
    requires
        old(ledger).wf(),
    ensures
        final(ledger).wf(),
        final(ledger).kind() == old(ledger).kind(),
        final(ledger).opening() == old(ledger).opening(),
        match role_fault(Endpoint::AddPurchase, role@) {
            Some(reply) => r == Err::<(), Reply>(reply) && *final(ledger) == *old(ledger),
            None => match receipt_outcome(old(ledger).kind(), old(ledger)@, *body) {
                Ok(stock) => {
                    &&& r is Ok
                    &&& final(ledger)@ == stock
                    &&& final(ledger).applied() == old(ledger).applied() + purchase_credits(
                        body.purchase_details@,
                    )
                },
                Err(e) => {
                    &&& r == Err::<(), Reply>(purchase_refusal("Error adding purchase!", e))
                    &&& *final(ledger) == *old(ledger)
                },
            },
        },
{
    match authorize(Endpoint::AddPurchase, role) {
        Err(reply) => Err(reply),
        Ok(()) => match crate::models::purchase::add_purchase(body, ledger) {
            Ok(()) => Ok(()),
            Err(e) => Err(purchase_reply("Error adding purchase!", e)),
        },
    }
}

/// Corrects a stored purchase for an admin. A caller who may not, and a
/// correction that is refused, leave the ledger and the purchase as they
/// were.
pub fn update_purchase(
    role: &str,
    body: &UpdatePurchaseRequest,
    purchase_id: i32,
    purchase: &mut Purchase,
    ledger: &mut StockLedger,
) -> (r: Result<(), Reply>)
    requires
        old(ledger).wf(),
    ensures
        final(ledger).wf(),
        final(ledger).kind() == old(ledger).kind(),
        final(ledger).opening() == old(ledger).opening(),
        match role_fault(Endpoint::UpdatePurchase, role@) {
            Some(reply) => {
                &&& r == Err::<(), Reply>(reply)
                &&& *final(ledger) == *old(ledger)
                &&& *final(purchase) == *old(purchase)
            },
            None => match amendment_of_purchase(
                old(ledger).kind(),
                old(ledger)@,
                *old(purchase),
                purchase_id,
                *body,
            ) {
                Ok(after) => {
                    &&& r is Ok
                    &&& final(ledger)@ == after.0
                    &&& final(ledger).applied() == old(ledger).applied() + purchase_deltas(
                        old(purchase).purchase_details@,
                        body.purchase_details@,
                    )
                    &&& final(purchase).purchase_details@ == after.1
                    &&& final(purchase).total_cost == body.total_cost
                    &&& final(purchase).purchase_date == body.purchase_date
                    &&& final(purchase).shop_id == body.shop_id
                    &&& final(purchase).purchase_id == old(purchase).purchase_id
                    &&& final(purchase).shop_name == old(purchase).shop_name
                    &&& final(purchase).created_at == old(purchase).created_at
                    &&& final(purchase).deleted == old(purchase).deleted
                },
                Err(e) => {
                    &&& r == Err::<(), Reply>(purchase_refusal("Error updating purchase!", e))
                    &&& *final(ledger) == *old(ledger)
                    &&& *final(purchase) == *old(purchase)
                },
            },
        },
{
    match authorize(Endpoint::UpdatePurchase, role) {
        Err(reply) => Err(reply),
        Ok(()) => match crate::models::purchase::update_purchase(
            body,
            purchase_id,
            purchase,
            ledger,
        ) {
            Ok(()) => Ok(()),
            Err(e) => Err(purchase_reply("Error updating purchase!", e)),
        },
    }
}

/// Deletes a stored purchase for an admin. A caller who may not, and a
/// purchase that is not found, leave the purchase as it was.
pub fn delete_purchase(role: &str, purchase_id: i32, purchase: &mut Purchase) -> (r: Result<
    (),
    Reply,
>)
    ensures
        match role_fault(Endpoint::DeletePurchase, role@) {
            Some(reply) => r == Err::<(), Reply>(reply) && *final(purchase) == *old(purchase),
            None => if old(purchase).purchase_id == purchase_id && !old(purchase).deleted {
                &&& r is Ok
                &&& final(purchase).deleted
                &&& final(purchase).purchase_details@ == all_struck(old(purchase).purchase_details@)
                &&& final(purchase).purchase_id == old(purchase).purchase_id
                &&& final(purchase).total_cost == old(purchase).total_cost
                &&& final(purchase).purchase_date == old(purchase).purchase_date
                &&& final(purchase).shop_id == old(purchase).shop_id
                &&& final(purchase).shop_name == old(purchase).shop_name
                &&& final(purchase).created_at == old(purchase).created_at
            } else {
                &&& r == Err::<(), Reply>(
                    Reply { status: 404, code: 404, message: "Purchase not found!" },
                )
                &&& *final(purchase) == *old(purchase)
            },
        },
{
    match authorize(Endpoint::DeletePurchase, role) {
        Err(reply) => Err(reply),
        Ok(()) => match crate::models::purchase::delete_purchase(purchase_id, purchase) {
            Ok(()) => Ok(()),
            Err(e) => Err(purchase_reply("Error deleting purchase!", e)),
        },
    }
}

} // verus!
