//! Requests about ingredient usage.

use vstd::prelude::*;
use crate::models::paging::{page_info, pages_needed, PageInfo};
use crate::api::access::{authorize, role_fault, Endpoint, Reply};
use crate::error::{CoreError, Entity, ValidationError};
use crate::ledger::StockLedger;
use crate::models::ingredient_usage::{
    correction_deltas, correction_outcome, record_outcome, reversal_delta, reversal_outcome,
    usage_debits, usage_events, IngredientUsage, IngredientUsagesRequest, NewIngredientUsage,
};

verus! {

/// What a listing of usage events is asked for.
#[derive(Clone, Debug, PartialEq, Eq)]
pub struct GetIngredientUsagesQuery {
    pub search: Option<String>,
    pub page: Option<usize>,
    pub per_page: Option<usize>,
}

impl GetIngredientUsagesQuery {
    /// Where the page that is asked for stands in a listing of `total`
    /// records.
    pub fn pages(&self, total: i64) -> (r: PageInfo)
        ensures
            r.total == total,
            match (self.page, self.per_page) {
                (Some(p), Some(n)) => {
                    &&& r.page == p
                    &&& r.per_page == n
                    &&& r.page_counts == if pages_needed(total as int, n as int) <= usize::MAX {
                        pages_needed(total as int, n as int)
                    } else {
                        usize::MAX as int
                    }
                },
                _ => r.page == 0 && r.per_page == 0 && r.page_counts == 0,
            },
    {
        page_info(self.page, self.per_page, total)
    }
}

/// The answer to a unit of work on usage that was refused. A malformed
/// request and a want of stock are answered with status 400, a usage event
/// that is not found with status 404, and everything else with status 500
/// and the message `failure`.
pub open spec fn usage_refusal(failure: &'static str, e: CoreError) -> Reply {
    match e {
        CoreError::Validation(ValidationError::MissingShop) => Reply {
            status: 400,
            code: 400,
            message: "Shop Id must not be empty!",
        },
        CoreError::Validation(ValidationError::MissingIngredient) => Reply {
            status: 400,
            code: 400,
            message: "Ingredient ID must not be empty!",
        },
        CoreError::Validation(ValidationError::MissingUsage) => Reply {
            status: 400,
            code: 400,
            message: "Usage ID must not be empty!",
        },
        CoreError::Validation(ValidationError::NonPositiveQuantity) => Reply {
            status: 400,
            code: 400,
            message: "Quantity Used must not be empty or less than or equal to 0.0!",
        },
        CoreError::Validation(ValidationError::IngredientChanged) => Reply {
            status: 400,
            code: 400,
            message: "Ingredient ID must not be changed!",
        },
        CoreError::InsufficientStock { .. } => Reply {
            status: 400,
            code: 400,
            message: "Insufficient ingredients!",
        },
        CoreError::NotFound { entity: Entity::Usage, .. } => Reply {
            status: 404,
            code: 404,
            message: "IngredientUsages not found!",
        },
        _ => Reply { status: 500, code: 500, message: failure },
    }
}

/// Gives what [`usage_refusal`] describes.
pub fn usage_reply(failure: &'static str, e: CoreError) -> (r: Reply)
    ensures
        r == usage_refusal(failure, e),
{
    match e {
        CoreError::Validation(ValidationError::MissingShop) => Reply {
            status: 400,
            code: 400,
            message: "Shop Id must not be empty!",
        },
        CoreError::Validation(ValidationError::MissingIngredient) => Reply {
            status: 400,
            code: 400,
            message: "Ingredient ID must not be empty!",
        },
        CoreError::Validation(ValidationError::MissingUsage) => Reply {
            status: 400,
            code: 400,
            message: "Usage ID must not be empty!",
        },
        CoreError::Validation(ValidationError::NonPositiveQuantity) => Reply {
            status: 400,
            code: 400,
            message: "Quantity Used must not be empty or less than or equal to 0.0!",
        },
        CoreError::Validation(ValidationError::IngredientChanged) => Reply {
            status: 400,
            code: 400,
            message: "Ingredient ID must not be changed!",
        },
        CoreError::InsufficientStock { .. } => Reply {
            status: 400,
            code: 400,
            message: "Insufficient ingredients!",
        },
        CoreError::NotFound { entity: Entity::Usage, .. } => Reply {
            status: 404,
            code: 404,
            message: "IngredientUsages not found!",
        },
        _ => Reply { status: 500, code: 500, message: failure },
    }
}

/// Records usage for a caller who is no waiter. A caller who may not, and a
/// batch that is refused, leave the ledger as it was.
pub fn add_ingredient_usages(role: &str, body: &IngredientUsagesRequest, ledger: &mut StockLedger) -> (r:
    Result<Vec<NewIngredientUsage>, Reply>)
    requires
        old(ledger).wf(),
    ensures
        final(ledger).wf(),
        final(ledger).kind() == old(ledger).kind(),
        final(ledger).opening() == old(ledger).opening(),
        match role_fault(Endpoint::AddIngredientUsages, role@) {
            Some(reply) => r == Err::<Vec<NewIngredientUsage>, Reply>(reply) && *final(ledger)
                == *old(ledger),
            None => match record_outcome(old(ledger).kind(), old(ledger)@, *body) {
                Ok(stock) => {
                    &&& r is Ok
                    &&& r.unwrap()@ == usage_events(body.ingredient_usages@, body.shop_id.unwrap())
                    &&& final(ledger)@ == stock
                    &&& final(ledger).applied() == old(ledger).applied() + usage_debits(
                        body.ingredient_usages@,
                    )
                },
                Err(e) => {
                    &&& r == Err::<Vec<NewIngredientUsage>, Reply>(
                        usage_refusal("Error adding ingredient usages to database!", e),
                    )
                    &&& *final(ledger) == *old(ledger)
                },
            },
        },
{
    match authorize(Endpoint::AddIngredientUsages, role) {
        Err(reply) => Err(reply),
        Ok(()) => match crate::models::ingredient_usage::add_ingredient_usages(body, ledger) {
            Ok(events) => Ok(events),
            Err(e) => Err(usage_reply("Error adding ingredient usages to database!", e)),
        },
    }
}

/// Corrects recorded usage for a caller who is no waiter. A caller who may
/// not, and a batch that is refused, leave the ledger and the events as they
/// were.
pub fn update_ingredient_usage(
    role: &str,
    body: &IngredientUsagesRequest,
    ledger: &mut StockLedger,
    events: &mut Vec<IngredientUsage>,
) -> (r: Result<(), Reply>)
    requires
        old(ledger).wf(),
    ensures
        final(ledger).wf(),
        final(ledger).kind() == old(ledger).kind(),
        final(ledger).opening() == old(ledger).opening(),
        match role_fault(Endpoint::UpdateIngredientUsage, role@) {
            Some(reply) => {
                &&& r == Err::<(), Reply>(reply)
                &&& *final(ledger) == *old(ledger)
                &&& *final(events) == *old(events)
            },
            None => match correction_outcome(old(ledger).kind(), old(ledger)@, old(events)@, *body) {
                Ok(after) => {
                    &&& r is Ok
                    &&& final(ledger)@ == after.0
                    &&& final(events)@ == after.1
                    &&& final(ledger).applied() == old(ledger).applied() + correction_deltas(
                        old(events)@,
                        body.ingredient_usages@,
                    )
                },
                Err(e) => {
                    &&& r == Err::<(), Reply>(
                        usage_refusal("Error updating ingredient usages to database!", e),
                    )
                    &&& *final(ledger) == *old(ledger)
                    &&& *final(events) == *old(events)
                },
            },
        },
{
    match authorize(Endpoint::UpdateIngredientUsage, role) {
        Err(reply) => Err(reply),
        Ok(()) => match crate::models::ingredient_usage::update_ingredient_usage(
            body,
            ledger,
            events,
        ) {
            Ok(()) => Ok(()),
            Err(e) => Err(usage_reply("Error updating ingredient usages to database!", e)),
        },
    }
}

/// Reverses a usage event for an admin or a manager. A caller who may not,
/// and a reversal that is refused, leave the ledger and the events as they
/// were.
pub fn delete_ingredient_usage(
    role: &str,
    usage_id: i32,
    ledger: &mut StockLedger,
    events: &mut Vec<IngredientUsage>,
) -> (r: Result<(), Reply>)
    requires
        old(ledger).wf(),
    ensures
        final(ledger).wf(),
        final(ledger).kind() == old(ledger).kind(),
        final(ledger).opening() == old(ledger).opening(),
        match role_fault(Endpoint::DeleteIngredientUsage, role@) {
            Some(reply) => {
                &&& r == Err::<(), Reply>(reply)
                &&& *final(ledger) == *old(ledger)
                &&& *final(events) == *old(events)
            },
            None => match reversal_outcome(old(ledger).kind(), old(ledger)@, old(events)@, usage_id) {
                Ok(after) => {
                    &&& r is Ok
                    &&& final(ledger)@ == after.0
                    &&& final(events)@ == after.1
                    &&& final(ledger).applied() == old(ledger).applied().push(
                        reversal_delta(old(events)@, usage_id),
                    )
                },
                Err(e) => {
                    &&& r == Err::<(), Reply>(usage_refusal("Error deleting ingredient_usage!", e))
                    &&& *final(ledger) == *old(ledger)
                    &&& *final(events) == *old(events)
                },
            },
        },
{
    match authorize(Endpoint::DeleteIngredientUsage, role) {
        Err(reply) => Err(reply),
        Ok(()) => match crate::models::ingredient_usage::delete_ingredient_usage(
            usage_id,
            ledger,
            events,
        ) {
            Ok(()) => Ok(()),
            Err(e) => Err(usage_reply("Error deleting ingredient_usage!", e)),
        },
    }
}

} // verus!
