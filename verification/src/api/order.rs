//! Requests about orders and the daily sale report.

use vstd::prelude::*;
use crate::models::paging::{page_info, pages_needed, PageInfo};
use crate::api::access::Reply;
use crate::text::same_text;
use crate::error::{CoreError, Entity};
use crate::models::order::{one_open_per_table, update_outcome, Order, OrderStatus};

verus! {

/// What a listing of orders is asked for. The two dates are day numbers.
#[derive(Clone, Debug, PartialEq, Eq)]
pub struct GetOrdersQuery {
    pub search: Option<String>,
    pub page: Option<usize>,
    pub per_page: Option<usize>,
    pub from_date: Option<i32>,
    pub to_date: Option<i32>,
    pub status: Option<String>,
}

impl GetOrdersQuery {
    /// Where the page that is asked for stands in a listing of `total`
    /// records.
    pub fn pages(&self, total: i64) -> (r: PageInfo)
        ensures
            r.total == total,
            match (self.page, self.per_page) {
                (Some(p), Some(n)) => {
                    &&& r.page == p
                    &&& r.per_page == n
                    &&& r.page_counts == if pages_needed(total as int, n as int) <= usize::MAX {
                        pages_needed(total as int, n as int)
                    } else {
                        usize::MAX as int
                    }
                },
                _ => r.page == 0 && r.per_page == 0 && r.page_counts == 0,
            },
    {
        page_info(self.page, self.per_page, total)
    }
}

/// The new status of an order, with the tax and the discount that a
/// completed order takes.
#[derive(Clone, Debug, PartialEq, Eq)]
pub struct UpdateOrderRequest {
    pub status: String,
    pub tax: Option<i64>,
    pub discount: Option<i64>,
}

/// What a sale report is asked for. The two dates are day numbers.
#[derive(Clone, Copy, Debug, PartialEq, Eq)]
pub struct ReportQuery {
    pub from_date: i32,
    pub to_date: i32,
    pub shop_id: i32,
}

/// The status that a name stands for.
pub open spec fn status_named(name: Seq<char>) -> Option<OrderStatus> {
    if name == "Pending"@ {
        Some(OrderStatus::Pending)
    } else if name == "Served"@ {
        Some(OrderStatus::Served)
    } else if name == "Canceled"@ {
        Some(OrderStatus::Canceled)
    } else if name == "Completed"@ {
        Some(OrderStatus::Completed)
    } else {
        None
    }
}

/// The answer to an order that was refused. An order without a positive
/// quantity and a table that has an open order are answered with status 400;
/// everything else with status 500 and code 400.
pub open spec fn order_refusal(e: CoreError) -> Reply {
    match e {
        CoreError::Validation(_) => Reply {
            status: 400,
            code: 400,
            message: "Quantity must be greater than 0!",
        },
        CoreError::Conflict { entity: Entity::Table, .. } => Reply {
            status: 400,
            code: 400,
            message: "Order already exists in the request table!",
        },
        CoreError::InsufficientStock { .. } => Reply {
            status: 500,
            code: 400,
            message: "Insufficient stock for an ordered item",
        },
        CoreError::NotFound { .. } => Reply {
            status: 500,
            code: 400,
            message: "An ordered item was not found",
        },
        _ => Reply { status: 500, code: 400, message: "Error creating order!" },
    }
}

/// The answer to a move of an order that is asked for under `role` with
/// `body`, before the order is looked at: the status must be one of the
/// four, and a waiter may only cancel.
pub open spec fn move_fault(role: Seq<char>, body: UpdateOrderRequest) -> Option<Reply> {
    if status_named(body.status@) is None {
        Some(
            Reply {
                status: 400,
                code: 400,
                message: "Please select a valid status: Pending, Served, Canceled, or Completed.",
            },
        )
    } else if role == "Waiter"@ && status_named(body.status@) != Some(OrderStatus::Canceled) {
        Some(Reply { status: 401, code: 401, message: "Unauthorized!" })
    } else {
        None
    }
}

/// The answer to a move of an order that was refused once the order was
/// looked at.
pub open spec fn move_refusal(e: CoreError) -> Reply {
    match e {
        CoreError::NotFound { .. } => Reply { status: 404, code: 404, message: "Order not found!" },
        CoreError::Validation(_) => Reply {
            status: 400,
            code: 400,
            message: "The order cannot move to this status!",
        },
        _ => Reply { status: 500, code: 500, message: "Error updating order!" },
    }
}

/// Reads the name of a status.
pub fn parse_status(name: &str) -> (r: Option<OrderStatus>)
    ensures
        r == status_named(name@),
{
    if same_text(name, "Pending") {
        Some(OrderStatus::Pending)
    } else if same_text(name, "Served") {
        Some(OrderStatus::Served)
    } else if same_text(name, "Canceled") {
        Some(OrderStatus::Canceled)
    } else if same_text(name, "Completed") {
        Some(OrderStatus::Completed)
    } else {
        None
    }
}

/// Gives what [`order_refusal`] describes.
pub fn order_reply(e: CoreError) -> (r: Reply)
    ensures
        r == order_refusal(e),
{
    match e {
        CoreError::Validation(_) => Reply {
            status: 400,
            code: 400,
            message: "Quantity must be greater than 0!",
        },
        CoreError::Conflict { entity: Entity::Table, .. } => Reply {
            status: 400,
            code: 400,
            message: "Order already exists in the request table!",
        },
        CoreError::InsufficientStock { .. } => Reply {
            status: 500,
            code: 400,
            message: "Insufficient stock for an ordered item",
        },
        CoreError::NotFound { .. } => Reply {
            status: 500,
            code: 400,
            message: "An ordered item was not found",
        },
        _ => Reply { status: 500, code: 400, message: "Error creating order!" },
    }
}

/// Moves an order to the status that `body` names, for a caller of this
/// role. A waiter may only cancel. A move that is refused leaves the orders
/// as they were.
pub fn update_order(role: &str, order_id: i32, body: &UpdateOrderRequest, orders: &mut Vec<Order>) -> (r:
    Result<(), Reply>)
    ensures
        one_open_per_table(old(orders)@) ==> one_open_per_table(final(orders)@),
        match move_fault(role@, *body) {
            Some(reply) => r == Err::<(), Reply>(reply) && *final(orders) == *old(orders),
            None => match update_outcome(
                old(orders)@,
                order_id,
                status_named(body.status@).unwrap(),
                body.tax,
                body.discount,
            ) {
                Ok(after) => r is Ok && final(orders)@ == after,
                Err(e) => r == Err::<(), Reply>(move_refusal(e)) && *final(orders) == *old(orders),
            },
        },
{
    let status = match parse_status(body.status.as_str()) {
        None => {
            return Err(
                Reply {
                    status: 400,
                    code: 400,
                    message: "Please select a valid status: Pending, Served, Canceled, or Completed.",
                },
            );
        },
        Some(status) => status,
    };
    if same_text(role, "Waiter") {
        match status {
            OrderStatus::Canceled => {},
            _ => {
                return Err(Reply { status: 401, code: 401, message: "Unauthorized!" });
            },
        }
    }
    match crate::models::order::update_order(order_id, status, body.tax, body.discount, orders) {
        Ok(()) => Ok(()),
        Err(e) => Err(
            match e {
                CoreError::NotFound { .. } => Reply {
                    status: 404,
                    code: 404,
                    message: "Order not found!",
                },
                CoreError::Validation(_) => Reply {
                    status: 400,
                    code: 400,
                    message: "The order cannot move to this status!",
                },
                _ => Reply { status: 500, code: 500, message: "Error updating order!" },
            },
        ),
    }
}

/// Decides whether a sale report may be drawn up: its first day must not be
/// after its last.
pub fn get_daily_sale_report(query: &ReportQuery) -> (r: Result<(), Reply>)
    ensures
        if query.from_date > query.to_date {
            r == Err::<(), Reply>(Reply { status: 400, code: 400, message: "Invalid Date Range!" })
        } else {
            r is Ok
        },
{
    if query.from_date > query.to_date {
        Err(Reply { status: 400, code: 400, message: "Invalid Date Range!" })
    } else {
        Ok(())
    }
}

} // verus!
