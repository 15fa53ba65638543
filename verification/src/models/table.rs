//! Tables and the dashboard that shows which of them are occupied.

use vstd::prelude::*;
use crate::models::order::{is_open, status_is_open, Order};

verus! {

/// A stored table with the name of its shop.
#[derive(Clone, Debug, PartialEq, Eq)]
pub struct Table {
    pub id: i32,
    pub table_number: String,
    pub qr_code: String,
    pub shop_id: i32,
    pub shop_name: String,
    pub created_at: String,
}

/// The content of a table that is added or updated.
#[derive(Clone, Debug, PartialEq, Eq)]
pub struct TableRequest {
    pub table_number: String,
    pub qr_code: String,
    pub shop_id: i32,
}

/// A table as the dashboard shows it: with the identifier of its open order,
/// or 0 if it has none.
#[derive(Clone, Debug, PartialEq, Eq)]
pub struct DashboardData {
    pub id: i32,
    pub table_number: String,
    pub qr_code: String,
    pub shop_id: i32,
    pub shop_name: String,
    pub created_at: String,
    pub order_id: i32,
}

/// The identifier of the first open order on table `table_id` at or after
/// position `from`; 0 if there is none.
pub open spec fn open_order_of(orders: Seq<Order>, table_id: i32, from: int) -> i32
    decreases orders.len() - from,
{
    if from < 0 || from >= orders.len() {
        0
    } else if orders[from].table_id == table_id && is_open(orders[from].status) {
        orders[from].id
    } else {
        open_order_of(orders, table_id, from + 1)
    }
}

/// Finds what [`open_order_of`] describes, from the first order on.
pub fn open_order_on(table_id: i32, orders: &Vec<Order>) -> (r: i32)
    ensures
        r == open_order_of(orders@, table_id, 0),
{
    let mut i: usize = 0;
    while i < orders.len()
        invariant
            0 <= i <= orders@.len(),
            open_order_of(orders@, table_id, 0) == open_order_of(orders@, table_id, i as int),
        decreases orders@.len() - i,
    {
        if orders[i].table_id == table_id && status_is_open(orders[i].status) {
            return orders[i].id;
        }
        i += 1;
    }
    0
}

/// The table as the dashboard shows it, given the stored orders.
pub fn getdashboarddata(table: &Table, orders: &Vec<Order>) -> (r: DashboardData)
    ensures
        r.id == table.id,
        r.table_number == table.table_number,
        r.qr_code == table.qr_code,
        r.shop_id == table.shop_id,
        r.shop_name == table.shop_name,
        r.created_at == table.created_at,
        r.order_id == open_order_of(orders@, table.id, 0),
{
    DashboardData {
        id: table.id,
        table_number: table.table_number.clone(),
        qr_code: table.qr_code.clone(),
        shop_id: table.shop_id,
        shop_name: table.shop_name.clone(),
        created_at: table.created_at.clone(),
        order_id: open_order_on(table.id, orders),
    }
}

} // verus!
