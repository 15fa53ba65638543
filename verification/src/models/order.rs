//! Orders: placing an order against the stock of menu items, and moving an
//! order through its statuses.
//!
//! An order is open while it is pending or served. A table has at most one
//! open order; placing an order debits the stock of every line and keeps,
//! for every line, the item's sale price and full price of that moment.

use vstd::prelude::*;
use crate::error::{CoreError, Entity, ValidationError};
use crate::ledger::{batch_outcome, Delta, StockLedger};
use crate::pricing::{find_price, price_entry, price_snapshot, sale_price, ItemPrice};

verus! {

/// One requested line of an order.
#[derive(Clone, Debug, PartialEq, Eq)]
pub struct NewOrderItem {
    pub item_id: i32,
    pub quantity: i32,
    pub special_instructions: String,
}

/// A request to place an order for a table.
#[derive(Clone, Debug, PartialEq, Eq)]
pub struct NewOrder {
    pub table_id: i32,
    pub items: Vec<NewOrderItem>,
}

/// Where an order stands.
#[derive(Clone, Copy, Debug, PartialEq, Eq)]
pub enum OrderStatus {
    Pending,
    Served,
    Canceled,
    Completed,
}

/// The header of a stored order. `tax` and `discount` are amounts in the
/// smallest currency unit.
#[derive(Clone, Copy, Debug, PartialEq, Eq)]
pub struct Order {
    pub id: i32,
    pub table_id: i32,
    pub waiter_id: i32,
    pub status: OrderStatus,
    pub tax: i64,
    pub discount: i64,
}

/// One line of a placed order, with the prices it was placed at.
#[derive(Clone, Debug, PartialEq, Eq)]
pub struct OrderItem {
    pub item_id: i32,
    pub quantity: i32,
    pub special_instructions: String,
    pub price: i64,
    pub original_price: i64,
}

/// An order is open while it is pending or served.
pub open spec fn is_open(status: OrderStatus) -> bool {
    status is Pending || status is Served
}

/// Some open order is on table `table_id`.
pub open spec fn table_occupied(orders: Seq<Order>, table_id: i32) -> bool {
    exists|i: int| 0 <= i < orders.len() && #[trigger] orders[i].table_id == table_id && is_open(
        orders[i].status,
    )
}

/// No two open orders are on the same table.
pub open spec fn one_open_per_table(orders: Seq<Order>) -> bool {
    forall|i: int, j: int|
        0 <= i < orders.len() && 0 <= j < orders.len() && i != j && is_open(
            (#[trigger] orders[i]).status,
        ) && is_open((#[trigger] orders[j]).status) ==> orders[i].table_id != orders[j].table_id
}

/// The position of order `id` at or after `from`.
pub open spec fn order_index(orders: Seq<Order>, id: i32, from: int) -> Option<int>
    decreases orders.len() - from,
{
    if from < 0 || from >= orders.len() {
        None
    } else if orders[from].id == id {
        Some(from)
    } else {
        order_index(orders, id, from + 1)
    }
}

/// An order may move from pending to served or canceled, and from served or
/// canceled to completed.
pub open spec fn may_move(from: OrderStatus, to: OrderStatus) -> bool {
    match (from, to) {
        (OrderStatus::Pending, OrderStatus::Served) => true,
        (OrderStatus::Pending, OrderStatus::Canceled) => true,
        (OrderStatus::Served, OrderStatus::Completed) => true,
        (OrderStatus::Canceled, OrderStatus::Completed) => true,
        _ => false,
    }
}

/// Some line asks for no item at all, or for less.
pub open spec fn has_empty_line(items: Seq<NewOrderItem>) -> bool {
    exists|i: int| 0 <= i < items.len() && (#[trigger] items[i]).quantity <= 0
}

/// Why a line cannot be served from `stock` as it stands: its item has no
/// live row, the row holds less than the line asks for, or the item has no
/// price.
pub open spec fn line_shortfall(
    kind: Entity,
    stock: Map<int, int>,
    catalog: Seq<ItemPrice>,
    line: NewOrderItem,
) -> Option<CoreError> {
    if !stock.dom().contains(line.item_id as int) {
        Some(CoreError::NotFound { entity: kind, id: line.item_id })
    } else if line.quantity > stock[line.item_id as int] {
        Some(
            CoreError::InsufficientStock {
                id: line.item_id,
                delta: (-line.quantity) as i64,
                available: stock[line.item_id as int] as i64,
            },
        )
    } else if price_entry(catalog, line.item_id) is None {
        Some(CoreError::NotFound { entity: Entity::Item, id: line.item_id })
    } else {
        None
    }
}

/// The shortfall of the first line that has one.
pub open spec fn first_shortfall(
    kind: Entity,
    stock: Map<int, int>,
    catalog: Seq<ItemPrice>,
    items: Seq<NewOrderItem>,
) -> Option<CoreError>
    decreases items.len(),
{
    if items.len() == 0 {
        None
    } else {
        match line_shortfall(kind, stock, catalog, items[0]) {
            Some(e) => Some(e),
            None => first_shortfall(kind, stock, catalog, items.skip(1)),
        }
    }
}

/// The debits that an order asks of the ledger: one per line, of the line's
/// quantity, on the line's item.
pub open spec fn order_debits(items: Seq<NewOrderItem>) -> Seq<Delta> {
    Seq::new(
        items.len(),
        |i: int| Delta { id: items[i].item_id, amount: (-items[i].quantity) as i64 },
    )
}

/// The lines of an order placed at `now`: each requested line with the sale
/// price and the full price that its item has in `catalog` at that time.
pub open spec fn placed_lines(items: Seq<NewOrderItem>, catalog: Seq<ItemPrice>, now: i64) -> Seq<
    OrderItem,
> {
    Seq::new(
        items.len(),
        |i: int|
            {
                let data = price_snapshot(price_entry(catalog, items[i].item_id).unwrap(), now);
                OrderItem {
                    item_id: items[i].item_id,
                    quantity: items[i].quantity,
                    special_instructions: items[i].special_instructions,
                    price: data.price,
                    original_price: data.original_price,
                }
            },
    )
}

/// The header that a newly placed order gets.
pub open spec fn new_header(order_id: i32, waiter_id: i32, table_id: i32) -> Order {
    Order { id: order_id, table_id, waiter_id, status: OrderStatus::Pending, tax: 0, discount: 0 }
}

/// What placing an order gives: the stock after every line has been
/// debited, or the reason why no order is created. In this order: a line
/// without a positive quantity is a validation error; an open order on the
/// table, or an order with the same identifier, is a conflict; then every
/// line is held against the stock as it stands; then the lines are debited
/// one after the other.
pub open spec fn order_outcome(
    kind: Entity,
    stock: Map<int, int>,
    orders: Seq<Order>,
    catalog: Seq<ItemPrice>,
    order_id: i32,
    order: NewOrder,
) -> Result<Map<int, int>, CoreError> {
    if has_empty_line(order.items@) {
        Err(CoreError::Validation(ValidationError::NonPositiveQuantity))
    } else if table_occupied(orders, order.table_id) {
        Err(CoreError::Conflict { entity: Entity::Table, id: order.table_id })
    } else if order_index(orders, order_id, 0) is Some {
        Err(CoreError::Conflict { entity: Entity::Order, id: order_id })
    } else if first_shortfall(kind, stock, catalog, order.items@) is Some {
        Err(first_shortfall(kind, stock, catalog, order.items@).unwrap())
    } else {
        batch_outcome(kind, stock, order_debits(order.items@))
    }
}

/// What moving order `order_id` to `status` gives: the orders with that
/// order's status replaced, and its tax and discount replaced by those given
/// if the new status is completed; or the reason why nothing is changed.
pub open spec fn update_outcome(
    orders: Seq<Order>,
    order_id: i32,
    status: OrderStatus,
    tax: Option<i64>,
    discount: Option<i64>,
) -> Result<Seq<Order>, CoreError> {
    match order_index(orders, order_id, 0) {
        None => Err(CoreError::NotFound { entity: Entity::Order, id: order_id }),
        Some(i) => {
            if !may_move(orders[i].status, status) {
                Err(CoreError::Validation(ValidationError::InvalidTransition))
            } else {
                Ok(
                    orders.update(
                        i,
                        Order {
                            id: orders[i].id,
                            table_id: orders[i].table_id,
                            waiter_id: orders[i].waiter_id,
                            status,
                            tax: if status is Completed && tax is Some {
                                tax.unwrap()
                            } else {
                                orders[i].tax
                            },
                            discount: if status is Completed && discount is Some {
                                discount.unwrap()
                            } else {
                                orders[i].discount
                            },
                        },
                    ),
                )
            }
        },
    }
}

/// Whether an order is open.
pub fn status_is_open(status: OrderStatus) -> (r: bool)
    ensures
        r == is_open(status),
{
    match status {
        OrderStatus::Pending => true,
        OrderStatus::Served => true,
        OrderStatus::Canceled => false,
        OrderStatus::Completed => false,
    }
}

/// Whether an order may move from one status to another.
pub fn status_may_move(from: OrderStatus, to: OrderStatus) -> (r: bool)
    ensures
        r == may_move(from, to),
{
    match (from, to) {
        (OrderStatus::Pending, OrderStatus::Served) => true,
        (OrderStatus::Pending, OrderStatus::Canceled) => true,
        (OrderStatus::Served, OrderStatus::Completed) => true,
        (OrderStatus::Canceled, OrderStatus::Completed) => true,
        _ => false,
    }
}

/// Whether table `table_id` has an open order.
pub fn order_exists_in_table(table_id: i32, orders: &Vec<Order>) -> (r: bool)
    ensures
        r == table_occupied(orders@, table_id),
{
    let mut i: usize = 0;
    while i < orders.len()
        invariant
            0 <= i <= orders@.len(),
            forall|k: int|
                0 <= k < i ==> !((#[trigger] orders@[k]).table_id == table_id && is_open(
                    orders@[k].status,
                )),
        decreases orders@.len() - i,
    {
        if orders[i].table_id == table_id && status_is_open(orders[i].status) {
            return true;
        }
        i += 1;
    }
    false
}

fn find_order(order_id: i32, orders: &Vec<Order>) -> (r: Option<usize>)
    ensures
        match r {
            Some(i) => order_index(orders@, order_id, 0) == Some(i as int) && i < orders@.len(),
            None => order_index(orders@, order_id, 0) is None,
        },
{
    let mut i: usize = 0;
    while i < orders.len()
        invariant
            0 <= i <= orders@.len(),
            order_index(orders@, order_id, 0) == order_index(orders@, order_id, i as int),
        decreases orders@.len() - i,
    {
        if orders[i].id == order_id {
            return Some(i);
        }
        i += 1;
    }
    None
}

fn any_empty_line(items: &Vec<NewOrderItem>) -> (r: bool)
    ensures
        r == has_empty_line(items@),
{
    let mut i: usize = 0;
    while i < items.len()
        invariant
            0 <= i <= items@.len(),
            forall|k: int| 0 <= k < i ==> (#[trigger] items@[k]).quantity > 0,
        decreases items@.len() - i,
    {
        if items[i].quantity <= 0 {
            return true;
        }
        i += 1;
    }
    false
}

fn check_stock(ledger: &StockLedger, catalog: &Vec<ItemPrice>, items: &Vec<NewOrderItem>) -> (r:
    Option<CoreError>)
    requires
        ledger.wf(),
    ensures
        r == first_shortfall(ledger.kind(), ledger@, catalog@, items@),
{
    let mut i: usize = 0;
    assert(items@.skip(0) =~= items@);
    while i < items.len()
        invariant
            0 <= i <= items@.len(),
            ledger.wf(),
            first_shortfall(ledger.kind(), ledger@, catalog@, items@) == first_shortfall(
                ledger.kind(),
                ledger@,
                catalog@,
                items@.skip(i as int),
            ),
        decreases items@.len() - i,
    {
        let line = &items[i];
        assert(items@.skip(i as int)[0] == *line);
        assert(items@.skip(i as int).skip(1) =~= items@.skip(i + 1));
        match ledger.lock_and_read(line.item_id) {
            Err(e) => {
                return Some(e);
            },
            Ok(available) => {
                if line.quantity as i64 > available {
                    return Some(
                        CoreError::InsufficientStock {
                            id: line.item_id,
                            delta: -(line.quantity as i64),
                            available,
                        },
                    );
                }
            },
        }
        if find_price(catalog, line.item_id).is_none() {
            return Some(CoreError::NotFound { entity: Entity::Item, id: line.item_id });
        }
        i += 1;
    }
    None
}

/// Every line of an order without a shortfall has a price.
proof fn lemma_priced(
    kind: Entity,
    stock: Map<int, int>,
    catalog: Seq<ItemPrice>,
    items: Seq<NewOrderItem>,
    i: int,
)
    requires
        first_shortfall(kind, stock, catalog, items) is None,
        0 <= i < items.len(),
    ensures
        price_entry(catalog, items[i].item_id) is Some,
    decreases i,
{
    if i > 0 {
        lemma_priced(kind, stock, catalog, items.skip(1), i - 1);
    }
}

fn debits_of(items: &Vec<NewOrderItem>) -> (r: Vec<Delta>)
    ensures
        r@ == order_debits(items@),
{
    let mut out: Vec<Delta> = Vec::new();
    let mut i: usize = 0;
    while i < items.len()
        invariant
            0 <= i <= items@.len(),
            out@ == order_debits(items@).subrange(0, i as int),
        decreases items@.len() - i,
    {
        let line = &items[i];
        out.push(Delta { id: line.item_id, amount: -(line.quantity as i64) });
        assert(out@ =~= order_debits(items@).subrange(0, i + 1));
        i += 1;
    }
    assert(order_debits(items@).subrange(0, i as int) =~= order_debits(items@));
    out
}

fn lines_of(items: &Vec<NewOrderItem>, catalog: &Vec<ItemPrice>, now: i64) -> (r: Vec<OrderItem>)
    requires
        forall|i: int|
            0 <= i < items@.len() ==> price_entry(catalog@, (#[trigger] items@[i]).item_id) is Some,
    ensures
        r@ == placed_lines(items@, catalog@, now),
{
    let mut out: Vec<OrderItem> = Vec::new();
    let mut i: usize = 0;
    while i < items.len()
        invariant
            0 <= i <= items@.len(),
            forall|i: int|
                0 <= i < items@.len() ==> price_entry(catalog@, (#[trigger] items@[i]).item_id)
                    is Some,
            out@ == placed_lines(items@, catalog@, now).subrange(0, i as int),
        decreases items@.len() - i,
    {
        let line = &items[i];
        assert(price_entry(catalog@, items@[i as int].item_id) is Some);
        let at = find_price(catalog, line.item_id).unwrap();
        let entry = &catalog[at];
        proof {
            crate::pricing::lemma_effective_price_fits(*entry, now);
        }
        out.push(
            OrderItem {
                item_id: line.item_id,
                quantity: line.quantity,
                special_instructions: line.special_instructions.clone(),
                price: sale_price(entry, now),
                original_price: entry.price,
            },
        );
        assert(out@ =~= placed_lines(items@, catalog@, now).subrange(0, i + 1));
        i += 1;
    }
    assert(placed_lines(items@, catalog@, now).subrange(0, i as int) =~= placed_lines(
        items@,
        catalog@,
        now,
    ));
    out
}

/// Places an order under the identifier `order_id`: every line's quantity is
/// debited from its item, a pending order is added for the table, and the
/// lines are returned with the prices of time `now`. If the order is refused
/// (see [`order_outcome`]) no stock is changed, no order is added, and the
/// reason is returned.
pub fn create_order(
    order_id: i32,
    waiter_id: i32,
    order: &NewOrder,
    orders: &mut Vec<Order>,
    ledger: &mut StockLedger,
    catalog: &Vec<ItemPrice>,
    now: i64,
) -> (r: Result<Vec<OrderItem>, CoreError>)
    requires
        old(ledger).wf(),
    ensures
        final(ledger).wf(),
        final(ledger).kind() == old(ledger).kind(),
        final(ledger).opening() == old(ledger).opening(),
        match order_outcome(
            old(ledger).kind(),
            old(ledger)@,
            old(orders)@,
            catalog@,
            order_id,
            *order,
        ) {
            Ok(stock) => {
                &&& r is Ok
                &&& r.unwrap()@ == placed_lines(order.items@, catalog@, now)
                &&& final(ledger)@ == stock
                &&& final(ledger).applied() == old(ledger).applied() + order_debits(order.items@)
                &&& final(orders)@ == old(orders)@.push(
                    new_header(order_id, waiter_id, order.table_id),
                )
            },
            Err(e) => {
                &&& r == Err::<Vec<OrderItem>, CoreError>(e)
                &&& *final(ledger) == *old(ledger)
                &&& *final(orders) == *old(orders)
            },
        },
        one_open_per_table(old(orders)@) ==> one_open_per_table(final(orders)@),
{
    if any_empty_line(&order.items) {
        return Err(CoreError::Validation(ValidationError::NonPositiveQuantity));
    }
    if order_exists_in_table(order.table_id, orders) {
        return Err(CoreError::Conflict { entity: Entity::Table, id: order.table_id });
    }
    if find_order(order_id, orders).is_some() {
        return Err(CoreError::Conflict { entity: Entity::Order, id: order_id });
    }
    match check_stock(ledger, catalog, &order.items) {
        Some(e) => {
            return Err(e);
        },
        None => {},
    }
    let debits = debits_of(&order.items);
    match ledger.apply_all(&debits) {
        Err(e) => {
            return Err(e);
        },
        Ok(()) => {},
    }
    proof {
        assert forall|i: int| 0 <= i < order.items@.len() implies price_entry(
            catalog@,
            (#[trigger] order.items@[i]).item_id,
        ) is Some by {
            lemma_priced(old(ledger).kind(), old(ledger)@, catalog@, order.items@, i);
        }
    }
    let lines = lines_of(&order.items, catalog, now);
    orders.push(
        Order {
            id: order_id,
            table_id: order.table_id,
            waiter_id,
            status: OrderStatus::Pending,
            tax: 0,
            discount: 0,
        },
    );
    proof {
        if one_open_per_table(old(orders)@) {
            let before = old(orders)@;
            assert forall|i: int, j: int|
                0 <= i < orders@.len() && 0 <= j < orders@.len() && i != j && is_open(
                    (#[trigger] orders@[i]).status,
                ) && is_open((#[trigger] orders@[j]).status) implies orders@[i].table_id
                != orders@[j].table_id by {
                if i < before.len() && j < before.len() {
                    assert(orders@[i] == before[i] && orders@[j] == before[j]);
                } else if i < before.len() {
                    assert(before[i].table_id != order.table_id);
                } else {
                    assert(before[j].table_id != order.table_id);
                }
            }
        }
    }
    Ok(lines)
}

/// Moves order `order_id` to `status`. When the new status is completed the
/// order takes the tax and the discount that are given; otherwise it keeps
/// its own. An unknown order is `NotFound`, a move that [`may_move`] does not
/// allow is `InvalidTransition`; in both cases nothing is changed.
pub fn update_order(
    order_id: i32,
    status: OrderStatus,
    tax: Option<i64>,
    discount: Option<i64>,
    orders: &mut Vec<Order>,
) -> (r: Result<(), CoreError>)
    ensures
        match update_outcome(old(orders)@, order_id, status, tax, discount) {
            Ok(after) => r is Ok && final(orders)@ == after,
            Err(e) => r == Err::<(), CoreError>(e) && *final(orders) == *old(orders),
        },
        one_open_per_table(old(orders)@) ==> one_open_per_table(final(orders)@),
{
    let at = match find_order(order_id, orders) {
        None => {
            return Err(CoreError::NotFound { entity: Entity::Order, id: order_id });
        },
        Some(at) => at,
    };
    let stored = orders[at];
    if !status_may_move(stored.status, status) {
        return Err(CoreError::Validation(ValidationError::InvalidTransition));
    }
    let completed = match status {
        OrderStatus::Completed => true,
        _ => false,
    };
    let new_tax = match tax {
        Some(t) => if completed { t } else { stored.tax },
        None => stored.tax,
    };
    let new_discount = match discount {
        Some(d) => if completed { d } else { stored.discount },
        None => stored.discount,
    };
    orders.set(
        at,
        Order {
            id: stored.id,
            table_id: stored.table_id,
            waiter_id: stored.waiter_id,
            status,
            tax: new_tax,
            discount: new_discount,
        },
    );
    proof {
        if one_open_per_table(old(orders)@) {
            assert forall|i: int, j: int|
                0 <= i < orders@.len() && 0 <= j < orders@.len() && i != j && is_open(
                    (#[trigger] orders@[i]).status,
                ) && is_open((#[trigger] orders@[j]).status) implies orders@[i].table_id
                != orders@[j].table_id by {
                assert(is_open(old(orders)@[i].status));
                assert(is_open(old(orders)@[j].status));
            }
        }
    }
    Ok(())
}

} // verus!
