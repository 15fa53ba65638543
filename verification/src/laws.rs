//! What holds of every unit of work, stated over the outcomes that the
//! units of work promise.

use vstd::prelude::*;
use crate::error::{CoreError, Entity};
use crate::ledger::{
    delta_outcome, lemma_batch_applied, lemma_delta_applied, net_delta, within_bounds,
};
use crate::models::ingredient_usage::{
    correct_line, correct_lines, correction_outcome, record_outcome, reversal_outcome,
    usage_debits, usage_index, IngredientUsage, IngredientUsageRequest, IngredientUsagesRequest,
};
use crate::models::order::{
    has_empty_line, is_open, may_move, new_header, one_open_per_table, order_debits,
    order_index, order_outcome, placed_lines, table_occupied, update_outcome, NewOrder,
    NewOrderItem, Order, OrderStatus,
};
use crate::models::purchase::{
    amend_line, amend_lines, amendment_of_purchase, amendment_outcome, purchase_credits,
    receipt_outcome, AddPurchaseRequest, Purchase, PurchaseDetail, UpdatePurchaseDetailRequest,
    UpdatePurchaseRequest,
};
use crate::pricing::{effective_price, lemma_effective_price_fits, price_entry, ItemPrice};

verus! {

/// The shared state that units of work read and change: the stock of
/// ingredients, the stock of menu items, and the orders.
pub struct Store {
    pub ingredients: Map<int, int>,
    pub items: Map<int, int>,
    pub orders: Seq<Order>,
}

/// One unit of work, with the request and the records it was given.
#[allow(inconsistent_fields)]
pub enum Operation {
    /// Usage is recorded.
    Record { data: IngredientUsagesRequest },
    /// Recorded usage is corrected against the stored events.
    Correct { data: IngredientUsagesRequest, events: Seq<IngredientUsage> },
    /// A stored event is reversed.
    Reverse { usage_id: i32, events: Seq<IngredientUsage> },
    /// An order is placed.
    PlaceOrder { order_id: i32, waiter_id: i32, order: NewOrder, catalog: Seq<ItemPrice> },
    /// An order moves to another status.
    MoveOrder { order_id: i32, status: OrderStatus, tax: Option<i64>, discount: Option<i64> },
    /// A purchase is received.
    Receive { data: AddPurchaseRequest },
    /// A stored purchase is corrected.
    Amend { purchase: Purchase, purchase_id: i32, data: UpdatePurchaseRequest },
}

/// The store after one unit of work: what the unit's outcome gives, or the
/// store as it was if the unit is refused.
pub open spec fn step(store: Store, op: Operation) -> Store {
    match op {
        Operation::Record { data } => match record_outcome(
            Entity::Ingredient,
            store.ingredients,
            data,
        ) {
            Ok(stock) => Store { ingredients: stock, ..store },
            Err(_) => store,
        },
        Operation::Correct { data, events } => match correction_outcome(
            Entity::Ingredient,
            store.ingredients,
            events,
            data,
        ) {
            Ok(after) => Store { ingredients: after.0, ..store },
            Err(_) => store,
        },
        Operation::Reverse { usage_id, events } => match reversal_outcome(
            Entity::Ingredient,
            store.ingredients,
            events,
            usage_id,
        ) {
            Ok(after) => Store { ingredients: after.0, ..store },
            Err(_) => store,
        },
        Operation::PlaceOrder { order_id, waiter_id, order, catalog } => match order_outcome(
            Entity::Item,
            store.items,
            store.orders,
            catalog,
            order_id,
            order,
        ) {
            Ok(stock) => Store {
                items: stock,
                orders: store.orders.push(new_header(order_id, waiter_id, order.table_id)),
                ..store
            },
            Err(_) => store,
        },
        Operation::MoveOrder { order_id, status, tax, discount } => match update_outcome(
            store.orders,
            order_id,
            status,
            tax,
            discount,
        ) {
            Ok(orders) => Store { orders, ..store },
            Err(_) => store,
        },
        Operation::Receive { data } => match receipt_outcome(
            Entity::Ingredient,
            store.ingredients,
            data,
        ) {
            Ok(stock) => Store { ingredients: stock, ..store },
            Err(_) => store,
        },
        Operation::Amend { purchase, purchase_id, data } => match amendment_of_purchase(
            Entity::Ingredient,
            store.ingredients,
            purchase,
            purchase_id,
            data,
        ) {
            Ok(after) => Store { ingredients: after.0, ..store },
            Err(_) => store,
        },
    }
}

/// The store after a sequence of units of work, one after the other.
pub open spec fn run(store: Store, ops: Seq<Operation>) -> Store
    decreases ops.len(),
{
    if ops.len() == 0 {
        store
    } else {
        step(run(store, ops.drop_last()), ops.last())
    }
}

/// No quantity is negative and no table has two open orders.
pub open spec fn consistent(store: Store) -> bool {
    &&& within_bounds(store.ingredients)
    &&& within_bounds(store.items)
    &&& one_open_per_table(store.orders)
}

/// Corrections applied one after the other keep a stock within bounds.
pub proof fn lemma_corrections_keep_bounds(
    kind: Entity,
    stock: Map<int, int>,
    events: Seq<IngredientUsage>,
    lines: Seq<IngredientUsageRequest>,
)
    requires
        within_bounds(stock),
        correct_lines(kind, stock, events, lines) is Ok,
    ensures
        within_bounds(correct_lines(kind, stock, events, lines).unwrap().0),
    decreases lines.len(),
{
    if lines.len() > 0 {
        let i = usage_index(events, lines[0].usage_id.unwrap(), 0).unwrap();
        let delta = (events[i].quantity_used - lines[0].quantity_used.unwrap()) as i64;
        lemma_delta_applied(kind, stock, events[i].ingredient_id, delta);
        let next = correct_line(kind, stock, events, lines[0]).unwrap();
        lemma_corrections_keep_bounds(kind, next.0, next.1, lines.skip(1));
    }
}

/// What the ledger is asked when a purchase line is corrected keeps a stock
/// within bounds.
pub proof fn lemma_amendment_keeps_bounds(
    kind: Entity,
    stock: Map<int, int>,
    old_ingredient: i32,
    old_quantity: i64,
    new_ingredient: i32,
    new_quantity: i64,
)
    requires
        within_bounds(stock),
        amendment_outcome(kind, stock, old_ingredient, old_quantity, new_ingredient, new_quantity)
            is Ok,
    ensures
        within_bounds(
            amendment_outcome(
                kind,
                stock,
                old_ingredient,
                old_quantity,
                new_ingredient,
                new_quantity,
            ).unwrap(),
        ),
{
    if old_ingredient == new_ingredient {
        lemma_delta_applied(kind, stock, new_ingredient, (new_quantity - old_quantity) as i64);
    } else {
        lemma_delta_applied(kind, stock, old_ingredient, (-old_quantity) as i64);
        let taken_back = delta_outcome(kind, stock, old_ingredient, (-old_quantity) as i64).unwrap();
        lemma_delta_applied(kind, taken_back, new_ingredient, new_quantity);
    }
}

/// Purchase lines corrected one after the other keep a stock within bounds.
pub proof fn lemma_amendments_keep_bounds(
    kind: Entity,
    stock: Map<int, int>,
    details: Seq<PurchaseDetail>,
    lines: Seq<UpdatePurchaseDetailRequest>,
)
    requires
        within_bounds(stock),
        amend_lines(kind, stock, details, lines) is Ok,
    ensures
        within_bounds(amend_lines(kind, stock, details, lines).unwrap().0),
    decreases lines.len(),
{
    if lines.len() > 0 {
        let i = crate::models::purchase::detail_index(details, lines[0].purchase_detail_id, 0).unwrap();
        lemma_amendment_keeps_bounds(
            kind,
            stock,
            details[i].ingredient_id,
            details[i].quantity_purchased,
            lines[0].ingredient_id,
            lines[0].quantity_purchased,
        );
        let next = amend_line(kind, stock, details, lines[0]).unwrap();
        lemma_amendments_keep_bounds(kind, next.0, next.1, lines.skip(1));
    }
}

/// An order that is placed on a free table, and an order that moves to
/// another status, leave every table with at most one open order.
pub proof fn lemma_orders_keep_one_open(orders: Seq<Order>, header: Order)
    requires
        one_open_per_table(orders),
        !table_occupied(orders, header.table_id),
    ensures
        one_open_per_table(orders.push(header)),
{
    let after = orders.push(header);
    assert forall|i: int, j: int|
        0 <= i < after.len() && 0 <= j < after.len() && i != j && is_open(
            (#[trigger] after[i]).status,
        ) && is_open((#[trigger] after[j]).status) implies after[i].table_id
        != after[j].table_id by {
        if i < orders.len() && j < orders.len() {
            assert(after[i] == orders[i] && after[j] == orders[j]);
        } else if i < orders.len() {
            assert(orders[i].table_id != header.table_id);
        } else {
            assert(orders[j].table_id != header.table_id);
        }
    }
}

/// A move that is allowed never opens an order that was closed, so it leaves
/// every table with at most one open order.
pub proof fn lemma_moves_keep_one_open(
    orders: Seq<Order>,
    order_id: i32,
    status: OrderStatus,
    tax: Option<i64>,
    discount: Option<i64>,
)
    requires
        one_open_per_table(orders),
        update_outcome(orders, order_id, status, tax, discount) is Ok,
    ensures
        one_open_per_table(update_outcome(orders, order_id, status, tax, discount).unwrap()),
{
    let after = update_outcome(orders, order_id, status, tax, discount).unwrap();
    let at = order_index(orders, order_id, 0).unwrap();
    lemma_order_index_in_range(orders, order_id, 0);
    assert(may_move(orders[at].status, status));
    assert forall|i: int, j: int|
        0 <= i < after.len() && 0 <= j < after.len() && i != j && is_open(
            (#[trigger] after[i]).status,
        ) && is_open((#[trigger] after[j]).status) implies after[i].table_id
        != after[j].table_id by {
        assert(is_open(orders[i].status));
        assert(is_open(orders[j].status));
    }
}

/// The position that [`order_index`] gives is a position of the sequence.
pub proof fn lemma_order_index_in_range(orders: Seq<Order>, order_id: i32, from: int)
    requires
        order_index(orders, order_id, from) is Some,
    ensures
        from <= order_index(orders, order_id, from).unwrap() < orders.len(),
        orders[order_index(orders, order_id, from).unwrap()].id == order_id,
    decreases orders.len() - from,
{
    if from >= 0 && from < orders.len() && orders[from].id != order_id {
        lemma_order_index_in_range(orders, order_id, from + 1);
    }
}

/// One unit of work, whatever it is and whatever it is given, takes a
/// consistent store to a consistent store.
pub proof fn lemma_step_is_consistent(store: Store, op: Operation)
    requires
        consistent(store),
    ensures
        consistent(step(store, op)),
{
    match op {
        Operation::Record { data } => {
            if record_outcome(Entity::Ingredient, store.ingredients, data) is Ok {
                lemma_batch_applied(
                    Entity::Ingredient,
                    store.ingredients,
                    usage_debits(data.ingredient_usages@),
                );
            }
        },
        Operation::Correct { data, events } => {
            if correction_outcome(Entity::Ingredient, store.ingredients, events, data) is Ok {
                lemma_corrections_keep_bounds(
                    Entity::Ingredient,
                    store.ingredients,
                    events,
                    data.ingredient_usages@,
                );
            }
        },
        Operation::Reverse { usage_id, events } => {
            if reversal_outcome(Entity::Ingredient, store.ingredients, events, usage_id) is Ok {
                let i = usage_index(events, usage_id, 0).unwrap();
                lemma_delta_applied(
                    Entity::Ingredient,
                    store.ingredients,
                    events[i].ingredient_id,
                    events[i].quantity_used,
                );
            }
        },
        Operation::PlaceOrder { order_id, waiter_id, order, catalog } => {
            if order_outcome(Entity::Item, store.items, store.orders, catalog, order_id, order)
                is Ok {
                lemma_batch_applied(Entity::Item, store.items, order_debits(order.items@));
                lemma_orders_keep_one_open(
                    store.orders,
                    new_header(order_id, waiter_id, order.table_id),
                );
            }
        },
        Operation::MoveOrder { order_id, status, tax, discount } => {
            if update_outcome(store.orders, order_id, status, tax, discount) is Ok {
                lemma_moves_keep_one_open(store.orders, order_id, status, tax, discount);
            }
        },
        Operation::Receive { data } => {
            if receipt_outcome(Entity::Ingredient, store.ingredients, data) is Ok {
                lemma_batch_applied(
                    Entity::Ingredient,
                    store.ingredients,
                    purchase_credits(data.purchase_details@),
                );
            }
        },
        Operation::Amend { purchase, purchase_id, data } => {
            if amendment_of_purchase(
                Entity::Ingredient,
                store.ingredients,
                purchase,
                purchase_id,
                data,
            ) is Ok {
                lemma_amendments_keep_bounds(
                    Entity::Ingredient,
                    store.ingredients,
                    purchase.purchase_details@,
                    data.purchase_details@,
                );
            }
        },
    }
}

/// Whatever units of work run, in whatever order and on whatever requests,
/// no quantity of stock is ever negative and no table ever has two open
/// orders.
pub proof fn lemma_every_history_is_consistent(store: Store, ops: Seq<Operation>)
    requires
        consistent(store),
    ensures
        consistent(run(store, ops)),
    decreases ops.len(),
{
    if ops.len() > 0 {
        lemma_every_history_is_consistent(store, ops.drop_last());
        lemma_step_is_consistent(run(store, ops.drop_last()), ops.last());
    }
}

/// A batch of usage lines that is recorded takes from every ingredient
/// exactly the sum of the lines on it: every line is applied.
pub proof fn lemma_recording_applies_every_line(
    kind: Entity,
    stock: Map<int, int>,
    data: IngredientUsagesRequest,
    id: int,
)
    requires
        record_outcome(kind, stock, data) is Ok,
        stock.dom().contains(id),
    ensures
        record_outcome(kind, stock, data).unwrap()[id] == stock[id] + net_delta(
            usage_debits(data.ingredient_usages@),
            id,
        ),
{
    lemma_batch_applied(kind, stock, usage_debits(data.ingredient_usages@));
}

/// An order that is placed takes from every item exactly the sum of the
/// quantities ordered of it.
pub proof fn lemma_order_consumes_exactly(
    kind: Entity,
    stock: Map<int, int>,
    orders: Seq<Order>,
    catalog: Seq<ItemPrice>,
    order_id: i32,
    order: NewOrder,
    id: int,
)
    requires
        order_outcome(kind, stock, orders, catalog, order_id, order) is Ok,
        stock.dom().contains(id),
    ensures
        order_outcome(kind, stock, orders, catalog, order_id, order).unwrap()[id] == stock[id]
            + net_delta(order_debits(order.items@), id),
{
    lemma_batch_applied(kind, stock, order_debits(order.items@));
}

/// Every line of a placed order holds the price that its item sold at when
/// the order was placed, and the item's full price of that moment. The line
/// is made of the price list and the time that the placing was given and of
/// nothing else: a price list that changes later changes no line.
pub proof fn lemma_placed_lines_hold_the_prices(
    items: Seq<NewOrderItem>,
    catalog: Seq<ItemPrice>,
    now: i64,
    i: int,
)
    requires
        0 <= i < items.len(),
        price_entry(catalog, items[i].item_id) is Some,
    ensures
        ({
            let entry = price_entry(catalog, items[i].item_id).unwrap();
            let line = placed_lines(items, catalog, now)[i];
            &&& line.item_id == items[i].item_id
            &&& line.quantity == items[i].quantity
            &&& line.special_instructions == items[i].special_instructions
            &&& line.price == effective_price(entry.price as int, entry.discount, now as int)
            &&& line.original_price == entry.price
        }),
{
    lemma_effective_price_fits(price_entry(catalog, items[i].item_id).unwrap(), now);
}

/// An order with only positive quantities for a table that has an open
/// order is refused as a conflict on that table.
pub proof fn lemma_occupied_table_conflicts(
    kind: Entity,
    stock: Map<int, int>,
    orders: Seq<Order>,
    catalog: Seq<ItemPrice>,
    order_id: i32,
    order: NewOrder,
)
    requires
        !has_empty_line(order.items@),
        table_occupied(orders, order.table_id),
    ensures
        order_outcome(kind, stock, orders, catalog, order_id, order) == Err::<
            Map<int, int>,
            CoreError,
        >(CoreError::Conflict { entity: Entity::Table, id: order.table_id }),
{
}

/// Once an order has been placed for a table, a second order for the same
/// table is refused as a conflict, whatever it asks for and whatever the
/// stock is.
pub proof fn lemma_second_order_conflicts(
    kind: Entity,
    stock: Map<int, int>,
    orders: Seq<Order>,
    catalog: Seq<ItemPrice>,
    first_id: i32,
    waiter_id: i32,
    first: NewOrder,
    later_stock: Map<int, int>,
    later_catalog: Seq<ItemPrice>,
    second_id: i32,
    second: NewOrder,
)
    requires
        order_outcome(kind, stock, orders, catalog, first_id, first) is Ok,
        second.table_id == first.table_id,
        !has_empty_line(second.items@),
    ensures
        order_outcome(
            kind,
            later_stock,
            orders.push(new_header(first_id, waiter_id, first.table_id)),
            later_catalog,
            second_id,
            second,
        ) == Err::<Map<int, int>, CoreError>(
            CoreError::Conflict { entity: Entity::Table, id: second.table_id },
        ),
{
    let after = orders.push(new_header(first_id, waiter_id, first.table_id));
    assert(after[orders.len() as int].table_id == second.table_id && is_open(
        after[orders.len() as int].status,
    ));
}

/// Correcting an active event of `old_quantity` to `new_quantity` succeeds
/// exactly when the new quantity is no more than the stock with the old
/// quantity credited back, and then leaves the stock at what it was plus the
/// old quantity less the new one. It is refused for want of stock exactly
/// when the new quantity is more than that.
pub proof fn lemma_correction_credits_back(
    kind: Entity,
    stock: Map<int, int>,
    events: Seq<IngredientUsage>,
    line: IngredientUsageRequest,
)
    requires
        within_bounds(stock),
        line.usage_id is Some,
        line.ingredient_id is Some,
        line.quantity_used is Some,
        line.quantity_used.unwrap() > 0,
        usage_index(events, line.usage_id.unwrap(), 0) is Some,
        events[usage_index(events, line.usage_id.unwrap(), 0).unwrap()].ingredient_id
            == line.ingredient_id.unwrap(),
        events[usage_index(events, line.usage_id.unwrap(), 0).unwrap()].quantity_used >= 0,
        stock.dom().contains(line.ingredient_id.unwrap() as int),
    ensures
        ({
            let old_quantity = events[usage_index(
                events,
                line.usage_id.unwrap(),
                0,
            ).unwrap()].quantity_used;
            let new_quantity = line.quantity_used.unwrap();
            let id = line.ingredient_id.unwrap();
            let available = stock[id as int] + old_quantity;
            let outcome = correct_line(kind, stock, events, line);
            &&& new_quantity > available <==> outcome == Err::<
                (Map<int, int>, Seq<IngredientUsage>),
                CoreError,
            >(
                CoreError::InsufficientStock {
                    id,
                    delta: (old_quantity - new_quantity) as i64,
                    available: stock[id as int] as i64,
                },
            )
            &&& new_quantity <= available && available - new_quantity <= i64::MAX <==> outcome
                is Ok
            &&& outcome is Ok ==> outcome.unwrap().0[id as int] == stock[id as int]
                + old_quantity - new_quantity
        }),
{
}

/// Reversing an event is never refused for want of stock. It succeeds
/// whenever the event is active, its ingredient has a live row and the row
/// can hold the sum, and then the row holds what it held plus the event's
/// quantity.
pub proof fn lemma_reversal_never_short(
    kind: Entity,
    stock: Map<int, int>,
    events: Seq<IngredientUsage>,
    usage_id: i32,
)
    requires
        within_bounds(stock),
    ensures
        !(reversal_outcome(kind, stock, events, usage_id) matches Err(
            CoreError::InsufficientStock { .. },
        )),
        ({
            let at = usage_index(events, usage_id, 0);
            at is Some && events[at.unwrap()].quantity_used >= 0 && stock.dom().contains(
                events[at.unwrap()].ingredient_id as int,
            ) && stock[events[at.unwrap()].ingredient_id as int] + events[at.unwrap()].quantity_used
                <= i64::MAX ==> {
                &&& reversal_outcome(kind, stock, events, usage_id) is Ok
                &&& reversal_outcome(kind, stock, events, usage_id).unwrap().0[events[at.unwrap()].ingredient_id as int]
                    == stock[events[at.unwrap()].ingredient_id as int]
                    + events[at.unwrap()].quantity_used
                &&& reversal_outcome(kind, stock, events, usage_id).unwrap().1[at.unwrap()].deleted
            }
        }),
{
    let at = usage_index(events, usage_id, 0);
    if at is Some {
        lemma_usage_index_in_range(events, usage_id, 0);
    }
}

/// The position that [`usage_index`] gives is that of an active event with
/// the identifier asked for.
pub proof fn lemma_usage_index_in_range(events: Seq<IngredientUsage>, usage_id: i32, from: int)
    requires
        usage_index(events, usage_id, from) is Some,
    ensures
        from <= usage_index(events, usage_id, from).unwrap() < events.len(),
        events[usage_index(events, usage_id, from).unwrap()].usage_id == usage_id,
        !events[usage_index(events, usage_id, from).unwrap()].deleted,
    decreases events.len() - from,
{
    if from >= 0 && from < events.len() && !(events[from].usage_id == usage_id
        && !events[from].deleted) {
        lemma_usage_index_in_range(events, usage_id, from + 1);
    }
}

/// Once an event has been reversed it is no longer found: a second reversal,
/// and any correction, of the same event is refused.
pub proof fn lemma_reversed_is_final(
    kind: Entity,
    stock: Map<int, int>,
    events: Seq<IngredientUsage>,
    usage_id: i32,
)
    requires
        reversal_outcome(kind, stock, events, usage_id) is Ok,
        forall|i: int, j: int|
            0 <= i < j < events.len() ==> events[i].usage_id != events[j].usage_id,
    ensures
        usage_index(reversal_outcome(kind, stock, events, usage_id).unwrap().1, usage_id, 0)
            is None,
{
    let after = reversal_outcome(kind, stock, events, usage_id).unwrap().1;
    lemma_usage_index_in_range(events, usage_id, 0);
    if usage_index(after, usage_id, 0) is Some {
        lemma_usage_index_in_range(after, usage_id, 0);
    }
}

/// Correcting a purchase line on its own ingredient from `old_quantity` to
/// `new_quantity` adds to the ingredient the difference between the two, not
/// the new quantity.
pub proof fn lemma_amendment_is_the_difference(
    kind: Entity,
    stock: Map<int, int>,
    ingredient: i32,
    old_quantity: i64,
    new_quantity: i64,
)
    requires
        amendment_outcome(kind, stock, ingredient, old_quantity, ingredient, new_quantity) is Ok,
        0 <= old_quantity,
        0 <= new_quantity,
    ensures
        amendment_outcome(
            kind,
            stock,
            ingredient,
            old_quantity,
            ingredient,
            new_quantity,
        ).unwrap()[ingredient as int] == stock[ingredient as int] + (new_quantity - old_quantity),
{
}

} // verus!
