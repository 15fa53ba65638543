use pos_inventory::api::shop::GetShopsQuery;
use pos_inventory::api::user::GetUsersQuery;
use pos_inventory::error::Entity;
use pos_inventory::ledger::{Delta, StockLedger, StockRow};
use pos_inventory::models::ingredient_usage::{
    add_ingredient_usages, delete_ingredient_usage, update_ingredient_usage, IngredientUsage,
    IngredientUsageRequest, IngredientUsagesRequest,
};
use pos_inventory::models::order::{
    create_order, order_exists_in_table, update_order, NewOrder, NewOrderItem, Order, OrderStatus,
};
use pos_inventory::models::paging::PageInfo;
use pos_inventory::models::purchase::{
    add_purchase, update_purchase, AddPurchaseDetailRequest, AddPurchaseRequest, Purchase,
    PurchaseDetail, UpdatePurchaseDetailRequest, UpdatePurchaseRequest,
};
use pos_inventory::pricing::{Discount, ItemPrice};
use pos_inventory::retry::{classify, next_attempt, StoreFault};

struct Dice(u64);

impl Dice {
    fn roll(&mut self, sides: u64) -> u64 {
        self.0 = self.0.wrapping_mul(6364136223846793005).wrapping_add(1442695040888963407);
        (self.0 >> 33) % sides
    }
}

fn usage_line(usage_id: Option<i32>, ingredient_id: i32, quantity: i64) -> IngredientUsagesRequest {
    IngredientUsagesRequest {
        ingredient_usages: vec![IngredientUsageRequest {
            usage_id,
            ingredient_id: Some(ingredient_id),
            quantity_used: Some(quantity),
            usage_date: String::from("2024-03-01"),
            associated_activity: String::new(),
            notes: String::new(),
        }],
        shop_id: Some(1),
    }
}

fn event(usage_id: i32, ingredient_id: i32, quantity: i64) -> IngredientUsage {
    IngredientUsage {
        usage_id,
        ingredient_id,
        quantity_used: quantity,
        unit: String::from("g"),
        usage_date: String::from("2024-03-01"),
        associated_activity: None,
        notes: None,
        shop_id: Some(1),
        created_at: String::from("2024-03-01"),
        deleted: false,
    }
}

fn replayed(opening: &[(i32, i64)], ledger: &StockLedger) -> Vec<(i32, i64)> {
    let mut stock: Vec<(i32, i64)> = opening.to_vec();
    for i in 0..ledger.applied_len() {
        let Delta { id, amount } = ledger.applied_at(i);
        for row in stock.iter_mut() {
            if row.0 == id {
                row.1 += amount;
            }
        }
    }
    stock
}

#[test]
fn no_sequence_of_units_of_work_leaves_a_negative_quantity() {
    let opening = [(1, 8i64), (2, 3), (3, 0)];
    let mut ledger = StockLedger::open(
        Entity::Ingredient,
        opening.iter().map(|&(id, quantity)| StockRow { id, quantity, deleted: false }).collect(),
    )
    .unwrap();
    let mut events: Vec<IngredientUsage> = vec![];
    let mut purchase = Purchase {
        purchase_id: 1,
        total_cost: 1,
        purchase_date: String::new(),
        shop_id: 1,
        shop_name: String::new(),
        created_at: String::new(),
        purchase_details: vec![],
        deleted: false,
    };
    let mut dice = Dice(2024);
    let mut refused = 0;
    let mut done = 0;
    for step in 0..600 {
        let ingredient = 1 + dice.roll(4) as i32;
        let quantity = dice.roll(9) as i64 - 1;
        let target = 1 + dice.roll(events.len() as u64 + 2) as i32;
        let outcome = match dice.roll(5) {
            0 => add_ingredient_usages(&usage_line(None, ingredient, quantity), &mut ledger).map(|recorded| {
                for new in recorded {
                    let usage_id = events.len() as i32 + 1;
                    events.push(event(usage_id, new.ingredient_id, new.quantity_used));
                }
            }),
            1 => update_ingredient_usage(&usage_line(Some(target), ingredient, quantity), &mut ledger, &mut events),
            2 => delete_ingredient_usage(target, &mut ledger, &mut events),
            3 => add_purchase(
                &AddPurchaseRequest {
                    total_cost: 1,
                    purchase_date: String::new(),
                    shop_id: 1,
                    purchase_details: vec![AddPurchaseDetailRequest {
                        ingredient_id: ingredient,
                        quantity_purchased: quantity,
                        unit: String::new(),
                        buying_price_per_unit: 1,
                    }],
                },
                &mut ledger,
            )
            .map(|()| {
                let purchase_detail_id = purchase.purchase_details.len() as i32 + 1;
                purchase.purchase_details.push(PurchaseDetail {
                    purchase_detail_id,
                    ingredient_id: ingredient,
                    ingredient_name: String::new(),
                    quantity_purchased: quantity,
                    unit: String::new(),
                    buying_price_per_unit: 1,
                    deleted: false,
                });
            }),
            _ => update_purchase(
                &UpdatePurchaseRequest {
                    total_cost: 1,
                    purchase_date: String::new(),
                    shop_id: 1,
                    purchase_details: vec![UpdatePurchaseDetailRequest {
                        purchase_detail_id: 1 + dice.roll(purchase.purchase_details.len() as u64 + 1) as i32,
                        ingredient_id: ingredient,
                        quantity_purchased: quantity,
                        buying_price_per_unit: 1,
                    }],
                },
                1,
                &mut purchase,
                &mut ledger,
            ),
        };
        match outcome {
            Ok(()) => done += 1,
            Err(_) => refused += 1,
        }
        let stock = replayed(&opening, &ledger);
        for &(id, quantity) in &stock {
            assert!(quantity >= 0, "step {step}");
            assert_eq!(ledger.lock_and_read(id), Ok(quantity), "step {step}");
        }
        let used: i64 = events.iter().filter(|e| !e.deleted).map(|e| e.quantity_used).sum();
        let bought: i64 = purchase.purchase_details.iter().map(|line| line.quantity_purchased).sum();
        let on_hand: i64 = stock.iter().map(|row| row.1).sum();
        assert_eq!(on_hand, 11 + bought - used, "step {step}");
    }
    assert!(done > 50);
    assert!(refused > 50);
}

#[test]
fn no_sequence_of_orders_puts_two_open_orders_on_a_table() {
    let mut ledger = StockLedger::open(
        Entity::Item,
        vec![StockRow { id: 1, quantity: 40, deleted: false }, StockRow { id: 2, quantity: 5, deleted: false }],
    )
    .unwrap();
    let catalog = vec![
        ItemPrice { item_id: 1, price: 100, discount: Discount::NoDiscount },
        ItemPrice { item_id: 2, price: 200, discount: Discount::FixedPrice { discounted_price: 150 } },
    ];
    let mut orders: Vec<Order> = vec![];
    let mut dice = Dice(7);
    let statuses = [OrderStatus::Pending, OrderStatus::Served, OrderStatus::Canceled, OrderStatus::Completed];
    let mut sold = 0i64;
    for step in 0..400 {
        if dice.roll(2) == 0 {
            let order = NewOrder {
                table_id: 1 + dice.roll(3) as i32,
                items: vec![NewOrderItem {
                    item_id: 1 + dice.roll(2) as i32,
                    quantity: dice.roll(4) as i32,
                    special_instructions: String::new(),
                }],
            };
            let before = ledger.applied_len();
            let occupied = order_exists_in_table(order.table_id, &orders);
            let placed = create_order(step, 9, &order, &mut orders, &mut ledger, &catalog, 0);
            if occupied {
                assert!(placed.is_err());
            }
            match placed {
                Ok(lines) => sold += lines.iter().map(|line| line.quantity as i64).sum::<i64>(),
                Err(_) => assert_eq!(ledger.applied_len(), before),
            }
        } else {
            let order_id = dice.roll(step as u64 + 1) as i32;
            let _ = update_order(order_id, statuses[dice.roll(4) as usize], None, None, &mut orders);
        }
        for table_id in 1..=3 {
            let open = orders
                .iter()
                .filter(|order| {
                    order.table_id == table_id
                        && (order.status == OrderStatus::Pending || order.status == OrderStatus::Served)
                })
                .count();
            assert!(open <= 1, "step {step}");
        }
        let on_hand = ledger.lock_and_read(1).unwrap() + ledger.lock_and_read(2).unwrap();
        assert_eq!(on_hand, 45 - sold, "step {step}");
    }
    assert!(sold > 0);
}

#[test]
fn a_listing_query_knows_its_pages() {
    let query = GetShopsQuery { search: None, page: Some(3), per_page: Some(20) };
    assert_eq!(query.pages(41), PageInfo { total: 41, page: 3, per_page: 20, page_counts: 3 });
    let query = GetUsersQuery { search: Some(String::from("a")), page: None, per_page: Some(20), role_id: None };
    assert_eq!(query.pages(41), PageInfo { total: 41, page: 0, per_page: 0, page_counts: 0 });
}

#[test]
fn a_busy_store_is_tried_again_with_doubling_waits() {
    let waits: Vec<Option<u64>> = (0..6).map(|attempt| next_attempt(StoreFault::Busy, attempt)).collect();
    assert_eq!(waits, vec![Some(25), Some(50), Some(100), Some(200), None, None]);
    assert_eq!(next_attempt(StoreFault::Busy, u32::MAX), None);
    assert_eq!(next_attempt(StoreFault::Failure, 0), None);
    assert_eq!(next_attempt(StoreFault::Failure, 3), None);
}

#[test]
fn only_deadlocks_and_locks_make_the_store_busy() {
    assert_eq!(classify(Some("40P01")), StoreFault::Busy);
    assert_eq!(classify(Some("40001")), StoreFault::Busy);
    assert_eq!(classify(Some("55P03")), StoreFault::Busy);
    assert_eq!(classify(Some("23505")), StoreFault::Failure);
    assert_eq!(classify(Some("40p01")), StoreFault::Failure);
    assert_eq!(classify(Some("")), StoreFault::Failure);
    assert_eq!(classify(None), StoreFault::Failure);
}
