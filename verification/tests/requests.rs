use pos_inventory::api::access::Reply;
use pos_inventory::api::auth::{
    check_password, hash_password, hashing_outcome, login, login_decision, login_response,
    token_expiry, HashedPasswordOutput, LoginGrant, LoginRequest, PasswordCheck, PasswordInput,
};
use pos_inventory::api::discount_type::{add_discount_type, delete_discount_type, update_discount_type};
use pos_inventory::api::ingredient::{add_ingredient, update_ingredient};
use pos_inventory::api::ingredient_usage;
use pos_inventory::api::order;
use pos_inventory::api::purchase;
use pos_inventory::api::item::{add_item, check_item, image_changes, update_item};
use pos_inventory::api::order::{get_daily_sale_report, order_reply, parse_status, ReportQuery, UpdateOrderRequest};
use pos_inventory::api::shop::{add_shop, delete_shop, update_shop};
use pos_inventory::api::table::{add_table, table_number_changes, update_table};
use pos_inventory::api::user::{add_user, update_user};
use pos_inventory::error::{CoreError, Entity, ValidationError};
use pos_inventory::ledger::{StockLedger, StockRow};
use pos_inventory::models::discount_type::DiscountTypeRequest;
use pos_inventory::models::ingredient::{Ingredient, IngredientRequest};
use pos_inventory::models::ingredient_usage::{IngredientUsage, IngredientUsageRequest, IngredientUsagesRequest};
use pos_inventory::models::item::ItemRequest;
use pos_inventory::models::order::{create_order, NewOrder, NewOrderItem, Order, OrderStatus};
use pos_inventory::models::paging::{page_count, page_info, PageInfo};
use pos_inventory::models::purchase::{
    AddPurchaseDetailRequest, AddPurchaseRequest, Purchase, UpdatePurchaseRequest,
};
use pos_inventory::models::report::{get_daily_sale_report as draw_report, DailySaleReportData};
use pos_inventory::models::shop::ShopRequest;
use pos_inventory::models::table::{Table, TableRequest};
use pos_inventory::models::user::User;
use pos_inventory::pricing::{Discount, ItemPrice};

const PASSWORD_HASH: &str = "$2a$04$UuTkLRZZ6QofpDOlMz32MuuxEHA43WOemOYHPz6.SjsVsyO1tDU96";

fn bad(message: &'static str) -> Reply {
    Reply { status: 400, code: 400, message }
}

fn unauthorized() -> Reply {
    Reply { status: 401, code: 401, message: "Unauthorized!" }
}

fn user(password: &str) -> User {
    User {
        id: 12,
        username: String::from("mya"),
        password: String::from(password),
        role_name: String::from("Manager"),
        name: String::from("Mya"),
        shop_id: 3,
    }
}

fn credentials(password: &str) -> LoginRequest {
    LoginRequest { username: String::from("mya"), password: String::from(password) }
}

#[test]
fn the_right_password_logs_in() {
    let stored = user(PASSWORD_HASH);
    let grant = login(&credentials("password"), Some(&stored)).unwrap();
    assert_eq!(
        grant,
        LoginGrant { user_id: 12, role: String::from("Manager"), shop_id: 3, name: String::from("Mya") }
    );
    assert_eq!(grant.subject(), "12,Manager,3");
    let response = login_response(grant, String::from("signed"));
    assert_eq!(response.code, 200);
    assert_eq!(response.message, "Token generated successfully.");
    assert_eq!(response.token, "signed");
    assert_eq!(response.name, "Mya");
    assert_eq!(response.role, "Manager");
}

#[test]
fn a_wrong_password_is_refused() {
    let stored = user(PASSWORD_HASH);
    assert_eq!(
        login(&credentials("Password"), Some(&stored)),
        Err(Reply { status: 401, code: 401, message: "Invalid password!" })
    );
    assert_eq!(
        login(&credentials(PASSWORD_HASH), Some(&stored)),
        Err(Reply { status: 401, code: 401, message: "Invalid password!" })
    );
}

#[test]
fn an_unknown_user_is_refused() {
    assert_eq!(
        login(&credentials("password"), None),
        Err(Reply { status: 401, code: 401, message: "Invalid username!" })
    );
}

#[test]
fn a_stored_hash_that_cannot_be_read_is_a_failure() {
    let stored = user("password");
    assert_eq!(
        login(&credentials("password"), Some(&stored)),
        Err(Reply { status: 500, code: 500, message: "Something went wrong!" })
    );
}

#[test]
fn a_password_is_held_against_a_hash() {
    assert_eq!(check_password("password", PASSWORD_HASH), PasswordCheck::Matches);
    assert_eq!(check_password("passwore", PASSWORD_HASH), PasswordCheck::Differs);
    assert_eq!(check_password("", PASSWORD_HASH), PasswordCheck::Differs);
    assert_eq!(check_password("password", ""), PasswordCheck::Unreadable);
    assert_eq!(check_password("password", &PASSWORD_HASH[..59]), PasswordCheck::Unreadable);
}

#[test]
fn a_login_is_decided_from_the_user_and_the_check() {
    let stored = user(PASSWORD_HASH);
    assert!(login_decision(Some(&stored), PasswordCheck::Matches).is_ok());
    assert_eq!(
        login_decision(Some(&stored), PasswordCheck::Differs),
        Err(Reply { status: 401, code: 401, message: "Invalid password!" })
    );
    assert_eq!(
        login_decision(Some(&stored), PasswordCheck::Unreadable),
        Err(Reply { status: 500, code: 500, message: "Something went wrong!" })
    );
    assert_eq!(
        login_decision(None, PasswordCheck::Matches),
        Err(Reply { status: 401, code: 401, message: "Invalid username!" })
    );
}

#[test]
fn a_hashed_password_verifies_and_is_sixty_characters_long() {
    let hashed = hash_password(&PasswordInput { password: String::from("hunter2") }).unwrap();
    assert_eq!(hashed.hashed_password.chars().count(), 60);
    assert_ne!(hashed.hashed_password, "hunter2");
    assert_eq!(check_password("hunter2", &hashed.hashed_password), PasswordCheck::Matches);
    assert_eq!(check_password("hunter3", &hashed.hashed_password), PasswordCheck::Differs);
}

#[test]
fn a_hashing_that_failed_is_answered_with_a_failure() {
    assert_eq!(
        hashing_outcome(Some(String::from("$2b$12$abc"))),
        Ok(HashedPasswordOutput { hashed_password: String::from("$2b$12$abc") })
    );
    assert_eq!(
        hashing_outcome(None),
        Err(Reply { status: 500, code: 500, message: "Failed to hash password" })
    );
}

#[test]
fn a_token_is_good_for_one_day() {
    assert_eq!(token_expiry(1_700_000_000), Some(1_700_086_400));
    assert_eq!(token_expiry(u64::MAX - 86_400), Some(u64::MAX));
    assert_eq!(token_expiry(u64::MAX - 86_399), None);
}

#[test]
fn a_shop_needs_an_admin_a_name_and_an_address() {
    let shop = |name: &str, address: &str| ShopRequest { name: String::from(name), address: String::from(address) };
    assert_eq!(add_shop("Admin", &shop("Main", "1 Road")), Ok(()));
    assert_eq!(add_shop("Manager", &shop("", "")), Err(unauthorized()));
    assert_eq!(add_shop("Admin", &shop("", "")), Err(bad("Name must not be empty!")));
    assert_eq!(add_shop("Admin", &shop("Main", "")), Err(bad("Address must not be empty!")));
    assert_eq!(update_shop("Admin", &shop("Main", "1 Road")), Ok(()));
    assert_eq!(update_shop("Waiter", &shop("Main", "1 Road")), Err(unauthorized()));
    assert_eq!(update_shop("Admin", &shop("", "1 Road")), Err(bad("Name must not be empty!")));
}

#[test]
fn a_shop_with_items_is_not_deleted() {
    assert_eq!(delete_shop("Admin", false), Ok(()));
    assert_eq!(delete_shop("Manager", false), Err(unauthorized()));
    assert_eq!(
        delete_shop("Admin", true),
        Err(bad("Please delete the associated items first before deleting the shop. Ensure all items related to this shop are removed to proceed with shop deletion!"))
    );
}

#[test]
fn a_discount_type_needs_a_description() {
    let body = |description: &str| DiscountTypeRequest { description: String::from(description), shop_id: 1 };
    assert_eq!(add_discount_type("Manager", &body("Happy hour")), Ok(()));
    assert_eq!(add_discount_type("Waiter", &body("Happy hour")), Err(unauthorized()));
    assert_eq!(add_discount_type("Admin", &body("")), Err(bad("Description must not be empty!")));
    assert_eq!(update_discount_type("Admin", &body("")), Err(bad("Description must not be empty!")));
    assert_eq!(update_discount_type("Admin", &body("x")), Ok(()));
    assert_eq!(delete_discount_type("Manager", false), Ok(()));
    assert_eq!(delete_discount_type("Cashier", false), Err(unauthorized()));
    assert_eq!(
        delete_discount_type("Admin", true),
        Err(bad("Please delete the associated items first before deleting the discount_type. Ensure all products related to this discount_type are removed to proceed with discount_type deletion!"))
    );
}

#[test]
fn an_ingredient_needs_a_name_and_a_stock_that_is_not_negative() {
    let body = |name: &str, stock: i64| IngredientRequest {
        name: String::from(name),
        stock_quantity: stock,
        unit: String::from("g"),
        reorder_level: 10,
        expiry_date: 19_800,
    };
    assert_eq!(add_ingredient("Admin", &body("Salt", 0)), Ok(()));
    assert_eq!(add_ingredient("Manager", &body("Salt", 0)), Err(unauthorized()));
    assert_eq!(add_ingredient("Admin", &body("", 0)), Err(bad("Name must not be empty!")));
    assert_eq!(add_ingredient("Admin", &body("Salt", -1)), Err(bad("Stock quantity must not be negative!")));
    assert_eq!(update_ingredient("Admin", &body("Salt", 5)), Ok(()));
    assert_eq!(update_ingredient("Admin", &body("", 5)), Err(bad("Name must not be empty!")));
}

#[test]
fn an_ingredient_gives_its_stock_row_and_says_when_to_reorder() {
    let salt = Ingredient {
        ingredient_id: 7,
        name: String::from("Salt"),
        stock_quantity: 10,
        unit: String::from("g"),
        reorder_level: 10,
        expiry_date: 19_800,
        created_at: String::from("2024-01-01"),
    };
    assert_eq!(salt.stock_row(), StockRow { id: 7, quantity: 10, deleted: false });
    assert!(salt.needs_reorder());
    let plenty = Ingredient { stock_quantity: 11, ..salt };
    assert!(!plenty.needs_reorder());
}

#[test]
fn a_user_needs_a_name_and_a_free_login_name() {
    assert_eq!(add_user("Admin", "Mya", false), Ok(()));
    assert_eq!(add_user("Manager", "Mya", false), Err(unauthorized()));
    assert_eq!(add_user("Admin", "", true), Err(bad("Name must not be empty!")));
    assert_eq!(add_user("Admin", "Mya", true), Err(bad("User already exists!")));
    assert_eq!(update_user("Admin", "Mya"), Ok(()));
    assert_eq!(update_user("Admin", ""), Err(bad("Name must not be empty!")));
    assert_eq!(update_user("Waiter", "Mya"), Err(unauthorized()));
}

fn table(number: &str) -> Table {
    Table {
        id: 4,
        table_number: String::from(number),
        qr_code: String::from("qr"),
        shop_id: 1,
        shop_name: String::from("Main"),
        created_at: String::from("2024-01-01"),
    }
}

fn table_request(number: &str) -> TableRequest {
    TableRequest { table_number: String::from(number), qr_code: String::from("qr"), shop_id: 1 }
}

#[test]
fn a_table_needs_a_number_that_is_free() {
    assert_eq!(add_table("Manager", &table_request("T1"), false), Ok(()));
    assert_eq!(add_table("Waiter", &table_request("T1"), false), Err(unauthorized()));
    assert_eq!(add_table("Admin", &table_request(""), true), Err(bad("Table number must not be empty!")));
    assert_eq!(add_table("Admin", &table_request("T1"), true), Err(bad("Table Name already exists!")));
}

#[test]
fn a_table_that_keeps_its_number_is_not_held_against_it() {
    assert!(!table_number_changes(&table("T1"), &table_request("T1")));
    assert!(table_number_changes(&table("T1"), &table_request("T2")));
    assert_eq!(update_table("Admin", &table("T1"), &table_request("T1"), true), Ok(()));
    assert_eq!(update_table("Admin", &table("T1"), &table_request("T2"), false), Ok(()));
    assert_eq!(
        update_table("Admin", &table("T1"), &table_request("T2"), true),
        Err(bad("Table Name already exists!"))
    );
    assert_eq!(
        update_table("Admin", &table("T1"), &table_request(""), false),
        Err(bad("Table number must not be empty!"))
    );
    assert_eq!(update_table("Waiter", &table("T1"), &table_request("T1"), false), Err(unauthorized()));
}

fn item_request() -> ItemRequest {
    ItemRequest {
        name: String::from("Soup"),
        description: String::from("Hot"),
        price: 1000,
        categories: vec![1, 2],
        image_url: String::from("soup.png"),
        shop_id: 1,
        discount_percent: 1000,
        discount_expiration: Some(99),
        discount_reason: String::from("Lunch"),
        discounted_price: 900,
        discount_type: String::from("Discount by Specific Percentage"),
    }
}

#[test]
fn an_item_is_checked_field_by_field() {
    assert_eq!(check_item(&item_request()), None);
    assert_eq!(check_item(&ItemRequest { name: String::new(), description: String::new(), ..item_request() }), Some("Name must not be empty!"));
    assert_eq!(check_item(&ItemRequest { description: String::new(), price: -1, ..item_request() }), Some("Description must not be empty!"));
    assert_eq!(check_item(&ItemRequest { price: -1, discount_type: String::new(), ..item_request() }), Some("Price must not be negative!"));
    assert_eq!(check_item(&ItemRequest { price: 0, ..item_request() }), None);
    assert_eq!(check_item(&ItemRequest { discount_type: String::new(), ..item_request() }), Some("Discount type must not be empty!"));
    assert_eq!(check_item(&ItemRequest { discount_percent: -1, discount_expiration: None, ..item_request() }), Some("Discount percent must not be negative!"));
    assert_eq!(check_item(&ItemRequest { discount_expiration: None, ..item_request() }), Some("Discount expire data must not be empty!"));
    assert_eq!(check_item(&ItemRequest { discount_reason: String::new(), ..item_request() }), Some("Discount reason must not be empty!"));
}

#[test]
fn each_discount_type_of_an_item_has_its_own_checks() {
    let fixed = ItemRequest { discount_type: String::from("Discount by Specific Amount"), ..item_request() };
    assert_eq!(check_item(&fixed), None);
    assert_eq!(check_item(&ItemRequest { discount_percent: -1, discount_expiration: None, ..fixed.clone() }), None);
    assert_eq!(check_item(&ItemRequest { discounted_price: -1, ..fixed.clone() }), Some("Discounted price must not be negative!"));
    assert_eq!(check_item(&ItemRequest { discount_reason: String::new(), ..fixed }), Some("Discount reason must not be empty!"));
    let none = ItemRequest { discount_type: String::from("No Discount"), ..item_request() };
    assert_eq!(
        check_item(&ItemRequest {
            discount_percent: -1,
            discount_expiration: None,
            discounted_price: -1,
            discount_reason: String::new(),
            ..none
        }),
        None
    );
    let other = ItemRequest { discount_type: String::from("Happy hour"), ..item_request() };
    assert_eq!(
        check_item(&ItemRequest { discount_percent: -1, discount_expiration: None, discounted_price: -1, ..other.clone() }),
        None
    );
    assert_eq!(check_item(&ItemRequest { discount_reason: String::new(), ..other }), Some("Discount reason must not be empty!"));
}

#[test]
fn an_item_is_stored_by_anyone_but_a_waiter() {
    assert_eq!(add_item("Manager", &item_request()), Ok(()));
    assert_eq!(add_item("Cashier", &item_request()), Ok(()));
    assert_eq!(add_item("Waiter", &item_request()), Err(unauthorized()));
    assert_eq!(
        add_item("Admin", &ItemRequest { price: -5, ..item_request() }),
        Err(bad("Price must not be negative!"))
    );
    assert_eq!(update_item("Admin", &item_request()), Ok(()));
    assert_eq!(update_item("Waiter", &ItemRequest { name: String::new(), ..item_request() }), Err(unauthorized()));
    assert_eq!(
        update_item("Admin", &ItemRequest { name: String::new(), ..item_request() }),
        Err(bad("Name must not be empty!"))
    );
    assert!(!image_changes("soup.png", &item_request()));
    assert!(image_changes("old.png", &item_request()));
}

fn usage_ledger() -> StockLedger {
    StockLedger::open(Entity::Ingredient, vec![StockRow { id: 7, quantity: 6, deleted: false }]).unwrap()
}

fn usage_batch(usage_id: Option<i32>, ingredient_id: Option<i32>, quantity: Option<i64>, shop_id: Option<i32>) -> IngredientUsagesRequest {
    IngredientUsagesRequest {
        ingredient_usages: vec![IngredientUsageRequest {
            usage_id,
            ingredient_id,
            quantity_used: quantity,
            usage_date: String::from("2024-03-01"),
            associated_activity: String::from("prep"),
            notes: String::new(),
        }],
        shop_id,
    }
}

fn usage_event() -> IngredientUsage {
    IngredientUsage {
        usage_id: 1,
        ingredient_id: 7,
        quantity_used: 4,
        unit: String::from("g"),
        usage_date: String::from("2024-02-28"),
        associated_activity: None,
        notes: None,
        shop_id: Some(1),
        created_at: String::from("2024-02-28"),
        deleted: false,
    }
}

#[test]
fn recording_usage_answers_each_refusal() {
    let mut ledger = usage_ledger();
    assert_eq!(
        ingredient_usage::add_ingredient_usages("Waiter", &usage_batch(None, Some(7), Some(1), Some(1)), &mut ledger),
        Err(Reply { status: 401, code: 400, message: "Unauthorized!" })
    );
    assert_eq!(
        ingredient_usage::add_ingredient_usages("Admin", &usage_batch(None, Some(7), Some(1), None), &mut ledger),
        Err(bad("Shop Id must not be empty!"))
    );
    assert_eq!(
        ingredient_usage::add_ingredient_usages("Admin", &usage_batch(None, None, Some(1), Some(1)), &mut ledger),
        Err(bad("Ingredient ID must not be empty!"))
    );
    assert_eq!(
        ingredient_usage::add_ingredient_usages("Admin", &usage_batch(None, Some(7), Some(0), Some(1)), &mut ledger),
        Err(bad("Quantity Used must not be empty or less than or equal to 0.0!"))
    );
    assert_eq!(
        ingredient_usage::add_ingredient_usages("Admin", &usage_batch(None, Some(7), Some(7), Some(1)), &mut ledger),
        Err(bad("Insufficient ingredients!"))
    );
    assert_eq!(
        ingredient_usage::add_ingredient_usages("Admin", &usage_batch(None, Some(8), Some(1), Some(1)), &mut ledger),
        Err(Reply { status: 500, code: 500, message: "Error adding ingredient usages to database!" })
    );
    assert_eq!(ledger.lock_and_read(7), Ok(6));
    let events = ingredient_usage::add_ingredient_usages("Manager", &usage_batch(None, Some(7), Some(6), Some(1)), &mut ledger).unwrap();
    assert_eq!(events.len(), 1);
    assert_eq!(ledger.lock_and_read(7), Ok(0));
}

#[test]
fn correcting_usage_answers_each_refusal() {
    let mut ledger = usage_ledger();
    let mut events = vec![usage_event()];
    assert_eq!(
        ingredient_usage::update_ingredient_usage("Waiter", &usage_batch(Some(1), Some(7), Some(1), None), &mut ledger, &mut events),
        Err(Reply { status: 401, code: 400, message: "Unauthorized!" })
    );
    assert_eq!(
        ingredient_usage::update_ingredient_usage("Admin", &usage_batch(None, Some(7), Some(1), None), &mut ledger, &mut events),
        Err(bad("Usage ID must not be empty!"))
    );
    assert_eq!(
        ingredient_usage::update_ingredient_usage("Admin", &usage_batch(Some(2), Some(7), Some(1), None), &mut ledger, &mut events),
        Err(Reply { status: 404, code: 404, message: "IngredientUsages not found!" })
    );
    assert_eq!(
        ingredient_usage::update_ingredient_usage("Admin", &usage_batch(Some(1), Some(8), Some(1), None), &mut ledger, &mut events),
        Err(bad("Ingredient ID must not be changed!"))
    );
    assert_eq!(
        ingredient_usage::update_ingredient_usage("Admin", &usage_batch(Some(1), Some(7), Some(11), None), &mut ledger, &mut events),
        Err(bad("Insufficient ingredients!"))
    );
    assert_eq!(ledger.lock_and_read(7), Ok(6));
    assert_eq!(events, vec![usage_event()]);
    assert_eq!(
        ingredient_usage::update_ingredient_usage("Manager", &usage_batch(Some(1), Some(7), Some(6), None), &mut ledger, &mut events),
        Ok(())
    );
    assert_eq!(ledger.lock_and_read(7), Ok(4));
}

#[test]
fn reversing_usage_answers_each_refusal() {
    let mut ledger = usage_ledger();
    let mut events = vec![usage_event()];
    assert_eq!(ingredient_usage::delete_ingredient_usage("Waiter", 1, &mut ledger, &mut events), Err(unauthorized()));
    assert_eq!(ingredient_usage::delete_ingredient_usage("Cashier", 1, &mut ledger, &mut events), Err(unauthorized()));
    assert_eq!(
        ingredient_usage::delete_ingredient_usage("Admin", 2, &mut ledger, &mut events),
        Err(Reply { status: 404, code: 404, message: "IngredientUsages not found!" })
    );
    assert_eq!(ledger.lock_and_read(7), Ok(6));
    assert_eq!(ingredient_usage::delete_ingredient_usage("Manager", 1, &mut ledger, &mut events), Ok(()));
    assert_eq!(ledger.lock_and_read(7), Ok(10));
    let mut gone = StockLedger::open(Entity::Ingredient, vec![]).unwrap();
    let mut events = vec![usage_event()];
    assert_eq!(
        ingredient_usage::delete_ingredient_usage("Admin", 1, &mut gone, &mut events),
        Err(Reply { status: 500, code: 500, message: "Error deleting ingredient_usage!" })
    );
}

#[test]
fn purchases_answer_each_refusal() {
    let mut ledger = usage_ledger();
    let receipt = |cost: i64, ingredient: i32, quantity: i64| AddPurchaseRequest {
        total_cost: cost,
        purchase_date: String::from("2024-03-01"),
        shop_id: 1,
        purchase_details: vec![AddPurchaseDetailRequest {
            ingredient_id: ingredient,
            quantity_purchased: quantity,
            unit: String::from("g"),
            buying_price_per_unit: 5,
        }],
    };
    assert_eq!(purchase::add_purchase("Manager", &receipt(10, 7, 1), &mut ledger), Err(unauthorized()));
    assert_eq!(purchase::add_purchase("Admin", &receipt(0, 7, 1), &mut ledger), Err(bad("Total Cost  must not be empty!")));
    assert_eq!(
        purchase::add_purchase("Admin", &receipt(10, 7, 0), &mut ledger),
        Err(bad("Quantity Purchased must be greater than 0!"))
    );
    assert_eq!(
        purchase::add_purchase("Admin", &receipt(10, 8, 1), &mut ledger),
        Err(Reply { status: 500, code: 500, message: "Error adding purchase!" })
    );
    assert_eq!(ledger.lock_and_read(7), Ok(6));
    assert_eq!(purchase::add_purchase("Admin", &receipt(10, 7, 4), &mut ledger), Ok(()));
    assert_eq!(ledger.lock_and_read(7), Ok(10));

    let mut stored = Purchase {
        purchase_id: 30,
        total_cost: 10,
        purchase_date: String::from("2024-03-01"),
        shop_id: 1,
        shop_name: String::from("Main"),
        created_at: String::from("2024-03-01"),
        purchase_details: vec![],
        deleted: false,
    };
    let correction = UpdatePurchaseRequest {
        total_cost: 20,
        purchase_date: String::from("2024-03-02"),
        shop_id: 1,
        purchase_details: vec![],
    };
    assert_eq!(purchase::update_purchase("Manager", &correction, 30, &mut stored, &mut ledger), Err(unauthorized()));
    assert_eq!(
        purchase::update_purchase("Admin", &correction, 31, &mut stored, &mut ledger),
        Err(Reply { status: 404, code: 404, message: "Purchase not found!" })
    );
    assert_eq!(purchase::update_purchase("Admin", &correction, 30, &mut stored, &mut ledger), Ok(()));
    assert_eq!(stored.total_cost, 20);
    assert_eq!(purchase::delete_purchase("Manager", 30, &mut stored), Err(unauthorized()));
    assert_eq!(purchase::delete_purchase("Admin", 30, &mut stored), Ok(()));
    assert_eq!(
        purchase::delete_purchase("Admin", 30, &mut stored),
        Err(Reply { status: 404, code: 404, message: "Purchase not found!" })
    );
}

#[test]
fn orders_answer_each_refusal() {
    let mut ledger = StockLedger::open(Entity::Item, vec![StockRow { id: 1, quantity: 2, deleted: false }]).unwrap();
    let catalog = vec![ItemPrice { item_id: 1, price: 500, discount: Discount::NoDiscount }];
    let mut orders: Vec<Order> = vec![];
    let order = |table_id: i32, item_id: i32, quantity: i32| NewOrder {
        table_id,
        items: vec![NewOrderItem { item_id, quantity, special_instructions: String::new() }],
    };
    let mut place = |order_id: i32, body: &NewOrder, orders: &mut Vec<Order>| {
        create_order(order_id, 9, body, orders, &mut ledger, &catalog, 0).map_err(order_reply)
    };
    assert_eq!(place(1, &order(4, 1, 0), &mut orders), Err(bad("Quantity must be greater than 0!")));
    assert_eq!(
        place(1, &order(4, 1, 3), &mut orders),
        Err(Reply { status: 500, code: 400, message: "Insufficient stock for an ordered item" })
    );
    assert_eq!(
        place(1, &order(4, 2, 1), &mut orders),
        Err(Reply { status: 500, code: 400, message: "An ordered item was not found" })
    );
    assert!(place(1, &order(4, 1, 1), &mut orders).is_ok());
    assert_eq!(
        place(2, &order(4, 1, 1), &mut orders),
        Err(bad("Order already exists in the request table!"))
    );
    assert_eq!(
        place(1, &order(5, 1, 1), &mut orders),
        Err(Reply { status: 500, code: 400, message: "Error creating order!" })
    );

    let body = |status: &str| UpdateOrderRequest { status: String::from(status), tax: Some(7), discount: Some(3) };
    assert_eq!(
        order::update_order("Admin", 1, &body("Done"), &mut orders),
        Err(bad("Please select a valid status: Pending, Served, Canceled, or Completed."))
    );
    assert_eq!(order::update_order("Waiter", 1, &body("Served"), &mut orders), Err(unauthorized()));
    assert_eq!(
        order::update_order("Admin", 5, &body("Served"), &mut orders),
        Err(Reply { status: 404, code: 404, message: "Order not found!" })
    );
    assert_eq!(
        order::update_order("Admin", 1, &body("Completed"), &mut orders),
        Err(bad("The order cannot move to this status!"))
    );
    assert_eq!(order::update_order("Waiter", 1, &body("Canceled"), &mut orders), Ok(()));
    assert_eq!((orders[0].status, orders[0].tax, orders[0].discount), (OrderStatus::Canceled, 0, 0));
    assert_eq!(order::update_order("Manager", 1, &body("Completed"), &mut orders), Ok(()));
    assert_eq!((orders[0].status, orders[0].tax, orders[0].discount), (OrderStatus::Completed, 7, 3));
}

#[test]
fn an_error_of_an_order_has_its_answer() {
    assert_eq!(
        order_reply(CoreError::Validation(ValidationError::NonPositiveQuantity)),
        bad("Quantity must be greater than 0!")
    );
    assert_eq!(
        order_reply(CoreError::Conflict { entity: Entity::Table, id: 4 }),
        bad("Order already exists in the request table!")
    );
    assert_eq!(
        order_reply(CoreError::StoreFailure),
        Reply { status: 500, code: 400, message: "Error creating order!" }
    );
}

#[test]
fn the_four_statuses_have_their_names() {
    assert_eq!(parse_status("Pending"), Some(OrderStatus::Pending));
    assert_eq!(parse_status("Served"), Some(OrderStatus::Served));
    assert_eq!(parse_status("Canceled"), Some(OrderStatus::Canceled));
    assert_eq!(parse_status("Completed"), Some(OrderStatus::Completed));
    assert_eq!(parse_status("pending"), None);
    assert_eq!(parse_status("Cancelled"), None);
    assert_eq!(parse_status(""), None);
}

#[test]
fn a_report_runs_from_a_day_to_a_later_day() {
    assert_eq!(get_daily_sale_report(&ReportQuery { from_date: 10, to_date: 10, shop_id: 1 }), Ok(()));
    assert_eq!(get_daily_sale_report(&ReportQuery { from_date: 10, to_date: 11, shop_id: 1 }), Ok(()));
    assert_eq!(
        get_daily_sale_report(&ReportQuery { from_date: 11, to_date: 10, shop_id: 1 }),
        Err(bad("Invalid Date Range!"))
    );
}

fn sold(quantity: i32, amount: i64, netsale: i64) -> DailySaleReportData {
    DailySaleReportData {
        item_id: 1,
        item_name: String::from("Soup"),
        quantity,
        amount,
        discount: amount - netsale,
        netsale,
    }
}

#[test]
fn a_report_totals_its_rows() {
    let report = draw_report(vec![sold(2, 2000, 1800), sold(1, 500, 500), sold(3, 900, 600)]).unwrap();
    assert_eq!(report.total_quantity, 6);
    assert_eq!(report.total_amount, 3400);
    assert_eq!(report.total_discount, 500);
    assert_eq!(report.total_netsale, 2900);
    assert_eq!(report.data_list.len(), 3);
    let empty = draw_report(vec![]).unwrap();
    assert_eq!((empty.total_quantity, empty.total_amount, empty.total_discount, empty.total_netsale), (0, 0, 0, 0));
}

#[test]
fn a_report_whose_totals_do_not_fit_is_not_drawn_up() {
    assert!(draw_report(vec![sold(i32::MAX, 1, 1), sold(1, 1, 1)]).is_none());
    assert!(draw_report(vec![sold(1, i64::MAX, 0), sold(1, 1, 1)]).is_none());
    assert!(draw_report(vec![sold(1, i64::MAX, 0), sold(1, 1, 1), sold(1, -1, -1)]).is_some());
}

#[test]
fn pages_are_counted_with_the_last_one_possibly_in_part() {
    assert_eq!(page_count(0, 10), 0);
    assert_eq!(page_count(1, 10), 1);
    assert_eq!(page_count(10, 10), 1);
    assert_eq!(page_count(11, 10), 2);
    assert_eq!(page_count(25, 1), 25);
    assert_eq!(page_count(-3, 10), 0);
    assert_eq!(page_count(5, 0), usize::MAX);
    assert_eq!(page_count(0, 0), 0);
    assert_eq!(page_count(i64::MAX, usize::MAX), 1);
}

#[test]
fn a_listing_without_pages_has_zeros() {
    assert_eq!(page_info(Some(2), Some(10), 35), PageInfo { total: 35, page: 2, per_page: 10, page_counts: 4 });
    assert_eq!(page_info(Some(2), None, 35), PageInfo { total: 35, page: 0, per_page: 0, page_counts: 0 });
    assert_eq!(page_info(None, Some(10), 35), PageInfo { total: 35, page: 0, per_page: 0, page_counts: 0 });
    assert_eq!(page_info(None, None, 35), PageInfo { total: 35, page: 0, per_page: 0, page_counts: 0 });
}
