use pos_inventory::api::access::{
    authorize, bearer_token, catalogue_scope, catalogue_sort, order_scope, parse_subject, permits,
    required_access, subject_text, verified_subject, Access, Endpoint, Reply, Scope,
    Sort, Subject,
};
use pos_inventory::text::{char_is_space, find_mark, parse_i32, same_text, scan_from, write_i32};

fn written(v: i32) -> String {
    let mut out = String::new();
    write_i32(v, &mut out);
    out
}

#[test]
fn a_bearer_header_gives_its_token() {
    assert_eq!(bearer_token(Some("Bearer abc.def.ghi")), Ok(String::from("abc.def.ghi")));
    assert_eq!(bearer_token(Some("  Bearer \t abc  ")), Ok(String::from("abc")));
    assert_eq!(bearer_token(Some("Bearer\u{3000}t\u{e9}")), Ok(String::from("t\u{e9}")));
}

#[test]
fn a_request_without_the_header_is_unauthorized() {
    assert_eq!(
        bearer_token(None),
        Err(Reply { status: 401, code: 401, message: "Authorization header missing" })
    );
}

#[test]
fn a_header_that_is_not_bearer_and_a_token_is_malformed() {
    let malformed = Err(Reply { status: 400, code: 400, message: "Invalid Authorization header format" });
    assert_eq!(bearer_token(Some("")), malformed);
    assert_eq!(bearer_token(Some("   ")), malformed);
    assert_eq!(bearer_token(Some("Bearer")), malformed);
    assert_eq!(bearer_token(Some("Bearer ")), malformed);
    assert_eq!(bearer_token(Some("bearer abc")), malformed);
    assert_eq!(bearer_token(Some("Basic abc")), malformed);
    assert_eq!(bearer_token(Some("Bearer abc def")), malformed);
    assert_eq!(bearer_token(Some("Bearerabc")), malformed);
    assert_eq!(bearer_token(Some("Bearers abc")), malformed);
}

#[test]
fn a_token_that_does_not_verify_is_unauthorized() {
    assert_eq!(verified_subject(Some(String::from("1,Admin,2"))), Ok(String::from("1,Admin,2")));
    assert_eq!(verified_subject(None), Err(Reply { status: 401, code: 401, message: "Invalid token" }));
}

#[test]
fn a_subject_has_three_parts() {
    assert_eq!(
        parse_subject("12,Manager,3"),
        Ok(Subject { user_id: Some(12), role: String::from("Manager"), shop_id: Some(3) })
    );
    assert_eq!(
        parse_subject("-1,,0"),
        Ok(Subject { user_id: Some(-1), role: String::new(), shop_id: Some(0) })
    );
    assert_eq!(
        parse_subject("x,Waiter, 3"),
        Ok(Subject { user_id: None, role: String::from("Waiter"), shop_id: None })
    );
    assert_eq!(parse_subject(",,"), Ok(Subject { user_id: None, role: String::new(), shop_id: None }));
}

#[test]
fn a_subject_with_other_than_three_parts_is_malformed() {
    let malformed = Err(Reply { status: 500, code: 500, message: "Invalid sub format in token" });
    assert_eq!(parse_subject(""), malformed);
    assert_eq!(parse_subject("12"), malformed);
    assert_eq!(parse_subject("12,Admin"), malformed);
    assert_eq!(parse_subject("12,Admin,3,4"), malformed);
    assert_eq!(parse_subject(",,,"), malformed);
}

#[test]
fn a_subject_that_is_written_reads_back() {
    for (user_id, role, shop_id) in
        [(12, "Manager", 3), (0, "Admin", 0), (i32::MAX, "Waiter", i32::MIN), (-7, "", 40)]
    {
        let text = subject_text(user_id, role, shop_id);
        assert_eq!(
            parse_subject(&text),
            Ok(Subject { user_id: Some(user_id), role: String::from(role), shop_id: Some(shop_id) })
        );
    }
    assert_eq!(subject_text(12, "Manager", 3), "12,Manager,3");
    assert_eq!(subject_text(-2147483648, "A", 2147483647), "-2147483648,A,2147483647");
}

#[test]
fn whole_numbers_are_read_as_the_standard_library_reads_them() {
    for text in [
        "0", "7", "-7", "+7", "007", "-0", "2147483647", "2147483648", "-2147483648", "-2147483649",
        "99999999999999999999", "", "-", "+", "--1", "1-", "1 ", " 1", "1.0", "abc", "12a", "\u{661}",
        "+-1", "0000000000000000000000012",
    ] {
        assert_eq!(parse_i32(text), text.parse::<i32>().ok());
    }
    assert_eq!(parse_i32("2147483647"), Some(2147483647));
    assert_eq!(parse_i32("-2147483648"), Some(-2147483648));
    assert_eq!(parse_i32("2147483648"), None);
}

#[test]
fn whole_numbers_are_written_in_decimal() {
    assert_eq!(written(0), "0");
    assert_eq!(written(9), "9");
    assert_eq!(written(10), "10");
    assert_eq!(written(-1), "-1");
    assert_eq!(written(1203), "1203");
    assert_eq!(written(i32::MAX), "2147483647");
    assert_eq!(written(i32::MIN), "-2147483648");
    let mut out = String::from("id=");
    write_i32(42, &mut out);
    assert_eq!(out, "id=42");
}

#[test]
fn white_space_is_what_separates_words() {
    for c in ['\u{0}', ' ', '\t', '\n', '\u{b}', '\u{c}', '\r', 'a', '0', '\u{85}', '\u{a0}', '\u{1680}',
        '\u{2000}', '\u{2005}', '\u{200a}', '\u{200b}', '\u{2028}', '\u{2029}', '\u{202f}', '\u{205f}',
        '\u{3000}', '\u{feff}', '\u{1f}', '\u{e}']
    {
        assert_eq!(char_is_space(c), c.is_whitespace());
    }
}

#[test]
fn scanning_stops_at_the_first_character_of_the_other_kind() {
    assert_eq!(scan_from("  ab  c", 0, true), 2);
    assert_eq!(scan_from("  ab  c", 2, false), 4);
    assert_eq!(scan_from("  ab  c", 4, true), 6);
    assert_eq!(scan_from("  ab  c", 6, false), 7);
    assert_eq!(scan_from("  ab  c", 7, true), 7);
    assert_eq!(scan_from("   ", 0, true), 3);
    assert_eq!(find_mark("a,b,c", 0, ','), 1);
    assert_eq!(find_mark("a,b,c", 2, ','), 3);
    assert_eq!(find_mark("a,b,c", 4, ','), 5);
    assert_eq!(find_mark("\u{e9},", 0, ','), 1);
}

#[test]
fn texts_are_the_same_character_by_character() {
    assert!(same_text("Admin", "Admin"));
    assert!(same_text("", ""));
    assert!(!same_text("Admin", "admin"));
    assert!(!same_text("Admin", "Admi"));
    assert!(!same_text("Admin", "Admin "));
}

#[test]
fn each_rule_lets_the_right_roles_in() {
    let roles = ["Admin", "Manager", "Waiter", "Cashier", ""];
    let expected = [
        (Access::Anyone, [true, true, true, true, true]),
        (Access::NotWaiter, [true, true, false, true, true]),
        (Access::AdminOrManager, [true, true, false, false, false]),
        (Access::AdminOnly, [true, false, false, false, false]),
    ];
    for (access, allowed) in expected {
        for (role, allow) in roles.iter().zip(allowed) {
            assert_eq!(permits(access, role), allow);
        }
    }
}

#[test]
fn each_endpoint_has_its_rule() {
    assert_eq!(required_access(Endpoint::GetCategories), Access::Anyone);
    assert_eq!(required_access(Endpoint::CreateOrder), Access::Anyone);
    assert_eq!(required_access(Endpoint::UpdateOrder), Access::Anyone);
    assert_eq!(required_access(Endpoint::GetItems), Access::Anyone);
    assert_eq!(required_access(Endpoint::GetIngredientUsages), Access::Anyone);
    assert_eq!(required_access(Endpoint::AddItem), Access::NotWaiter);
    assert_eq!(required_access(Endpoint::AddIngredientUsages), Access::NotWaiter);
    assert_eq!(required_access(Endpoint::DeleteIngredientUsage), Access::AdminOrManager);
    assert_eq!(required_access(Endpoint::AddTable), Access::AdminOrManager);
    assert_eq!(required_access(Endpoint::DeleteDiscountType), Access::AdminOrManager);
    assert_eq!(required_access(Endpoint::AddPurchase), Access::AdminOnly);
    assert_eq!(required_access(Endpoint::GetIngredients), Access::AdminOnly);
    assert_eq!(required_access(Endpoint::DeleteShop), Access::AdminOnly);
    assert_eq!(required_access(Endpoint::GetUsers), Access::AdminOnly);
}

#[test]
fn a_caller_who_may_not_is_refused_with_the_code_of_the_endpoint() {
    assert_eq!(authorize(Endpoint::AddShop, "Admin"), Ok(()));
    assert_eq!(
        authorize(Endpoint::AddShop, "Manager"),
        Err(Reply { status: 401, code: 401, message: "Unauthorized!" })
    );
    assert_eq!(
        authorize(Endpoint::AddItem, "Waiter"),
        Err(Reply { status: 401, code: 401, message: "Unauthorized!" })
    );
    assert_eq!(
        authorize(Endpoint::AddIngredientUsages, "Waiter"),
        Err(Reply { status: 401, code: 400, message: "Unauthorized!" })
    );
    assert_eq!(
        authorize(Endpoint::UpdateIngredientUsage, "Waiter"),
        Err(Reply { status: 401, code: 400, message: "Unauthorized!" })
    );
    assert_eq!(authorize(Endpoint::GetOrders, "Waiter"), Ok(()));
}

#[test]
fn a_listing_shows_each_role_its_records() {
    assert_eq!(catalogue_scope("Waiter", 3), Scope::Shop { shop_id: 3 });
    assert_eq!(catalogue_scope("Manager", 3), Scope::Everything);
    assert_eq!(catalogue_sort("Waiter"), Sort::ByName);
    assert_eq!(catalogue_sort("Admin"), Sort::NewestFirst);
    assert_eq!(order_scope("Manager", 3, 9), Scope::Shop { shop_id: 3 });
    assert_eq!(order_scope("Waiter", 3, 9), Scope::ShopAndWaiter { shop_id: 3, waiter_id: 9 });
    assert_eq!(order_scope("Admin", 3, 9), Scope::Everything);
}
