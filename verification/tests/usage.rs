use pos_inventory::error::{CoreError, Entity, ValidationError};
use pos_inventory::ledger::{Delta, StockLedger, StockRow};
use pos_inventory::models::ingredient_usage::{
    add_ingredient_usages, delete_ingredient_usage, get_ingredient_usage_by_id,
    update_ingredient_usage, IngredientUsage, IngredientUsageRequest, IngredientUsagesRequest,
    NewIngredientUsage,
};

fn ingredients(rows: Vec<(i32, i64)>) -> StockLedger {
    StockLedger::open(
        Entity::Ingredient,
        rows.into_iter().map(|(id, quantity)| StockRow { id, quantity, deleted: false }).collect(),
    )
    .unwrap()
}

fn line(usage_id: Option<i32>, ingredient_id: Option<i32>, quantity: Option<i64>) -> IngredientUsageRequest {
    IngredientUsageRequest {
        usage_id,
        ingredient_id,
        quantity_used: quantity,
        usage_date: String::from("2024-03-01 10:00:00"),
        associated_activity: String::from("prep"),
        notes: String::from("morning"),
    }
}

fn batch(lines: Vec<IngredientUsageRequest>) -> IngredientUsagesRequest {
    IngredientUsagesRequest { ingredient_usages: lines, shop_id: Some(1) }
}

fn stored(usage_id: i32, ingredient_id: i32, quantity: i64) -> IngredientUsage {
    IngredientUsage {
        usage_id,
        ingredient_id,
        quantity_used: quantity,
        unit: String::from("g"),
        usage_date: String::from("2024-02-28 09:00:00"),
        associated_activity: Some(String::from("lunch")),
        notes: None,
        shop_id: Some(1),
        created_at: String::from("2024-02-28 09:00:01"),
        deleted: false,
    }
}

#[test]
fn recording_debits_every_line_and_returns_the_events() {
    let mut ledger = ingredients(vec![(7, 10), (8, 5)]);
    let events = add_ingredient_usages(
        &batch(vec![line(None, Some(7), Some(4)), line(None, Some(8), Some(5))]),
        &mut ledger,
    )
    .unwrap();
    assert_eq!(ledger.lock_and_read(7), Ok(6));
    assert_eq!(ledger.lock_and_read(8), Ok(0));
    assert_eq!(ledger.applied_len(), 2);
    assert_eq!(ledger.applied_at(0), Delta { id: 7, amount: -4 });
    assert_eq!(ledger.applied_at(1), Delta { id: 8, amount: -5 });
    assert_eq!(
        events,
        vec![
            NewIngredientUsage {
                ingredient_id: 7,
                quantity_used: 4,
                usage_date: String::from("2024-03-01 10:00:00"),
                associated_activity: String::from("prep"),
                notes: String::from("morning"),
                shop_id: 1,
            },
            NewIngredientUsage {
                ingredient_id: 8,
                quantity_used: 5,
                usage_date: String::from("2024-03-01 10:00:00"),
                associated_activity: String::from("prep"),
                notes: String::from("morning"),
                shop_id: 1,
            },
        ]
    );
}

#[test]
fn recording_more_than_the_stock_records_nothing() {
    let mut ledger = ingredients(vec![(7, 10), (8, 5)]);
    let refused = add_ingredient_usages(
        &batch(vec![line(None, Some(7), Some(4)), line(None, Some(8), Some(6))]),
        &mut ledger,
    );
    assert_eq!(refused, Err(CoreError::InsufficientStock { id: 8, delta: -6, available: 5 }));
    assert_eq!(ledger.lock_and_read(7), Ok(10));
    assert_eq!(ledger.lock_and_read(8), Ok(5));
    assert_eq!(ledger.applied_len(), 0);
}

#[test]
fn recording_twice_on_one_ingredient_counts_both_lines() {
    let mut ledger = ingredients(vec![(7, 10)]);
    let refused = add_ingredient_usages(
        &batch(vec![line(None, Some(7), Some(6)), line(None, Some(7), Some(5))]),
        &mut ledger,
    );
    assert_eq!(refused, Err(CoreError::InsufficientStock { id: 7, delta: -5, available: 4 }));
    assert_eq!(ledger.lock_and_read(7), Ok(10));
    let mut ledger = ingredients(vec![(7, 10)]);
    add_ingredient_usages(
        &batch(vec![line(None, Some(7), Some(6)), line(None, Some(7), Some(4))]),
        &mut ledger,
    )
    .unwrap();
    assert_eq!(ledger.lock_and_read(7), Ok(0));
}

#[test]
fn recording_on_an_unknown_ingredient_is_not_found() {
    let mut ledger = ingredients(vec![(7, 10)]);
    let refused = add_ingredient_usages(
        &batch(vec![line(None, Some(7), Some(1)), line(None, Some(9), Some(1))]),
        &mut ledger,
    );
    assert_eq!(refused, Err(CoreError::NotFound { entity: Entity::Ingredient, id: 9 }));
    assert_eq!(ledger.lock_and_read(7), Ok(10));
}

#[test]
fn a_malformed_batch_is_refused_before_the_ledger_is_touched() {
    let mut ledger = ingredients(vec![(7, 10)]);
    let no_shop = IngredientUsagesRequest { ingredient_usages: vec![line(None, Some(7), Some(1))], shop_id: None };
    assert_eq!(
        add_ingredient_usages(&no_shop, &mut ledger),
        Err(CoreError::Validation(ValidationError::MissingShop))
    );
    assert_eq!(
        add_ingredient_usages(&batch(vec![line(None, None, Some(1))]), &mut ledger),
        Err(CoreError::Validation(ValidationError::MissingIngredient))
    );
    assert_eq!(
        add_ingredient_usages(&batch(vec![line(None, Some(0), Some(1))]), &mut ledger),
        Err(CoreError::Validation(ValidationError::MissingIngredient))
    );
    assert_eq!(
        add_ingredient_usages(&batch(vec![line(None, Some(7), None)]), &mut ledger),
        Err(CoreError::Validation(ValidationError::NonPositiveQuantity))
    );
    assert_eq!(
        add_ingredient_usages(&batch(vec![line(None, Some(7), Some(0))]), &mut ledger),
        Err(CoreError::Validation(ValidationError::NonPositiveQuantity))
    );
    assert_eq!(
        add_ingredient_usages(
            &batch(vec![line(None, Some(7), Some(3)), line(None, Some(7), Some(-2))]),
            &mut ledger
        ),
        Err(CoreError::Validation(ValidationError::NonPositiveQuantity))
    );
    assert_eq!(ledger.lock_and_read(7), Ok(10));
    assert_eq!(ledger.applied_len(), 0);
}

#[test]
fn an_empty_batch_records_nothing_and_succeeds() {
    let mut ledger = ingredients(vec![(7, 10)]);
    assert_eq!(add_ingredient_usages(&batch(vec![]), &mut ledger), Ok(vec![]));
    assert_eq!(ledger.lock_and_read(7), Ok(10));
}

#[test]
fn correcting_four_to_six_leaves_four_of_ten() {
    let mut ledger = ingredients(vec![(7, 10)]);
    add_ingredient_usages(&batch(vec![line(None, Some(7), Some(4))]), &mut ledger).unwrap();
    assert_eq!(ledger.lock_and_read(7), Ok(6));
    let mut events = vec![stored(1, 7, 4)];
    let corrected = update_ingredient_usage(
        &batch(vec![line(Some(1), Some(7), Some(6))]),
        &mut ledger,
        &mut events,
    );
    assert_eq!(corrected, Ok(()));
    assert_eq!(ledger.lock_and_read(7), Ok(4));
    assert_eq!(events[0].quantity_used, 6);
    assert_eq!(events[0].usage_date, "2024-03-01 10:00:00");
    assert_eq!(events[0].associated_activity, Some(String::from("prep")));
    assert_eq!(events[0].notes, Some(String::from("morning")));
    assert_eq!(events[0].unit, "g");
    assert_eq!(events[0].created_at, "2024-02-28 09:00:01");
    assert!(!events[0].deleted);
}

#[test]
fn correcting_four_to_eleven_fails_and_leaves_six() {
    let mut ledger = ingredients(vec![(7, 6)]);
    let mut events = vec![stored(1, 7, 4)];
    let refused = update_ingredient_usage(
        &batch(vec![line(Some(1), Some(7), Some(11))]),
        &mut ledger,
        &mut events,
    );
    assert_eq!(refused, Err(CoreError::InsufficientStock { id: 7, delta: -7, available: 6 }));
    assert_eq!(ledger.lock_and_read(7), Ok(6));
    assert_eq!(events, vec![stored(1, 7, 4)]);
}

#[test]
fn correcting_to_exactly_the_stock_with_the_old_quantity_back_leaves_zero() {
    let mut ledger = ingredients(vec![(7, 6)]);
    let mut events = vec![stored(1, 7, 4)];
    update_ingredient_usage(&batch(vec![line(Some(1), Some(7), Some(10))]), &mut ledger, &mut events)
        .unwrap();
    assert_eq!(ledger.lock_and_read(7), Ok(0));
    assert_eq!(ledger.applied_at(0), Delta { id: 7, amount: -6 });
}

#[test]
fn correcting_downwards_credits_the_difference() {
    let mut ledger = ingredients(vec![(7, 6)]);
    let mut events = vec![stored(1, 7, 4)];
    update_ingredient_usage(&batch(vec![line(Some(1), Some(7), Some(1))]), &mut ledger, &mut events)
        .unwrap();
    assert_eq!(ledger.lock_and_read(7), Ok(9));
    assert_eq!(events[0].quantity_used, 1);
}

#[test]
fn a_correction_may_not_name_another_ingredient() {
    let mut ledger = ingredients(vec![(7, 6), (8, 6)]);
    let mut events = vec![stored(1, 7, 4)];
    let refused = update_ingredient_usage(
        &batch(vec![line(Some(1), Some(8), Some(2))]),
        &mut ledger,
        &mut events,
    );
    assert_eq!(refused, Err(CoreError::Validation(ValidationError::IngredientChanged)));
    assert_eq!(ledger.lock_and_read(7), Ok(6));
    assert_eq!(ledger.lock_and_read(8), Ok(6));
    assert_eq!(events, vec![stored(1, 7, 4)]);
}

#[test]
fn a_correction_without_a_usage_event_is_malformed() {
    let mut ledger = ingredients(vec![(7, 6)]);
    let mut events = vec![stored(1, 7, 4)];
    assert_eq!(
        update_ingredient_usage(&batch(vec![line(None, Some(7), Some(2))]), &mut ledger, &mut events),
        Err(CoreError::Validation(ValidationError::MissingUsage))
    );
    assert_eq!(
        update_ingredient_usage(&batch(vec![line(Some(0), Some(7), Some(2))]), &mut ledger, &mut events),
        Err(CoreError::Validation(ValidationError::MissingUsage))
    );
    assert_eq!(
        update_ingredient_usage(&batch(vec![line(Some(1), None, Some(2))]), &mut ledger, &mut events),
        Err(CoreError::Validation(ValidationError::MissingIngredient))
    );
    assert_eq!(
        update_ingredient_usage(&batch(vec![line(Some(1), Some(7), Some(0))]), &mut ledger, &mut events),
        Err(CoreError::Validation(ValidationError::NonPositiveQuantity))
    );
}

#[test]
fn a_correction_of_an_unknown_event_is_not_found() {
    let mut ledger = ingredients(vec![(7, 6)]);
    let mut events = vec![stored(1, 7, 4)];
    let refused = update_ingredient_usage(
        &batch(vec![line(Some(2), Some(7), Some(2))]),
        &mut ledger,
        &mut events,
    );
    assert_eq!(refused, Err(CoreError::NotFound { entity: Entity::Usage, id: 2 }));
}

#[test]
fn a_batch_of_corrections_is_applied_as_a_whole_or_not_at_all() {
    let mut ledger = ingredients(vec![(7, 6), (8, 0)]);
    let mut events = vec![stored(1, 7, 4), stored(2, 8, 3)];
    let refused = update_ingredient_usage(
        &batch(vec![line(Some(1), Some(7), Some(2)), line(Some(2), Some(8), Some(4))]),
        &mut ledger,
        &mut events,
    );
    assert_eq!(refused, Err(CoreError::InsufficientStock { id: 8, delta: -1, available: 0 }));
    assert_eq!(ledger.lock_and_read(7), Ok(6));
    assert_eq!(ledger.lock_and_read(8), Ok(0));
    assert_eq!(events, vec![stored(1, 7, 4), stored(2, 8, 3)]);
    update_ingredient_usage(
        &batch(vec![line(Some(1), Some(7), Some(2)), line(Some(2), Some(8), Some(3))]),
        &mut ledger,
        &mut events,
    )
    .unwrap();
    assert_eq!(ledger.lock_and_read(7), Ok(8));
    assert_eq!(ledger.lock_and_read(8), Ok(0));
}

#[test]
fn two_corrections_of_one_event_follow_each_other() {
    let mut ledger = ingredients(vec![(7, 6)]);
    let mut events = vec![stored(1, 7, 4)];
    update_ingredient_usage(
        &batch(vec![line(Some(1), Some(7), Some(10)), line(Some(1), Some(7), Some(3))]),
        &mut ledger,
        &mut events,
    )
    .unwrap();
    assert_eq!(ledger.lock_and_read(7), Ok(7));
    assert_eq!(events[0].quantity_used, 3);
}

#[test]
fn reversing_four_against_two_yields_six() {
    let mut ledger = ingredients(vec![(7, 2)]);
    let mut events = vec![stored(1, 7, 4)];
    assert_eq!(delete_ingredient_usage(1, &mut ledger, &mut events), Ok(()));
    assert_eq!(ledger.lock_and_read(7), Ok(6));
    assert!(events[0].deleted);
    assert_eq!(events[0].quantity_used, 4);
    assert_eq!(ledger.applied_at(0), Delta { id: 7, amount: 4 });
}

#[test]
fn reversing_against_an_empty_row_succeeds() {
    let mut ledger = ingredients(vec![(7, 0)]);
    let mut events = vec![stored(1, 7, 4)];
    assert_eq!(delete_ingredient_usage(1, &mut ledger, &mut events), Ok(()));
    assert_eq!(ledger.lock_and_read(7), Ok(4));
}

#[test]
fn a_reversed_event_is_never_found_again() {
    let mut ledger = ingredients(vec![(7, 2)]);
    let mut events = vec![stored(1, 7, 4)];
    delete_ingredient_usage(1, &mut ledger, &mut events).unwrap();
    assert_eq!(
        delete_ingredient_usage(1, &mut ledger, &mut events),
        Err(CoreError::NotFound { entity: Entity::Usage, id: 1 })
    );
    assert_eq!(
        update_ingredient_usage(&batch(vec![line(Some(1), Some(7), Some(1))]), &mut ledger, &mut events),
        Err(CoreError::NotFound { entity: Entity::Usage, id: 1 })
    );
    assert!(get_ingredient_usage_by_id(1, &events).is_none());
    assert_eq!(ledger.lock_and_read(7), Ok(6));
}

#[test]
fn reversing_on_a_missing_ingredient_changes_nothing() {
    let mut ledger = ingredients(vec![(8, 2)]);
    let mut events = vec![stored(1, 7, 4)];
    assert_eq!(
        delete_ingredient_usage(1, &mut ledger, &mut events),
        Err(CoreError::NotFound { entity: Entity::Ingredient, id: 7 })
    );
    assert!(!events[0].deleted);
}

#[test]
fn a_stored_event_with_a_negative_quantity_is_a_store_failure() {
    let mut ledger = ingredients(vec![(7, 2)]);
    let mut events = vec![stored(1, 7, -4)];
    assert_eq!(delete_ingredient_usage(1, &mut ledger, &mut events), Err(CoreError::StoreFailure));
    assert_eq!(
        update_ingredient_usage(&batch(vec![line(Some(1), Some(7), Some(1))]), &mut ledger, &mut events),
        Err(CoreError::StoreFailure)
    );
    assert_eq!(ledger.lock_and_read(7), Ok(2));
}

#[test]
fn a_reversal_that_a_row_cannot_hold_is_a_store_failure() {
    let mut ledger = ingredients(vec![(7, i64::MAX)]);
    let mut events = vec![stored(1, 7, 1)];
    assert_eq!(delete_ingredient_usage(1, &mut ledger, &mut events), Err(CoreError::StoreFailure));
    assert!(!events[0].deleted);
}

#[test]
fn an_event_is_looked_up_by_its_identifier() {
    let events = vec![stored(1, 7, 4), stored(2, 8, 3)];
    assert_eq!(get_ingredient_usage_by_id(2, &events), Some(&stored(2, 8, 3)));
    assert_eq!(get_ingredient_usage_by_id(3, &events), None);
}
