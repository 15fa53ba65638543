//! Purchases: receiving ingredients into stock, correcting what was
//! received, and deleting a purchase.
//!
//! Receiving credits every line's ingredient. A correction pushes to the
//! ledger only the difference between the new and the old quantity of a
//! line. Deleting a purchase marks it and its lines as deleted and leaves
//! the ledger alone: stock that was received stays received.

use vstd::prelude::*;
use crate::error::{CoreError, Entity, ValidationError};
use crate::ledger::{batch_outcome, delta_outcome, Delta, StockLedger};

verus! {

/// One stored line of a purchase. Quantities are counted in the smallest
/// unit the store keeps for the ingredient, prices in the smallest currency
/// unit.
#[derive(Clone, Debug, PartialEq, Eq)]
pub struct PurchaseDetail {
    pub purchase_detail_id: i32,
    pub ingredient_id: i32,
    pub ingredient_name: String,
    pub quantity_purchased: i64,
    pub unit: String,
    pub buying_price_per_unit: i64,
    pub deleted: bool,
}

/// A stored purchase with its lines.
#[derive(Clone, Debug, PartialEq, Eq)]
pub struct Purchase {
    pub purchase_id: i32,
    pub total_cost: i64,
    pub purchase_date: String,
    pub shop_id: i32,
    pub shop_name: String,
    pub created_at: String,
    pub purchase_details: Vec<PurchaseDetail>,
    pub deleted: bool,
}

/// One line of a purchase that is being received.
#[derive(Clone, Debug, PartialEq, Eq)]
pub struct AddPurchaseDetailRequest {
    pub ingredient_id: i32,
    pub quantity_purchased: i64,
    pub unit: String,
    pub buying_price_per_unit: i64,
}

/// A purchase that is being received.
#[derive(Clone, Debug, PartialEq, Eq)]
pub struct AddPurchaseRequest {
    pub total_cost: i64,
    pub purchase_date: String,
    pub shop_id: i32,
    pub purchase_details: Vec<AddPurchaseDetailRequest>,
}

/// The new content of one stored line.
#[derive(Clone, Copy, Debug, PartialEq, Eq)]
pub struct UpdatePurchaseDetailRequest {
    pub purchase_detail_id: i32,
    pub ingredient_id: i32,
    pub quantity_purchased: i64,
    pub buying_price_per_unit: i64,
}

/// The new content of a stored purchase.
#[derive(Clone, Debug, PartialEq, Eq)]
pub struct UpdatePurchaseRequest {
    pub total_cost: i64,
    pub purchase_date: String,
    pub shop_id: i32,
    pub purchase_details: Vec<UpdatePurchaseDetailRequest>,
}

/// Some received line has no positive quantity.
pub open spec fn has_empty_receipt(lines: Seq<AddPurchaseDetailRequest>) -> bool {
    exists|i: int| 0 <= i < lines.len() && (#[trigger] lines[i]).quantity_purchased <= 0
}

/// Some corrected line has no positive quantity.
pub open spec fn has_empty_correction(lines: Seq<UpdatePurchaseDetailRequest>) -> bool {
    exists|i: int| 0 <= i < lines.len() && (#[trigger] lines[i]).quantity_purchased <= 0
}

/// The credits that receiving a purchase asks of the ledger: one per line, of
/// the line's quantity, on the line's ingredient.
pub open spec fn purchase_credits(lines: Seq<AddPurchaseDetailRequest>) -> Seq<Delta> {
    Seq::new(
        lines.len(),
        |i: int| Delta { id: lines[i].ingredient_id, amount: lines[i].quantity_purchased },
    )
}

/// What receiving a purchase gives: the quantities after every line has been
/// credited, or the reason why nothing is received.
pub open spec fn receipt_outcome(kind: Entity, stock: Map<int, int>, data: AddPurchaseRequest) -> Result<
    Map<int, int>,
    CoreError,
> {
    if data.total_cost == 0 {
        Err(CoreError::Validation(ValidationError::MissingTotalCost))
    } else if has_empty_receipt(data.purchase_details@) {
        Err(CoreError::Validation(ValidationError::NonPositiveQuantity))
    } else {
        batch_outcome(kind, stock, purchase_credits(data.purchase_details@))
    }
}

/// The position of the live line `detail_id` at or after `from`.
pub open spec fn detail_index(details: Seq<PurchaseDetail>, detail_id: i32, from: int) -> Option<int>
    decreases details.len() - from,
{
    if from < 0 || from >= details.len() {
        None
    } else if details[from].purchase_detail_id == detail_id && !details[from].deleted {
        Some(from)
    } else {
        detail_index(details, detail_id, from + 1)
    }
}

/// The stored line with the ingredient, quantity and price of `line`.
pub open spec fn amended(stored: PurchaseDetail, line: UpdatePurchaseDetailRequest) -> PurchaseDetail {
    PurchaseDetail {
        purchase_detail_id: stored.purchase_detail_id,
        ingredient_id: line.ingredient_id,
        ingredient_name: stored.ingredient_name,
        quantity_purchased: line.quantity_purchased,
        unit: stored.unit,
        buying_price_per_unit: line.buying_price_per_unit,
        deleted: stored.deleted,
    }
}

/// The stored line, marked as deleted.
pub open spec fn struck(stored: PurchaseDetail) -> PurchaseDetail {
    PurchaseDetail {
        purchase_detail_id: stored.purchase_detail_id,
        ingredient_id: stored.ingredient_id,
        ingredient_name: stored.ingredient_name,
        quantity_purchased: stored.quantity_purchased,
        unit: stored.unit,
        buying_price_per_unit: stored.buying_price_per_unit,
        deleted: true,
    }
}

/// What the ledger is asked when a stored line of `old_quantity` on
/// `old_ingredient` becomes a line of `new_quantity` on `new_ingredient`.
/// On the same ingredient it is one delta, the new quantity less the old
/// one. On another ingredient the old quantity is first taken back from the
/// old ingredient and the new quantity is then credited to the new one.
pub open spec fn amendment_outcome(
    kind: Entity,
    stock: Map<int, int>,
    old_ingredient: i32,
    old_quantity: i64,
    new_ingredient: i32,
    new_quantity: i64,
) -> Result<Map<int, int>, CoreError> {
    if old_ingredient == new_ingredient {
        delta_outcome(kind, stock, new_ingredient, (new_quantity - old_quantity) as i64)
    } else {
        match delta_outcome(kind, stock, old_ingredient, (-old_quantity) as i64) {
            Err(e) => Err(e),
            Ok(taken_back) => delta_outcome(kind, taken_back, new_ingredient, new_quantity),
        }
    }
}

/// The deltas that [`amendment_outcome`] asks of the ledger.
pub open spec fn amendment_deltas(
    old_ingredient: i32,
    old_quantity: i64,
    new_ingredient: i32,
    new_quantity: i64,
) -> Seq<Delta> {
    if old_ingredient == new_ingredient {
        seq![Delta { id: new_ingredient, amount: (new_quantity - old_quantity) as i64 }]
    } else {
        seq![
            Delta { id: old_ingredient, amount: (-old_quantity) as i64 },
            Delta { id: new_ingredient, amount: new_quantity },
        ]
    }
}

/// The deltas that correcting lines one after the other asks of the ledger.
pub open spec fn purchase_deltas(details: Seq<PurchaseDetail>, lines: Seq<UpdatePurchaseDetailRequest>) -> Seq<
    Delta,
>
    decreases lines.len(),
{
    if lines.len() == 0 {
        Seq::empty()
    } else {
        match detail_index(details, lines[0].purchase_detail_id, 0) {
            None => Seq::empty(),
            Some(i) => amendment_deltas(
                details[i].ingredient_id,
                details[i].quantity_purchased,
                lines[0].ingredient_id,
                lines[0].quantity_purchased,
            ) + purchase_deltas(details.update(i, amended(details[i], lines[0])), lines.skip(1)),
        }
    }
}

/// What correcting one line with a positive quantity gives. The line must be
/// a live line of the purchase (`NotFound`) and must hold a quantity the
/// store accepts (`StoreFailure`).
pub open spec fn amend_line(
    kind: Entity,
    stock: Map<int, int>,
    details: Seq<PurchaseDetail>,
    line: UpdatePurchaseDetailRequest,
) -> Result<(Map<int, int>, Seq<PurchaseDetail>), CoreError> {
    match detail_index(details, line.purchase_detail_id, 0) {
        None => Err(
            CoreError::NotFound { entity: Entity::PurchaseLine, id: line.purchase_detail_id },
        ),
        Some(i) => {
            if details[i].quantity_purchased < 0 {
                Err(CoreError::StoreFailure)
            } else {
                match amendment_outcome(
                    kind,
                    stock,
                    details[i].ingredient_id,
                    details[i].quantity_purchased,
                    line.ingredient_id,
                    line.quantity_purchased,
                ) {
                    Err(e) => Err(e),
                    Ok(next) => Ok((next, details.update(i, amended(details[i], line)))),
                }
            }
        },
    }
}

/// What correcting lines one after the other gives.
pub open spec fn amend_lines(
    kind: Entity,
    stock: Map<int, int>,
    details: Seq<PurchaseDetail>,
    lines: Seq<UpdatePurchaseDetailRequest>,
) -> Result<(Map<int, int>, Seq<PurchaseDetail>), CoreError>
    decreases lines.len(),
{
    if lines.len() == 0 {
        Ok((stock, details))
    } else {
        match amend_line(kind, stock, details, lines[0]) {
            Err(e) => Err(e),
            Ok(next) => amend_lines(kind, next.0, next.1, lines.skip(1)),
        }
    }
}

/// What correcting purchase `purchase_id` gives: the quantities and the
/// purchase's lines after every corrected line has been applied, or the
/// reason why nothing is changed.
pub open spec fn amendment_of_purchase(
    kind: Entity,
    stock: Map<int, int>,
    purchase: Purchase,
    purchase_id: i32,
    data: UpdatePurchaseRequest,
) -> Result<(Map<int, int>, Seq<PurchaseDetail>), CoreError> {
    if data.total_cost == 0 {
        Err(CoreError::Validation(ValidationError::MissingTotalCost))
    } else if has_empty_correction(data.purchase_details@) {
        Err(CoreError::Validation(ValidationError::NonPositiveQuantity))
    } else if purchase.purchase_id != purchase_id || purchase.deleted {
        Err(CoreError::NotFound { entity: Entity::Purchase, id: purchase_id })
    } else {
        amend_lines(kind, stock, purchase.purchase_details@, data.purchase_details@)
    }
}

/// Every line of `details`, marked as deleted.
pub open spec fn all_struck(details: Seq<PurchaseDetail>) -> Seq<PurchaseDetail> {
    Seq::new(details.len(), |i: int| struck(details[i]))
}

fn copy_detail(detail: &PurchaseDetail) -> (r: PurchaseDetail)
    ensures
        r == *detail,
{
    PurchaseDetail {
        purchase_detail_id: detail.purchase_detail_id,
        ingredient_id: detail.ingredient_id,
        ingredient_name: detail.ingredient_name.clone(),
        quantity_purchased: detail.quantity_purchased,
        unit: detail.unit.clone(),
        buying_price_per_unit: detail.buying_price_per_unit,
        deleted: detail.deleted,
    }
}

fn copy_details(details: &Vec<PurchaseDetail>) -> (r: Vec<PurchaseDetail>)
    ensures
        r@ == details@,
{
    let mut out: Vec<PurchaseDetail> = Vec::new();
    let mut i: usize = 0;
    while i < details.len()
        invariant
            0 <= i <= details@.len(),
            out@ == details@.subrange(0, i as int),
        decreases details@.len() - i,
    {
        out.push(copy_detail(&details[i]));
        assert(out@ =~= details@.subrange(0, i + 1));
        i += 1;
    }
    assert(details@.subrange(0, i as int) =~= details@);
    out
}

fn find_detail(detail_id: i32, details: &Vec<PurchaseDetail>) -> (r: Option<usize>)
    ensures
        match r {
            Some(i) => detail_index(details@, detail_id, 0) == Some(i as int) && i < details@.len(),
            None => detail_index(details@, detail_id, 0) is None,
        },
{
    let mut i: usize = 0;
    while i < details.len()
        invariant
            0 <= i <= details@.len(),
            detail_index(details@, detail_id, 0) == detail_index(details@, detail_id, i as int),
        decreases details@.len() - i,
    {
        if details[i].purchase_detail_id == detail_id && !details[i].deleted {
            return Some(i);
        }
        i += 1;
    }
    None
}

fn any_empty_receipt(lines: &Vec<AddPurchaseDetailRequest>) -> (r: bool)
    ensures
        r == has_empty_receipt(lines@),
{
    let mut i: usize = 0;
    while i < lines.len()
        invariant
            0 <= i <= lines@.len(),
            forall|k: int| 0 <= k < i ==> (#[trigger] lines@[k]).quantity_purchased > 0,
        decreases lines@.len() - i,
    {
        if lines[i].quantity_purchased <= 0 {
            return true;
        }
        i += 1;
    }
    false
}

fn any_empty_correction(lines: &Vec<UpdatePurchaseDetailRequest>) -> (r: bool)
    ensures
        r == has_empty_correction(lines@),
{
    let mut i: usize = 0;
    while i < lines.len()
        invariant
            0 <= i <= lines@.len(),
            forall|k: int| 0 <= k < i ==> (#[trigger] lines@[k]).quantity_purchased > 0,
        decreases lines@.len() - i,
    {
        if lines[i].quantity_purchased <= 0 {
            return true;
        }
        i += 1;
    }
    false
}

fn credits_of(lines: &Vec<AddPurchaseDetailRequest>) -> (r: Vec<Delta>)
    ensures
        r@ == purchase_credits(lines@),
{
    let mut out: Vec<Delta> = Vec::new();
    let mut i: usize = 0;
    while i < lines.len()
        invariant
            0 <= i <= lines@.len(),
            out@ == purchase_credits(lines@).subrange(0, i as int),
        decreases lines@.len() - i,
    {
        out.push(Delta { id: lines[i].ingredient_id, amount: lines[i].quantity_purchased });
        assert(out@ =~= purchase_credits(lines@).subrange(0, i + 1));
        i += 1;
    }
    assert(purchase_credits(lines@).subrange(0, i as int) =~= purchase_credits(lines@));
    out
}

/// Receives a purchase: every line's quantity is credited to its ingredient.
/// If the purchase is malformed or any credit is refused, nothing is changed
/// and the reason is returned.
pub fn add_purchase(data: &AddPurchaseRequest, ledger: &mut StockLedger) -> (r: Result<
    (),
    CoreError,
>)
    requires
        old(ledger).wf(),
    ensures
        final(ledger).wf(),
        final(ledger).kind() == old(ledger).kind(),
        final(ledger).opening() == old(ledger).opening(),
        match receipt_outcome(old(ledger).kind(), old(ledger)@, *data) {
            Ok(stock) => {
                &&& r is Ok
                &&& final(ledger)@ == stock
                &&& final(ledger).applied() == old(ledger).applied() + purchase_credits(
                    data.purchase_details@,
                )
            },
            Err(e) => r == Err::<(), CoreError>(e) && *final(ledger) == *old(ledger),
        },
{
    if data.total_cost == 0 {
        return Err(CoreError::Validation(ValidationError::MissingTotalCost));
    }
    if any_empty_receipt(&data.purchase_details) {
        return Err(CoreError::Validation(ValidationError::NonPositiveQuantity));
    }
    let credits = credits_of(&data.purchase_details);
    ledger.apply_all(&credits)
}

/// Asks the ledger for what [`amendment_outcome`] describes. On an error the
/// ledger may hold the first of two deltas: the caller works on a fork and
/// drops it.
fn amend_stock(
    work: &mut StockLedger,
    old_ingredient: i32,
    old_quantity: i64,
    new_ingredient: i32,
    new_quantity: i64,
) -> (r: Result<(), CoreError>)
    requires
        old(work).wf(),
        0 <= old_quantity,
        0 < new_quantity,
    ensures
        final(work).wf(),
        final(work).kind() == old(work).kind(),
        final(work).opening() == old(work).opening(),
        match amendment_outcome(
            old(work).kind(),
            old(work)@,
            old_ingredient,
            old_quantity,
            new_ingredient,
            new_quantity,
        ) {
            Ok(stock) => {
                &&& r is Ok
                &&& final(work)@ == stock
                &&& final(work).applied() == old(work).applied() + amendment_deltas(
                    old_ingredient,
                    old_quantity,
                    new_ingredient,
                    new_quantity,
                )
            },
            Err(e) => r == Err::<(), CoreError>(e),
        },
{
    if old_ingredient == new_ingredient {
        let r = work.apply_delta(new_ingredient, new_quantity - old_quantity);
        assert(r is Ok ==> work.applied() =~= old(work).applied() + amendment_deltas(
            old_ingredient,
            old_quantity,
            new_ingredient,
            new_quantity,
        ));
        r
    } else {
        match work.apply_delta(old_ingredient, -old_quantity) {
            Err(e) => Err(e),
            Ok(()) => {
                let r = work.apply_delta(new_ingredient, new_quantity);
                assert(r is Ok ==> work.applied() =~= old(work).applied() + amendment_deltas(
                    old_ingredient,
                    old_quantity,
                    new_ingredient,
                    new_quantity,
                ));
                r
            },
        }
    }
}

/// A batch without an empty correction has a positive quantity in each line.
proof fn lemma_positive(lines: Seq<UpdatePurchaseDetailRequest>, i: int)
    requires
        !has_empty_correction(lines),
        0 <= i < lines.len(),
    ensures
        lines[i].quantity_purchased > 0,
{
}

/// Corrects the stored purchase `purchase_id`: its cost, date and shop are
/// replaced, and for every corrected line, in order, the stored line takes
/// the new ingredient, quantity and price while the ledger takes the
/// difference (see [`amendment_outcome`]). If the request is malformed, the
/// purchase or a line is not found, or the ledger refuses a delta, nothing is
/// changed and the reason is returned.
pub fn update_purchase(
    data: &UpdatePurchaseRequest,
    purchase_id: i32,
    purchase: &mut Purchase,
    ledger: &mut StockLedger,
) -> (r: Result<(), CoreError>)
    requires
        old(ledger).wf(),
    ensures
        final(ledger).wf(),
        final(ledger).kind() == old(ledger).kind(),
        final(ledger).opening() == old(ledger).opening(),
        match amendment_of_purchase(
            old(ledger).kind(),
            old(ledger)@,
            *old(purchase),
            purchase_id,
            *data,
        ) {
            Ok(after) => {
                &&& r is Ok
                &&& final(ledger)@ == after.0
                &&& final(ledger).applied() == old(ledger).applied() + purchase_deltas(
                    old(purchase).purchase_details@,
                    data.purchase_details@,
                )
                &&& final(purchase).purchase_details@ == after.1
                &&& final(purchase).total_cost == data.total_cost
                &&& final(purchase).purchase_date == data.purchase_date
                &&& final(purchase).shop_id == data.shop_id
                &&& final(purchase).purchase_id == old(purchase).purchase_id
                &&& final(purchase).shop_name == old(purchase).shop_name
                &&& final(purchase).created_at == old(purchase).created_at
                &&& final(purchase).deleted == old(purchase).deleted
            },
            Err(e) => {
                &&& r == Err::<(), CoreError>(e)
                &&& *final(ledger) == *old(ledger)
                &&& *final(purchase) == *old(purchase)
            },
        },
{
    if data.total_cost == 0 {
        return Err(CoreError::Validation(ValidationError::MissingTotalCost));
    }
    if any_empty_correction(&data.purchase_details) {
        return Err(CoreError::Validation(ValidationError::NonPositiveQuantity));
    }
    if purchase.purchase_id != purchase_id || purchase.deleted {
        return Err(CoreError::NotFound { entity: Entity::Purchase, id: purchase_id });
    }
    let lines = &data.purchase_details;
    let mut work = ledger.fork();
    let mut stored = copy_details(&purchase.purchase_details);
    let mut i: usize = 0;
    assert(lines@.skip(0) =~= lines@);
    while i < lines.len()
        invariant
            0 <= i <= lines@.len(),
            lines@ == data.purchase_details@,
            data.total_cost != 0,
            purchase.purchase_id == purchase_id && !purchase.deleted,
            !has_empty_correction(lines@),
            *ledger == *old(ledger),
            *purchase == *old(purchase),
            ledger.wf(),
            work.wf(),
            work.kind() == ledger.kind(),
            work.opening() == ledger.opening(),
            amend_lines(ledger.kind(), ledger@, purchase.purchase_details@, lines@) == amend_lines(
                ledger.kind(),
                work@,
                stored@,
                lines@.skip(i as int),
            ),
            ledger.applied() + purchase_deltas(purchase.purchase_details@, lines@)
                == work.applied() + purchase_deltas(stored@, lines@.skip(i as int)),
        decreases lines@.len() - i,
    {
        proof {
            lemma_positive(lines@, i as int);
        }
        let line = lines[i];
        let ghost journal = work.applied();
        assert(lines@.skip(i as int)[0] == line);
        assert(lines@.skip(i as int).skip(1) =~= lines@.skip(i + 1));
        let at = match find_detail(line.purchase_detail_id, &stored) {
            None => {
                return Err(
                    CoreError::NotFound {
                        entity: Entity::PurchaseLine,
                        id: line.purchase_detail_id,
                    },
                );
            },
            Some(at) => at,
        };
        if stored[at].quantity_purchased < 0 {
            return Err(CoreError::StoreFailure);
        }
        match amend_stock(
            &mut work,
            stored[at].ingredient_id,
            stored[at].quantity_purchased,
            line.ingredient_id,
            line.quantity_purchased,
        ) {
            Err(e) => {
                return Err(e);
            },
            Ok(()) => {},
        }
        let updated = PurchaseDetail {
            purchase_detail_id: stored[at].purchase_detail_id,
            ingredient_id: line.ingredient_id,
            ingredient_name: stored[at].ingredient_name.clone(),
            quantity_purchased: line.quantity_purchased,
            unit: stored[at].unit.clone(),
            buying_price_per_unit: line.buying_price_per_unit,
            deleted: stored[at].deleted,
        };
        let ghost asked = amendment_deltas(
            stored@[at as int].ingredient_id,
            stored@[at as int].quantity_purchased,
            line.ingredient_id,
            line.quantity_purchased,
        );
        stored.set(at, updated);
        proof {
            assert((journal + asked) + purchase_deltas(stored@, lines@.skip(i + 1)) =~= journal + (
            asked + purchase_deltas(stored@, lines@.skip(i + 1))));
        }
        i += 1;
    }
    *ledger = work;
    purchase.purchase_details = stored;
    purchase.total_cost = data.total_cost;
    purchase.purchase_date = data.purchase_date.clone();
    purchase.shop_id = data.shop_id;
    Ok(())
}

/// Deletes the stored purchase `purchase_id`: the purchase and each of its
/// lines are marked as deleted. No ledger takes part: the stock that the
/// purchase brought in stays. A purchase with another identifier, or one
/// that is already deleted, is `NotFound` and is left as it is.
pub fn delete_purchase(purchase_id: i32, purchase: &mut Purchase) -> (r: Result<(), CoreError>)
    ensures
        final(purchase).purchase_id == old(purchase).purchase_id,
        final(purchase).total_cost == old(purchase).total_cost,
        final(purchase).purchase_date == old(purchase).purchase_date,
        final(purchase).shop_id == old(purchase).shop_id,
        final(purchase).shop_name == old(purchase).shop_name,
        final(purchase).created_at == old(purchase).created_at,
        if old(purchase).purchase_id == purchase_id && !old(purchase).deleted {
            &&& r is Ok
            &&& final(purchase).deleted
            &&& final(purchase).purchase_details@ == all_struck(old(purchase).purchase_details@)
        } else {
            &&& r == Err::<(), CoreError>(
                CoreError::NotFound { entity: Entity::Purchase, id: purchase_id },
            )
            &&& *final(purchase) == *old(purchase)
        },
{
    if purchase.purchase_id != purchase_id || purchase.deleted {
        return Err(CoreError::NotFound { entity: Entity::Purchase, id: purchase_id });
    }
    let mut struck_lines: Vec<PurchaseDetail> = Vec::new();
    let mut i: usize = 0;
    while i < purchase.purchase_details.len()
        invariant
            0 <= i <= purchase.purchase_details@.len(),
            *purchase == *old(purchase),
            struck_lines@ == all_struck(purchase.purchase_details@).subrange(0, i as int),
        decreases purchase.purchase_details@.len() - i,
    {
        let mut line = copy_detail(&purchase.purchase_details[i]);
        line.deleted = true;
        struck_lines.push(line);
        assert(struck_lines@ =~= all_struck(purchase.purchase_details@).subrange(0, i + 1));
        i += 1;
    }
    assert(all_struck(purchase.purchase_details@).subrange(0, i as int) =~= all_struck(
        purchase.purchase_details@,
    ));
    purchase.purchase_details = struck_lines;
    purchase.deleted = true;
    Ok(())
}

} // verus!
