//! Ingredient usage: recording consumption, correcting a recorded quantity,
//! and reversing a recorded event.
//!
//! A usage event is active from the moment it is recorded until it is
//! reversed. A correction keeps it active with a new quantity; a reversed
//! event is never found again.

use vstd::prelude::*;
use crate::error::{CoreError, Entity, ValidationError};
use crate::ledger::{batch_outcome, delta_outcome, Delta, StockLedger};

verus! {

/// A stored usage event. `quantity_used` is counted in the smallest unit the
/// store keeps for the ingredient; `deleted` is set once the event has been
/// reversed.
#[derive(Clone, Debug, PartialEq, Eq)]
pub struct IngredientUsage {
    pub usage_id: i32,
    pub ingredient_id: i32,
    pub quantity_used: i64,
    pub unit: String,
    pub usage_date: String,
    pub associated_activity: Option<String>,
    pub notes: Option<String>,
    pub shop_id: Option<i32>,
    pub created_at: String,
    pub deleted: bool,
}

/// One line of a usage request: what was used, when and for what.
#[derive(Clone, Debug, PartialEq, Eq)]
pub struct IngredientUsageRequest {
    pub usage_id: Option<i32>,
    pub ingredient_id: Option<i32>,
    pub quantity_used: Option<i64>,
    pub usage_date: String,
    pub associated_activity: String,
    pub notes: String,
}

/// A batch of usage lines for one shop.
#[derive(Clone, Debug, PartialEq, Eq)]
pub struct IngredientUsagesRequest {
    pub ingredient_usages: Vec<IngredientUsageRequest>,
    pub shop_id: Option<i32>,
}

/// A usage event that has been accepted and debited and is to be stored. The
/// store gives it its identifier, its creation time and the ingredient's
/// unit.
#[derive(Clone, Debug, PartialEq, Eq)]
pub struct NewIngredientUsage {
    pub ingredient_id: i32,
    pub quantity_used: i64,
    pub usage_date: String,
    pub associated_activity: String,
    pub notes: String,
    pub shop_id: i32,
}

/// What is malformed in a line that records usage: no ingredient, or no
/// positive quantity.
pub open spec fn record_line_fault(line: IngredientUsageRequest) -> Option<ValidationError> {
    if line.ingredient_id is None || line.ingredient_id == Some(0i32) {
        Some(ValidationError::MissingIngredient)
    } else if line.quantity_used is None || line.quantity_used.unwrap() <= 0 {
        Some(ValidationError::NonPositiveQuantity)
    } else {
        None
    }
}

/// What is malformed in a line that corrects usage: no usage event, or one of
/// the faults of a recording line.
pub open spec fn correct_line_fault(line: IngredientUsageRequest) -> Option<ValidationError> {
    if line.usage_id is None || line.usage_id == Some(0i32) {
        Some(ValidationError::MissingUsage)
    } else {
        record_line_fault(line)
    }
}

/// The fault of the first malformed line, for recording (`correcting` false)
/// or for correcting (`correcting` true).
pub open spec fn lines_fault(lines: Seq<IngredientUsageRequest>, correcting: bool) -> Option<
    ValidationError,
>
    decreases lines.len(),
{
    if lines.len() == 0 {
        None
    } else {
        let fault = if correcting {
            correct_line_fault(lines[0])
        } else {
            record_line_fault(lines[0])
        };
        match fault {
            Some(v) => Some(v),
            None => lines_fault(lines.skip(1), correcting),
        }
    }
}

/// The debits that recording well-formed lines asks of the ledger: one per
/// line, of the line's quantity, on the line's ingredient.
pub open spec fn usage_debits(lines: Seq<IngredientUsageRequest>) -> Seq<Delta> {
    Seq::new(
        lines.len(),
        |i: int|
            Delta {
                id: lines[i].ingredient_id.unwrap(),
                amount: (-lines[i].quantity_used.unwrap()) as i64,
            },
    )
}

/// The events that recording well-formed lines for `shop_id` stores: one per
/// line, in the order of the lines.
pub open spec fn usage_events(lines: Seq<IngredientUsageRequest>, shop_id: i32) -> Seq<
    NewIngredientUsage,
> {
    Seq::new(
        lines.len(),
        |i: int|
            NewIngredientUsage {
                ingredient_id: lines[i].ingredient_id.unwrap(),
                quantity_used: lines[i].quantity_used.unwrap(),
                usage_date: lines[i].usage_date,
                associated_activity: lines[i].associated_activity,
                notes: lines[i].notes,
                shop_id,
            },
    )
}

/// What recording a batch gives: the quantities after every line has been
/// debited, or the reason why nothing is recorded.
pub open spec fn record_outcome(kind: Entity, stock: Map<int, int>, data: IngredientUsagesRequest) -> Result<
    Map<int, int>,
    CoreError,
> {
    if data.shop_id is None {
        Err(CoreError::Validation(ValidationError::MissingShop))
    } else if lines_fault(data.ingredient_usages@, false) is Some {
        Err(CoreError::Validation(lines_fault(data.ingredient_usages@, false).unwrap()))
    } else {
        batch_outcome(kind, stock, usage_debits(data.ingredient_usages@))
    }
}

/// The position of the active event `usage_id` at or after `from`.
pub open spec fn usage_index(events: Seq<IngredientUsage>, usage_id: i32, from: int) -> Option<int>
    decreases events.len() - from,
{
    if from < 0 || from >= events.len() {
        None
    } else if events[from].usage_id == usage_id && !events[from].deleted {
        Some(from)
    } else {
        usage_index(events, usage_id, from + 1)
    }
}

/// The stored event with the quantity, date, activity and notes of `line`.
pub open spec fn corrected(stored: IngredientUsage, line: IngredientUsageRequest) -> IngredientUsage {
    IngredientUsage {
        usage_id: stored.usage_id,
        ingredient_id: stored.ingredient_id,
        quantity_used: line.quantity_used.unwrap(),
        unit: stored.unit,
        usage_date: line.usage_date,
        associated_activity: Some(line.associated_activity),
        notes: Some(line.notes),
        shop_id: stored.shop_id,
        created_at: stored.created_at,
        deleted: stored.deleted,
    }
}

/// The stored event, marked as reversed.
pub open spec fn reversed(stored: IngredientUsage) -> IngredientUsage {
    IngredientUsage {
        usage_id: stored.usage_id,
        ingredient_id: stored.ingredient_id,
        quantity_used: stored.quantity_used,
        unit: stored.unit,
        usage_date: stored.usage_date,
        associated_activity: stored.associated_activity,
        notes: stored.notes,
        shop_id: stored.shop_id,
        created_at: stored.created_at,
        deleted: true,
    }
}

/// What correcting one well-formed line gives. The event must be active
/// (`NotFound`), must hold a quantity the store accepts (`StoreFailure`) and
/// must name the line's ingredient (`IngredientChanged`); the ledger then
/// takes the old quantity less the new one as a single delta.
pub open spec fn correct_line(
    kind: Entity,
    stock: Map<int, int>,
    events: Seq<IngredientUsage>,
    line: IngredientUsageRequest,
) -> Result<(Map<int, int>, Seq<IngredientUsage>), CoreError> {
    match usage_index(events, line.usage_id.unwrap(), 0) {
        None => Err(CoreError::NotFound { entity: Entity::Usage, id: line.usage_id.unwrap() }),
        Some(i) => {
            if events[i].quantity_used < 0 {
                Err(CoreError::StoreFailure)
            } else if events[i].ingredient_id != line.ingredient_id.unwrap() {
                Err(CoreError::Validation(ValidationError::IngredientChanged))
            } else {
                match delta_outcome(
                    kind,
                    stock,
                    events[i].ingredient_id,
                    (events[i].quantity_used - line.quantity_used.unwrap()) as i64,
                ) {
                    Err(e) => Err(e),
                    Ok(next) => Ok((next, events.update(i, corrected(events[i], line)))),
                }
            }
        },
    }
}

/// What correcting well-formed lines one after the other gives.
pub open spec fn correct_lines(
    kind: Entity,
    stock: Map<int, int>,
    events: Seq<IngredientUsage>,
    lines: Seq<IngredientUsageRequest>,
) -> Result<(Map<int, int>, Seq<IngredientUsage>), CoreError>
    decreases lines.len(),
{
    if lines.len() == 0 {
        Ok((stock, events))
    } else {
        match correct_line(kind, stock, events, lines[0]) {
            Err(e) => Err(e),
            Ok(next) => correct_lines(kind, next.0, next.1, lines.skip(1)),
        }
    }
}

/// The deltas that correcting well-formed lines one after the other asks of
/// the ledger: for every line, the old quantity of its event less the new
/// one, on the event's ingredient.
pub open spec fn correction_deltas(events: Seq<IngredientUsage>, lines: Seq<IngredientUsageRequest>) -> Seq<
    Delta,
>
    decreases lines.len(),
{
    if lines.len() == 0 {
        Seq::empty()
    } else {
        match usage_index(events, lines[0].usage_id.unwrap(), 0) {
            None => Seq::empty(),
            Some(i) => seq![
                Delta {
                    id: events[i].ingredient_id,
                    amount: (events[i].quantity_used - lines[0].quantity_used.unwrap()) as i64,
                },
            ] + correction_deltas(events.update(i, corrected(events[i], lines[0])), lines.skip(1)),
        }
    }
}

/// What correcting a batch gives: the quantities and events after every line
/// has been applied, or the reason why nothing is changed.
pub open spec fn correction_outcome(
    kind: Entity,
    stock: Map<int, int>,
    events: Seq<IngredientUsage>,
    data: IngredientUsagesRequest,
) -> Result<(Map<int, int>, Seq<IngredientUsage>), CoreError> {
    if lines_fault(data.ingredient_usages@, true) is Some {
        Err(CoreError::Validation(lines_fault(data.ingredient_usages@, true).unwrap()))
    } else {
        correct_lines(kind, stock, events, data.ingredient_usages@)
    }
}

/// What reversing event `usage_id` gives: the ledger credited with the
/// event's quantity and the event marked as reversed, or the reason why
/// nothing is changed.
pub open spec fn reversal_outcome(
    kind: Entity,
    stock: Map<int, int>,
    events: Seq<IngredientUsage>,
    usage_id: i32,
) -> Result<(Map<int, int>, Seq<IngredientUsage>), CoreError> {
    match usage_index(events, usage_id, 0) {
        None => Err(CoreError::NotFound { entity: Entity::Usage, id: usage_id }),
        Some(i) => {
            if events[i].quantity_used < 0 {
                Err(CoreError::StoreFailure)
            } else {
                match delta_outcome(kind, stock, events[i].ingredient_id, events[i].quantity_used) {
                    Err(e) => Err(e),
                    Ok(next) => Ok((next, events.update(i, reversed(events[i])))),
                }
            }
        },
    }
}

/// The credit that reversing the active event `usage_id` asks of the ledger:
/// the event's quantity, on the event's ingredient.
pub open spec fn reversal_delta(events: Seq<IngredientUsage>, usage_id: i32) -> Delta {
    let i = usage_index(events, usage_id, 0).unwrap();
    Delta { id: events[i].ingredient_id, amount: events[i].quantity_used }
}

fn copy_text(text: &Option<String>) -> (r: Option<String>)
    ensures
        r == *text,
{
    match text {
        Some(s) => Some(s.clone()),
        None => None,
    }
}

fn copy_event(event: &IngredientUsage) -> (r: IngredientUsage)
    ensures
        r == *event,
{
    IngredientUsage {
        usage_id: event.usage_id,
        ingredient_id: event.ingredient_id,
        quantity_used: event.quantity_used,
        unit: event.unit.clone(),
        usage_date: event.usage_date.clone(),
        associated_activity: copy_text(&event.associated_activity),
        notes: copy_text(&event.notes),
        shop_id: event.shop_id,
        created_at: event.created_at.clone(),
        deleted: event.deleted,
    }
}

fn copy_events(events: &Vec<IngredientUsage>) -> (r: Vec<IngredientUsage>)
    ensures
        r@ == events@,
{
    let mut out: Vec<IngredientUsage> = Vec::new();
    let mut i: usize = 0;
    while i < events.len()
        invariant
            0 <= i <= events@.len(),
            out@ == events@.subrange(0, i as int),
        decreases events@.len() - i,
    {
        out.push(copy_event(&events[i]));
        assert(out@ =~= events@.subrange(0, i + 1));
        i += 1;
    }
    assert(events@.subrange(0, i as int) =~= events@);
    out
}

/// The fault of the first malformed line, if any line is malformed.
fn check_lines(lines: &Vec<IngredientUsageRequest>, correcting: bool) -> (r: Option<ValidationError>)
    ensures
        r == lines_fault(lines@, correcting),
{
    let mut i: usize = 0;
    assert(lines@.skip(0) =~= lines@);
    while i < lines.len()
        invariant
            0 <= i <= lines@.len(),
            lines_fault(lines@, correcting) == lines_fault(lines@.skip(i as int), correcting),
        decreases lines@.len() - i,
    {
        let line = &lines[i];
        assert(lines@.skip(i as int)[0] == *line);
        assert(lines@.skip(i as int).skip(1) =~= lines@.skip(i + 1));
        if correcting {
            match line.usage_id {
                None => {
                    return Some(ValidationError::MissingUsage);
                },
                Some(id) => {
                    if id == 0 {
                        return Some(ValidationError::MissingUsage);
                    }
                },
            }
        }
        match line.ingredient_id {
            None => {
                return Some(ValidationError::MissingIngredient);
            },
            Some(id) => {
                if id == 0 {
                    return Some(ValidationError::MissingIngredient);
                }
            },
        }
        match line.quantity_used {
            None => {
                return Some(ValidationError::NonPositiveQuantity);
            },
            Some(quantity) => {
                if quantity <= 0 {
                    return Some(ValidationError::NonPositiveQuantity);
                }
            },
        }
        i += 1;
    }
    None
}

/// Looks up the active event `usage_id`.
pub fn get_ingredient_usage_by_id(usage_id: i32, events: &Vec<IngredientUsage>) -> (r: Option<
    &IngredientUsage,
>)
    ensures
        match r {
            Some(event) => usage_index(events@, usage_id, 0) is Some && *event == events@[usage_index(
                events@,
                usage_id,
                0,
            ).unwrap()],
            None => usage_index(events@, usage_id, 0) is None,
        },
{
    match find_usage(usage_id, events) {
        Some(i) => Some(&events[i]),
        None => None,
    }
}

fn find_usage(usage_id: i32, events: &Vec<IngredientUsage>) -> (r: Option<usize>)
    ensures
        match r {
            Some(i) => usage_index(events@, usage_id, 0) == Some(i as int) && i < events@.len(),
            None => usage_index(events@, usage_id, 0) is None,
        },
{
    let mut i: usize = 0;
    while i < events.len()
        invariant
            0 <= i <= events@.len(),
            usage_index(events@, usage_id, 0) == usage_index(events@, usage_id, i as int),
        decreases events@.len() - i,
    {
        if events[i].usage_id == usage_id && !events[i].deleted {
            return Some(i);
        }
        i += 1;
    }
    None
}

/// Records a batch of usage lines: every line's quantity is debited from its
/// ingredient and the events to store are returned, one per line. If the
/// batch is malformed or any debit is refused, nothing is changed and the
/// reason is returned.
pub fn add_ingredient_usages(data: &IngredientUsagesRequest, ledger: &mut StockLedger) -> (r: Result<
    Vec<NewIngredientUsage>,
    CoreError,
>)
    requires
        old(ledger).wf(),
    ensures
        final(ledger).wf(),
        final(ledger).kind() == old(ledger).kind(),
        final(ledger).opening() == old(ledger).opening(),
        match record_outcome(old(ledger).kind(), old(ledger)@, *data) {
            Ok(stock) => {
                &&& r is Ok
                &&& r.unwrap()@ == usage_events(data.ingredient_usages@, data.shop_id.unwrap())
                &&& final(ledger)@ == stock
                &&& final(ledger).applied() == old(ledger).applied() + usage_debits(
                    data.ingredient_usages@,
                )
            },
            Err(e) => r == Err::<Vec<NewIngredientUsage>, CoreError>(e) && *final(ledger) == *old(
                ledger,
            ),
        },
{
    let shop_id = match data.shop_id {
        None => {
            return Err(CoreError::Validation(ValidationError::MissingShop));
        },
        Some(shop_id) => shop_id,
    };
    match check_lines(&data.ingredient_usages, false) {
        Some(fault) => {
            return Err(CoreError::Validation(fault));
        },
        None => {},
    }
    let debits = debits_of(&data.ingredient_usages);
    match ledger.apply_all(&debits) {
        Err(e) => Err(e),
        Ok(()) => Ok(events_of(&data.ingredient_usages, shop_id)),
    }
}

fn events_of(lines: &Vec<IngredientUsageRequest>, shop_id: i32) -> (r: Vec<NewIngredientUsage>)
    requires
        lines_fault(lines@, false) is None,
    ensures
        r@ == usage_events(lines@, shop_id),
{
    let mut out: Vec<NewIngredientUsage> = Vec::new();
    let mut i: usize = 0;
    while i < lines.len()
        invariant
            0 <= i <= lines@.len(),
            lines_fault(lines@, false) is None,
            out@ == usage_events(lines@, shop_id).subrange(0, i as int),
        decreases lines@.len() - i,
    {
        proof {
            lemma_well_formed_line(lines@, false, i as int);
        }
        let line = &lines[i];
        out.push(
            NewIngredientUsage {
                ingredient_id: line.ingredient_id.unwrap(),
                quantity_used: line.quantity_used.unwrap(),
                usage_date: line.usage_date.clone(),
                associated_activity: line.associated_activity.clone(),
                notes: line.notes.clone(),
                shop_id,
            },
        );
        assert(out@ =~= usage_events(lines@, shop_id).subrange(0, i + 1));
        i += 1;
    }
    assert(usage_events(lines@, shop_id).subrange(0, i as int) =~= usage_events(lines@, shop_id));
    out
}

/// A well-formed line has an ingredient and a positive quantity.
proof fn lemma_well_formed_line(lines: Seq<IngredientUsageRequest>, correcting: bool, i: int)
    requires
        lines_fault(lines, correcting) is None,
        0 <= i < lines.len(),
    ensures
        lines[i].ingredient_id is Some,
        lines[i].quantity_used is Some,
        lines[i].quantity_used.unwrap() > 0,
        correcting ==> lines[i].usage_id is Some,
    decreases i,
{
    if i > 0 {
        lemma_well_formed_line(lines.skip(1), correcting, i - 1);
    }
}

fn debits_of(lines: &Vec<IngredientUsageRequest>) -> (r: Vec<Delta>)
    requires
        lines_fault(lines@, false) is None,
    ensures
        r@ == usage_debits(lines@),
{
    let mut out: Vec<Delta> = Vec::new();
    let mut i: usize = 0;
    while i < lines.len()
        invariant
            0 <= i <= lines@.len(),
            lines_fault(lines@, false) is None,
            out@ == usage_debits(lines@).subrange(0, i as int),
        decreases lines@.len() - i,
    {
        proof {
            lemma_well_formed_line(lines@, false, i as int);
        }
        let line = &lines[i];
        let id = line.ingredient_id.unwrap();
        let quantity = line.quantity_used.unwrap();
        out.push(Delta { id, amount: -quantity });
        assert(out@ =~= usage_debits(lines@).subrange(0, i + 1));
        i += 1;
    }
    assert(usage_debits(lines@).subrange(0, i as int) =~= usage_debits(lines@));
    out
}

/// Corrects recorded usage: for every line, in order, the stored event takes
/// the line's quantity, date, activity and notes, and the ledger takes the
/// old quantity less the new one. If the batch is malformed, an event is not
/// active, a line names another ingredient than its event, or the ledger
/// refuses a delta, nothing is changed and the reason is returned.
pub fn update_ingredient_usage(
    data: &IngredientUsagesRequest,
    ledger: &mut StockLedger,
    events: &mut Vec<IngredientUsage>,
) -> (r: Result<(), CoreError>)
    requires
        old(ledger).wf(),
    ensures
        final(ledger).wf(),
        final(ledger).kind() == old(ledger).kind(),
        final(ledger).opening() == old(ledger).opening(),
        match correction_outcome(old(ledger).kind(), old(ledger)@, old(events)@, *data) {
            Ok(after) => {
                &&& r is Ok
                &&& final(ledger)@ == after.0
                &&& final(events)@ == after.1
                &&& final(ledger).applied() == old(ledger).applied() + correction_deltas(
                    old(events)@,
                    data.ingredient_usages@,
                )
            },
            Err(e) => {
                &&& r == Err::<(), CoreError>(e)
                &&& *final(ledger) == *old(ledger)
                &&& *final(events) == *old(events)
            },
        },
{
    match check_lines(&data.ingredient_usages, true) {
        Some(fault) => {
            return Err(CoreError::Validation(fault));
        },
        None => {},
    }
    let lines = &data.ingredient_usages;
    let mut work = ledger.fork();
    let mut stored = copy_events(events);
    let mut i: usize = 0;
    assert(lines@.skip(0) =~= lines@);
    while i < lines.len()
        invariant
            0 <= i <= lines@.len(),
            lines@ == data.ingredient_usages@,
            lines_fault(lines@, true) is None,
            *ledger == *old(ledger),
            *events == *old(events),
            ledger.wf(),
            work.wf(),
            work.kind() == ledger.kind(),
            work.opening() == ledger.opening(),
            correct_lines(ledger.kind(), ledger@, events@, lines@) == correct_lines(
                ledger.kind(),
                work@,
                stored@,
                lines@.skip(i as int),
            ),
            ledger.applied() + correction_deltas(events@, lines@) == work.applied()
                + correction_deltas(stored@, lines@.skip(i as int)),
        decreases lines@.len() - i,
    {
        proof {
            lemma_well_formed_line(lines@, true, i as int);
        }
        let line = &lines[i];
        let ghost journal = work.applied();
        let ghost before = stored@;
        assert(lines@.skip(i as int)[0] == *line);
        assert(lines@.skip(i as int).skip(1) =~= lines@.skip(i + 1));
        let usage_id = line.usage_id.unwrap();
        let ingredient_id = line.ingredient_id.unwrap();
        let quantity = line.quantity_used.unwrap();
        let at = match find_usage(usage_id, &stored) {
            None => {
                return Err(CoreError::NotFound { entity: Entity::Usage, id: usage_id });
            },
            Some(at) => at,
        };
        if stored[at].quantity_used < 0 {
            return Err(CoreError::StoreFailure);
        }
        if stored[at].ingredient_id != ingredient_id {
            return Err(CoreError::Validation(ValidationError::IngredientChanged));
        }
        let delta = stored[at].quantity_used - quantity;
        match work.apply_delta(ingredient_id, delta) {
            Err(e) => {
                return Err(e);
            },
            Ok(()) => {},
        }
        let updated = IngredientUsage {
            usage_id: stored[at].usage_id,
            ingredient_id: stored[at].ingredient_id,
            quantity_used: quantity,
            unit: stored[at].unit.clone(),
            usage_date: line.usage_date.clone(),
            associated_activity: Some(line.associated_activity.clone()),
            notes: Some(line.notes.clone()),
            shop_id: stored[at].shop_id,
            created_at: stored[at].created_at.clone(),
            deleted: stored[at].deleted,
        };
        stored.set(at, updated);
        proof {
            let d = Delta { id: ingredient_id, amount: delta };
            assert(journal.push(d) + correction_deltas(stored@, lines@.skip(i + 1)) =~= journal + (
            seq![d] + correction_deltas(stored@, lines@.skip(i + 1))));
        }
        i += 1;
    }
    *ledger = work;
    *events = stored;
    Ok(())
}

/// Reverses the active event `usage_id`: the ledger is credited with the
/// event's quantity and the event is marked as reversed. If the event is not
/// active, or the ledger refuses the credit, nothing is changed and the
/// reason is returned.
pub fn delete_ingredient_usage(
    usage_id: i32,
    ledger: &mut StockLedger,
    events: &mut Vec<IngredientUsage>,
) -> (r: Result<(), CoreError>)
    requires
        old(ledger).wf(),
    ensures
        final(ledger).wf(),
        final(ledger).kind() == old(ledger).kind(),
        final(ledger).opening() == old(ledger).opening(),
        match reversal_outcome(old(ledger).kind(), old(ledger)@, old(events)@, usage_id) {
            Ok(after) => {
                &&& r is Ok
                &&& final(ledger)@ == after.0
                &&& final(events)@ == after.1
                &&& final(ledger).applied() == old(ledger).applied().push(
                    reversal_delta(old(events)@, usage_id),
                )
            },
            Err(e) => {
                &&& r == Err::<(), CoreError>(e)
                &&& *final(ledger) == *old(ledger)
                &&& *final(events) == *old(events)
            },
        },
{
    let at = match find_usage(usage_id, events) {
        None => {
            return Err(CoreError::NotFound { entity: Entity::Usage, id: usage_id });
        },
        Some(at) => at,
    };
    if events[at].quantity_used < 0 {
        return Err(CoreError::StoreFailure);
    }
    match ledger.apply_delta(events[at].ingredient_id, events[at].quantity_used) {
        Err(e) => {
            return Err(e);
        },
        Ok(()) => {},
    }
    let mut marked = copy_event(&events[at]);
    marked.deleted = true;
    events.set(at, marked);
    Ok(())
}

} // verus!
