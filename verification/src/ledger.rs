//! The stock ledger: the quantity on hand of every ingredient or menu item
//! that a unit of work has locked.
//!
//! A ledger is opened on the rows that the caller read under lock. Every
//! change goes through [`StockLedger::apply_delta`], which refuses a delta
//! that would leave a negative quantity and records each delta it applies in
//! a journal. Replaying the journal on the opening quantities gives the
//! current quantities, so a caller that writes the journal back to the store
//! writes exactly what the ledger holds.

use vstd::prelude::*;
use crate::error::{CoreError, Entity};

verus! {

/// One stored row: an identifier, the quantity on hand, and whether the row
/// has been soft-deleted.
#[derive(Clone, Copy, Debug, PartialEq, Eq)]
pub struct StockRow {
    pub id: i32,
    pub quantity: i64,
    pub deleted: bool,
}

/// One applied change: `amount` was added to row `id` (a credit when
/// positive, a debit when negative).
#[derive(Clone, Copy, Debug, PartialEq, Eq)]
pub struct Delta {
    pub id: i32,
    pub amount: i64,
}

/// Row `i` of `rows` is the live row of `id`.
pub open spec fn live_at(rows: Seq<StockRow>, id: int, i: int) -> bool {
    0 <= i < rows.len() && rows[i].id == id && !rows[i].deleted
}

/// The quantities that a sequence of rows holds: each live row's identifier
/// mapped to its quantity.
pub open spec fn stock_of(rows: Seq<StockRow>) -> Map<int, int> {
    Map::new(
        |id: int| exists|i: int| live_at(rows, id, i),
        |id: int| rows[choose|i: int| live_at(rows, id, i)].quantity as int,
    )
}

/// What is wrong with row `i` on its own or against the rows before it: a
/// negative quantity, or an identifier that an earlier row already has.
pub open spec fn row_fault(entity: Entity, rows: Seq<StockRow>, i: int) -> Option<CoreError> {
    if rows[i].quantity < 0 {
        Some(CoreError::StoreFailure)
    } else if exists|j: int| 0 <= j < i && rows[j].id == rows[i].id {
        Some(CoreError::Conflict { entity, id: rows[i].id })
    } else {
        None
    }
}

/// Every quantity lies between zero and the largest quantity a row can hold.
pub open spec fn within_bounds(stock: Map<int, int>) -> bool {
    forall|id: int| stock.dom().contains(id) ==> 0 <= #[trigger] stock[id] <= i64::MAX
}

/// What applying `delta` to row `id` of `stock` gives: the new quantities, or
/// the reason why nothing is changed.
pub open spec fn delta_outcome(entity: Entity, stock: Map<int, int>, id: i32, delta: i64) -> Result<
    Map<int, int>,
    CoreError,
> {
    if !stock.dom().contains(id as int) {
        Err(CoreError::NotFound { entity, id })
    } else if stock[id as int] + delta < 0 {
        Err(CoreError::InsufficientStock { id, delta, available: stock[id as int] as i64 })
    } else if stock[id as int] + delta > i64::MAX {
        Err(CoreError::StoreFailure)
    } else {
        Ok(stock.insert(id as int, stock[id as int] + delta))
    }
}

/// The quantities after every delta of `journal` has been added, in order, to
/// `opening`.
pub open spec fn replay(opening: Map<int, int>, journal: Seq<Delta>) -> Map<int, int>
    decreases journal.len(),
{
    if journal.len() == 0 {
        opening
    } else {
        let before = replay(opening, journal.drop_last());
        let d = journal.last();
        before.insert(d.id as int, before[d.id as int] + d.amount)
    }
}

/// The sum of the journal's deltas on row `id`.
pub open spec fn net_delta(journal: Seq<Delta>, id: int) -> int
    decreases journal.len(),
{
    if journal.len() == 0 {
        0
    } else if journal.last().id == id {
        net_delta(journal.drop_last(), id) + journal.last().amount
    } else {
        net_delta(journal.drop_last(), id)
    }
}

/// What applying every delta of `deltas`, in order, to `stock` gives: the new
/// quantities, or the reason why the first delta that cannot be applied is
/// refused.
pub open spec fn batch_outcome(entity: Entity, stock: Map<int, int>, deltas: Seq<Delta>) -> Result<
    Map<int, int>,
    CoreError,
>
    decreases deltas.len(),
{
    if deltas.len() == 0 {
        Ok(stock)
    } else {
        match delta_outcome(entity, stock, deltas[0].id, deltas[0].amount) {
            Err(e) => Err(e),
            Ok(next) => batch_outcome(entity, next, deltas.skip(1)),
        }
    }
}

/// The locked rows of one kind of stock, with the deltas applied to them
/// since the ledger was opened.
pub struct StockLedger {
    entity: Entity,
    rows: Vec<StockRow>,
    journal: Vec<Delta>,
    opening: Ghost<Map<int, int>>,
}

impl View for StockLedger {
    type V = Map<int, int>;

    /// The quantity on hand of each live row.
    closed spec fn view(&self) -> Map<int, int> {
        stock_of(self.rows@)
    }
}

impl StockLedger {
    /// The kind of stock that the rows hold.
    pub closed spec fn kind(&self) -> Entity {
        self.entity
    }

    /// The deltas applied since the ledger was opened, oldest first.
    pub closed spec fn applied(&self) -> Seq<Delta> {
        self.journal@
    }

    /// The quantities that the ledger was opened on.
    pub closed spec fn opening(&self) -> Map<int, int> {
        self.opening@
    }

    /// The ledger's invariant: identifiers are unique, no quantity is
    /// negative, and the current quantities are the opening quantities with
    /// the journal replayed on them.
    pub closed spec fn wf(&self) -> bool {
        &&& forall|i: int, j: int|
            0 <= i < j < self.rows@.len() ==> self.rows@[i].id != self.rows@[j].id
        &&& forall|i: int| 0 <= i < self.rows@.len() ==> (#[trigger] self.rows@[i]).quantity >= 0
        &&& self@ == replay(self.opening@, self.journal@)
        &&& self.opening@.dom() == self@.dom()
    }

    /// Opens a ledger on `rows`. The rows are refused as a whole if one of them
    /// holds a negative quantity (`StoreFailure`) or repeats an earlier row's
    /// identifier (`Conflict`); the error is that of the first such row.
    pub fn open(entity: Entity, rows: Vec<StockRow>) -> (r: Result<StockLedger, CoreError>)
        ensures
            match r {
                Ok(ledger) => {
                    &&& forall|i: int| 0 <= i < rows@.len() ==> row_fault(entity, rows@, i) is None
                    &&& ledger.wf()
                    &&& ledger.kind() == entity
                    &&& ledger@ == stock_of(rows@)
                    &&& ledger.opening() == ledger@
                    &&& ledger.applied() == Seq::<Delta>::empty()
                },
                Err(e) => exists|i: int|
                    {
                        &&& 0 <= i < rows@.len()
                        &&& row_fault(entity, rows@, i) == Some(e)
                        &&& forall|j: int| 0 <= j < i ==> row_fault(entity, rows@, j) is None
                    },
            },
    {
        let mut i: usize = 0;
        while i < rows.len()
            invariant
                0 <= i <= rows@.len(),
                forall|k: int| 0 <= k < i ==> row_fault(entity, rows@, k) is None,
            decreases rows@.len() - i,
        {
            if rows[i].quantity < 0 {
                assert(row_fault(entity, rows@, i as int) == Some(CoreError::StoreFailure));
                return Err(CoreError::StoreFailure);
            }
            let mut j: usize = 0;
            while j < i
                invariant
                    0 <= j <= i < rows@.len(),
                    rows@[i as int].quantity >= 0,
                    forall|k: int| 0 <= k < j ==> rows@[k].id != rows@[i as int].id,
                    forall|k: int| 0 <= k < i ==> row_fault(entity, rows@, k) is None,
                decreases i - j,
            {
                if rows[j].id == rows[i].id {
                    assert(0 <= j < i && rows@[j as int].id == rows@[i as int].id);
                    assert(row_fault(entity, rows@, i as int) == Some(
                        CoreError::Conflict { entity, id: rows@[i as int].id },
                    ));
                    return Err(CoreError::Conflict { entity, id: rows[i].id });
                }
                j += 1;
            }
            assert(row_fault(entity, rows@, i as int) is None);
            i += 1;
        }
        let ledger = StockLedger {
            entity,
            rows,
            journal: Vec::new(),
            opening: Ghost(stock_of(rows@)),
        };
        proof {
            assert forall|a: int, b: int| 0 <= a < b < rows@.len() implies rows@[a].id
                != rows@[b].id by {
                assert(row_fault(entity, rows@, b) is None);
            }
            assert forall|a: int| 0 <= a < rows@.len() implies (#[trigger] rows@[a]).quantity
                >= 0 by {
                assert(row_fault(entity, rows@, a) is None);
            }
        }
        Ok(ledger)
    }

    /// The index of the live row of `id`, if there is one.
    fn find(&self, id: i32) -> (r: Option<usize>)
        ensures
            match r {
                Some(i) => live_at(self.rows@, id as int, i as int),
                None => !self@.dom().contains(id as int),
            },
    {
        let mut i: usize = 0;
        while i < self.rows.len()
            invariant
                0 <= i <= self.rows@.len(),
                forall|k: int| 0 <= k < i ==> !live_at(self.rows@, id as int, k),
            decreases self.rows@.len() - i,
        {
            if self.rows[i].id == id && !self.rows[i].deleted {
                return Some(i);
            }
            i += 1;
        }
        None
    }

    /// Reads the quantity on hand of row `id`. An unknown or deleted row is
    /// `NotFound`.
    pub fn lock_and_read(&self, id: i32) -> (r: Result<i64, CoreError>)
        requires
            self.wf(),
        ensures
            match r {
                Ok(quantity) => self@.dom().contains(id as int) && quantity == self@[id as int],
                Err(e) => !self@.dom().contains(id as int) && e == (CoreError::NotFound {
                    entity: self.kind(),
                    id,
                }),
            },
    {
        match self.find(id) {
            Some(i) => {
                proof {
                    self.lemma_row_is_view(id as int, i as int);
                }
                Ok(self.rows[i].quantity)
            },
            None => Err(CoreError::NotFound { entity: self.entity, id }),
        }
    }

    /// In a well-formed ledger the live row of `id` holds the quantity that
    /// the view gives for `id`.
    proof fn lemma_row_is_view(&self, id: int, i: int)
        requires
            self.wf(),
            live_at(self.rows@, id, i),
        ensures
            self@.dom().contains(id),
            self@[id] == self.rows@[i].quantity,
    {
        let k = choose|k: int| live_at(self.rows@, id, k);
        assert(k == i);
    }

    /// Adds `delta` to row `id` and journals it. Nothing is changed, and the
    /// reason is returned, if the row is unknown or deleted (`NotFound`), if
    /// the result would be negative (`InsufficientStock`), or if it would
    /// exceed what a row can hold (`StoreFailure`).
    pub fn apply_delta(&mut self, id: i32, delta: i64) -> (r: Result<(), CoreError>)
        requires
            old(self).wf(),
        ensures
            final(self).wf(),
            final(self).kind() == old(self).kind(),
            final(self).opening() == old(self).opening(),
            match delta_outcome(old(self).kind(), old(self)@, id, delta) {
                Ok(stock) => {
                    &&& r is Ok
                    &&& final(self)@ == stock
                    &&& final(self).applied() == old(self).applied().push(
                        Delta { id, amount: delta },
                    )
                },
                Err(e) => r == Err::<(), CoreError>(e) && *final(self) == *old(self),
            },
    {
        let found = self.find(id);
        match found {
            None => Err(CoreError::NotFound { entity: self.entity, id }),
            Some(i) => {
                proof {
                    self.lemma_row_is_view(id as int, i as int);
                }
                let available = self.rows[i].quantity;
                let sum: i128 = available as i128 + delta as i128;
                if sum < 0 {
                    return Err(CoreError::InsufficientStock { id, delta, available });
                }
                if sum > i64::MAX as i128 {
                    return Err(CoreError::StoreFailure);
                }
                let ghost before = self.rows@;
                let ghost before_view = self@;
                let ghost before_journal = self.journal@;
                let updated = StockRow { id, quantity: available + delta, deleted: false };
                self.rows.set(i, updated);
                self.journal.push(Delta { id, amount: delta });
                proof {
                    let after = self.rows@;
                    assert forall|k: int, j: int| live_at(after, k, j) <==> live_at(
                        before,
                        k,
                        j,
                    ) by {}
                    assert forall|k: int| #[trigger]
                        stock_of(after).dom().contains(k) && k != id implies stock_of(after)[k]
                        == before_view[k] by {
                        let a = choose|j: int| live_at(after, k, j);
                        let b = choose|j: int| live_at(before, k, j);
                        assert(live_at(before, k, a));
                        assert(a == b);
                    }
                    assert(stock_of(after).dom().contains(id as int)) by {
                        assert(live_at(after, id as int, i as int));
                    }
                    assert(stock_of(after)[id as int] == available + delta) by {
                        let a = choose|j: int| live_at(after, id as int, j);
                        assert(live_at(after, id as int, i as int));
                        assert(live_at(before, id as int, a));
                        assert(a == i);
                    }
                    assert(stock_of(after) =~= before_view.insert(
                        id as int,
                        before_view[id as int] + delta,
                    ));
                    assert(self.journal@.drop_last() =~= before_journal);
                    assert(stock_of(after).dom() =~= before_view.dom());
                    assert forall|a: int, b: int| 0 <= a < b < after.len() implies after[a].id
                        != after[b].id by {
                        assert(before[a].id != before[b].id);
                    }
                    assert forall|a: int| 0 <= a < after.len() implies (#[trigger] after[a]).quantity
                        >= 0 by {
                        if a != i {
                            assert(before[a].quantity >= 0);
                        }
                    }
                }
                Ok(())
            },
        }
    }

    /// Applies every delta of `deltas`, in order, or none of them: if one
    /// cannot be applied the ledger is left exactly as it was and the reason
    /// for that delta is returned.
    pub fn apply_all(&mut self, deltas: &Vec<Delta>) -> (r: Result<(), CoreError>)
        requires
            old(self).wf(),
        ensures
            final(self).wf(),
            final(self).kind() == old(self).kind(),
            final(self).opening() == old(self).opening(),
            match batch_outcome(old(self).kind(), old(self)@, deltas@) {
                Ok(stock) => {
                    &&& r is Ok
                    &&& final(self)@ == stock
                    &&& final(self).applied() == old(self).applied() + deltas@
                },
                Err(e) => r == Err::<(), CoreError>(e) && *final(self) == *old(self),
            },
    {
        let mut work = self.fork();
        let mut i: usize = 0;
        assert(deltas@.skip(0) =~= deltas@);
        assert(self.applied() + deltas@.subrange(0, 0) =~= self.applied());
        while i < deltas.len()
            invariant
                0 <= i <= deltas@.len(),
                self.wf(),
                work.wf(),
                work.kind() == self.kind(),
                work.opening() == self.opening(),
                work.applied() == self.applied() + deltas@.subrange(0, i as int),
                batch_outcome(self.kind(), self@, deltas@) == batch_outcome(
                    self.kind(),
                    work@,
                    deltas@.skip(i as int),
                ),
            decreases deltas@.len() - i,
        {
            let d = deltas[i];
            assert(deltas@.skip(i as int)[0] == d);
            assert(deltas@.skip(i as int).skip(1) =~= deltas@.skip(i + 1));
            assert(d == Delta { id: d.id, amount: d.amount });
            match work.apply_delta(d.id, d.amount) {
                Err(e) => {
                    return Err(e);
                },
                Ok(()) => {},
            }
            assert(self.applied() + deltas@.subrange(0, i + 1) =~= (self.applied()
                + deltas@.subrange(0, i as int)).push(d));
            i += 1;
        }
        assert(deltas@.subrange(0, i as int) =~= deltas@);
        *self = work;
        Ok(())
    }

    /// A second ledger with the same rows and journal, to work on while the
    /// first stays as it is.
    pub fn fork(&self) -> (r: StockLedger)
        requires
            self.wf(),
        ensures
            r.wf(),
            r@ == self@,
            r.kind() == self.kind(),
            r.opening() == self.opening(),
            r.applied() == self.applied(),
    {
        let mut rows: Vec<StockRow> = Vec::new();
        let mut i: usize = 0;
        while i < self.rows.len()
            invariant
                0 <= i <= self.rows@.len(),
                rows@ == self.rows@.subrange(0, i as int),
            decreases self.rows@.len() - i,
        {
            rows.push(self.rows[i]);
            assert(rows@ =~= self.rows@.subrange(0, i + 1));
            i += 1;
        }
        let mut journal: Vec<Delta> = Vec::new();
        let mut k: usize = 0;
        while k < self.journal.len()
            invariant
                0 <= k <= self.journal@.len(),
                journal@ == self.journal@.subrange(0, k as int),
            decreases self.journal@.len() - k,
        {
            journal.push(self.journal[k]);
            assert(journal@ =~= self.journal@.subrange(0, k + 1));
            k += 1;
        }
        assert(rows@ =~= self.rows@);
        assert(journal@ =~= self.journal@);
        StockLedger { entity: self.entity, rows, journal, opening: Ghost(self.opening@) }
    }

    /// The number of deltas applied since the ledger was opened.
    pub fn applied_len(&self) -> (n: usize)
        ensures
            n == self.applied().len(),
    {
        self.journal.len()
    }

    /// The `i`-th delta applied since the ledger was opened.
    pub fn applied_at(&self, i: usize) -> (d: Delta)
        requires
            i < self.applied().len(),
        ensures
            d == self.applied()[i as int],
    {
        self.journal[i]
    }

    /// No quantity of a well-formed ledger is negative, and each fits a row.
    pub proof fn lemma_never_negative(&self)
        requires
            self.wf(),
        ensures
            within_bounds(self@),
    {
        assert forall|id: int| self@.dom().contains(id) implies 0 <= #[trigger] self@[id]
            <= i64::MAX by {
            let i = choose|i: int| live_at(self.rows@, id, i);
            self.lemma_row_is_view(id, i);
        }
    }

    /// The quantity on hand of a row is its opening quantity plus the sum of
    /// the deltas applied to it.
    pub proof fn lemma_conservation(&self, id: int)
        requires
            self.wf(),
            self@.dom().contains(id),
        ensures
            self@[id] == self.opening()[id] + net_delta(self.applied(), id),
    {
        lemma_replay_adds_net_delta(self.opening@, self.journal@, id);
    }
}

/// Each identifier is smaller than the next.
pub open spec fn ascending(ids: Seq<i32>) -> bool {
    forall|i: int, j: int| 0 <= i < j < ids.len() ==> ids[i] < ids[j]
}

/// Puts `id` in its place in an ascending sequence, unless it is there.
fn place(sorted: &mut Vec<i32>, id: i32)
    requires
        ascending(old(sorted)@),
    ensures
        ascending(final(sorted)@),
        forall|x: i32| final(sorted)@.contains(x) <==> old(sorted)@.contains(x) || x == id,
{
    let mut at: usize = 0;
    while at < sorted.len() && sorted[at] < id
        invariant
            0 <= at <= sorted@.len(),
            sorted@ == old(sorted)@,
            ascending(sorted@),
            forall|k: int| 0 <= k < at ==> sorted@[k] < id,
        decreases sorted@.len() - at,
    {
        at += 1;
    }
    let ghost before = sorted@;
    if at < sorted.len() && sorted[at] == id {
        assert(before.contains(id));
    } else {
        sorted.insert(at, id);
        let ghost after = sorted@;
        assert(after[at as int] == id);
        assert forall|x: i32| after.contains(x) <==> before.contains(x) || x == id by {
            if before.contains(x) {
                let k = choose|k: int| 0 <= k < before.len() && before[k] == x;
                if k < at {
                    assert(after[k] == x);
                } else {
                    assert(after[k + 1] == x);
                }
            }
            if after.contains(x) {
                let k = choose|k: int| 0 <= k < after.len() && after[k] == x;
                if k < at {
                    assert(before[k] == x);
                } else if k > at {
                    assert(before[k - 1] == x);
                }
            }
        }
        assert forall|i: int, j: int| 0 <= i < j < after.len() implies after[i] < after[j] by {
            if j < at {
                assert(after[i] == before[i] && after[j] == before[j]);
            } else if j == at {
                assert(after[i] == before[i]);
            } else if i < at {
                assert(after[i] == before[i] && after[j] == before[j - 1]);
                assert(before[at as int] >= id);
                if j - 1 > at {
                    assert(before[at as int] < before[j - 1]);
                }
            } else if i == at {
                assert(after[j] == before[j - 1]);
                assert(before[at as int] > id);
                if j - 1 > at {
                    assert(before[at as int] < before[j - 1]);
                }
            } else {
                assert(after[i] == before[i - 1] && after[j] == before[j - 1]);
            }
        }
    }
}

/// The order in which the rows that a request names are to be locked: every
/// identifier once, in ascending order. Units of work that lock their rows
/// in this order cannot wait for each other in a circle.
pub fn lock_order(ids: &Vec<i32>) -> (r: Vec<i32>)
    ensures
        ascending(r@),
        forall|x: i32| r@.contains(x) <==> ids@.contains(x),
{
    let mut sorted: Vec<i32> = Vec::new();
    let mut i: usize = 0;
    while i < ids.len()
        invariant
            0 <= i <= ids@.len(),
            ascending(sorted@),
            forall|x: i32| sorted@.contains(x) <==> ids@.subrange(0, i as int).contains(x),
        decreases ids@.len() - i,
    {
        let ghost seen = ids@.subrange(0, i as int);
        let ghost next = ids@.subrange(0, i + 1);
        place(&mut sorted, ids[i]);
        assert forall|x: i32| sorted@.contains(x) <==> next.contains(x) by {
            assert(next.drop_last() =~= seen);
            assert(next.last() == ids@[i as int]);
            if next.contains(x) {
                let k = choose|k: int| 0 <= k < next.len() && next[k] == x;
                if k < i {
                    assert(seen[k] == x);
                }
            }
            if seen.contains(x) {
                let k = choose|k: int| 0 <= k < seen.len() && seen[k] == x;
                assert(next[k] == x);
            }
        }
        i += 1;
    }
    assert(ids@.subrange(0, i as int) =~= ids@);
    sorted
}

/// In rows without a fault, a live row's quantity is the quantity that
/// [`stock_of`] gives for its identifier.
pub proof fn lemma_stock_of_row(entity: Entity, rows: Seq<StockRow>, i: int)
    requires
        forall|k: int| 0 <= k < rows.len() ==> row_fault(entity, rows, k) is None,
        0 <= i < rows.len(),
        !rows[i].deleted,
    ensures
        stock_of(rows).dom().contains(rows[i].id as int),
        stock_of(rows)[rows[i].id as int] == rows[i].quantity,
{
    let id = rows[i].id as int;
    assert(live_at(rows, id, i));
    let k = choose|k: int| live_at(rows, id, k);
    if k < i {
        assert(row_fault(entity, rows, i) is None);
    } else if i < k {
        assert(row_fault(entity, rows, k) is None);
    }
}

/// A delta that is applied keeps the rows that there are, adds itself to its
/// own row and leaves the others alone, and a stock within bounds stays
/// within bounds.
pub proof fn lemma_delta_applied(entity: Entity, stock: Map<int, int>, id: i32, delta: i64)
    requires
        delta_outcome(entity, stock, id, delta) is Ok,
    ensures
        ({
            let after = delta_outcome(entity, stock, id, delta).unwrap();
            &&& after.dom() == stock.dom()
            &&& after[id as int] == stock[id as int] + delta
            &&& forall|other: int| other != id ==> after[other] == stock[other]
            &&& within_bounds(stock) ==> within_bounds(after)
        }),
{
    let after = delta_outcome(entity, stock, id, delta).unwrap();
    assert(after.dom() =~= stock.dom());
}

/// The sum of a journal's deltas on a row is the first delta's share plus the
/// sum of the rest.
pub proof fn lemma_net_delta_front(journal: Seq<Delta>, id: int)
    requires
        journal.len() > 0,
    ensures
        net_delta(journal, id) == (if journal[0].id == id {
            journal[0].amount as int
        } else {
            0
        }) + net_delta(journal.skip(1), id),
    decreases journal.len(),
{
    if journal.len() == 1 {
        assert(journal.skip(1) =~= journal.drop_last());
    } else {
        lemma_net_delta_front(journal.drop_last(), id);
        assert(journal.drop_last().skip(1) =~= journal.skip(1).drop_last());
    }
}

/// A batch that is applied keeps the rows that there are and adds to each
/// row exactly the sum of the batch's deltas on it; a stock within bounds
/// stays within bounds.
pub proof fn lemma_batch_applied(entity: Entity, stock: Map<int, int>, deltas: Seq<Delta>)
    requires
        batch_outcome(entity, stock, deltas) is Ok,
    ensures
        ({
            let after = batch_outcome(entity, stock, deltas).unwrap();
            &&& after.dom() == stock.dom()
            &&& forall|id: int|
                stock.dom().contains(id) ==> #[trigger] after[id] == stock[id] + net_delta(
                    deltas,
                    id,
                )
            &&& within_bounds(stock) ==> within_bounds(after)
        }),
    decreases deltas.len(),
{
    if deltas.len() > 0 {
        let d = deltas[0];
        lemma_delta_applied(entity, stock, d.id, d.amount);
        let next = delta_outcome(entity, stock, d.id, d.amount).unwrap();
        lemma_batch_applied(entity, next, deltas.skip(1));
        let after = batch_outcome(entity, stock, deltas).unwrap();
        assert forall|id: int| stock.dom().contains(id) implies #[trigger] after[id] == stock[id]
            + net_delta(deltas, id) by {
            lemma_net_delta_front(deltas, id);
        }
    }
}

/// Replaying a journal on opening quantities adds to each row the sum of the
/// journal's deltas on it.
pub proof fn lemma_replay_adds_net_delta(opening: Map<int, int>, journal: Seq<Delta>, id: int)
    requires
        opening.dom().contains(id),
    ensures
        replay(opening, journal).dom().contains(id),
        replay(opening, journal)[id] == opening[id] + net_delta(journal, id),
    decreases journal.len(),
{
    if journal.len() > 0 {
        lemma_replay_adds_net_delta(opening, journal.drop_last(), id);
    }
}

} // verus!
