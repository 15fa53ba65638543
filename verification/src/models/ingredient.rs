//! Ingredients and their place in the stock ledger.

use vstd::prelude::*;
use crate::ledger::StockRow;

verus! {

/// A stored ingredient. Quantities are counted in the smallest unit the
/// store keeps for the ingredient; `expiry_date` is a day number.
#[derive(Clone, Debug, PartialEq, Eq)]
pub struct Ingredient {
    pub ingredient_id: i32,
    pub name: String,
    pub stock_quantity: i64,
    pub unit: String,
    pub reorder_level: i64,
    pub expiry_date: i32,
    pub created_at: String,
}

/// The content of an ingredient that is added or updated.
#[derive(Clone, Debug, PartialEq, Eq)]
pub struct IngredientRequest {
    pub name: String,
    pub stock_quantity: i64,
    pub unit: String,
    pub reorder_level: i64,
    pub expiry_date: i32,
}

impl Ingredient {
    /// The ledger row of this ingredient.
    pub fn stock_row(&self) -> (r: StockRow)
        ensures
            r == (StockRow { id: self.ingredient_id, quantity: self.stock_quantity, deleted: false }),
    {
        StockRow { id: self.ingredient_id, quantity: self.stock_quantity, deleted: false }
    }

    /// Whether the stock has fallen to the reorder level or below.
    pub fn needs_reorder(&self) -> (r: bool)
        ensures
            r == (self.stock_quantity <= self.reorder_level),
    {
        self.stock_quantity <= self.reorder_level
    }
}

} // verus!
