//! The results that the core hands to its callers.

use vstd::prelude::*;

verus! {

/// The kind of record that an identifier names.
#[derive(Clone, Copy, Debug, PartialEq, Eq)]
pub enum Entity {
    Ingredient,
    Item,
    Usage,
    Purchase,
    PurchaseLine,
    Order,
    Table,
}

/// Why a request was refused before any ledger row was touched.
#[derive(Clone, Copy, Debug, PartialEq, Eq)]
pub enum ValidationError {
    /// A usage batch names no shop.
    MissingShop,
    /// A line names no ingredient, or ingredient 0.
    MissingIngredient,
    /// A line names no usage event, or usage event 0.
    MissingUsage,
    /// A quantity is absent, zero or negative.
    NonPositiveQuantity,
    /// A correction names another ingredient than the stored event.
    IngredientChanged,
    /// A purchase has no total cost.
    MissingTotalCost,
    /// An order may not move from its current status to the requested one.
    InvalidTransition,
}

/// Why a unit of work was abandoned. Whenever one of these is returned the
/// ledger and every record are exactly as they were before the call.
#[derive(Clone, Copy, Debug, PartialEq, Eq)]
pub enum CoreError {
    /// The request is malformed.
    Validation(ValidationError),
    /// Applying `delta` to row `id`, which holds `available`, would leave a
    /// negative quantity.
    InsufficientStock { id: i32, delta: i64, available: i64 },
    /// No live record of this kind has this identifier.
    NotFound { entity: Entity, id: i32 },
    /// The request collides with a record that already exists.
    Conflict { entity: Entity, id: i32 },
    /// The store cannot hold the result.
    StoreFailure,
}

} // verus!
