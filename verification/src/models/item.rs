//! Menu items, their price and their discount.

use vstd::prelude::*;
use crate::text::same_text;
use crate::ledger::StockRow;
use crate::pricing::{Discount, ItemPrice};

verus! {

/// A category that an item belongs to.
#[derive(Clone, Debug, PartialEq, Eq)]
pub struct ItemCategory {
    pub id: i32,
    pub name: String,
}

/// A stored menu item. Amounts are whole numbers of the smallest currency
/// unit, `discount_percent` is in basis points, and `discount_expiration` is
/// a time in seconds.
#[derive(Clone, Debug, PartialEq, Eq)]
pub struct Item {
    pub id: i32,
    pub name: String,
    pub description: String,
    pub price: i64,
    pub image_url: String,
    pub shop_id: i32,
    pub discount_percent: i64,
    pub discount_expiration: Option<i64>,
    pub discount_reason: String,
    pub discounted_price: i64,
    pub discount_type: String,
    pub stock_quantity: i64,
    pub shop_name: String,
    pub created_at: String,
    pub categories: Vec<ItemCategory>,
}

/// The content of an item that is added or updated.
#[derive(Clone, Debug, PartialEq, Eq)]
pub struct ItemRequest {
    pub name: String,
    pub description: String,
    pub price: i64,
    pub categories: Vec<i32>,
    pub image_url: String,
    pub shop_id: i32,
    pub discount_percent: i64,
    pub discount_expiration: Option<i64>,
    pub discount_reason: String,
    pub discounted_price: i64,
    pub discount_type: String,
}

/// The discount that the stored fields of an item describe: none for the
/// type `No Discount`, a fixed price for `Discount by Specific Amount`, and a
/// percentage for every other type.
pub open spec fn discount_from(
    discount_type: Seq<char>,
    discount_percent: i64,
    discounted_price: i64,
    discount_expiration: Option<i64>,
) -> Discount {
    if discount_type == "No Discount"@ {
        Discount::NoDiscount
    } else if discount_type == "Discount by Specific Amount"@ {
        Discount::FixedPrice { discounted_price }
    } else {
        Discount::Percent { basis_points: discount_percent, expires_at: discount_expiration }
    }
}

impl Item {
    /// The discount of this item.
    pub fn discount(&self) -> (r: Discount)
        ensures
            r == discount_from(
                self.discount_type@,
                self.discount_percent,
                self.discounted_price,
                self.discount_expiration,
            ),
    {
        if same_text(self.discount_type.as_str(), "No Discount") {
            Discount::NoDiscount
        } else if same_text(self.discount_type.as_str(), "Discount by Specific Amount") {
            Discount::FixedPrice { discounted_price: self.discounted_price }
        } else {
            Discount::Percent {
                basis_points: self.discount_percent,
                expires_at: self.discount_expiration,
            }
        }
    }

    /// The entry of this item in a price list.
    pub fn pricing(&self) -> (r: ItemPrice)
        ensures
            r == (ItemPrice {
                item_id: self.id,
                price: self.price,
                discount: discount_from(
                    self.discount_type@,
                    self.discount_percent,
                    self.discounted_price,
                    self.discount_expiration,
                ),
            }),
    {
        ItemPrice { item_id: self.id, price: self.price, discount: self.discount() }
    }

    /// The ledger row of this item.
    pub fn stock_row(&self) -> (r: StockRow)
        ensures
            r == (StockRow { id: self.id, quantity: self.stock_quantity, deleted: false }),
    {
        StockRow { id: self.id, quantity: self.stock_quantity, deleted: false }
    }
}

/// Whether any item is counted: a category or a shop that still has items is
/// not deleted.
pub fn is_items_exist(total: i64) -> (r: bool)
    ensures
        r == (total > 0),
{
    total > 0
}

} // verus!
