//! The sale price of a menu item.
//!
//! Amounts are whole numbers of the smallest currency unit. A percentage is
//! given in basis points, hundredths of a percent, so that 1250 stands for
//! 12.5 %. Times are seconds on the clock that the caller reads once per unit
//! of work.

use vstd::prelude::*;

verus! {

/// How an item's price is reduced.
#[derive(Clone, Copy, Debug, PartialEq, Eq)]
pub enum Discount {
    /// The full price applies.
    NoDiscount,
    /// The item sells at this price instead.
    FixedPrice { discounted_price: i64 },
    /// The price is reduced by this share until `expires_at`; with no
    /// expiration the reduction stays.
    Percent { basis_points: i64, expires_at: Option<i64> },
}

/// The price and discount of one menu item.
#[derive(Clone, Copy, Debug, PartialEq, Eq)]
pub struct ItemPrice {
    pub item_id: i32,
    pub price: i64,
    pub discount: Discount,
}

/// The two prices that an order line keeps of its item.
#[derive(Clone, Copy, Debug, PartialEq, Eq)]
pub struct ItemData {
    pub price: i64,
    pub original_price: i64,
}

/// The number of basis points in the whole.
pub const FULL_SHARE: i64 = 10000;

/// `price` reduced by `basis_points`, the part taken off rounded down. A
/// reduction never raises a price and never takes it below zero: nothing is
/// taken off a price that is not positive or by a share that is not
/// positive, and a share of the whole or more leaves zero.
pub open spec fn percent_off(price: int, basis_points: int) -> int {
    if price <= 0 || basis_points <= 0 {
        price
    } else if basis_points >= FULL_SHARE {
        0
    } else {
        price - (price * basis_points) / (FULL_SHARE as int)
    }
}

/// The price at which an item sells at time `now`.
pub open spec fn effective_price(price: int, discount: Discount, now: int) -> int {
    match discount {
        Discount::NoDiscount => price,
        Discount::FixedPrice { discounted_price } => discounted_price as int,
        Discount::Percent { basis_points, expires_at } => {
            if expires_at is Some && now >= expires_at.unwrap() {
                price
            } else {
                percent_off(price, basis_points as int)
            }
        },
    }
}

/// The entry of item `item_id` in a price list: the first one that names it.
pub open spec fn price_entry(catalog: Seq<ItemPrice>, item_id: i32) -> Option<ItemPrice>
    decreases catalog.len(),
{
    if catalog.len() == 0 {
        None
    } else if catalog[0].item_id == item_id {
        Some(catalog[0])
    } else {
        price_entry(catalog.skip(1), item_id)
    }
}

/// The prices that an order line placed at `now` keeps of `entry`.
pub open spec fn price_snapshot(entry: ItemPrice, now: i64) -> ItemData {
    ItemData {
        price: effective_price(entry.price as int, entry.discount, now as int) as i64,
        original_price: entry.price,
    }
}

/// A reduced price lies between zero and the full price.
pub proof fn lemma_percent_off_bounds(price: int, basis_points: int)
    requires
        0 <= price,
    ensures
        0 <= percent_off(price, basis_points) <= price,
{
    if price > 0 && 0 < basis_points < FULL_SHARE {
        assert(0 <= (price * basis_points) / (FULL_SHARE as int) <= price) by (nonlinear_arith)
            requires
                0 < price,
                0 < basis_points < 10000,
                FULL_SHARE == 10000,
        ;
    }
}

/// Reduces `price` by `basis_points`.
pub fn reduce(price: i64, basis_points: i64) -> (r: i64)
    ensures
        r == percent_off(price as int, basis_points as int),
{
    if price <= 0 || basis_points <= 0 {
        price
    } else if basis_points >= FULL_SHARE {
        0
    } else {
        assert(0 <= (price * basis_points) / 10000 <= price) by (nonlinear_arith)
            requires
                0 < price,
                0 < basis_points < 10000,
        ;
        assert(0 < price * basis_points <= 0x7fff_ffff_ffff_ffff * 10000) by (nonlinear_arith)
            requires
                0 < price <= 0x7fff_ffff_ffff_ffff,
                0 < basis_points < 10000,
        ;
        let product: i128 = price as i128 * basis_points as i128;
        let off: i128 = product / 10000;
        (price as i128 - off) as i64
    }
}

/// The price at which `entry` sells at time `now`.
pub fn sale_price(entry: &ItemPrice, now: i64) -> (r: i64)
    ensures
        r == effective_price(entry.price as int, entry.discount, now as int),
{
    match entry.discount {
        Discount::NoDiscount => entry.price,
        Discount::FixedPrice { discounted_price } => discounted_price,
        Discount::Percent { basis_points, expires_at } => {
            let expired = match expires_at {
                Some(t) => now >= t,
                None => false,
            };
            if expired {
                entry.price
            } else {
                reduce(entry.price, basis_points)
            }
        },
    }
}

/// The position in `catalog` of the first entry of item `item_id`.
pub fn find_price(catalog: &Vec<ItemPrice>, item_id: i32) -> (r: Option<usize>)
    ensures
        match r {
            Some(i) => i < catalog@.len() && price_entry(catalog@, item_id) == Some(catalog@[i as int]),
            None => price_entry(catalog@, item_id) is None,
        },
{
    let mut i: usize = 0;
    assert(catalog@.skip(0) =~= catalog@);
    while i < catalog.len()
        invariant
            0 <= i <= catalog@.len(),
            price_entry(catalog@, item_id) == price_entry(catalog@.skip(i as int), item_id),
        decreases catalog@.len() - i,
    {
        assert(catalog@.skip(i as int)[0] == catalog@[i as int]);
        assert(catalog@.skip(i as int).skip(1) =~= catalog@.skip(i + 1));
        if catalog[i].item_id == item_id {
            return Some(i);
        }
        i += 1;
    }
    None
}

/// The sale price and the full price of item `item_id` at time `now`, if the
/// price list has the item.
pub fn get_item_data(catalog: &Vec<ItemPrice>, item_id: i32, now: i64) -> (r: Option<ItemData>)
    ensures
        match price_entry(catalog@, item_id) {
            Some(entry) => r == Some(price_snapshot(entry, now)),
            None => r is None,
        },
{
    match find_price(catalog, item_id) {
        None => None,
        Some(i) => {
            let entry = &catalog[i];
            proof {
                lemma_effective_price_fits(*entry, now);
            }
            Some(ItemData { price: sale_price(entry, now), original_price: entry.price })
        },
    }
}

/// The sale price of an entry is a price that an order line can hold.
pub proof fn lemma_effective_price_fits(entry: ItemPrice, now: i64)
    ensures
        i64::MIN <= effective_price(entry.price as int, entry.discount, now as int) <= i64::MAX,
{
    match entry.discount {
        Discount::Percent { basis_points, expires_at } => {
            if entry.price >= 0 {
                lemma_percent_off_bounds(entry.price as int, basis_points as int);
            }
        },
        _ => {},
    }
}

} // verus!
