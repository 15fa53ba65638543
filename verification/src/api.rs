//! What a request handler decides before and after it goes to the store:
//! who is asking, whether they may, whether the request is well formed, and
//! what is answered when it is not.

pub mod access;
pub mod auth;
pub mod discount_type;
pub mod ingredient;
pub mod ingredient_usage;
pub mod item;
pub mod order;
pub mod purchase;
pub mod shop;
pub mod table;
pub mod user;
