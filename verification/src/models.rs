//! The records of the store and the units of work on them.

pub mod ingredient_usage;
pub mod order;
pub mod purchase;
pub mod category;
pub mod discount_type;
pub mod ingredient;
pub mod item;
pub mod paging;
pub mod role;
pub mod shop;
pub mod table;
pub mod user;
pub mod report;
