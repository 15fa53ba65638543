//! A verified inventory core for a restaurant point of sale.
//!
//! Stock levels of ingredients and menu items are shared state that order
//! placement, usage recording, usage correction and purchase receiving all
//! read and change. Every operation here is a single unit of work on a
//! [`ledger::StockLedger`]: it either applies all of its effects or none, and
//! it never lets a quantity fall below zero.
//!
//! - [`ledger`] holds the stock rows that a unit of work has locked, and the
//!   journal of the deltas applied to them.
//! - [`models`] holds the records and the units of work: usage, orders,
//!   purchases, and the reports and listings around them.
//! - [`pricing`] derives the price an item sells at.
//! - [`api`] decides who may ask for what, and what a refusal says.
//! - [`retry`] says when a unit of work that the store gave up on is run
//!   again.
//! - [`text`] reads and writes the words and numbers of headers and tokens.
//! - [`laws`] states what holds of every unit of work and every sequence of
//!   them.
//!
//! Quantities, amounts of money and times are whole numbers throughout: the
//! caller chooses the smallest unit and converts at its edge.

pub mod api;
pub mod error;
pub mod ledger;
pub mod laws;
pub mod models;
pub mod pricing;
pub mod retry;
pub mod text;
