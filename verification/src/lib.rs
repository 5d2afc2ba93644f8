//! Scheduling rules of a healthcare booking gateway.
//!
//! The crate decides whether a provider can take an appointment at a given
//! time, detects conflicts with bookings that already exist, drives the
//! life cycle of a booked fulfillment and keeps the state of an order in step
//! with the fulfillment behind it. Every function carries a contract that
//! Verus proves; the few calls into other crates are isolated in small
//! functions whose contracts are taken on trust and documented as such.

pub mod models;
pub mod config;
pub mod errors;
pub mod handlers;
pub mod logging;
pub mod numeral;
pub mod signing;
pub mod storage;
pub mod table;
pub mod tags;
pub mod text;
pub mod time;
pub mod web;
pub mod services;
