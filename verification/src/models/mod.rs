//! The records that the services work on.

pub mod billing;
pub mod catalog;
pub mod context;
pub mod fulfillment;
pub mod network_registry;
pub mod order;
pub mod payment;
pub mod provider;
