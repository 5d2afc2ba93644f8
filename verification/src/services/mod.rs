//! Business rules, grouped by the service that owns them.

pub mod catalog;
pub mod error;
pub mod fulfillment;
pub mod network_registry;
pub mod order;
pub mod provider;
pub mod search;

pub use error::ServiceError;
