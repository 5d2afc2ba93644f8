//! Orders: bookings of healthcare services.

use crate::models::billing::Billing;
use crate::models::catalog::{Item, Quotation};
use crate::models::fulfillment::Fulfillment;
use crate::models::payment::Payment;
use crate::time::Timestamp;
use vstd::prelude::*;

verus! {

/// The provider of an order in brief.
#[derive(Debug, Clone)]
pub struct ProviderSummary {
    /// Identifier of the provider.
    pub id: String,
    /// Name of the provider.
    pub descriptor: String,
    /// The categories of the provider.
    pub categories: Vec<String>,
}

/// An item of an order and how many of it are ordered.
#[derive(Debug, Clone)]
pub struct OrderItem {
    /// Identifier of the item.
    pub id: String,
    /// How many are ordered.
    pub quantity: i32,
    /// The item of the catalog.
    pub item: Item,
}

/// The state of an order and when it was entered.
#[derive(Debug, Clone)]
pub struct OrderStatus {
    /// Name of the state.
    pub state: String,
    /// When the state was entered.
    pub updated_at: Timestamp,
}

/// A booking of healthcare services.
#[derive(Debug, Clone)]
pub struct Order {
    /// Identifier of the order.
    pub id: String,
    /// The provider of the order.
    pub provider: ProviderSummary,
    /// The items ordered.
    pub items: Vec<OrderItem>,
    /// Who is billed.
    pub billing: Billing,
    /// The fulfillment of the order; an empty identifier where the order
    /// is linked to none.
    pub fulfillment: Fulfillment,
    /// The quotation of the provider.
    pub quote: Option<Quotation>,
    /// The payment of the order.
    pub payment: Option<Payment>,
    /// Name of the state of the order.
    pub state: String,
    /// When the order was created.
    pub created_at: Timestamp,
    /// When the order was last updated.
    pub updated_at: Timestamp,
}

impl Order {
    /// The order is linked to a fulfillment.
    pub open spec fn linked(self) -> bool {
        self.fulfillment.id@.len() > 0
    }

    /// `self` and `other` agree in everything but, possibly, their state.
    pub open spec fn same_but_state(self, other: Order) -> bool {
        &&& self.id == other.id
        &&& self.provider == other.provider
        &&& self.items == other.items
        &&& self.billing == other.billing
        &&& self.fulfillment == other.fulfillment
        &&& self.quote == other.quote
        &&& self.payment == other.payment
        &&& self.created_at == other.created_at
        &&& self.updated_at == other.updated_at
    }

    /// Whether the order is linked to a fulfillment.
    pub fn is_linked(&self) -> (linked: bool)
        ensures
            linked == self.linked(),
    {
        !self.fulfillment.id.as_str().is_empty()
    }
}

/// A request to initialize an order.
#[derive(Debug, Clone)]
pub struct OrderInitRequest {
    /// The items to order.
    pub items: Vec<OrderItem>,
    /// Who is billed.
    pub billing: Billing,
    /// The fulfillment asked for.
    pub fulfillment: Fulfillment,
}

/// The answer to a request to initialize an order.
#[derive(Debug, Clone)]
pub struct OrderInitResponse {
    /// The order as initialized.
    pub order: Order,
}

/// A request to confirm an order.
#[derive(Debug, Clone)]
pub struct OrderConfirmRequest {
    /// Identifier of the order to confirm.
    pub order_id: String,
    /// The payment of the order.
    pub payment: Payment,
}

/// The answer to a request to confirm an order.
#[derive(Debug, Clone)]
pub struct OrderConfirmResponse {
    /// The order as confirmed.
    pub order: Order,
}

/// A request for the status of an order.
#[derive(Debug, Clone)]
pub struct OrderStatusRequest {
    /// Identifier of the order.
    pub order_id: String,
}

/// The answer to a request for the status of an order.
#[derive(Debug, Clone)]
pub struct OrderStatusResponse {
    /// The order with its current state.
    pub order: Order,
}

} // verus!
