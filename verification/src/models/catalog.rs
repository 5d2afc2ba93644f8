//! Catalogs of services, searches in them and quotations for their items.

use crate::models::provider::{Category, Descriptor, Location};
use crate::tags::TagMap;
use crate::time::Timestamp;
use vstd::prelude::*;

verus! {

/// What an item costs.
#[derive(Debug, Clone)]
pub struct Price {
    /// Code of the currency, such as `INR`.
    pub currency: String,
    /// The amount, written as a decimal number.
    pub value: String,
    /// The upper end where the price is a range.
    pub maximum_value: Option<String>,
}

/// An item of a catalog.
#[derive(Debug, Clone)]
pub struct Item {
    /// Identifier of the item.
    pub id: String,
    /// Identifier of the item that this item belongs to.
    pub parent_item_id: Option<String>,
    /// How the item is described.
    pub descriptor: Descriptor,
    /// What the item costs.
    pub price: Price,
    /// Identifier of the category of the item.
    pub category_id: String,
    /// Identifier of the fulfillment of the item.
    pub fulfillment_id: String,
    /// Identifier of the location of the item.
    pub location_id: Option<String>,
    /// The time at which the item is to be delivered, where it is bound to
    /// one.
    pub time: Option<Timestamp>,
    /// Whether the item is recommended.
    pub recommended: Option<bool>,
    /// Free-form tags.
    pub tags: Option<TagMap>,
}

/// The catalog of a provider.
#[derive(Debug, Clone)]
pub struct Catalog {
    /// How the catalog is described.
    pub descriptor: Descriptor,
    /// The categories of the catalog.
    pub categories: Vec<Category>,
    /// Identifiers of the fulfillments that the catalog offers.
    pub fulfillments: Vec<String>,
    /// Identifiers of the payments that the catalog accepts.
    pub payments: Vec<String>,
    /// The locations of the catalog.
    pub locations: Vec<Location>,
    /// The items of the catalog.
    pub items: Vec<Item>,
    /// When the catalog expires.
    pub exp: Option<Timestamp>,
}

/// One parameter of a search: its name and the values asked for.
#[derive(Debug, Clone)]
pub struct QueryParameter {
    /// Name of the parameter, such as `specialty`.
    pub name: String,
    /// The values asked for.
    pub values: Vec<String>,
}

/// A search for items.
#[derive(Debug, Clone)]
pub struct SearchRequest {
    /// The parameters of the search.
    pub query: Vec<QueryParameter>,
    /// An item that the results should resemble.
    pub item: Option<Item>,
    /// The fulfillment asked for.
    pub fulfillment: Option<String>,
    /// The payment asked for.
    pub payment: Option<String>,
    /// The location asked for.
    pub location: Option<Location>,
}

/// The answer to a search.
#[derive(Debug, Clone)]
pub struct SearchResponse {
    /// The catalog of the items found.
    pub catalog: Catalog,
}

/// The answer to a selection.
#[derive(Debug, Clone)]
pub struct ItemResponse {
    /// The items selected.
    pub items: Vec<Item>,
}

/// One line of a quotation.
#[derive(Debug, Clone)]
pub struct QuotationBreakup {
    /// What the line is for.
    pub title: String,
    /// The price of the line.
    pub price: Price,
}

/// A quotation for selected items.
#[derive(Debug, Clone)]
pub struct Quotation {
    /// The total price.
    pub price: Price,
    /// The lines that make up the total.
    pub breakup: Vec<QuotationBreakup>,
    /// How long the quotation holds, as an ISO duration.
    pub ttl: String,
}

} // verus!
