//! Who is billed for an order, and where.

use vstd::prelude::*;

verus! {

/// A postal address.
#[derive(Debug, Clone)]
pub struct Address {
    /// Door or unit number.
    pub door: Option<String>,
    /// Name of the building.
    pub building: Option<String>,
    /// Name of the street.
    pub street: Option<String>,
    /// Name of the locality.
    pub locality: Option<String>,
    /// Name of the city.
    pub city: String,
    /// Name of the state or province.
    pub state: String,
    /// Name of the country.
    pub country: String,
    /// Postal code.
    pub area_code: String,
}

/// The billing details of an order.
#[derive(Debug, Clone)]
pub struct Billing {
    /// Name of the person or entity that is billed.
    pub name: String,
    /// Name of the organization.
    pub organization: Option<String>,
    /// Where the bill is sent.
    pub address: Address,
    /// E-mail address for the bill.
    pub email: Option<String>,
    /// Phone number for questions on the bill.
    pub phone: String,
    /// Tax number of the billed party.
    pub tax_number: Option<String>,
}

} // verus!
