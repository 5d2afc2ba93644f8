//! Providers of healthcare services and how they are described.

use crate::tags::TagMap;
use crate::time::Timestamp;
use vstd::prelude::*;

verus! {

/// Name and descriptions of a provider, a category, a location or an item.
#[derive(Debug, Clone)]
pub struct Descriptor {
    /// Name of what is described.
    pub name: String,
    /// A short description.
    pub short_desc: Option<String>,
    /// A long description.
    pub long_desc: Option<String>,
    /// URLs of pictures.
    pub images: Option<Vec<String>>,
}

/// A category of health services.
#[derive(Debug, Clone)]
pub struct Category {
    /// Identifier of the category.
    pub id: String,
    /// How the category is described.
    pub descriptor: Descriptor,
    /// When the category was last updated.
    pub time: Option<Timestamp>,
    /// Free-form tags; the tag `code` holds the specialty code.
    pub tags: Option<TagMap>,
}

/// A provider of healthcare services.
#[derive(Debug, Clone)]
pub struct Provider {
    /// Identifier of the provider.
    pub id: String,
    /// How the provider is described.
    pub descriptor: Descriptor,
    /// The categories of services that the provider offers.
    pub categories: Vec<Category>,
    /// When the provider was registered.
    pub created_at: Timestamp,
    /// When the provider was last updated.
    pub updated_at: Timestamp,
}

/// A place at which a provider offers services.
#[derive(Debug, Clone)]
pub struct Location {
    /// Identifier of the location.
    pub id: String,
    /// How the location is described.
    pub descriptor: Descriptor,
    /// Coordinates of the location as `latitude,longitude`.
    pub gps: String,
    /// The address as text.
    pub address: Option<String>,
    /// City of the location.
    pub city: Option<String>,
    /// State or province of the location.
    pub state: Option<String>,
    /// Country of the location.
    pub country: Option<String>,
    /// Area code of the location.
    pub area_code: Option<String>,
}

} // verus!
