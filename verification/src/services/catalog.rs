//! Catalogs of services: which catalogs are accepted, which items a
//! selection finds, and how a quotation is put together.

use crate::models::catalog::{Catalog, Item, Price, Quotation, QuotationBreakup};
use crate::models::fulfillment::{Fulfillment, DEFAULT_SLOT_SECONDS};
use crate::models::provider::{Category, Location};
use crate::numeral::{is_decimal_number, spells_number};
use crate::services::error::ServiceError;
use crate::services::fulfillment::FulfillmentService;
use crate::services::provider::WorkingHours;
use crate::text::{
    decimal_unsigned, join2, join3, lemma_filter_empty, lemma_filter_push, owned, str_eq,
    natural_text,
};
use crate::time::Timestamp;
use vstd::prelude::*;

verus! {

/// The settings of the catalog service.
#[derive(Debug, Clone)]
pub struct CatalogServiceConfig {
    /// How long a catalog holds unless it says so itself, in hours.
    pub catalog_ttl_default: u64,
    /// How long a quotation holds, in minutes.
    pub quotation_ttl_default: u64,
    /// How many items one selection may name.
    pub max_items_per_selection: usize,
    /// Whether prices may vary with demand.
    pub enable_dynamic_pricing: bool,
    /// To how many decimal places prices are rounded.
    pub price_precision: u8,
}

impl CatalogServiceConfig {
    /// The settings that apply unless others are given.
    pub open spec fn is_default(self) -> bool {
        &&& self.catalog_ttl_default == 24
        &&& self.quotation_ttl_default == 15
        &&& self.max_items_per_selection == 20
        &&& !self.enable_dynamic_pricing
        &&& self.price_precision == 2
    }
}

impl Default for CatalogServiceConfig {
    fn default() -> (config: CatalogServiceConfig)
        ensures
            config.is_default(),
    {
        CatalogServiceConfig {
            catalog_ttl_default: 24,
            quotation_ttl_default: 15,
            max_items_per_selection: 20,
            enable_dynamic_pricing: false,
            price_precision: 2,
        }
    }
}

/// Whether an item is available.
#[derive(Debug, Clone)]
pub struct ItemAvailability {
    /// Identifier of the item.
    pub item_id: String,
    /// Whether the item can be had.
    pub available: bool,
}

/// Some category of `categories` has the identifier `id`.
pub open spec fn has_category(categories: Seq<Category>, id: Seq<char>) -> bool {
    exists|i: int| 0 <= i < categories.len() && (#[trigger] categories[i]).id@ == id
}

/// Some location of `locations` has the identifier `id`.
pub open spec fn has_location(locations: Seq<Location>, id: Seq<char>) -> bool {
    exists|i: int| 0 <= i < locations.len() && (#[trigger] locations[i]).id@ == id
}

/// Some text of `ids` is `id`.
pub open spec fn names(ids: Seq<String>, id: Seq<char>) -> bool {
    exists|i: int| 0 <= i < ids.len() && (#[trigger] ids[i])@ == id
}

/// The test that a selection applies to an item of the catalog.
pub open spec fn selected_by(ids: Seq<String>) -> spec_fn(Item) -> bool {
    |item: Item| names(ids, item.id@)
}

/// The item is complete and fits the catalog: it has an identifier, a name
/// and a price that is a number, its category is one of the catalog, and so
/// is its location where it has one.
pub open spec fn item_fits(catalog: Catalog, item: Item) -> bool {
    &&& item.id@.len() > 0
    &&& item.descriptor.name@.len() > 0
    &&& item.price.value@.len() > 0
    &&& spells_number(item.price.value@)
    &&& has_category(catalog.categories@, item.category_id@)
    &&& item.location_id matches Some(id) ==> has_location(catalog.locations@, id@)
}

/// What is wrong with an item of a catalog, in words: the first of the
/// conditions of fitting that the item fails, or nothing where it fits.
pub open spec fn item_fault(catalog: Catalog, item: Item) -> Option<Seq<char>> {
    if item.id@.len() == 0 {
        Some("Item ID is required"@)
    } else if item.descriptor.name@.len() == 0 {
        Some("Item name is required for item ID: "@ + item.id@)
    } else if item.price.value@.len() == 0 {
        Some("Item price is required for item ID: "@ + item.id@)
    } else if !spells_number(item.price.value@) {
        Some("Invalid price value for item ID: "@ + item.id@)
    } else if !has_category(catalog.categories@, item.category_id@) {
        Some(
            "Category "@ + item.category_id@ + " referenced by item "@ + item.id@
                + " does not exist in catalog"@,
        )
    } else if item.location_id matches Some(id) && !has_location(catalog.locations@, id@) {
        Some(
            "Location "@ + item.location_id->0@ + " referenced by item "@ + item.id@
                + " does not exist in catalog"@,
        )
    } else {
        None
    }
}

/// An item fits exactly where nothing is wrong with it.
pub proof fn lemma_fitting_item_has_no_fault(catalog: Catalog, item: Item)
    ensures
        item_fits(catalog, item) <==> item_fault(catalog, item) is None,
{
}

/// Whether `message` says what is wrong with the catalog: that it has no
/// name, or else what is wrong with the first item that does not fit.
pub open spec fn is_catalog_fault(catalog: Catalog, message: Seq<char>) -> bool {
    if catalog.descriptor.name@.len() == 0 {
        message == "Catalog name is required"@
    } else {
        exists|i: int|
            0 <= i < catalog.items@.len() && first_misfit(catalog, i) && item_fault(
                catalog,
                #[trigger] catalog.items@[i],
            ) == Some(message)
    }
}

/// The item at `index` is the first of the catalog that does not fit.
pub open spec fn first_misfit(catalog: Catalog, index: int) -> bool {
    &&& 0 <= index < catalog.items@.len()
    &&& !item_fits(catalog, catalog.items@[index])
    &&& forall|j: int| 0 <= j < index ==> item_fits(catalog, #[trigger] catalog.items@[j])
}

/// The catalog has a name and every item of it fits.
pub open spec fn catalog_valid(catalog: Catalog) -> bool {
    &&& catalog.descriptor.name@.len() > 0
    &&& forall|i: int| 0 <= i < catalog.items@.len() ==> item_fits(catalog, #[trigger] catalog.items@[i])
}

/// Whether some category of `categories` has the identifier `id`.
fn find_category(categories: &Vec<Category>, id: &str) -> (found: bool)
    ensures
        found == has_category(categories@, id@),
{
    let mut i: usize = 0;
    while i < categories.len()
        invariant
            i <= categories.len(),
            forall|j: int| 0 <= j < i ==> (#[trigger] categories@[j]).id@ != id@,
        decreases categories.len() - i,
    {
        if str_eq(categories[i].id.as_str(), id) {
            return true;
        }
        i += 1;
    }
    false
}

/// Whether some location of `locations` has the identifier `id`.
fn find_location(locations: &Vec<Location>, id: &str) -> (found: bool)
    ensures
        found == has_location(locations@, id@),
{
    let mut i: usize = 0;
    while i < locations.len()
        invariant
            i <= locations.len(),
            forall|j: int| 0 <= j < i ==> (#[trigger] locations@[j]).id@ != id@,
        decreases locations.len() - i,
    {
        if str_eq(locations[i].id.as_str(), id) {
            return true;
        }
        i += 1;
    }
    false
}

/// Whether some text of `ids` is `id`.
fn find_name(ids: &Vec<String>, id: &str) -> (found: bool)
    ensures
        found == names(ids@, id@),
{
    let mut i: usize = 0;
    while i < ids.len()
        invariant
            i <= ids.len(),
            forall|j: int| 0 <= j < i ==> (#[trigger] ids@[j])@ != id@,
        decreases ids.len() - i,
    {
        if str_eq(ids[i].as_str(), id) {
            return true;
        }
        i += 1;
    }
    false
}

/// The rules of the catalog service.
#[derive(Debug, Clone)]
pub struct CatalogService {
    /// The settings of the service.
    pub config: CatalogServiceConfig,
}

impl CatalogService {
    /// The time for which a catalog holds by default, in seconds, clamped
    /// to what can be represented.
    pub open spec fn default_ttl_seconds(self) -> int {
        if self.config.catalog_ttl_default * 3600 <= i64::MAX {
            self.config.catalog_ttl_default * 3600
        } else {
            i64::MAX as int
        }
    }

    /// `saved` is `catalog` as it is stored at the instant `now`: with its
    /// own expiry where it has one, else with the default one.
    pub open spec fn stored_as(self, catalog: Catalog, saved: Catalog, now: Timestamp) -> bool {
        &&& saved.exp == match catalog.exp {
            Some(exp) => Some(exp),
            None => Some(now.spec_plus_saturating(self.default_ttl_seconds())),
        }
        &&& saved.descriptor == catalog.descriptor
        &&& saved.categories == catalog.categories
        &&& saved.fulfillments == catalog.fulfillments
        &&& saved.payments == catalog.payments
        &&& saved.locations == catalog.locations
        &&& saved.items == catalog.items
    }

    /// The catalog has expired at the instant `now`.
    pub open spec fn expired(catalog: Catalog, now: Timestamp) -> bool {
        catalog.exp matches Some(exp) && exp.precedes(now)
    }

    /// The selection `items` is acceptable: it names at least one item and
    /// no more than the settings allow.
    pub open spec fn selection_sized(self, items: Seq<String>) -> bool {
        0 < items.len() <= self.config.max_items_per_selection
    }

    /// The availability of `item` with the provider.
    pub open spec fn item_available(
        hours: WorkingHours,
        existing: Seq<Fulfillment>,
        item: Item,
    ) -> Option<bool> {
        match item.time {
            Some(time) => FulfillmentService::spec_check_availability(
                hours,
                existing,
                time,
                DEFAULT_SLOT_SECONDS as int,
            ),
            None => Some(true),
        }
    }

    /// The time for which a quotation holds, as an ISO duration.
    pub open spec fn quotation_ttl(self) -> Seq<char> {
        "PT"@ + natural_text(self.config.quotation_ttl_default as nat) + "M"@
    }

    /// `line` is the line of a quotation for `item`.
    pub open spec fn is_line_for(line: QuotationBreakup, item: Item) -> bool {
        &&& line.title == item.descriptor.name
        &&& line.price.currency == item.price.currency
        &&& line.price.value == item.price.value
        &&& line.price.maximum_value == item.price.maximum_value
    }

    /// The service with the default settings.
    pub fn new() -> (service: CatalogService)
        ensures
            service.config.is_default(),
    {
        CatalogService { config: CatalogServiceConfig::default() }
    }

    /// The service with the settings `config`.
    pub fn with_config(config: CatalogServiceConfig) -> (service: CatalogService)
        ensures
            service.config == config,
    {
        CatalogService { config }
    }

    /// Checks one item of a catalog.
    ///
    /// Fails with a validation error exactly where the item does not fit.
    pub fn validate_item(catalog: &Catalog, item: &Item) -> (checked: Result<(), ServiceError>)
        ensures
            match checked {
                Ok(_) => item_fits(*catalog, *item),
                Err(e) => e is Validation && !item_fits(*catalog, *item) && item_fault(
                    *catalog,
                    *item,
                ) == Some(e->Validation_0@),
            },
    {
        if item.id.as_str().is_empty() {
            return Err(ServiceError::Validation(owned("Item ID is required")));
        }
        if item.descriptor.name.as_str().is_empty() {
            return Err(
                ServiceError::Validation(
                    join2("Item name is required for item ID: ", item.id.as_str()),
                ),
            );
        }
        if item.price.value.as_str().is_empty() {
            return Err(
                ServiceError::Validation(
                    join2("Item price is required for item ID: ", item.id.as_str()),
                ),
            );
        }
        if !is_decimal_number(item.price.value.as_str()) {
            return Err(
                ServiceError::Validation(
                    join2("Invalid price value for item ID: ", item.id.as_str()),
                ),
            );
        }
        if !find_category(&catalog.categories, item.category_id.as_str()) {
            let head = join3("Category ", item.category_id.as_str(), " referenced by item ");
            return Err(
                ServiceError::Validation(
                    join3(head.as_str(), item.id.as_str(), " does not exist in catalog"),
                ),
            );
        }
        match &item.location_id {
            Some(id) => {
                if !find_location(&catalog.locations, id.as_str()) {
                    let head = join3("Location ", id.as_str(), " referenced by item ");
                    return Err(
                        ServiceError::Validation(
                            join3(head.as_str(), item.id.as_str(), " does not exist in catalog"),
                        ),
                    );
                }
            },
            None => {},
        }
        Ok(())
    }

    /// Checks a catalog.
    ///
    /// Fails with a validation error exactly where the catalog is not
    /// valid; the error is about the name of the catalog, or else about the
    /// first item that does not fit.
    pub fn validate_catalog(&self, catalog: &Catalog) -> (checked: Result<(), ServiceError>)
        ensures
            match checked {
                Ok(_) => catalog_valid(*catalog),
                Err(e) => e is Validation && !catalog_valid(*catalog) && is_catalog_fault(
                    *catalog,
                    e->Validation_0@,
                ),
            },
    {
        if catalog.descriptor.name.as_str().is_empty() {
            return Err(ServiceError::Validation(owned("Catalog name is required")));
        }
        let mut i: usize = 0;
        while i < catalog.items.len()
            invariant
                i <= catalog.items.len(),
                catalog.descriptor.name@.len() > 0,
                forall|j: int| 0 <= j < i ==> item_fits(*catalog, #[trigger] catalog.items@[j]),
            decreases catalog.items.len() - i,
        {
            match Self::validate_item(catalog, &catalog.items[i]) {
                Ok(_) => {},
                Err(e) => {
                    assert(first_misfit(*catalog, i as int));
                    return Err(e);
                },
            }
            i += 1;
        }
        Ok(())
    }

    /// Makes a catalog ready to be stored at the instant `now`: a catalog
    /// without expiry gets the default one.
    ///
    /// Fails with a validation error exactly where the catalog is not
    /// valid.
    fn prepare(&self, catalog: Catalog, now: &Timestamp) -> (saved: Result<Catalog, ServiceError>)
        ensures
            match saved {
                Ok(stored) => catalog_valid(catalog) && self.stored_as(catalog, stored, *now),
                Err(e) => e is Validation && !catalog_valid(catalog),
            },
    {
        match self.validate_catalog(&catalog) {
            Ok(_) => {},
            Err(e) => { return Err(e); },
        }
        let mut stored = catalog;
        if stored.exp.is_none() {
            let seconds: i64 = if self.config.catalog_ttl_default <= 2_562_047_788_015_215u64 {
                (self.config.catalog_ttl_default * 3600) as i64
            } else {
                i64::MAX
            };
            stored.exp = Some(now.plus_seconds_saturating(seconds));
        }
        Ok(stored)
    }

    /// Accepts a new catalog at the instant `now` and hands it back as it
    /// is to be stored.
    ///
    /// Fails with a validation error exactly where the catalog is not
    /// valid.
    pub fn create_catalog(&self, catalog: Catalog, now: &Timestamp) -> (saved: Result<
        Catalog,
        ServiceError,
    >)
        ensures
            match saved {
                Ok(stored) => catalog_valid(catalog) && self.stored_as(catalog, stored, *now),
                Err(e) => e is Validation && !catalog_valid(catalog),
            },
    {
        self.prepare(catalog, now)
    }

    /// Accepts the new version of a catalog at the instant `now` and hands
    /// it back as it is to be stored.
    ///
    /// Fails with a validation error exactly where the catalog is not
    /// valid.
    pub fn update_catalog(&self, catalog: Catalog, now: &Timestamp) -> (saved: Result<
        Catalog,
        ServiceError,
    >)
        ensures
            match saved {
                Ok(stored) => catalog_valid(catalog) && self.stored_as(catalog, stored, *now),
                Err(e) => e is Validation && !catalog_valid(catalog),
            },
    {
        self.prepare(catalog, now)
    }

    /// Hands out the stored catalog of the provider `provider_id` at the
    /// instant `now`.
    ///
    /// Fails with a business-logic error exactly where the catalog has
    /// expired.
    pub fn get_catalog(provider_id: &str, catalog: Catalog, now: &Timestamp) -> (current: Result<
        Catalog,
        ServiceError,
    >)
        ensures
            match current {
                Ok(same) => same == catalog && !Self::expired(catalog, *now),
                Err(e) => e is BusinessLogic && Self::expired(catalog, *now),
            },
    {
        let late = match &catalog.exp {
            Some(exp) => exp.is_before(now),
            None => false,
        };
        if late {
            Err(
                ServiceError::BusinessLogic(
                    join3("Catalog for provider ", provider_id, " has expired"),
                ),
            )
        } else {
            Ok(catalog)
        }
    }

    /// Checks the size of a selection.
    ///
    /// Fails with a validation error exactly where the selection names no
    /// item or more than the settings allow.
    pub fn validate_selection(&self, items: &Vec<String>) -> (checked: Result<(), ServiceError>)
        ensures
            match checked {
                Ok(_) => self.selection_sized(items@),
                Err(e) => e is Validation && !self.selection_sized(items@),
            },
    {
        if items.len() == 0 {
            return Err(ServiceError::Validation(owned("No items selected")));
        }
        if items.len() > self.config.max_items_per_selection {
            let limit = decimal_unsigned(self.config.max_items_per_selection as u64);
            return Err(
                ServiceError::Validation(
                    join3("Cannot select more than ", limit.as_str(), " items at once"),
                ),
            );
        }
        Ok(())
    }

    /// The items of `catalog_items` that the selection `items` names, in
    /// the order of the catalog.
    ///
    /// Fails with a validation error where the selection names no item or
    /// too many, and with a not-found error where it names none of the
    /// catalog.
    pub fn select(&self, catalog_items: Vec<Item>, items: &Vec<String>) -> (selected: Result<
        Vec<Item>,
        ServiceError,
    >)
        ensures
            match selected {
                Ok(found) => self.selection_sized(items@) && found@.len() > 0 && found@
                    == catalog_items@.filter(selected_by(items@)),
                Err(e) => if !self.selection_sized(items@) {
                    e is Validation
                } else {
                    e is NotFound && catalog_items@.filter(selected_by(items@)).len() == 0
                },
            },
    {
        match self.validate_selection(items) {
            Ok(_) => {},
            Err(e) => { return Err(e); },
        }
        let found = Self::matching_items(catalog_items, items);
        if found.len() == 0 {
            return Err(ServiceError::NotFound(owned("No matching items found")));
        }
        Ok(found)
    }

    /// The items of `catalog_items` that `ids` names, in the order of the
    /// catalog.
    pub fn matching_items(catalog_items: Vec<Item>, ids: &Vec<String>) -> (found: Vec<Item>)
        ensures
            found@ == catalog_items@.filter(selected_by(ids@)),
    {
        let ghost all = catalog_items@;
        let ghost pred = selected_by(ids@);
        let mut found: Vec<Item> = Vec::new();
        proof {
            lemma_filter_empty(pred);
            assert(all.subrange(0, 0) =~= Seq::<Item>::empty());
        }
        for item in iter: catalog_items
            invariant
                iter.seq() == all,
                pred == selected_by(ids@),
                found@ == all.subrange(0, iter.index() as int).filter(pred),
        {
            proof {
                lemma_filter_push(all.subrange(0, iter.index() as int), item, pred);
                assert(all.subrange(0, iter.index() + 1) =~= all.subrange(
                    0,
                    iter.index() as int,
                ).push(item));
            }
            if find_name(ids, item.id.as_str()) {
                found.push(item);
            }
        }
        assert(all.subrange(0, all.len() as int) =~= all);
        found
    }

    /// The availability of each item of `items` with the provider: an item
    /// that is bound to a time is available where the provider can take a
    /// booking of one hour at that time; an item without time always is.
    ///
    /// Fails with a validation error where the time of an item lies beyond
    /// the calendar.
    pub fn check_item_availability(
        working_hours: &WorkingHours,
        existing: &Vec<Fulfillment>,
        items: &Vec<Item>,
    ) -> (availability: Result<Vec<ItemAvailability>, ServiceError>)
        ensures
            match availability {
                Ok(list) => {
                    &&& list@.len() == items@.len()
                    &&& forall|k: int|
                        0 <= k < list@.len() ==> (#[trigger] list@[k]).item_id == items@[k].id
                            && Self::item_available(*working_hours, existing@, items@[k]) == Some(
                            list@[k].available,
                        )
                },
                Err(e) => e is Validation && exists|k: int|
                    0 <= k < items@.len() && Self::item_available(
                        *working_hours,
                        existing@,
                        #[trigger] items@[k],
                    ) is None,
            },
    {
        let mut list: Vec<ItemAvailability> = Vec::new();
        let mut i: usize = 0;
        while i < items.len()
            invariant
                i <= items.len(),
                list@.len() == i,
                forall|k: int|
                    0 <= k < i ==> (#[trigger] list@[k]).item_id == items@[k].id
                        && Self::item_available(*working_hours, existing@, items@[k]) == Some(
                        list@[k].available,
                    ),
            decreases items.len() - i,
        {
            let available = match &items[i].time {
                Some(time) => match FulfillmentService::check_availability(
                    working_hours,
                    existing,
                    time,
                    DEFAULT_SLOT_SECONDS,
                ) {
                    Ok(free) => free,
                    Err(e) => { return Err(e); },
                },
                None => true,
            };
            list.push(ItemAvailability { item_id: items[i].id.clone(), available });
            i += 1;
        }
        Ok(list)
    }

    /// The first item of `availability` that cannot be had, if there is
    /// one.
    pub fn first_unavailable(availability: &Vec<ItemAvailability>) -> (found: Option<usize>)
        ensures
            match found {
                Some(k) => k < availability@.len() && !availability@[k as int].available
                    && forall|j: int| 0 <= j < k ==> (#[trigger] availability@[j]).available,
                None => forall|j: int|
                    0 <= j < availability@.len() ==> (#[trigger] availability@[j]).available,
            },
    {
        let mut i: usize = 0;
        while i < availability.len()
            invariant
                i <= availability.len(),
                forall|j: int| 0 <= j < i ==> (#[trigger] availability@[j]).available,
            decreases availability.len() - i,
        {
            if !availability[i].available {
                return Some(i);
            }
            i += 1;
        }
        None
    }

    /// Puts the quotation for `items` together: one line per item, the
    /// total `total` in the currency of the first item, or in rupees where
    /// there is no item, and the time for which the quotation holds.
    ///
    /// Fails with a business-logic error exactly where an item of
    /// `availability` cannot be had.
    pub fn on_select(
        &self,
        items: &Vec<Item>,
        availability: &Vec<ItemAvailability>,
        total: String,
    ) -> (quoted: Result<Quotation, ServiceError>)
        ensures
            match quoted {
                Ok(quotation) => {
                    &&& forall|j: int|
                        0 <= j < availability@.len() ==> (#[trigger] availability@[j]).available
                    &&& quotation.price.value == total
                    &&& quotation.price.maximum_value is None
                    &&& quotation.price.currency@ == if items@.len() > 0 {
                        items@[0].price.currency@
                    } else {
                        "INR"@
                    }
                    &&& quotation.ttl@ == self.quotation_ttl()
                    &&& quotation.breakup@.len() == items@.len()
                    &&& forall|k: int|
                        0 <= k < items@.len() ==> Self::is_line_for(
                            #[trigger] quotation.breakup@[k],
                            items@[k],
                        )
                },
                Err(e) => e is BusinessLogic && exists|j: int|
                    0 <= j < availability@.len() && !(#[trigger] availability@[j]).available,
            },
    {
        match Self::first_unavailable(availability) {
            Some(k) => {
                return Err(
                    ServiceError::BusinessLogic(
                        join3("Item ", availability[k].item_id.as_str(), " is currently unavailable"),
                    ),
                );
            },
            None => {},
        }
        let mut breakup: Vec<QuotationBreakup> = Vec::new();
        let mut i: usize = 0;
        while i < items.len()
            invariant
                i <= items.len(),
                breakup@.len() == i,
                forall|k: int| 0 <= k < i ==> Self::is_line_for(#[trigger] breakup@[k], items@[k]),
            decreases items.len() - i,
        {
            breakup.push(
                QuotationBreakup {
                    title: items[i].descriptor.name.clone(),
                    price: Price {
                        currency: items[i].price.currency.clone(),
                        value: items[i].price.value.clone(),
                        maximum_value: items[i].price.maximum_value.clone(),
                    },
                },
            );
            i += 1;
        }
        let currency = if items.len() > 0 {
            items[0].price.currency.clone()
        } else {
            owned("INR")
        };
        let minutes = decimal_unsigned(self.config.quotation_ttl_default);
        Ok(
            Quotation {
                price: Price { currency, value: total, maximum_value: None },
                breakup,
                ttl: join3("PT", minutes.as_str(), "M"),
            },
        )
    }
}

} // verus!
