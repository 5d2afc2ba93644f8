//! The record store: what it keeps, what it answers, and how it fails.

pub mod memory;

use crate::models::catalog::Catalog;
use crate::models::fulfillment::Fulfillment;
use crate::models::network_registry::{NetworkRegistryLookup, Subscriber};
use crate::models::order::Order;
use crate::models::provider::Provider;
use crate::text::join2;
use vstd::prelude::*;

verus! {

/// Why a storage operation failed.
#[derive(Debug)]
pub enum StorageError {
    /// No record with the given key exists.
    NotFound(String),
    /// A record with the given key exists already.
    Duplicate(String),
    /// The operation does not apply to the record.
    InvalidOperation(String),
    /// The store itself failed.
    Internal(String),
}

impl StorageError {
    /// The text carried by the error, without the prefix of its kind.
    pub open spec fn detail(self) -> Seq<char> {
        match self {
            StorageError::NotFound(m) => m@,
            StorageError::Duplicate(m) => m@,
            StorageError::InvalidOperation(m) => m@,
            StorageError::Internal(m) => m@,
        }
    }

    /// The prefix that announces the kind of the error in its message.
    pub open spec fn prefix(self) -> Seq<char> {
        match self {
            StorageError::NotFound(_) => "Item not found: "@,
            StorageError::Duplicate(_) => "Duplicate item: "@,
            StorageError::InvalidOperation(_) => "Invalid operation: "@,
            StorageError::Internal(_) => "Storage error: "@,
        }
    }

    /// The human-readable message: the prefix of the kind, then the detail.
    pub fn message(&self) -> (text: String)
        ensures
            text@ == self.prefix() + self.detail(),
    {
        match self {
            StorageError::NotFound(m) => join2("Item not found: ", m.as_str()),
            StorageError::Duplicate(m) => join2("Duplicate item: ", m.as_str()),
            StorageError::InvalidOperation(m) => join2("Invalid operation: ", m.as_str()),
            StorageError::Internal(m) => join2("Storage error: ", m.as_str()),
        }
    }
}

/// The outcome of a storage operation.
pub type StorageResult<T> = Result<T, StorageError>;

/// What a store keeps: its records by their keys.
pub struct StoreView {
    /// The providers by their identifiers.
    pub providers: Map<Seq<char>, Provider>,
    /// The catalogs by the identifiers of their providers.
    pub catalogs: Map<Seq<char>, Catalog>,
    /// The orders by their identifiers.
    pub orders: Map<Seq<char>, Order>,
    /// The fulfillments by their identifiers.
    pub fulfillments: Map<Seq<char>, Fulfillment>,
    /// The subscribers by their identifiers.
    pub subscribers: Map<Seq<char>, Subscriber>,
    /// The data of the transactions by their identifiers.
    pub transactions: Map<Seq<char>, String>,
}

/// The keys `keys` name, each once, exactly the records of `stored` that
/// pass `wanted`, and the references `list` show the records in the order
/// of the keys.
pub open spec fn enumerates<T>(
    keys: Seq<Seq<char>>,
    list: Seq<&T>,
    stored: Map<Seq<char>, T>,
    wanted: spec_fn(T) -> bool,
) -> bool {
    &&& keys.len() == list.len()
    &&& keys.no_duplicates()
    &&& forall|k: int|
        0 <= k < keys.len() ==> stored.contains_key(#[trigger] keys[k]) && wanted(stored[keys[k]])
            && stored[keys[k]] == *list[k]
    &&& forall|key: Seq<char>| #[trigger]
        stored.contains_key(key) && wanted(stored[key]) ==> keys.contains(key)
}

/// The references `list` show, each once, exactly the records of `stored`
/// that pass `wanted`: the list has one place for each key under which such
/// a record is stored, and shows the record of that key there.
pub open spec fn lists<T>(list: Seq<&T>, stored: Map<Seq<char>, T>, wanted: spec_fn(T) -> bool) -> bool {
    exists|keys: Seq<Seq<char>>| enumerates(keys, list, stored, wanted)
}

/// What a list of records shows is stored and passes, what is stored and
/// passes is shown, and the list has as many places as there are keys under
/// which such a record is stored.
pub proof fn lemma_listed_records<T>(
    list: Seq<&T>,
    stored: Map<Seq<char>, T>,
    wanted: spec_fn(T) -> bool,
)
    requires
        lists(list, stored, wanted),
    ensures
        forall|k: int|
            0 <= k < list.len() ==> stored.contains_value(*(#[trigger] list[k])) && wanted(
                *list[k],
            ),
        forall|key: Seq<char>|
            stored.contains_key(key) && wanted(#[trigger] stored[key]) ==> exists|k: int|
                0 <= k < list.len() && *(#[trigger] list[k]) == stored[key],
        stored.dom().filter(|key: Seq<char>| wanted(stored[key])).finite(),
        stored.dom().filter(|key: Seq<char>| wanted(stored[key])).len() == list.len(),
{
    let keys = choose|keys: Seq<Seq<char>>| enumerates(keys, list, stored, wanted);
    assert forall|k: int| 0 <= k < list.len() implies stored.contains_value(*(#[trigger] list[k]))
        && wanted(*list[k]) by {
        assert(stored.contains_key(keys[k]));
    }
    assert forall|key: Seq<char>| stored.contains_key(key) && wanted(#[trigger] stored[key])
        implies exists|k: int| 0 <= k < list.len() && *(#[trigger] list[k]) == stored[key] by {
        assert(keys.contains(key));
        let k = choose|k: int| 0 <= k < keys.len() && keys[k] == key;
        assert(*list[k] == stored[key]);
    }
    let named = stored.dom().filter(|key: Seq<char>| wanted(stored[key]));
    assert(keys.to_set() =~= named) by {
        assert forall|key: Seq<char>| keys.to_set().contains(key) == named.contains(key) by {
            if keys.contains(key) {
                let k = choose|k: int| 0 <= k < keys.len() && keys[k] == key;
                assert(stored.contains_key(keys[k]));
            }
            if named.contains(key) {
                assert(stored.contains_key(key));
            }
        }
    }
    keys.unique_seq_to_set();
}

/// The test that every record passes.
pub open spec fn any<T>() -> spec_fn(T) -> bool {
    |record: T| true
}

/// The test for the orders of the provider `provider_id`.
pub open spec fn order_of_provider(provider_id: Seq<char>) -> spec_fn(Order) -> bool {
    |order: Order| order.provider.id@ == provider_id
}

/// The test for the orders that are billed to `customer_id`.
pub open spec fn order_of_customer(customer_id: Seq<char>) -> spec_fn(Order) -> bool {
    |order: Order| order.billing.name@ == customer_id
}

/// The test for the fulfillments of the provider `provider_id`.
pub open spec fn fulfillment_of_provider(provider_id: Seq<char>) -> spec_fn(Fulfillment) -> bool {
    |fulfillment: Fulfillment| fulfillment.provider_id@ == provider_id
}

/// The test for the subscribers that `lookup` asks for: those with its role
/// and its domain.
pub open spec fn subscriber_sought(lookup: NetworkRegistryLookup) -> spec_fn(Subscriber) -> bool {
    |subscriber: Subscriber|
        subscriber.type_field@ == lookup.type_field@ && subscriber.domain@ == lookup.domain@
}

/// A store of the records of the gateway.
///
/// A record is created under a key that is free, and read, replaced or
/// deleted under a key that is taken: creating under a taken key fails as a
/// duplicate, the others fail under a free key as not found. An operation
/// that fails changes nothing, and no operation touches records of another
/// kind. Lists come in no particular order.
pub trait Storage {
    /// What the store keeps.
    spec fn view(&self) -> StoreView;

    /// Stores a new provider under its identifier.
    fn create_provider(&mut self, provider: Provider) -> (created: StorageResult<()>)
        ensures
            match created {
                Ok(_) => !old(self)@.providers.contains_key(provider.id@) && final(self)@ == (
                StoreView {
                    providers: old(self)@.providers.insert(provider.id@, provider),
                    ..old(self)@
                }),
                Err(e) => e is Duplicate && old(self)@.providers.contains_key(provider.id@)
                    && final(self)@ == old(self)@,
            },
    ;

    /// The provider with the identifier `id`.
    fn get_provider(&self, id: &str) -> (found: StorageResult<&Provider>)
        ensures
            match found {
                Ok(provider) => self@.providers.contains_key(id@) && *provider
                    == self@.providers[id@],
                Err(e) => e is NotFound && !self@.providers.contains_key(id@),
            },
    ;

    /// Replaces the provider that is stored under the identifier of
    /// `provider`.
    fn update_provider(&mut self, provider: Provider) -> (updated: StorageResult<()>)
        ensures
            match updated {
                Ok(_) => old(self)@.providers.contains_key(provider.id@) && final(self)@ == (
                StoreView {
                    providers: old(self)@.providers.insert(provider.id@, provider),
                    ..old(self)@
                }),
                Err(e) => e is NotFound && !old(self)@.providers.contains_key(provider.id@)
                    && final(self)@ == old(self)@,
            },
    ;

    /// Deletes the provider with the identifier `id`.
    fn delete_provider(&mut self, id: &str) -> (deleted: StorageResult<()>)
        ensures
            match deleted {
                Ok(_) => old(self)@.providers.contains_key(id@) && final(self)@ == (StoreView {
                    providers: old(self)@.providers.remove(id@),
                    ..old(self)@
                }),
                Err(e) => e is NotFound && !old(self)@.providers.contains_key(id@) && final(self)@ == old(self)@,
            },
    ;

    /// All providers.
    fn list_providers(&self) -> (list: Vec<&Provider>)
        ensures
            lists(list@, self@.providers, any()),
    ;

    /// Stores a new catalog for the provider `provider_id`, who must be
    /// stored.
    fn create_catalog(&mut self, provider_id: &str, catalog: Catalog) -> (created: StorageResult<
        (),
    >)
        ensures
            match created {
                Ok(_) => old(self)@.providers.contains_key(provider_id@) && !old(self)@.catalogs.contains_key(provider_id@) && final(self)@ == (StoreView {
                    catalogs: old(self)@.catalogs.insert(provider_id@, catalog),
                    ..old(self)@
                }),
                Err(e) => final(self)@ == old(self)@ && if !old(self)@.providers.contains_key(
                    provider_id@,
                ) {
                    e is NotFound
                } else {
                    e is Duplicate && old(self)@.catalogs.contains_key(provider_id@)
                },
            },
    ;

    /// The catalog of the provider `provider_id`.
    fn get_catalog(&self, provider_id: &str) -> (found: StorageResult<&Catalog>)
        ensures
            match found {
                Ok(catalog) => self@.catalogs.contains_key(provider_id@) && *catalog
                    == self@.catalogs[provider_id@],
                Err(e) => e is NotFound && !self@.catalogs.contains_key(provider_id@),
            },
    ;

    /// Replaces the catalog of the provider `provider_id`.
    fn update_catalog(&mut self, provider_id: &str, catalog: Catalog) -> (updated: StorageResult<
        (),
    >)
        ensures
            match updated {
                Ok(_) => old(self)@.catalogs.contains_key(provider_id@) && final(self)@ == (
                StoreView {
                    catalogs: old(self)@.catalogs.insert(provider_id@, catalog),
                    ..old(self)@
                }),
                Err(e) => e is NotFound && !old(self)@.catalogs.contains_key(provider_id@)
                    && final(self)@ == old(self)@,
            },
    ;

    /// Some catalog to search in.
    fn search_catalog(&self) -> (found: StorageResult<&Catalog>)
        ensures
            match found {
                Ok(catalog) => self@.catalogs.contains_value(*catalog),
                Err(e) => e is NotFound && self@.catalogs == Map::<Seq<char>, Catalog>::empty(),
            },
    ;

    /// Stores a new order under its identifier.
    fn create_order(&mut self, order: Order) -> (created: StorageResult<()>)
        ensures
            match created {
                Ok(_) => !old(self)@.orders.contains_key(order.id@) && final(self)@ == (StoreView {
                    orders: old(self)@.orders.insert(order.id@, order),
                    ..old(self)@
                }),
                Err(e) => e is Duplicate && old(self)@.orders.contains_key(order.id@) && final(self)@ == old(self)@,
            },
    ;

    /// The order with the identifier `id`.
    fn get_order(&self, id: &str) -> (found: StorageResult<&Order>)
        ensures
            match found {
                Ok(order) => self@.orders.contains_key(id@) && *order == self@.orders[id@],
                Err(e) => e is NotFound && !self@.orders.contains_key(id@),
            },
    ;

    /// Replaces the order that is stored under the identifier of `order`.
    fn update_order(&mut self, order: Order) -> (updated: StorageResult<()>)
        ensures
            match updated {
                Ok(_) => old(self)@.orders.contains_key(order.id@) && final(self)@ == (StoreView {
                    orders: old(self)@.orders.insert(order.id@, order),
                    ..old(self)@
                }),
                Err(e) => e is NotFound && !old(self)@.orders.contains_key(order.id@) && final(self)@ == old(self)@,
            },
    ;

    /// The orders of the provider `provider_id`.
    fn list_orders_by_provider(&self, provider_id: &str) -> (list: Vec<&Order>)
        ensures
            lists(list@, self@.orders, order_of_provider(provider_id@)),
    ;

    /// The orders that are billed to `customer_id`.
    fn list_orders_by_customer(&self, customer_id: &str) -> (list: Vec<&Order>)
        ensures
            lists(list@, self@.orders, order_of_customer(customer_id@)),
    ;

    /// Stores a new fulfillment under its identifier.
    fn create_fulfillment(&mut self, fulfillment: Fulfillment) -> (created: StorageResult<()>)
        ensures
            match created {
                Ok(_) => !old(self)@.fulfillments.contains_key(fulfillment.id@) && final(self)@
                    == (StoreView {
                    fulfillments: old(self)@.fulfillments.insert(fulfillment.id@, fulfillment),
                    ..old(self)@
                }),
                Err(e) => e is Duplicate && old(self)@.fulfillments.contains_key(fulfillment.id@)
                    && final(self)@ == old(self)@,
            },
    ;

    /// The fulfillment with the identifier `id`.
    fn get_fulfillment(&self, id: &str) -> (found: StorageResult<&Fulfillment>)
        ensures
            match found {
                Ok(fulfillment) => self@.fulfillments.contains_key(id@) && *fulfillment
                    == self@.fulfillments[id@],
                Err(e) => e is NotFound && !self@.fulfillments.contains_key(id@),
            },
    ;

    /// Replaces the fulfillment that is stored under the identifier of
    /// `fulfillment`.
    fn update_fulfillment(&mut self, fulfillment: Fulfillment) -> (updated: StorageResult<()>)
        ensures
            match updated {
                Ok(_) => old(self)@.fulfillments.contains_key(fulfillment.id@) && final(self)@
                    == (StoreView {
                    fulfillments: old(self)@.fulfillments.insert(fulfillment.id@, fulfillment),
                    ..old(self)@
                }),
                Err(e) => e is NotFound && !old(self)@.fulfillments.contains_key(fulfillment.id@)
                    && final(self)@ == old(self)@,
            },
    ;

    /// The fulfillments of the provider `provider_id`.
    fn list_fulfillments_by_provider(&self, provider_id: &str) -> (list: Vec<&Fulfillment>)
        ensures
            lists(list@, self@.fulfillments, fulfillment_of_provider(provider_id@)),
    ;

    /// Stores a new subscriber under its identifier.
    fn register_subscriber(&mut self, subscriber: Subscriber) -> (registered: StorageResult<()>)
        ensures
            match registered {
                Ok(_) => !old(self)@.subscribers.contains_key(subscriber.id@) && final(self)@ == (
                StoreView {
                    subscribers: old(self)@.subscribers.insert(subscriber.id@, subscriber),
                    ..old(self)@
                }),
                Err(e) => e is Duplicate && old(self)@.subscribers.contains_key(subscriber.id@)
                    && final(self)@ == old(self)@,
            },
    ;

    /// The subscriber with the identifier `id`.
    fn get_subscriber(&self, id: &str) -> (found: StorageResult<&Subscriber>)
        ensures
            match found {
                Ok(subscriber) => self@.subscribers.contains_key(id@) && *subscriber
                    == self@.subscribers[id@],
                Err(e) => e is NotFound && !self@.subscribers.contains_key(id@),
            },
    ;

    /// Some subscriber with the role and the domain that `lookup` asks for.
    fn lookup_subscriber(&self, lookup: &NetworkRegistryLookup) -> (found: StorageResult<
        &Subscriber,
    >)
        ensures
            match found {
                Ok(subscriber) => self@.subscribers.contains_value(*subscriber)
                    && subscriber_sought(*lookup)(*subscriber),
                Err(e) => e is NotFound && forall|key: Seq<char>|
                    self@.subscribers.contains_key(key) ==> !subscriber_sought(*lookup)(
                        #[trigger] self@.subscribers[key],
                    ),
            },
    ;

    /// All subscribers.
    fn list_subscribers(&self) -> (list: Vec<&Subscriber>)
        ensures
            lists(list@, self@.subscribers, any()),
    ;

    /// Stores the data of the transaction `transaction_id`, in place of
    /// what was stored for it before.
    fn record_transaction(&mut self, transaction_id: &str, data: String) -> (recorded:
        StorageResult<()>)
        ensures
            recorded is Ok,
            final(self)@ == (StoreView {
                transactions: old(self)@.transactions.insert(transaction_id@, data),
                ..old(self)@
            }),
    ;

    /// The data of the transaction `transaction_id`.
    fn get_transaction(&self, transaction_id: &str) -> (found: StorageResult<&String>)
        ensures
            match found {
                Ok(data) => self@.transactions.contains_key(transaction_id@) && *data
                    == self@.transactions[transaction_id@],
                Err(e) => e is NotFound && !self@.transactions.contains_key(transaction_id@),
            },
    ;
}

} // verus!
