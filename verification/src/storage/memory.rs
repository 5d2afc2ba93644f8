//! A record store that keeps everything in memory.

use crate::models::catalog::Catalog;
use crate::models::fulfillment::Fulfillment;
use crate::models::network_registry::{NetworkRegistryLookup, Subscriber};
use crate::models::order::Order;
use crate::models::provider::Provider;
use crate::storage::{
    any, enumerates, fulfillment_of_provider, lists, order_of_customer, order_of_provider, subscriber_sought,
    Storage, StorageError, StorageResult, StoreView,
};
use crate::table::{keys_distinct, lemma_entry_found, position_of, Table};
use crate::text::{join2, join3, owned, str_eq};
use vstd::prelude::*;

verus! {

/// A record store in memory, for tests and development.
#[derive(Debug)]
pub struct MemoryStorage {
    pub providers: Table<Provider>,
    pub catalogs: Table<Catalog>,
    pub orders: Table<Order>,
    pub fulfillments: Table<Fulfillment>,
    pub subscribers: Table<Subscriber>,
    pub transactions: Table<String>,
}

/// The references `list` show the entries of `table` at the positions
/// `picked`, which rise and are exactly the positions among the first
/// `done` whose record passes `wanted`.
spec fn lists_first<T>(
    list: Seq<&T>,
    picked: Seq<int>,
    table: Table<T>,
    wanted: spec_fn(T) -> bool,
    done: int,
) -> bool {
    &&& picked.len() == list.len()
    &&& forall|k: int|
        0 <= k < picked.len() ==> 0 <= #[trigger] picked[k] < done && wanted(
            table.entries()[picked[k]].1,
        ) && *list[k] == table.entries()[picked[k]].1
    &&& forall|a: int, b: int| 0 <= a < b < picked.len() ==> #[trigger] picked[a] < #[trigger] picked[b]
    &&& forall|i: int|
        0 <= i < done && wanted((#[trigger] table.entries()[i]).1) ==> picked.contains(i)
}

/// Taking the next entry of the table into the list, or passing it over
/// where it does not pass `wanted`, keeps the list in step with the table.
proof fn lemma_lists_next<T>(
    list: Seq<&T>,
    picked: Seq<int>,
    table: Table<T>,
    wanted: spec_fn(T) -> bool,
    done: int,
    next: Seq<&T>,
)
    requires
        0 <= done < table.entries().len(),
        lists_first(list, picked, table, wanted, done),
        if wanted(table.entries()[done].1) {
            next.len() == list.len() + 1 && *next[list.len() as int] == table.entries()[done].1
                && forall|k: int| 0 <= k < list.len() ==> next[k] == list[k]
        } else {
            next == list
        },
    ensures
        lists_first(
            next,
            if wanted(table.entries()[done].1) {
                picked.push(done)
            } else {
                picked
            },
            table,
            wanted,
            done + 1,
        ),
{
    let grown = if wanted(table.entries()[done].1) {
        picked.push(done)
    } else {
        picked
    };
    assert forall|i: int|
        0 <= i < done + 1 && wanted((#[trigger] table.entries()[i]).1) implies grown.contains(
        i,
    ) by {
        if i < done {
            assert(picked.contains(i));
            let k = choose|k: int| 0 <= k < picked.len() && picked[k] == i;
            assert(grown[k] == i);
        } else {
            assert(grown[picked.len() as int] == i);
        }
    }
}

/// A list that is in step with the whole table lists the table.
proof fn lemma_lists_all<T>(
    list: Seq<&T>,
    picked: Seq<int>,
    table: Table<T>,
    wanted: spec_fn(T) -> bool,
)
    requires
        keys_distinct(table.entries()),
        lists_first(list, picked, table, wanted, table.entries().len() as int),
    ensures
        lists(list, table@, wanted),
{
    let entries = table.entries();
    let keys = Seq::new(picked.len(), |k: int| entries[picked[k]].0@);
    assert forall|a: int, b: int| 0 <= a < keys.len() && 0 <= b < keys.len() && a != b implies keys[a]
        != keys[b] by {
        if a < b {
            assert(picked[a] < picked[b]);
        } else {
            assert(picked[b] < picked[a]);
        }
    }
    assert forall|k: int| 0 <= k < keys.len() implies table@.contains_key(#[trigger] keys[k])
        && wanted(table@[keys[k]]) && table@[keys[k]] == *list[k] by {
        lemma_entry_found(entries, picked[k]);
    }
    assert forall|key: Seq<char>| #[trigger]
        table@.contains_key(key) && wanted(table@[key]) implies keys.contains(key) by {
        let p = position_of(entries, key);
        lemma_entry_found(entries, p);
        assert(wanted(entries[p].1));
        assert(picked.contains(p));
        let k = choose|k: int| 0 <= k < picked.len() && picked[k] == p;
        assert(keys[k] == key);
    }
    assert(enumerates(keys, list, table@, wanted));
}

/// A list that shows every record of a table, one for one, lists the
/// table.
proof fn lemma_all_listed<T>(list: Seq<&T>, table: Table<T>)
    requires
        keys_distinct(table.entries()),
        crate::table::shows(list, table.records()),
    ensures
        lists(list, table@, any()),
{
    let picked = Seq::new(list.len(), |k: int| k);
    assert forall|i: int|
        0 <= i < table.entries().len() && any::<T>()((#[trigger] table.entries()[i]).1)
        implies picked.contains(i) by {
        assert(picked[i] == i);
    }
    lemma_lists_all(list, picked, table, any());
}

impl MemoryStorage {
    /// An empty store.
    pub fn new() -> (store: MemoryStorage)
        ensures
            store@.providers == Map::<Seq<char>, Provider>::empty(),
            store@.catalogs == Map::<Seq<char>, Catalog>::empty(),
            store@.orders == Map::<Seq<char>, Order>::empty(),
            store@.fulfillments == Map::<Seq<char>, Fulfillment>::empty(),
            store@.subscribers == Map::<Seq<char>, Subscriber>::empty(),
            store@.transactions == Map::<Seq<char>, String>::empty(),
    {
        MemoryStorage {
            providers: Table::new(),
            catalogs: Table::new(),
            orders: Table::new(),
            fulfillments: Table::new(),
            subscribers: Table::new(),
            transactions: Table::new(),
        }
    }

    /// An empty store for tests.
    pub fn empty() -> (store: MemoryStorage)
        ensures
            store@.providers == Map::<Seq<char>, Provider>::empty(),
            store@.catalogs == Map::<Seq<char>, Catalog>::empty(),
            store@.orders == Map::<Seq<char>, Order>::empty(),
            store@.fulfillments == Map::<Seq<char>, Fulfillment>::empty(),
            store@.subscribers == Map::<Seq<char>, Subscriber>::empty(),
            store@.transactions == Map::<Seq<char>, String>::empty(),
    {
        MemoryStorage::new()
    }

    /// A store with sample records for tests; so far it holds none.
    pub fn with_mock_data() -> (store: MemoryStorage)
        ensures
            store@.providers == Map::<Seq<char>, Provider>::empty(),
            store@.catalogs == Map::<Seq<char>, Catalog>::empty(),
            store@.orders == Map::<Seq<char>, Order>::empty(),
            store@.fulfillments == Map::<Seq<char>, Fulfillment>::empty(),
            store@.subscribers == Map::<Seq<char>, Subscriber>::empty(),
            store@.transactions == Map::<Seq<char>, String>::empty(),
    {
        MemoryStorage::new()
    }
}

impl Storage for MemoryStorage {
    open spec fn view(&self) -> StoreView {
        StoreView {
            providers: self.providers@,
            catalogs: self.catalogs@,
            orders: self.orders@,
            fulfillments: self.fulfillments@,
            subscribers: self.subscribers@,
            transactions: self.transactions@,
        }
    }

    fn create_provider(&mut self, provider: Provider) -> (created: StorageResult<()>) {
        if self.providers.contains_key(provider.id.as_str()) {
            return Err(
                StorageError::Duplicate(
                    join3("Provider with ID ", provider.id.as_str(), " already exists"),
                ),
            );
        }
        let key = provider.id.clone();
        self.providers.insert(key, provider);
        Ok(())
    }

    fn get_provider(&self, id: &str) -> (found: StorageResult<&Provider>) {
        match self.providers.get(id) {
            Some(provider) => Ok(provider),
            None => Err(StorageError::NotFound(join3("Provider with ID ", id, " not found"))),
        }
    }

    fn update_provider(&mut self, provider: Provider) -> (updated: StorageResult<()>) {
        if !self.providers.contains_key(provider.id.as_str()) {
            return Err(
                StorageError::NotFound(join3("Provider with ID ", provider.id.as_str(), " not found")),
            );
        }
        let key = provider.id.clone();
        self.providers.insert(key, provider);
        Ok(())
    }

    fn delete_provider(&mut self, id: &str) -> (deleted: StorageResult<()>) {
        match self.providers.remove(id) {
            Some(_) => Ok(()),
            None => Err(StorageError::NotFound(join3("Provider with ID ", id, " not found"))),
        }
    }

    fn list_providers(&self) -> (list: Vec<&Provider>) {
        self.providers.distinct();
        let list = self.providers.all();
        proof {
            lemma_all_listed(list@, self.providers);
        }
        list
    }

    fn create_catalog(&mut self, provider_id: &str, catalog: Catalog) -> (created: StorageResult<
        (),
    >) {
        if !self.providers.contains_key(provider_id) {
            return Err(
                StorageError::NotFound(join3("Provider with ID ", provider_id, " not found")),
            );
        }
        if self.catalogs.contains_key(provider_id) {
            return Err(
                StorageError::Duplicate(
                    join3("Catalog for provider ID ", provider_id, " already exists"),
                ),
            );
        }
        self.catalogs.insert(owned(provider_id), catalog);
        Ok(())
    }

    fn get_catalog(&self, provider_id: &str) -> (found: StorageResult<&Catalog>) {
        match self.catalogs.get(provider_id) {
            Some(catalog) => Ok(catalog),
            None => Err(
                StorageError::NotFound(join3("Catalog for provider ID ", provider_id, " not found")),
            ),
        }
    }

    fn update_catalog(&mut self, provider_id: &str, catalog: Catalog) -> (updated: StorageResult<
        (),
    >) {
        if !self.catalogs.contains_key(provider_id) {
            return Err(
                StorageError::NotFound(join3("Catalog for provider ID ", provider_id, " not found")),
            );
        }
        self.catalogs.insert(owned(provider_id), catalog);
        Ok(())
    }

    fn search_catalog(&self) -> (found: StorageResult<&Catalog>) {
        if self.catalogs.is_empty() {
            return Err(StorageError::NotFound(owned("No catalogs found")));
        }
        self.catalogs.distinct();
        proof {
            lemma_entry_found(self.catalogs.entries(), 0);
        }
        Ok(self.catalogs.value_at(0))
    }

    fn create_order(&mut self, order: Order) -> (created: StorageResult<()>) {
        if self.orders.contains_key(order.id.as_str()) {
            return Err(
                StorageError::Duplicate(
                    join3("Order with ID ", order.id.as_str(), " already exists"),
                ),
            );
        }
        let key = order.id.clone();
        self.orders.insert(key, order);
        Ok(())
    }

    fn get_order(&self, id: &str) -> (found: StorageResult<&Order>) {
        match self.orders.get(id) {
            Some(order) => Ok(order),
            None => Err(StorageError::NotFound(join3("Order with ID ", id, " not found"))),
        }
    }

    fn update_order(&mut self, order: Order) -> (updated: StorageResult<()>) {
        if !self.orders.contains_key(order.id.as_str()) {
            return Err(
                StorageError::NotFound(join3("Order with ID ", order.id.as_str(), " not found")),
            );
        }
        let key = order.id.clone();
        self.orders.insert(key, order);
        Ok(())
    }

    fn list_orders_by_provider(&self, provider_id: &str) -> (list: Vec<&Order>) {
        self.orders.distinct();
        let ghost wanted = order_of_provider(provider_id@);
        let mut list: Vec<&Order> = Vec::new();
        let mut i: usize = 0;
        let ghost mut picked: Seq<int> = Seq::empty();
        while i < self.orders.len()
            invariant
                i <= self.orders.entries().len(),
                keys_distinct(self.orders.entries()),
                wanted == order_of_provider(provider_id@),
                lists_first(list@, picked, self.orders, wanted, i as int),
            decreases self.orders.entries().len() - i,
        {
            let order = self.orders.value_at(i);
            let ghost before = list@;
            let matches = str_eq(order.provider.id.as_str(), provider_id);
            if matches {
                list.push(order);
            }
            proof {
                lemma_lists_next(before, picked, self.orders, wanted, i as int, list@);
                if matches {
                    picked = picked.push(i as int);
                }
            }
            i += 1;
        }
        proof {
            lemma_lists_all(list@, picked, self.orders, wanted);
        }
        list
    }

    fn list_orders_by_customer(&self, customer_id: &str) -> (list: Vec<&Order>) {
        self.orders.distinct();
        let ghost wanted = order_of_customer(customer_id@);
        let mut list: Vec<&Order> = Vec::new();
        let mut i: usize = 0;
        let ghost mut picked: Seq<int> = Seq::empty();
        while i < self.orders.len()
            invariant
                i <= self.orders.entries().len(),
                keys_distinct(self.orders.entries()),
                wanted == order_of_customer(customer_id@),
                lists_first(list@, picked, self.orders, wanted, i as int),
            decreases self.orders.entries().len() - i,
        {
            let order = self.orders.value_at(i);
            let ghost before = list@;
            let matches = str_eq(order.billing.name.as_str(), customer_id);
            if matches {
                list.push(order);
            }
            proof {
                lemma_lists_next(before, picked, self.orders, wanted, i as int, list@);
                if matches {
                    picked = picked.push(i as int);
                }
            }
            i += 1;
        }
        proof {
            lemma_lists_all(list@, picked, self.orders, wanted);
        }
        list
    }

    fn create_fulfillment(&mut self, fulfillment: Fulfillment) -> (created: StorageResult<()>) {
        if self.fulfillments.contains_key(fulfillment.id.as_str()) {
            return Err(
                StorageError::Duplicate(
                    join3("Fulfillment with ID ", fulfillment.id.as_str(), " already exists"),
                ),
            );
        }
        let key = fulfillment.id.clone();
        self.fulfillments.insert(key, fulfillment);
        Ok(())
    }

    fn get_fulfillment(&self, id: &str) -> (found: StorageResult<&Fulfillment>) {
        match self.fulfillments.get(id) {
            Some(fulfillment) => Ok(fulfillment),
            None => Err(StorageError::NotFound(join3("Fulfillment with ID ", id, " not found"))),
        }
    }

    fn update_fulfillment(&mut self, fulfillment: Fulfillment) -> (updated: StorageResult<()>) {
        if !self.fulfillments.contains_key(fulfillment.id.as_str()) {
            return Err(
                StorageError::NotFound(
                    join3("Fulfillment with ID ", fulfillment.id.as_str(), " not found"),
                ),
            );
        }
        let key = fulfillment.id.clone();
        self.fulfillments.insert(key, fulfillment);
        Ok(())
    }

    fn list_fulfillments_by_provider(&self, provider_id: &str) -> (list: Vec<&Fulfillment>) {
        self.fulfillments.distinct();
        let ghost wanted = fulfillment_of_provider(provider_id@);
        let mut list: Vec<&Fulfillment> = Vec::new();
        let mut i: usize = 0;
        let ghost mut picked: Seq<int> = Seq::empty();
        while i < self.fulfillments.len()
            invariant
                i <= self.fulfillments.entries().len(),
                keys_distinct(self.fulfillments.entries()),
                wanted == fulfillment_of_provider(provider_id@),
                lists_first(list@, picked, self.fulfillments, wanted, i as int),
            decreases self.fulfillments.entries().len() - i,
        {
            let fulfillment = self.fulfillments.value_at(i);
            let ghost before = list@;
            let matches = str_eq(fulfillment.provider_id.as_str(), provider_id);
            if matches {
                list.push(fulfillment);
            }
            proof {
                lemma_lists_next(before, picked, self.fulfillments, wanted, i as int, list@);
                if matches {
                    picked = picked.push(i as int);
                }
            }
            i += 1;
        }
        proof {
            lemma_lists_all(list@, picked, self.fulfillments, wanted);
        }
        list
    }

    fn register_subscriber(&mut self, subscriber: Subscriber) -> (registered: StorageResult<()>) {
        if self.subscribers.contains_key(subscriber.id.as_str()) {
            return Err(
                StorageError::Duplicate(
                    join3("Subscriber with ID ", subscriber.id.as_str(), " already exists"),
                ),
            );
        }
        let key = subscriber.id.clone();
        self.subscribers.insert(key, subscriber);
        Ok(())
    }

    fn get_subscriber(&self, id: &str) -> (found: StorageResult<&Subscriber>) {
        match self.subscribers.get(id) {
            Some(subscriber) => Ok(subscriber),
            None => Err(StorageError::NotFound(join3("Subscriber with ID ", id, " not found"))),
        }
    }

    fn lookup_subscriber(&self, lookup: &NetworkRegistryLookup) -> (found: StorageResult<
        &Subscriber,
    >) {
        self.subscribers.distinct();
        let mut i: usize = 0;
        while i < self.subscribers.len()
            invariant
                i <= self.subscribers.entries().len(),
                keys_distinct(self.subscribers.entries()),
                forall|j: int|
                    0 <= j < i ==> !subscriber_sought(*lookup)(
                        (#[trigger] self.subscribers.entries()[j]).1,
                    ),
            decreases self.subscribers.entries().len() - i,
        {
            let subscriber = self.subscribers.value_at(i);
            if str_eq(subscriber.type_field.as_str(), lookup.type_field.as_str()) && str_eq(
                subscriber.domain.as_str(),
                lookup.domain.as_str(),
            ) {
                proof {
                    lemma_entry_found(self.subscribers.entries(), i as int);
                }
                return Ok(subscriber);
            }
            i += 1;
        }
        proof {
            assert forall|key: Seq<char>| self@.subscribers.contains_key(key) implies !subscriber_sought(
                *lookup,
            )(#[trigger] self@.subscribers[key]) by {
                let p = position_of(self.subscribers.entries(), key);
                assert(!subscriber_sought(*lookup)(self.subscribers.entries()[p].1));
            }
        }
        Err(
            StorageError::NotFound(
                join2("No matching subscriber found for type ", lookup.type_field.as_str()),
            ),
        )
    }

    fn list_subscribers(&self) -> (list: Vec<&Subscriber>) {
        self.subscribers.distinct();
        let list = self.subscribers.all();
        proof {
            lemma_all_listed(list@, self.subscribers);
        }
        list
    }

    fn record_transaction(&mut self, transaction_id: &str, data: String) -> (recorded:
        StorageResult<()>) {
        self.transactions.insert(owned(transaction_id), data);
        Ok(())
    }

    fn get_transaction(&self, transaction_id: &str) -> (found: StorageResult<&String>) {
        match self.transactions.get(transaction_id) {
            Some(data) => Ok(data),
            None => Err(
                StorageError::NotFound(
                    join3("Transaction with ID ", transaction_id, " not found"),
                ),
            ),
        }
    }
}

} // verus!
