use rust_uhi::models::catalog::Catalog;
use rust_uhi::models::provider::{Category, Descriptor, Provider};
use rust_uhi::services::error::ServiceError;
use rust_uhi::services::provider::ProviderService;
use rust_uhi::storage::memory::MemoryStorage;
use rust_uhi::storage::{Storage, StorageError};
use rust_uhi::table::Table;
use rust_uhi::tags::TagMap;
use rust_uhi::time::Timestamp;
use uuid::Uuid;

fn now() -> Timestamp {
    Timestamp::from_seconds(1_704_103_200)
}

fn create_test_provider() -> Provider {
    Provider {
        id: Uuid::new_v4().to_string(),
        descriptor: Descriptor {
            name: "Test Healthcare Provider".to_string(),
            short_desc: Some("Short description".to_string()),
            long_desc: Some("Long description of the provider".to_string()),
            images: Some(vec!["http://example.com/image.jpg".to_string()]),
        },
        categories: vec![Category {
            id: "cat1".to_string(),
            descriptor: Descriptor {
                name: "Cardiology".to_string(),
                short_desc: Some("Heart related services".to_string()),
                long_desc: None,
                images: None,
            },
            time: Some(now()),
            tags: Some(TagMap::new()),
        }],
        created_at: now(),
        updated_at: now(),
    }
}

fn named_provider(id: &str, name: &str) -> Provider {
    Provider {
        id: id.to_string(),
        descriptor: Descriptor {
            name: name.to_string(),
            short_desc: Some("A test provider".to_string()),
            long_desc: None,
            images: None,
        },
        categories: Vec::new(),
        created_at: now(),
        updated_at: now(),
    }
}

fn provider_with_specialty(id: &str, name: &str, specialty: &str) -> Provider {
    let mut provider = named_provider(id, name);
    let mut tags = TagMap::new();
    tags.insert("code".to_string(), specialty.to_string());
    provider.categories.push(Category {
        id: format!("cat-{}", specialty.to_lowercase()),
        descriptor: Descriptor {
            name: specialty.to_string(),
            short_desc: Some(format!("{} services", specialty)),
            long_desc: None,
            images: None,
        },
        time: None,
        tags: Some(tags),
    });
    provider
}

fn empty_catalog(name: &str) -> Catalog {
    Catalog {
        descriptor: Descriptor {
            name: name.to_string(),
            short_desc: None,
            long_desc: None,
            images: None,
        },
        categories: Vec::new(),
        fulfillments: Vec::new(),
        payments: Vec::new(),
        locations: Vec::new(),
        items: Vec::new(),
        exp: None,
    }
}

#[test]
fn test_create_provider() {
    let mut storage = MemoryStorage::new();
    let provider = create_test_provider();
    let provider_id = provider.id.clone();
    storage.create_provider(provider.clone()).unwrap();
    let saved = storage.get_provider(&provider_id).unwrap();
    assert_eq!(saved.id, provider_id);
}

#[test]
fn test_get_provider() {
    let mut storage = MemoryStorage::new();
    let provider = create_test_provider();
    let provider_id = provider.id.clone();
    storage.create_provider(provider.clone()).unwrap();
    let retrieved = storage.get_provider(&provider_id).unwrap();
    assert_eq!(retrieved.id, provider_id);
}

#[test]
fn tests_test_list_providers() {
    let mut storage = MemoryStorage::new();
    let provider = create_test_provider();
    storage.create_provider(provider).unwrap();
    let providers = storage.list_providers();
    assert_eq!(providers.len(), 1);
}

#[test]
fn tests_test_update_provider() {
    let mut storage = MemoryStorage::new();
    let mut provider = create_test_provider();
    let provider_id = provider.id.clone();
    storage.create_provider(provider.clone()).unwrap();
    provider.descriptor.name = "Updated Provider Name".to_string();
    storage.update_provider(provider).unwrap();
    let updated = storage.get_provider(&provider_id).unwrap();
    assert_eq!(updated.id, provider_id);
    assert_eq!(updated.descriptor.name, "Updated Provider Name");
}

#[test]
fn tests_test_delete_provider() {
    let mut storage = MemoryStorage::new();
    let provider = create_test_provider();
    let provider_id = provider.id.clone();
    storage.create_provider(provider).unwrap();
    storage.delete_provider(&provider_id).unwrap();
}

#[test]
fn test_provider_not_found_after_deletion() {
    let mut storage = MemoryStorage::new();
    let provider = create_test_provider();
    let provider_id = provider.id.clone();
    storage.create_provider(provider.clone()).unwrap();
    storage.delete_provider(&provider_id).unwrap();
    let result = storage.get_provider(&provider_id);
    assert!(result.is_err());
}

#[test]
fn test_register_provider() {
    let mut storage = MemoryStorage::new();
    let provider = named_provider("test-provider-1", "Test Provider 1");

    let result = ProviderService::register_provider(&mut storage, provider);
    assert!(result.is_ok());

    let retrieved = ProviderService::get_provider(&storage, "test-provider-1");
    assert!(retrieved.is_ok());
    assert_eq!(retrieved.unwrap().descriptor.name, "Test Provider 1");
}

#[test]
fn provider_test_update_provider() {
    let mut storage = MemoryStorage::new();
    let provider = named_provider("test-provider-2", "Test Provider 2");
    ProviderService::register_provider(&mut storage, provider).unwrap();

    let mut updated_provider = named_provider("test-provider-2", "Updated Provider 2");
    updated_provider.descriptor.short_desc = Some("Updated description".to_string());

    let result = ProviderService::update_provider(&mut storage, updated_provider);
    assert!(result.is_ok());

    let retrieved = ProviderService::get_provider(&storage, "test-provider-2");
    assert!(retrieved.is_ok());
    let retrieved_provider = retrieved.unwrap();
    assert_eq!(retrieved_provider.descriptor.name, "Updated Provider 2");
    assert_eq!(retrieved_provider.descriptor.short_desc, Some("Updated description".to_string()));
}

#[test]
fn provider_test_delete_provider() {
    let mut storage = MemoryStorage::new();
    let provider = named_provider("test-provider-3", "Test Provider 3");
    ProviderService::register_provider(&mut storage, provider).unwrap();

    let result = ProviderService::delete_provider(&mut storage, "test-provider-3");
    assert!(result.is_ok());

    let retrieved = ProviderService::get_provider(&storage, "test-provider-3");
    assert!(retrieved.is_err());
}

#[test]
fn provider_test_list_providers() {
    let mut storage = MemoryStorage::new();

    let empty_list = ProviderService::list_providers(&storage);
    assert_eq!(empty_list.len(), 0);

    ProviderService::register_provider(
        &mut storage,
        named_provider("test-provider-4a", "Test Provider 4A"),
    )
    .unwrap();
    ProviderService::register_provider(
        &mut storage,
        named_provider("test-provider-4b", "Test Provider 4B"),
    )
    .unwrap();

    let providers = ProviderService::list_providers(&storage);
    assert_eq!(providers.len(), 2);

    let provider_ids: Vec<String> = providers.iter().map(|p| p.id.clone()).collect();
    assert!(provider_ids.contains(&"test-provider-4a".to_string()));
    assert!(provider_ids.contains(&"test-provider-4b".to_string()));
}

#[test]
fn provider_service_reports_what_the_store_refuses() {
    let mut storage = MemoryStorage::new();
    ProviderService::register_provider(&mut storage, named_provider("p", "First")).unwrap();

    match ProviderService::register_provider(&mut storage, named_provider("p", "Second")) {
        Err(ServiceError::Storage(StorageError::Duplicate(_))) => {}
        other => panic!("expected a duplicate, got {:?}", other),
    }
    assert_eq!(ProviderService::get_provider(&storage, "p").unwrap().descriptor.name, "First");

    for result in [
        ProviderService::update_provider(&mut storage, named_provider("q", "Q")),
        ProviderService::delete_provider(&mut storage, "q"),
    ] {
        assert!(matches!(result, Err(ServiceError::NotFound(_))));
    }
    assert!(matches!(
        ProviderService::get_provider(&storage, "q"),
        Err(ServiceError::NotFound(_))
    ));
    assert_eq!(ProviderService::list_providers(&storage).len(), 1);

    let hours = ProviderService::working_hours_of(&storage, "p").unwrap();
    assert_eq!(hours.provider_id, "p");
    assert!(hours.exceptions.is_empty());
    assert!(matches!(
        ProviderService::working_hours_of(&storage, "q"),
        Err(ServiceError::NotFound(_))
    ));
}

#[test]
fn test_find_providers_by_specialty() {
    let mut storage = MemoryStorage::new();
    storage
        .create_provider(provider_with_specialty(
            "test-provider-specialty-1",
            "Cardiology Center",
            "CARDIOLOGY",
        ))
        .unwrap();
    storage
        .create_provider(provider_with_specialty(
            "test-provider-specialty-2",
            "Orthopedic Center",
            "ORTHOPEDICS",
        ))
        .unwrap();
    storage
        .create_provider(provider_with_specialty(
            "test-provider-specialty-3",
            "Heart Specialists",
            "CARDIOLOGY",
        ))
        .unwrap();
    let all = || -> Vec<Provider> { storage.list_providers().into_iter().cloned().collect() };

    let cardiology_results = ProviderService::find_providers_by_specialty(all(), "CARDIOLOGY");
    assert_eq!(cardiology_results.len(), 2);
    let cardiology_ids: Vec<String> = cardiology_results.iter().map(|p| p.id.clone()).collect();
    assert!(cardiology_ids.contains(&"test-provider-specialty-1".to_string()));
    assert!(cardiology_ids.contains(&"test-provider-specialty-3".to_string()));

    let orthopedic_results = ProviderService::find_providers_by_specialty(all(), "ORTHOPEDICS");
    assert_eq!(orthopedic_results.len(), 1);
    assert_eq!(orthopedic_results[0].id, "test-provider-specialty-2");

    let non_existent = ProviderService::find_providers_by_specialty(all(), "NEUROLOGY");
    assert_eq!(non_existent.len(), 0);
}

#[test]
fn specialty_codes_are_compared_without_regard_to_case() {
    let providers = vec![
        provider_with_specialty("a", "A", "Cardiology"),
        named_provider("b", "B"),
        provider_with_specialty("c", "C", "straße"),
    ];
    let found = ProviderService::find_providers_by_specialty(providers.clone(), "cArDiOlOgY");
    assert_eq!(found.len(), 1);
    assert_eq!(found[0].id, "a");
    // Upper case is what Unicode says it is.
    let found = ProviderService::find_providers_by_specialty(providers.clone(), "STRASSE");
    assert_eq!(found.len(), 1);
    assert_eq!(found[0].id, "c");
    assert!(!ProviderService::provider_has_specialty(&providers[1], "CARDIOLOGY"));
    // A category without the tag does not count.
    let mut untagged = provider_with_specialty("d", "D", "x");
    untagged.categories[0].tags = Some(TagMap::new());
    assert!(!ProviderService::provider_has_specialty(&untagged, "x"));
    untagged.categories[0].tags = None;
    assert!(!ProviderService::provider_has_specialty(&untagged, "x"));
}

#[test]
fn creating_twice_is_a_duplicate_and_changes_nothing() {
    let mut storage = MemoryStorage::new();
    storage.create_provider(named_provider("p", "First")).unwrap();
    match storage.create_provider(named_provider("p", "Second")) {
        Err(StorageError::Duplicate(message)) => {
            assert_eq!(message, "Provider with ID p already exists")
        }
        other => panic!("expected a duplicate, got {:?}", other),
    }
    assert_eq!(storage.get_provider("p").unwrap().descriptor.name, "First");
    assert_eq!(storage.list_providers().len(), 1);
}

#[test]
fn missing_records_are_not_found() {
    let mut storage = MemoryStorage::new();
    match storage.get_provider("nobody") {
        Err(StorageError::NotFound(message)) => {
            assert_eq!(message, "Provider with ID nobody not found")
        }
        other => panic!("expected not found, got {:?}", other),
    }
    assert!(matches!(
        storage.update_provider(named_provider("nobody", "x")),
        Err(StorageError::NotFound(_))
    ));
    assert!(matches!(storage.delete_provider("nobody"), Err(StorageError::NotFound(_))));
    assert!(matches!(storage.get_order("o"), Err(StorageError::NotFound(_))));
    assert!(matches!(storage.get_fulfillment("f"), Err(StorageError::NotFound(_))));
    assert!(matches!(storage.get_subscriber("s"), Err(StorageError::NotFound(_))));
    assert!(matches!(storage.get_catalog("p"), Err(StorageError::NotFound(_))));
    assert!(matches!(storage.get_transaction("t"), Err(StorageError::NotFound(_))));
    assert!(matches!(storage.search_catalog(), Err(StorageError::NotFound(_))));
    assert!(storage.list_orders_by_provider("p").is_empty());
    assert!(storage.list_orders_by_customer("c").is_empty());
    assert!(storage.list_fulfillments_by_provider("p").is_empty());
    assert!(storage.list_subscribers().is_empty());
    // At the level of the services, a missing record is simply not found.
    let lifted = ServiceError::from(storage.get_provider("nobody").unwrap_err());
    assert!(matches!(lifted, ServiceError::NotFound(_)));
}

#[test]
fn catalogs_belong_to_stored_providers() {
    let mut storage = MemoryStorage::new();
    assert!(matches!(
        storage.create_catalog("p", empty_catalog("early")),
        Err(StorageError::NotFound(_))
    ));
    storage.create_provider(named_provider("p", "P")).unwrap();
    storage.create_catalog("p", empty_catalog("first")).unwrap();
    assert!(matches!(
        storage.create_catalog("p", empty_catalog("again")),
        Err(StorageError::Duplicate(_))
    ));
    assert_eq!(storage.get_catalog("p").unwrap().descriptor.name, "first");
    assert_eq!(storage.search_catalog().unwrap().descriptor.name, "first");
    storage.update_catalog("p", empty_catalog("second")).unwrap();
    assert_eq!(storage.get_catalog("p").unwrap().descriptor.name, "second");
    assert!(matches!(
        storage.update_catalog("q", empty_catalog("x")),
        Err(StorageError::NotFound(_))
    ));
    // Catalogs and providers are kept apart.
    storage.delete_provider("p").unwrap();
    assert!(storage.get_catalog("p").is_ok());
}

#[test]
fn test_track_search_transaction() {
    let mut storage = MemoryStorage::new();
    let transaction_id = "test-transaction-123".to_string();
    let data = "{\"transaction_id\":\"test-transaction-123\",\"specialty\":[\"Cardiology\"]}";

    let result = storage.record_transaction(&transaction_id, data.to_string());
    assert!(result.is_ok());

    let retrieved = storage.get_transaction(&transaction_id);
    assert!(retrieved.is_ok());
    assert_eq!(retrieved.unwrap(), data);

    // A second record replaces the first.
    storage.record_transaction(&transaction_id, "{}".to_string()).unwrap();
    assert_eq!(storage.get_transaction(&transaction_id).unwrap(), "{}");
}

#[test]
fn tables_keep_the_order_of_arrival() {
    let mut table: Table<u32> = Table::new();
    assert!(table.is_empty());
    table.insert("b".to_string(), 2);
    table.insert("a".to_string(), 1);
    table.insert("c".to_string(), 3);
    table.insert("a".to_string(), 10);
    assert_eq!(table.len(), 3);
    assert_eq!(table.key_at(0), "b");
    assert_eq!(table.key_at(1), "a");
    assert_eq!(*table.value_at(1), 10);
    assert_eq!(table.all(), vec![&2, &10, &3]);
    assert_eq!(table.get("c"), Some(&3));
    assert_eq!(table.get("d"), None);
    assert!(table.contains_key("b"));

    assert_eq!(table.remove("b"), Some(2));
    assert_eq!(table.remove("b"), None);
    assert_eq!(table.all(), vec![&10, &3]);
    assert_eq!(table.key_at(0), "a");
    assert!(!table.contains_key("b"));
    table.distinct();
}

#[test]
fn lists_show_each_record_once() {
    let mut storage = MemoryStorage::new();
    for id in ["a", "b", "c"] {
        ProviderService::register_provider(&mut storage, named_provider(id, "Same Name"))
            .unwrap();
    }
    ProviderService::update_provider(&mut storage, named_provider("b", "Same Name")).unwrap();
    let mut ids: Vec<String> = storage.list_providers().iter().map(|p| p.id.clone()).collect();
    ids.sort();
    assert_eq!(ids, vec!["a", "b", "c"]);

    ProviderService::delete_provider(&mut storage, "a").unwrap();
    let mut ids: Vec<String> = storage.list_providers().iter().map(|p| p.id.clone()).collect();
    ids.sort();
    assert_eq!(ids, vec!["b", "c"]);
}
