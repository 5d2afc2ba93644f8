use rust_uhi::models::catalog::{Catalog, Item, Price};
use rust_uhi::models::fulfillment::{Fulfillment, Time, TimeSlot};
use rust_uhi::models::provider::{Category, Descriptor, Location};
use rust_uhi::numeral::is_decimal_number;
use rust_uhi::services::catalog::{CatalogService, CatalogServiceConfig, ItemAvailability};
use rust_uhi::services::error::ServiceError;
use rust_uhi::services::provider::ProviderService;
use rust_uhi::tags::TagMap;
use rust_uhi::time::Timestamp;

const MONDAY_10AM: i64 = 1_704_103_200;

fn descriptor(name: &str) -> Descriptor {
    Descriptor { name: name.to_string(), short_desc: None, long_desc: None, images: None }
}

fn test_item(id: &str, price: &str) -> Item {
    Item {
        id: id.to_string(),
        parent_item_id: None,
        descriptor: Descriptor {
            name: "Test Item".to_string(),
            short_desc: Some("A test item".to_string()),
            long_desc: None,
            images: None,
        },
        price: Price { currency: "INR".to_string(), value: price.to_string(), maximum_value: None },
        category_id: "cat-1".to_string(),
        fulfillment_id: "fulfillment-1".to_string(),
        location_id: Some("loc-1".to_string()),
        time: None,
        recommended: None,
        tags: None,
    }
}

fn create_test_catalog() -> Catalog {
    Catalog {
        descriptor: Descriptor {
            name: "Test Catalog".to_string(),
            short_desc: Some("A test catalog".to_string()),
            long_desc: None,
            images: None,
        },
        categories: vec![Category {
            id: "cat-1".to_string(),
            descriptor: descriptor("Test Category"),
            time: None,
            tags: None,
        }],
        fulfillments: vec!["fulfillment-1".to_string()],
        payments: vec!["payment-1".to_string()],
        locations: vec![Location {
            id: "loc-1".to_string(),
            descriptor: descriptor("Test Location"),
            gps: "12.9716,77.5946".to_string(),
            address: None,
            city: None,
            state: None,
            country: None,
            area_code: None,
        }],
        items: vec![test_item("item-1", "100.0")],
        exp: None,
    }
}

#[test]
fn test_create_catalog() {
    let service = CatalogService::new();
    let catalog = create_test_catalog();
    let now = Timestamp::from_seconds(MONDAY_10AM);

    let result = service.create_catalog(catalog, &now);
    assert!(result.is_ok());

    let created = result.unwrap();
    assert_eq!(created.descriptor.name, "Test Catalog");
    assert_eq!(created.items.len(), 1);
    assert!(created.exp.is_some());
    // A day later, by default.
    assert_eq!(created.exp.unwrap(), Timestamp::from_seconds(MONDAY_10AM + 24 * 3600));
}

#[test]
fn catalog_keeps_its_own_expiry() {
    let service = CatalogService::with_config(CatalogServiceConfig {
        catalog_ttl_default: 1,
        ..CatalogServiceConfig::default()
    });
    let now = Timestamp::from_seconds(MONDAY_10AM);
    let mut catalog = create_test_catalog();
    catalog.exp = Some(Timestamp::from_seconds(5));
    let stored = service.update_catalog(catalog, &now).unwrap();
    assert_eq!(stored.exp, Some(Timestamp::from_seconds(5)));

    let fresh = service.update_catalog(create_test_catalog(), &now).unwrap();
    assert_eq!(fresh.exp, Some(Timestamp::from_seconds(MONDAY_10AM + 3600)));

    let endless = CatalogService::with_config(CatalogServiceConfig {
        catalog_ttl_default: u64::MAX,
        ..CatalogServiceConfig::default()
    });
    let stored = endless.create_catalog(create_test_catalog(), &now).unwrap();
    assert_eq!(stored.exp.unwrap().seconds, i64::MAX);
}

#[test]
fn expired_catalog_is_not_handed_out() {
    let mut catalog = create_test_catalog();
    catalog.exp = Some(Timestamp::from_seconds(MONDAY_10AM));
    let earlier = Timestamp::from_seconds(MONDAY_10AM - 1);
    let same = Timestamp::from_seconds(MONDAY_10AM);
    let later = Timestamp::from_seconds(MONDAY_10AM + 1);
    assert!(CatalogService::get_catalog("p", catalog.clone(), &earlier).is_ok());
    assert!(CatalogService::get_catalog("p", catalog.clone(), &same).is_ok());
    match CatalogService::get_catalog("p", catalog, &later) {
        Err(ServiceError::BusinessLogic(message)) => {
            assert_eq!(message, "Catalog for provider p has expired")
        }
        other => panic!("expected a business-logic error, got {:?}", other),
    }
    assert!(CatalogService::get_catalog("p", create_test_catalog(), &later).is_ok());
}

#[test]
fn test_select_items() {
    let service = CatalogService::new();
    let catalog = create_test_catalog();

    let result = service.select(catalog.items, &vec!["item-1".to_string()]);
    assert!(result.is_ok());

    let selected = result.unwrap();
    assert_eq!(selected.len(), 1);
    assert_eq!(selected[0].id, "item-1");
}

#[test]
fn selection_is_checked_and_filtered() {
    let service = CatalogService::with_config(CatalogServiceConfig {
        max_items_per_selection: 2,
        ..CatalogServiceConfig::default()
    });
    let items = vec![test_item("a", "1"), test_item("b", "2"), test_item("c", "3")];

    match service.select(items.clone(), &Vec::new()) {
        Err(ServiceError::Validation(message)) => assert_eq!(message, "No items selected"),
        other => panic!("expected a validation error, got {:?}", other),
    }
    let three = vec!["a".to_string(), "b".to_string(), "c".to_string()];
    match service.select(items.clone(), &three) {
        Err(ServiceError::Validation(message)) => {
            assert_eq!(message, "Cannot select more than 2 items at once")
        }
        other => panic!("expected a validation error, got {:?}", other),
    }
    match service.select(items.clone(), &vec!["x".to_string()]) {
        Err(ServiceError::NotFound(message)) => assert_eq!(message, "No matching items found"),
        other => panic!("expected a not-found error, got {:?}", other),
    }
    // The items come in the order of the catalog, whatever the selection.
    let found = service.select(items, &vec!["c".to_string(), "a".to_string()]).unwrap();
    let ids: Vec<&str> = found.iter().map(|item| item.id.as_str()).collect();
    assert_eq!(ids, vec!["a", "c"]);
}

#[test]
fn test_on_select_quotation() {
    let service = CatalogService::new();
    let catalog = create_test_catalog();
    let hours = ProviderService::get_default_working_hours("provider-3");
    let items = vec![catalog.items[0].clone()];

    let availability =
        CatalogService::check_item_availability(&hours, &Vec::new(), &items).unwrap();
    // The total is summed by the caller and handed in as text.
    let result = service.on_select(&items, &availability, "100".to_string());
    assert!(result.is_ok());

    let quotation = result.unwrap();
    assert_eq!(quotation.price.value, "100");
    assert_eq!(quotation.breakup.len(), 1);
    assert_eq!(quotation.breakup[0].title, "Test Item");
    assert_eq!(quotation.breakup[0].price.value, "100.0");
    assert_eq!(quotation.price.currency, "INR");
    assert_eq!(quotation.ttl, "PT15M");

    // The quotation shows the total that it was handed, whatever it is.
    let other = service.on_select(&items, &availability, "250.5".to_string()).unwrap();
    assert_eq!(other.price.value, "250.5");
    assert_eq!(other.breakup[0].price.value, "100.0");
}

#[test]
fn quotation_for_nothing_is_in_rupees() {
    let service = CatalogService::with_config(CatalogServiceConfig {
        quotation_ttl_default: 90,
        ..CatalogServiceConfig::default()
    });
    let quotation = service.on_select(&Vec::new(), &Vec::new(), "0".to_string()).unwrap();
    assert_eq!(quotation.price.currency, "INR");
    assert_eq!(quotation.price.value, "0");
    assert!(quotation.breakup.is_empty());
    assert_eq!(quotation.ttl, "PT90M");

    let mut euro = test_item("a", "5");
    euro.price.currency = "EUR".to_string();
    euro.price.maximum_value = Some("7".to_string());
    let quotation = service.on_select(&vec![euro, test_item("b", "6")], &Vec::new(), "11".to_string());
    let quotation = quotation.unwrap();
    assert_eq!(quotation.price.currency, "EUR");
    assert_eq!(quotation.breakup[0].price.maximum_value, Some("7".to_string()));
    assert_eq!(quotation.breakup[1].price.currency, "INR");
}

#[test]
fn unavailable_item_blocks_the_quotation() {
    let service = CatalogService::new();
    let hours = ProviderService::get_default_working_hours("p");
    let mut on_monday = test_item("monday", "10");
    on_monday.time = Some(Timestamp::from_seconds(MONDAY_10AM));
    let mut on_sunday = test_item("sunday", "20");
    on_sunday.time = Some(Timestamp::from_seconds(MONDAY_10AM + 6 * 86_400));
    let any_time = test_item("any", "30");
    let items = vec![on_monday, on_sunday, any_time];

    let availability =
        CatalogService::check_item_availability(&hours, &Vec::new(), &items).unwrap();
    let seen: Vec<(&str, bool)> =
        availability.iter().map(|a| (a.item_id.as_str(), a.available)).collect();
    assert_eq!(seen, vec![("monday", true), ("sunday", false), ("any", true)]);
    assert_eq!(CatalogService::first_unavailable(&availability), Some(1));

    match service.on_select(&items, &availability, "60".to_string()) {
        Err(ServiceError::BusinessLogic(message)) => {
            assert_eq!(message, "Item sunday is currently unavailable")
        }
        other => panic!("expected a business-logic error, got {:?}", other),
    }

    // A booking at the time of the item takes the slot.
    let start = Timestamp::from_seconds(MONDAY_10AM);
    let taken = vec![Fulfillment {
        id: "f".to_string(),
        fulfillment_type: "t".to_string(),
        provider_id: "p".to_string(),
        agent: None,
        start: TimeSlot { time: Time { timestamp: start, label: None }, duration: Some(1800) },
        end: TimeSlot { time: Time { timestamp: start, label: None }, duration: None },
        customer: None,
        state: None,
        tags: TagMap::new(),
    }];
    let availability = CatalogService::check_item_availability(&hours, &taken, &items).unwrap();
    assert!(!availability[0].available);

    let mut beyond = test_item("beyond", "1");
    beyond.time = Some(Timestamp::from_seconds(i64::MAX - 5));
    assert!(matches!(
        CatalogService::check_item_availability(&hours, &Vec::new(), &vec![beyond]),
        Err(ServiceError::Validation(_))
    ));
    let all_fine = vec![ItemAvailability { item_id: "a".to_string(), available: true }];
    assert_eq!(CatalogService::first_unavailable(&all_fine), None);
}

#[test]
fn test_validate_catalog_invalid_price() {
    let service = CatalogService::new();
    let mut catalog = create_test_catalog();
    catalog.items[0].price.value = "not-a-number".to_string();

    let result = service.validate_catalog(&catalog);
    assert!(result.is_err());

    if let Err(ServiceError::Validation(msg)) = result {
        assert!(msg.contains("Invalid price value"));
    } else {
        panic!("Expected ValidationError");
    }
}

#[test]
fn test_validate_catalog_invalid_category() {
    let service = CatalogService::new();
    let mut catalog = create_test_catalog();
    catalog.items[0].category_id = "non-existent-category".to_string();

    let result = service.validate_catalog(&catalog);
    assert!(result.is_err());

    if let Err(ServiceError::Validation(msg)) = result {
        assert!(msg.contains("Category"));
        assert!(msg.contains("does not exist"));
    } else {
        panic!("Expected ValidationError");
    }
}

#[test]
fn catalog_validation_names_the_first_fault() {
    let service = CatalogService::new();
    assert!(service.validate_catalog(&create_test_catalog()).is_ok());

    let fault = |change: &dyn Fn(&mut Catalog)| -> String {
        let mut catalog = create_test_catalog();
        change(&mut catalog);
        match service.validate_catalog(&catalog) {
            Err(ServiceError::Validation(message)) => message,
            other => panic!("expected a validation error, got {:?}", other),
        }
    };
    assert_eq!(fault(&|c| c.descriptor.name.clear()), "Catalog name is required");
    assert_eq!(fault(&|c| c.items[0].id.clear()), "Item ID is required");
    assert_eq!(
        fault(&|c| c.items[0].descriptor.name.clear()),
        "Item name is required for item ID: item-1"
    );
    assert_eq!(
        fault(&|c| c.items[0].price.value.clear()),
        "Item price is required for item ID: item-1"
    );
    assert_eq!(
        fault(&|c| c.items[0].price.value = "1,5".to_string()),
        "Invalid price value for item ID: item-1"
    );
    assert_eq!(
        fault(&|c| c.items[0].category_id = "cat-9".to_string()),
        "Category cat-9 referenced by item item-1 does not exist in catalog"
    );
    assert_eq!(
        fault(&|c| c.items[0].location_id = Some("loc-9".to_string())),
        "Location loc-9 referenced by item item-1 does not exist in catalog"
    );
    // The second item is checked too; an item without location is fine.
    assert_eq!(
        fault(&|c| c.items.push(test_item("item-2", "x"))),
        "Invalid price value for item ID: item-2"
    );
    let mut catalog = create_test_catalog();
    catalog.items[0].location_id = None;
    catalog.items.push(test_item("item-2", "2e3"));
    assert!(service.validate_catalog(&catalog).is_ok());
    assert!(CatalogService::validate_item(&catalog, &catalog.items[1]).is_ok());
    // An empty catalog with a name is valid.
    catalog.items.clear();
    assert!(service.validate_catalog(&catalog).is_ok());
}

#[test]
fn numbers_are_what_the_language_reads_as_numbers() {
    let samples = [
        "0", "100", "100.0", "-1", "+1", "1.", ".5", "-.5", "+5.", "1e5", "1E5", "1e+5", "1e-5",
        "1.5e10", ".5e1", "5.e1", "inf", "-inf", "+INF", "Infinity", "INFINITY", "-infinity",
        "nan", "NaN", "-nan", "+NAN", "007", "1e0005", "123456789012345678901234567890",
        "", ".", "+", "-", "e", "e5", "1e", "1e+", "1e-", ".e1", "+.", "1.2.3", "1..2", "--1",
        "+-1", "1 ", " 1", "1_000", "0x10", "1,5", "1f", "infinit", "infinityy", "in", "na",
        "nane", "1e5.5", "1e5e5", "٣", "1\u{0660}", "½", "1\n", "not-a-number", "12a", "a12",
        "1e٣", "i", "n", "nan ", "1.0.", "..", "1-", "1+1", "1ee1", "E1", "+e1", "-.e1",
    ];
    for sample in samples {
        assert_eq!(
            is_decimal_number(sample),
            sample.parse::<f64>().is_ok(),
            "disagreement on {:?}",
            sample
        );
    }
}

fn answer(
    name: &str,
    categories: &[&str],
    fulfillments: &[&str],
    locations: &[&str],
    items: &[&str],
) -> rust_uhi::models::catalog::SearchResponse {
    let mut catalog = create_test_catalog();
    catalog.descriptor = descriptor(name);
    catalog.categories = categories
        .iter()
        .map(|id| Category {
            id: id.to_string(),
            descriptor: descriptor(name),
            time: None,
            tags: None,
        })
        .collect();
    catalog.fulfillments = fulfillments.iter().map(|id| id.to_string()).collect();
    catalog.payments = vec![format!("payment of {}", name)];
    catalog.locations = locations
        .iter()
        .map(|id| Location {
            id: id.to_string(),
            descriptor: descriptor(name),
            gps: "12.9716,77.5946".to_string(),
            address: None,
            city: None,
            state: None,
            country: None,
            area_code: None,
        })
        .collect();
    catalog.items = items.iter().map(|id| test_item(id, "10.0")).collect();
    rust_uhi::models::catalog::SearchResponse { catalog }
}

#[test]
fn no_answers_merge_to_nothing() {
    let service = rust_uhi::services::search::SearchService::new();
    match service.merge_search_results(Vec::new()) {
        Err(ServiceError::NotFound(message)) => assert_eq!(message, "No search results found"),
        other => panic!("expected a not-found error, got {:?}", other),
    }
}

#[test]
fn one_answer_merges_to_itself() {
    let service = rust_uhi::services::search::SearchService::new();
    let only = answer("first", &["c1", "c1"], &["f1", "f1"], &["l1", "l1"], &["i1", "i1"]);
    let merged = service.merge_search_results(vec![only]).unwrap().catalog;
    assert_eq!(merged.descriptor.name, "first");
    assert_eq!(merged.categories.len(), 2);
    assert_eq!(merged.fulfillments, vec!["f1", "f1"]);
    assert_eq!(merged.locations.len(), 2);
    assert_eq!(merged.items.len(), 2);
}

#[test]
fn answers_merge_in_the_order_given() {
    let service = rust_uhi::services::search::SearchService::new();
    let answers = vec![
        answer("first", &["c1", "c2"], &["f1"], &["l1"], &["i1"]),
        answer("second", &["c2", "c3", "c3"], &["f1", "f2"], &["l2", "l1"], &["i1", "i2"]),
        answer("third", &["c4", "c1"], &["f3", "f2"], &["l3"], &[]),
    ];
    let merged = service.merge_search_results(answers).unwrap().catalog;

    assert_eq!(merged.descriptor.name, "first");
    assert_eq!(merged.payments, vec!["payment of first"]);
    assert_eq!(merged.exp, None);

    let ids = |items: &Vec<Item>| items.iter().map(|i| i.id.clone()).collect::<Vec<_>>();
    assert_eq!(ids(&merged.items), vec!["i1", "i1", "i2"]);

    let categories: Vec<(String, String)> = merged
        .categories
        .iter()
        .map(|c| (c.id.clone(), c.descriptor.name.clone()))
        .collect();
    let expected = [("c1", "first"), ("c2", "first"), ("c3", "second"), ("c4", "third")];
    assert_eq!(categories.len(), expected.len());
    for (got, want) in categories.iter().zip(expected.iter()) {
        assert_eq!((got.0.as_str(), got.1.as_str()), *want);
    }

    assert_eq!(merged.fulfillments, vec!["f1", "f2", "f3"]);

    let locations: Vec<(String, String)> = merged
        .locations
        .iter()
        .map(|l| (l.id.clone(), l.descriptor.name.clone()))
        .collect();
    let expected = [("l1", "first"), ("l2", "second"), ("l3", "third")];
    assert_eq!(locations.len(), expected.len());
    for (got, want) in locations.iter().zip(expected.iter()) {
        assert_eq!((got.0.as_str(), got.1.as_str()), *want);
    }
}
