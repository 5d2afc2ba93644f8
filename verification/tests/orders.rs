use rust_uhi::models::billing::{Address, Billing};
use rust_uhi::models::fulfillment::{Fulfillment, State, Time, TimeSlot};
use rust_uhi::models::order::{Order, OrderStatus, ProviderSummary};
use rust_uhi::services::error::ServiceError;
use rust_uhi::services::fulfillment::{FulfillmentService, FulfillmentState};
use rust_uhi::services::order::OrderService;
use rust_uhi::services::provider::ProviderService;
use rust_uhi::tags::TagMap;
use rust_uhi::time::Timestamp;

const MONDAY_10AM: i64 = 1_704_103_200;

fn create_test_fulfillment(id: &str, provider_id: &str, state: Option<&str>) -> Fulfillment {
    let start = Timestamp::from_seconds(MONDAY_10AM);
    Fulfillment {
        id: id.to_string(),
        fulfillment_type: "Teleconsultation".to_string(),
        provider_id: provider_id.to_string(),
        agent: None,
        start: TimeSlot { time: Time { timestamp: start, label: None }, duration: Some(3600) },
        end: TimeSlot {
            time: Time { timestamp: start.plus_seconds(3600).unwrap(), label: None },
            duration: None,
        },
        customer: None,
        state: state.map(|name| State {
            descriptor: name.to_string(),
            updated_at: Timestamp::from_seconds(MONDAY_10AM - 500),
        }),
        tags: TagMap::new(),
    }
}

fn create_test_order(id: &str, provider_id: &str, fulfillment_id: &str) -> Order {
    Order {
        id: id.to_string(),
        provider: ProviderSummary {
            id: provider_id.to_string(),
            descriptor: "Test Provider".to_string(),
            categories: vec!["Healthcare".to_string()],
        },
        items: Vec::new(),
        billing: Billing {
            name: "John Doe".to_string(),
            organization: None,
            address: Address {
                door: Some("101".to_string()),
                building: Some("Test Building".to_string()),
                street: Some("Test Street".to_string()),
                locality: Some("Test Locality".to_string()),
                city: "Test City".to_string(),
                state: "Test State".to_string(),
                country: "Test Country".to_string(),
                area_code: "12345".to_string(),
            },
            email: Some("john@example.com".to_string()),
            phone: "1234567890".to_string(),
            tax_number: None,
        },
        fulfillment: create_test_fulfillment(fulfillment_id, provider_id, None),
        quote: None,
        payment: None,
        state: "INITIALIZED".to_string(),
        created_at: Timestamp::from_seconds(MONDAY_10AM - 1000),
        updated_at: Timestamp::from_seconds(MONDAY_10AM - 900),
    }
}

#[test]
fn test_status_checking_flow() {
    let provider_id = "provider-1";
    let hours = ProviderService::get_default_working_hours(provider_id);

    let fulfillment_id = "fulfillment-1";
    let fulfillment = create_test_fulfillment(fulfillment_id, provider_id, Some("SCHEDULED"));
    let mut fulfillment =
        FulfillmentService::create_fulfillment(&hours, &Vec::new(), fulfillment).unwrap();

    let order_id = "order-1";
    let mut order = create_test_order(order_id, provider_id, fulfillment_id);

    let initial_status = OrderService::status(&mut order, Some(&fulfillment));
    assert_eq!(initial_status.status.state, "CONFIRMED");
    assert!(initial_status.order_changed);
    assert_eq!(order.state, "CONFIRMED");

    FulfillmentService::update_state(&mut fulfillment, "IN_PROGRESS", None).unwrap();
    assert_eq!(fulfillment.state.clone().unwrap().descriptor, "IN_PROGRESS");

    let updated_status = OrderService::status(&mut order, Some(&fulfillment));
    assert_eq!(updated_status.status.state, "IN_PROGRESS");

    let completed_status = OrderStatus {
        state: "COMPLETED".to_string(),
        updated_at: Timestamp::from_seconds(MONDAY_10AM + 4000),
    };
    let action = OrderService::on_status(&mut order, &completed_status).unwrap();
    assert_eq!(order.state, "COMPLETED");

    let update = action.unwrap();
    assert_eq!(update.fulfillment_id, fulfillment_id);
    let applied = OrderService::apply_fulfillment_update(
        &mut fulfillment,
        update,
        Timestamp::from_seconds(MONDAY_10AM + 4001),
    );
    assert!(applied);
    assert_eq!(fulfillment.state.unwrap().descriptor, "COMPLETED");
}

#[test]
fn waiting_fulfillment_projects_to_pending_order() {
    let mut order = create_test_order("order-1", "provider-1", "fulfillment-1");
    let fulfillment = create_test_fulfillment("fulfillment-1", "provider-1", Some("WAITING"));
    let projection = OrderService::status(&mut order, Some(&fulfillment));
    assert_eq!(projection.status.state, "FULFILLMENT_PENDING");
    assert_eq!(projection.status.updated_at, Timestamp::from_seconds(MONDAY_10AM - 500));
    // The change is written through to the order record.
    assert!(projection.order_changed);
    assert_eq!(order.state, "FULFILLMENT_PENDING");
    assert_eq!(order.id, "order-1");
    assert_eq!(order.updated_at, Timestamp::from_seconds(MONDAY_10AM - 900));

    // A second projection finds the record up to date.
    let again = OrderService::status(&mut order, Some(&fulfillment));
    assert_eq!(again.status.state, "FULFILLMENT_PENDING");
    assert!(!again.order_changed);
}

#[test]
fn projection_maps_every_state() {
    let pairs = [
        ("SCHEDULED", "CONFIRMED"),
        ("WAITING", "FULFILLMENT_PENDING"),
        ("IN_PROGRESS", "IN_PROGRESS"),
        ("COMPLETED", "COMPLETED"),
        ("CANCELLED", "CANCELLED"),
        ("NO_SHOW", "NO_SHOW"),
        ("RESCHEDULED", "RESCHEDULED"),
    ];
    for (fulfillment_state, order_state) in pairs {
        let mut order = create_test_order("o", "p", "f");
        let fulfillment = create_test_fulfillment("f", "p", Some(fulfillment_state));
        let projection = OrderService::status(&mut order, Some(&fulfillment));
        assert_eq!(projection.status.state, order_state);
        let state = FulfillmentState::parse(fulfillment_state).unwrap();
        assert_eq!(OrderService::order_state_name(state), order_state);
        assert_eq!(OrderService::fulfillment_state_for(order_state), Some(state));
    }
    assert_eq!(OrderService::fulfillment_state_for("INITIALIZED"), None);
    assert_eq!(OrderService::fulfillment_state_for("QUOTED"), None);
}

#[test]
fn projection_falls_back_to_the_stored_state() {
    // The fulfillment could not be fetched.
    let mut order = create_test_order("o", "p", "f");
    let projection = OrderService::status(&mut order, None);
    assert_eq!(projection.status.state, "INITIALIZED");
    assert_eq!(projection.status.updated_at, Timestamp::from_seconds(MONDAY_10AM - 900));
    assert!(!projection.order_changed);

    // The fulfillment has no state yet.
    let stateless = create_test_fulfillment("f", "p", None);
    let projection = OrderService::status(&mut order, Some(&stateless));
    assert_eq!(projection.status.state, "INITIALIZED");
    assert!(!projection.order_changed);

    // The state of the fulfillment is not in the table.
    let odd = create_test_fulfillment("f", "p", Some("ON_HOLD"));
    let projection = OrderService::status(&mut order, Some(&odd));
    assert_eq!(projection.status.state, "INITIALIZED");
    assert_eq!(projection.status.updated_at, Timestamp::from_seconds(MONDAY_10AM - 500));
    assert!(!projection.order_changed);

    // The order is linked to no fulfillment: whatever is handed in is ignored.
    let mut unlinked = create_test_order("o", "p", "");
    let scheduled = create_test_fulfillment("f", "p", Some("SCHEDULED"));
    let projection = OrderService::status(&mut unlinked, Some(&scheduled));
    assert_eq!(projection.status.state, "INITIALIZED");
    assert!(!projection.order_changed);
    assert_eq!(unlinked.state, "INITIALIZED");
}

#[test]
fn on_status_names_the_change_for_the_fulfillment() {
    let mut order = create_test_order("order-7", "p", "fulfillment-7");
    let status = OrderStatus {
        state: "CONFIRMED".to_string(),
        updated_at: Timestamp::from_seconds(MONDAY_10AM),
    };
    let update = OrderService::on_status(&mut order, &status).unwrap().unwrap();
    assert_eq!(order.state, "CONFIRMED");
    assert_eq!(update.fulfillment_id, "fulfillment-7");
    assert_eq!(update.state, FulfillmentState::Scheduled);
    assert_eq!(update.context.len(), 2);
    assert_eq!(update.context.get("source").unwrap(), "order_status_update");
    assert_eq!(update.context.get("order_id").unwrap(), "order-7");

    let mut fulfillment = create_test_fulfillment("fulfillment-7", "p", Some("RESCHEDULED"));
    let now = Timestamp::from_seconds(MONDAY_10AM + 1);
    assert!(OrderService::apply_fulfillment_update(&mut fulfillment, update, now));
    let state = fulfillment.state.clone().unwrap();
    assert_eq!(state.descriptor, "SCHEDULED");
    assert_eq!(state.updated_at, now);
    assert_eq!(fulfillment.tags.get("state_change_source").unwrap(), "order_status_update");
    assert_eq!(fulfillment.tags.get("state_change_order_id").unwrap(), "order-7");
}

#[test]
fn on_status_keeps_the_order_when_the_fulfillment_refuses() {
    let mut order = create_test_order("o", "p", "f");
    let status = OrderStatus {
        state: "IN_PROGRESS".to_string(),
        updated_at: Timestamp::from_seconds(MONDAY_10AM),
    };
    let update = OrderService::on_status(&mut order, &status).unwrap().unwrap();
    assert_eq!(order.state, "IN_PROGRESS");

    // The fulfillment is finished: it does not take the change, and the
    // order keeps its new state all the same.
    let mut fulfillment = create_test_fulfillment("f", "p", Some("COMPLETED"));
    let now = Timestamp::from_seconds(MONDAY_10AM + 1);
    assert!(!OrderService::apply_fulfillment_update(&mut fulfillment, update, now));
    assert_eq!(fulfillment.state.unwrap().descriptor, "COMPLETED");
    assert!(fulfillment.tags.is_empty());
    assert_eq!(order.state, "IN_PROGRESS");
}

#[test]
fn on_status_rejects_a_state_without_counterpart() {
    let mut order = create_test_order("o", "p", "f");
    let status = OrderStatus {
        state: "QUOTED".to_string(),
        updated_at: Timestamp::from_seconds(MONDAY_10AM),
    };
    match OrderService::on_status(&mut order, &status) {
        Err(ServiceError::Validation(message)) => {
            assert_eq!(message, "Unsupported order state for fulfillment mapping: QUOTED")
        }
        other => panic!("expected a validation error, got {:?}", other),
    }
    assert_eq!(order.state, "INITIALIZED");

    // An order without fulfillment takes any state.
    let mut unlinked = create_test_order("o", "p", "");
    let action = OrderService::on_status(&mut unlinked, &status).unwrap();
    assert!(action.is_none());
    assert_eq!(unlinked.state, "QUOTED");
}

#[test]
fn order_life_cycle_from_init_to_confirmation() {
    let order = create_test_order("o", "provider-1", "f");
    let started = OrderService::init(order);
    assert_eq!(started.state, "INITIALIZED");

    let mut answer = create_test_order("o", "provider-1", "f");
    answer.state = "ANYTHING".to_string();
    let quoted = OrderService::on_init(started, answer).unwrap();
    assert_eq!(quoted.state, "QUOTED");
    assert!(quoted.quote.is_none());

    let stranger = create_test_order("o", "provider-2", "f");
    match OrderService::on_init(quoted.clone(), stranger) {
        Err(ServiceError::Validation(message)) => assert_eq!(message, "Provider ID mismatch"),
        other => panic!("expected a validation error, got {:?}", other),
    }

    let confirmed = OrderService::confirm(quoted);
    assert_eq!(confirmed.state, "CONFIRMED");
    assert_eq!(confirmed.id, "o");

    let mut answer = create_test_order("o", "provider-1", "f");
    answer.state = "ACCEPTED".to_string();
    let accepted = OrderService::on_confirm(confirmed.clone(), answer).unwrap();
    assert_eq!(accepted.state, "ACCEPTED");
    let stranger = create_test_order("o", "provider-9", "f");
    assert!(matches!(
        OrderService::on_confirm(confirmed, stranger),
        Err(ServiceError::Validation(_))
    ));
}

#[test]
fn reported_status_is_the_state_of_the_answer() {
    let mut order = create_test_order("order-r", "provider-1", "fulfillment-r");
    order.state = "COMPLETED".to_string();
    order.updated_at = Timestamp::new(1_704_103_200, 5).unwrap();
    let status = rust_uhi::handlers::reported_status(&order);
    assert_eq!(status.state, "COMPLETED");
    assert_eq!(status.updated_at, Timestamp::new(1_704_103_200, 5).unwrap());
}

#[test]
fn projection_is_written_back_to_the_store() {
    let mut storage = rust_uhi::storage::memory::MemoryStorage::new();
    let stored = |storage: &rust_uhi::storage::memory::MemoryStorage, id: &str| {
        rust_uhi::storage::Storage::get_order(storage, id).map(|order| order.state.clone())
    };
    rust_uhi::storage::Storage::create_fulfillment(
        &mut storage,
        create_test_fulfillment("fulfillment-1", "provider-1", Some("WAITING")),
    )
    .unwrap();
    let order = create_test_order("order-1", "provider-1", "fulfillment-1");
    rust_uhi::storage::Storage::create_order(&mut storage, order.clone()).unwrap();

    let status = OrderService::project_status(&mut storage, order.clone()).unwrap();
    assert_eq!(status.state, "FULFILLMENT_PENDING");
    assert_eq!(status.updated_at, Timestamp::from_seconds(MONDAY_10AM - 500));
    assert_eq!(stored(&storage, "order-1").unwrap(), "FULFILLMENT_PENDING");

    let again = rust_uhi::storage::Storage::get_order(&storage, "order-1").unwrap().clone();
    let status = OrderService::project_status(&mut storage, again).unwrap();
    assert_eq!(status.state, "FULFILLMENT_PENDING");
    assert_eq!(stored(&storage, "order-1").unwrap(), "FULFILLMENT_PENDING");

    // A fulfillment that the store does not have: the order shows its own state.
    let lonely = create_test_order("order-2", "provider-1", "fulfillment-9");
    rust_uhi::storage::Storage::create_order(&mut storage, lonely.clone()).unwrap();
    let status = OrderService::project_status(&mut storage, lonely).unwrap();
    assert_eq!(status.state, "INITIALIZED");
    assert_eq!(status.updated_at, Timestamp::from_seconds(MONDAY_10AM - 900));
    assert_eq!(stored(&storage, "order-2").unwrap(), "INITIALIZED");

    // An order that the store does not have cannot be written back.
    let unknown = create_test_order("order-3", "provider-1", "fulfillment-1");
    assert!(matches!(
        OrderService::project_status(&mut storage, unknown),
        Err(ServiceError::NotFound(_))
    ));
    let mut settled = create_test_order("order-4", "provider-1", "fulfillment-1");
    settled.state = "FULFILLMENT_PENDING".to_string();
    let status = OrderService::project_status(&mut storage, settled).unwrap();
    assert_eq!(status.state, "FULFILLMENT_PENDING");
    assert!(stored(&storage, "order-4").is_err());
}

#[test]
fn reported_status_reaches_the_fulfillment_where_it_may() {
    let now = Timestamp::from_seconds(MONDAY_10AM + 60);
    let report = |state: &str| OrderStatus { state: state.to_string(), updated_at: now };

    // The fulfillment follows.
    let mut order = create_test_order("order-1", "provider-1", "fulfillment-1");
    let mut fulfillment =
        Some(create_test_fulfillment("fulfillment-1", "provider-1", Some("SCHEDULED")));
    let followed =
        OrderService::apply_status(&mut order, &mut fulfillment, &report("IN_PROGRESS"), now);
    assert_eq!(followed.unwrap(), true);
    assert_eq!(order.state, "IN_PROGRESS");
    let after = fulfillment.unwrap();
    let state = after.state.unwrap();
    assert_eq!(state.descriptor, "IN_PROGRESS");
    assert_eq!(state.updated_at, now);
    assert_eq!(after.tags.get("state_change_source").unwrap(), "order_status_update");
    assert_eq!(after.tags.get("state_change_order_id").unwrap(), "order-1");
    assert_eq!(after.tags.len(), 2);

    // The fulfillment refuses: the order keeps its new state all the same.
    let mut order = create_test_order("order-2", "provider-1", "fulfillment-2");
    let mut fulfillment =
        Some(create_test_fulfillment("fulfillment-2", "provider-1", Some("COMPLETED")));
    let followed =
        OrderService::apply_status(&mut order, &mut fulfillment, &report("IN_PROGRESS"), now);
    assert_eq!(followed.unwrap(), false);
    assert_eq!(order.state, "IN_PROGRESS");
    let after = fulfillment.unwrap();
    assert_eq!(after.state.unwrap().descriptor, "COMPLETED");
    assert!(after.tags.is_empty());

    // The fulfillment is not at hand.
    let mut order = create_test_order("order-3", "provider-1", "fulfillment-3");
    let mut fulfillment = None;
    let followed =
        OrderService::apply_status(&mut order, &mut fulfillment, &report("CANCELLED"), now);
    assert_eq!(followed.unwrap(), false);
    assert_eq!(order.state, "CANCELLED");
    assert!(fulfillment.is_none());

    // No state of a fulfillment stands for the state of the order.
    let mut order = create_test_order("order-4", "provider-1", "fulfillment-4");
    let mut fulfillment =
        Some(create_test_fulfillment("fulfillment-4", "provider-1", Some("SCHEDULED")));
    match OrderService::apply_status(&mut order, &mut fulfillment, &report("SHIPPED"), now) {
        Err(ServiceError::Validation(message)) => {
            assert_eq!(message, "Unsupported order state for fulfillment mapping: SHIPPED")
        }
        other => panic!("expected a validation error, got {:?}", other),
    }
    assert_eq!(order.state, "INITIALIZED");
    assert_eq!(fulfillment.unwrap().state.unwrap().descriptor, "SCHEDULED");

    // An order without a fulfillment takes any state.
    let mut order = create_test_order("order-5", "provider-1", "");
    let mut fulfillment = None;
    let followed =
        OrderService::apply_status(&mut order, &mut fulfillment, &report("SHIPPED"), now);
    assert_eq!(followed.unwrap(), false);
    assert_eq!(order.state, "SHIPPED");
}
