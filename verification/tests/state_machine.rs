use rust_uhi::models::fulfillment::{Fulfillment, State, Time, TimeSlot};
use rust_uhi::services::error::ServiceError;
use rust_uhi::services::fulfillment::{FulfillmentService, FulfillmentState};
use rust_uhi::tags::TagMap;
use rust_uhi::time::Timestamp;

const ALL: [FulfillmentState; 7] = [
    FulfillmentState::Scheduled,
    FulfillmentState::Waiting,
    FulfillmentState::InProgress,
    FulfillmentState::Completed,
    FulfillmentState::Cancelled,
    FulfillmentState::NoShow,
    FulfillmentState::Rescheduled,
];

fn fulfillment_in(state: Option<&str>) -> Fulfillment {
    let start = Timestamp::from_seconds(1_704_103_200);
    let mut tags = TagMap::new();
    tags.insert("room".to_string(), "12".to_string());
    Fulfillment {
        id: "fulfillment-1".to_string(),
        fulfillment_type: "teleconsultation".to_string(),
        provider_id: "provider-1".to_string(),
        agent: None,
        start: TimeSlot { time: Time { timestamp: start, label: None }, duration: Some(3600) },
        end: TimeSlot { time: Time { timestamp: start, label: None }, duration: None },
        customer: None,
        state: state.map(|name| State { descriptor: name.to_string(), updated_at: start }),
        tags,
    }
}

fn listed(from: FulfillmentState, to: FulfillmentState) -> bool {
    match from {
        FulfillmentState::Scheduled => matches!(
            to,
            FulfillmentState::Waiting
                | FulfillmentState::InProgress
                | FulfillmentState::Cancelled
                | FulfillmentState::NoShow
                | FulfillmentState::Rescheduled
        ),
        FulfillmentState::Waiting => matches!(
            to,
            FulfillmentState::InProgress | FulfillmentState::Cancelled | FulfillmentState::NoShow
        ),
        FulfillmentState::InProgress => {
            matches!(to, FulfillmentState::Completed | FulfillmentState::Cancelled)
        }
        FulfillmentState::Completed => false,
        FulfillmentState::Cancelled => false,
        FulfillmentState::NoShow => matches!(to, FulfillmentState::Rescheduled),
        FulfillmentState::Rescheduled => matches!(to, FulfillmentState::Scheduled),
    }
}

#[test]
fn state_names_round_trip() {
    let names =
        ["SCHEDULED", "WAITING", "IN_PROGRESS", "COMPLETED", "CANCELLED", "NO_SHOW", "RESCHEDULED"];
    for (state, name) in ALL.iter().zip(names.iter()) {
        assert_eq!(state.as_str(), *name);
        assert_eq!(FulfillmentState::parse(name), Some(*state));
    }
    assert_eq!(FulfillmentState::parse("scheduled"), None);
    assert_eq!(FulfillmentState::parse(""), None);
    assert_eq!(FulfillmentState::parse("DONE"), None);
}

#[test]
fn transition_table_is_as_listed() {
    for from in ALL {
        for to in ALL {
            assert_eq!(from.can_become(to), listed(from, to), "{:?} -> {:?}", from, to);
        }
        assert_eq!(
            from.is_terminal(),
            matches!(from, FulfillmentState::Completed | FulfillmentState::Cancelled)
        );
    }
    assert_eq!(
        FulfillmentState::Scheduled.allowed_transitions(),
        vec![
            FulfillmentState::Waiting,
            FulfillmentState::InProgress,
            FulfillmentState::Cancelled,
            FulfillmentState::NoShow,
            FulfillmentState::Rescheduled,
        ]
    );
    assert!(FulfillmentState::Completed.allowed_transitions().is_empty());
}

#[test]
fn every_unlisted_transition_is_rejected_and_changes_nothing() {
    let now = Timestamp::from_seconds(1_704_200_000);
    for from in ALL {
        for to in ALL {
            let mut fulfillment = fulfillment_in(Some(from.as_str()));
            let before = fulfillment.state.clone().unwrap();
            let result =
                FulfillmentService::update_state_at(&mut fulfillment, to.as_str(), None, now);
            if listed(from, to) {
                assert!(result.is_ok(), "{:?} -> {:?}", from, to);
                let state = fulfillment.state.unwrap();
                assert_eq!(state.descriptor, to.as_str());
                assert_eq!(state.updated_at, now);
            } else {
                assert!(matches!(result, Err(ServiceError::BusinessLogic(_))));
                let state = fulfillment.state.unwrap();
                assert_eq!(state.descriptor, before.descriptor);
                assert_eq!(state.updated_at, before.updated_at);
                assert_eq!(fulfillment.tags.len(), 1);
            }
        }
    }
}

#[test]
fn completed_fulfillment_stays_completed() {
    let mut fulfillment = fulfillment_in(Some("COMPLETED"));
    let result = FulfillmentService::update_state(&mut fulfillment, "IN_PROGRESS", None);
    match result {
        Err(ServiceError::BusinessLogic(message)) => {
            assert_eq!(message, "Invalid state transition from 'COMPLETED' to 'IN_PROGRESS'")
        }
        other => panic!("expected a business-logic error, got {:?}", other),
    }
    assert_eq!(fulfillment.state.unwrap().descriptor, "COMPLETED");
}

#[test]
fn only_an_unset_state_accepts_any_transition() {
    let now = Timestamp::from_seconds(1_704_200_000);
    let mut unset = fulfillment_in(None);
    assert!(FulfillmentService::update_state_at(&mut unset, "COMPLETED", None, now).is_ok());
    assert_eq!(unset.state.unwrap().descriptor, "COMPLETED");

    let mut unset = fulfillment_in(None);
    assert!(FulfillmentService::update_state_at(&mut unset, "anything", None, now).is_ok());
    assert_eq!(unset.state.unwrap().descriptor, "anything");

    // A state that the table does not know leads nowhere.
    for target in ["SCHEDULED", "COMPLETED", "ARCHIVED", "anything"] {
        let mut unknown = fulfillment_in(Some("ARCHIVED"));
        let tags_before = unknown.tags.len();
        assert!(FulfillmentService::validate_state_transition(&unknown, target).is_err());
        match FulfillmentService::update_state_at(&mut unknown, target, None, now) {
            Err(ServiceError::BusinessLogic(message)) => assert_eq!(
                message,
                format!("Invalid state transition from 'ARCHIVED' to '{}'", target)
            ),
            other => panic!("expected a business-logic error, got {:?}", other),
        }
        assert_eq!(unknown.state.unwrap().descriptor, "ARCHIVED");
        assert_eq!(unknown.tags.len(), tags_before);
    }

    // A known state does not accept a name outside the table.
    let mut known = fulfillment_in(Some("SCHEDULED"));
    assert!(FulfillmentService::update_state_at(&mut known, "ON_HOLD", None, now).is_err());
    assert!(FulfillmentService::validate_state_transition(&known, "WAITING").is_ok());
    assert!(FulfillmentService::validate_state_transition(&known, "COMPLETED").is_err());
}

#[test]
fn context_is_merged_under_prefixed_keys() {
    let now = Timestamp::from_seconds(1_704_200_000);
    let mut fulfillment = fulfillment_in(Some("SCHEDULED"));
    fulfillment.tags.insert("state_change_source".to_string(), "earlier".to_string());
    let mut context = TagMap::new();
    context.insert("source".to_string(), "front-desk".to_string());
    context.insert("reason".to_string(), "patient arrived".to_string());

    let result =
        FulfillmentService::update_state_at(&mut fulfillment, "WAITING", Some(context), now);
    assert!(result.is_ok());
    assert_eq!(fulfillment.tags.len(), 3);
    assert_eq!(fulfillment.tags.get("room").unwrap(), "12");
    assert_eq!(fulfillment.tags.get("state_change_source").unwrap(), "front-desk");
    assert_eq!(fulfillment.tags.get("state_change_reason").unwrap(), "patient arrived");
    assert!(fulfillment.tags.get("source").is_none());
    assert_eq!(fulfillment.id, "fulfillment-1");
    assert_eq!(fulfillment.provider_id, "provider-1");
}

#[test]
fn update_state_stamps_the_current_time() {
    let before = Timestamp::now();
    let mut fulfillment = fulfillment_in(Some("SCHEDULED"));
    assert!(FulfillmentService::update_state(&mut fulfillment, "IN_PROGRESS", None).is_ok());
    let after = Timestamp::now();
    let state = fulfillment.state.unwrap();
    assert_eq!(state.descriptor, "IN_PROGRESS");
    assert!(before.is_at_or_before(&state.updated_at));
    assert!(state.updated_at.is_at_or_before(&after));
    // Later than the year 2020, and less than a second of nanoseconds.
    assert!(state.updated_at.seconds > 1_577_836_800);
    assert!(state.updated_at.nanos < 1_000_000_000);
}

#[test]
fn state_changes_are_written_to_the_store() {
    let now = Timestamp::from_seconds(1_704_200_000);
    let mut storage = rust_uhi::storage::memory::MemoryStorage::new();
    let stored_state = |storage: &rust_uhi::storage::memory::MemoryStorage, id: &str| {
        rust_uhi::storage::Storage::get_fulfillment(storage, id)
            .map(|f| f.state.as_ref().map(|s| s.descriptor.clone()))
    };
    let mut scheduled = fulfillment_in(Some("SCHEDULED"));
    scheduled.id = "f-1".to_string();
    rust_uhi::storage::Storage::create_fulfillment(&mut storage, scheduled.clone()).unwrap();

    let mut context = TagMap::new();
    context.insert("source".to_string(), "front-desk".to_string());
    let changed = FulfillmentService::change_state(
        &mut storage,
        scheduled.clone(),
        "IN_PROGRESS",
        Some(context),
        now,
    );
    assert!(changed.is_ok());
    assert_eq!(stored_state(&storage, "f-1").unwrap(), Some("IN_PROGRESS".to_string()));
    let stored = rust_uhi::storage::Storage::get_fulfillment(&storage, "f-1").unwrap().clone();
    assert_eq!(stored.state.as_ref().unwrap().updated_at, now);
    assert_eq!(stored.tags.get("state_change_source").unwrap(), "front-desk");

    // A transition that the table does not list changes nothing.
    match FulfillmentService::change_state(&mut storage, stored.clone(), "SCHEDULED", None, now) {
        Err(ServiceError::BusinessLogic(message)) => {
            assert_eq!(message, "Invalid state transition from 'IN_PROGRESS' to 'SCHEDULED'")
        }
        other => panic!("expected a business-logic error, got {:?}", other),
    }
    assert_eq!(stored_state(&storage, "f-1").unwrap(), Some("IN_PROGRESS".to_string()));

    // A fulfillment that the store does not have is not found, whatever the transition.
    let mut missing = fulfillment_in(Some("COMPLETED"));
    missing.id = "f-2".to_string();
    for target in ["IN_PROGRESS", "COMPLETED"] {
        assert!(matches!(
            FulfillmentService::change_state(&mut storage, missing.clone(), target, None, now),
            Err(ServiceError::NotFound(_))
        ));
    }
    assert!(stored_state(&storage, "f-2").is_err());
}
