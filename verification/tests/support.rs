use rust_uhi::config::LoggingConfig;
use rust_uhi::errors::AppError;
use rust_uhi::logging::{create_request_span, default_filter, log_error, log_format, LogFormat};
use rust_uhi::services::error::ServiceError;
use rust_uhi::storage::StorageError;
use rust_uhi::tags::TagMap;
use rust_uhi::text::{join2, join3, join5, owned};
use rust_uhi::time::{DayOfWeek, Timestamp};

#[test]
fn tag_map_behaves_like_a_map() {
    let mut tags = TagMap::new();
    assert!(tags.is_empty());
    assert!(tags.get("a").is_none());
    tags.insert("a".to_string(), "1".to_string());
    tags.insert("b".to_string(), "2".to_string());
    tags.insert("a".to_string(), "3".to_string());
    assert_eq!(tags.len(), 2);
    assert!(!tags.is_empty());
    assert_eq!(tags.get("a").unwrap(), "3");
    assert_eq!(tags.get("b").unwrap(), "2");
    assert!(tags.contains_key("a"));
    assert!(!tags.contains_key("A"));
    assert_eq!(tags.key_at(0), "a");
    assert_eq!(tags.value_at(0), "3");
    assert_eq!(tags.key_at(1), "b");

    let copy = tags.clone();
    tags.insert("b".to_string(), "changed".to_string());
    assert_eq!(copy.get("b").unwrap(), "2");
    assert_eq!(copy.len(), 2);
}

#[test]
fn tag_map_merges_under_a_prefix() {
    let mut tags = TagMap::new();
    tags.insert("keep".to_string(), "me".to_string());
    tags.insert("x_a".to_string(), "old".to_string());
    let mut other = TagMap::new();
    other.insert("a".to_string(), "new".to_string());
    other.insert("b".to_string(), "fresh".to_string());
    tags.merge_prefixed("x_", &other);
    assert_eq!(tags.len(), 3);
    assert_eq!(tags.get("keep").unwrap(), "me");
    assert_eq!(tags.get("x_a").unwrap(), "new");
    assert_eq!(tags.get("x_b").unwrap(), "fresh");
    tags.merge_prefixed("x_", &TagMap::new());
    assert_eq!(tags.len(), 3);
}

#[test]
fn text_helpers_join() {
    assert_eq!(owned("abc"), "abc");
    assert_eq!(join2("ab", "cd"), "abcd");
    assert_eq!(join3("a", "b", "c"), "abc");
    assert_eq!(join5("a", "b", "c", "d", "e"), "abcde");
}

#[test]
fn timestamps_are_ordered_by_seconds_then_nanoseconds() {
    let a = Timestamp::new(10, 5).unwrap();
    let b = Timestamp::new(10, 6).unwrap();
    let c = Timestamp::new(11, 0).unwrap();
    assert!(a.is_before(&b));
    assert!(b.is_before(&c));
    assert!(!b.is_before(&a));
    assert!(!a.is_before(&a));
    assert!(a.is_at_or_before(&a));
    assert!(a.is_at_or_before(&c));
    assert!(!c.is_at_or_before(&a));
    assert!(Timestamp::new(0, 1_000_000_000).is_none());
    assert_eq!(Timestamp::new(0, 999_999_999).unwrap().nanos, 999_999_999);
}

#[test]
fn timestamps_add_seconds_with_care() {
    let t = Timestamp::new(100, 7).unwrap();
    assert_eq!(t.plus_seconds(50), Some(Timestamp { seconds: 150, nanos: 7 }));
    assert_eq!(t.plus_seconds(-200), Some(Timestamp { seconds: -100, nanos: 7 }));
    assert_eq!(t.plus_seconds(i64::MAX), None);
    assert_eq!(t.plus_seconds_saturating(i64::MAX), Timestamp { seconds: i64::MAX, nanos: 7 });
    let early = Timestamp::from_seconds(-100);
    assert_eq!(early.plus_seconds(i64::MIN), None);
    assert_eq!(early.plus_seconds_saturating(i64::MIN).seconds, i64::MIN);
    assert_eq!(early.plus_seconds_saturating(30).seconds, -70);
}

#[test]
fn days_of_the_week_are_counted_from_sunday() {
    let names = ["Sunday", "Monday", "Tuesday", "Wednesday", "Thursday", "Friday", "Saturday"];
    for (index, name) in names.iter().enumerate() {
        let day = DayOfWeek::from_index(index as u32).unwrap();
        assert_eq!(day.name(), *name);
        assert_eq!(day.to_index(), index as u32);
    }
    assert!(DayOfWeek::from_index(7).is_none());
}

#[test]
fn service_errors_render_with_their_kind() {
    assert_eq!(ServiceError::NotFound("x".to_string()).message(), "Not found: x");
    assert_eq!(ServiceError::Validation("x".to_string()).message(), "Validation error: x");
    assert_eq!(ServiceError::BusinessLogic("x".to_string()).message(), "Business logic error: x");
    assert_eq!(
        ServiceError::ExternalService("x".to_string()).message(),
        "External service error: x"
    );
    assert_eq!(ServiceError::Internal("x".to_string()).message(), "Internal error: x");
    assert_eq!(
        ServiceError::Storage(StorageError::Duplicate("x".to_string())).message(),
        "Storage error: Duplicate item: x"
    );
    assert_eq!(StorageError::NotFound("x".to_string()).message(), "Item not found: x");
    assert_eq!(StorageError::InvalidOperation("x".to_string()).message(), "Invalid operation: x");
    assert_eq!(StorageError::Internal("x".to_string()).message(), "Storage error: x");
}

#[test]
fn storage_errors_lift_to_service_errors() {
    assert!(matches!(
        ServiceError::from(StorageError::NotFound("gone".to_string())),
        ServiceError::NotFound(m) if m == "gone"
    ));
    assert!(matches!(
        ServiceError::from(StorageError::Duplicate("twice".to_string())),
        ServiceError::Storage(StorageError::Duplicate(m)) if m == "twice"
    ));
    assert!(matches!(
        ServiceError::from_storage(StorageError::Internal("down".to_string())),
        ServiceError::Storage(StorageError::Internal(_))
    ));
    assert!(matches!(
        ServiceError::from_storage(StorageError::InvalidOperation("no".to_string())),
        ServiceError::Storage(StorageError::InvalidOperation(_))
    ));
    assert!(matches!(ServiceError::from("oops".to_string()), ServiceError::Internal(m) if m == "oops"));
}

#[test]
fn app_errors_map_to_status_and_code() {
    let cases = [
        (AppError::ValidationError("m".to_string()), 400, "INVALID_INPUT", "Invalid input: m"),
        (AppError::NotFoundError("m".to_string()), 404, "NOT_FOUND", "Not found: m"),
        (AppError::AuthError("m".to_string()), 401, "UNAUTHORIZED", "Authentication error: m"),
        (AppError::ForbiddenError("m".to_string()), 403, "FORBIDDEN", "Authorization error: m"),
        (AppError::DatabaseError("m".to_string()), 500, "DATABASE_ERROR", "Database error: m"),
        (AppError::ConfigError("m".to_string()), 500, "CONFIG_ERROR", "Configuration error: m"),
        (AppError::InternalError("m".to_string()), 500, "INTERNAL_ERROR", "Internal server error: m"),
        (
            AppError::ExternalServiceError("m".to_string()),
            502,
            "EXTERNAL_SERVICE_ERROR",
            "External service error: m",
        ),
    ];
    for (error, status, code, message) in cases {
        assert_eq!(error.status_code(), status);
        assert_eq!(error.error_code(), code);
        assert_eq!(error.message(), message);
        let body = error.error_response();
        assert_eq!(body.error, status.to_string());
        assert_eq!(body.code, code);
        assert_eq!(body.message, message);
    }
}

#[test]
fn log_records_carry_what_they_are_given() {
    let span = create_request_span("txn-1", "msg-2");
    assert_eq!(span.name, "request");
    assert_eq!(span.transaction_id, "txn-1");
    assert_eq!(span.message_id, "msg-2");

    let record = log_error("disk full", "saving order");
    assert_eq!(record.error, "disk full");
    assert_eq!(record.context, "saving order");
    assert_eq!(record.message, "An error occurred");

    let json = LoggingConfig { level: "debug".to_string(), format: "json".to_string() };
    assert_eq!(log_format(&json), LogFormat::Json);
    assert_eq!(default_filter(&json), "rust_uhi=debug,actix_web=info,sqlx=warn");
    let text = LoggingConfig { level: "info".to_string(), format: "JSON".to_string() };
    assert_eq!(log_format(&text), LogFormat::Pretty);
}

#[test]
fn integers_are_written_in_decimal() {
    assert_eq!(rust_uhi::text::decimal_unsigned(0), "0");
    assert_eq!(rust_uhi::text::decimal_unsigned(7), "7");
    assert_eq!(rust_uhi::text::decimal_unsigned(10), "10");
    assert_eq!(rust_uhi::text::decimal_unsigned(1_704_067_200), "1704067200");
    assert_eq!(rust_uhi::text::decimal_unsigned(u64::MAX), "18446744073709551615");
    assert_eq!(rust_uhi::text::decimal(0), "0");
    assert_eq!(rust_uhi::text::decimal(-1), "-1");
    assert_eq!(rust_uhi::text::decimal(905), "905");
    assert_eq!(rust_uhi::text::decimal(i64::MAX), "9223372036854775807");
    assert_eq!(rust_uhi::text::decimal(i64::MIN), "-9223372036854775808");
    for n in [-120_034_i64, -10, -9, 1, 99, 100, 1_000_000_007] {
        assert_eq!(rust_uhi::text::decimal(n), n.to_string());
    }
}

#[test]
fn texts_are_equal_where_their_characters_are() {
    assert!(rust_uhi::text::str_eq("", ""));
    assert!(rust_uhi::text::str_eq("SCHEDULED", "SCHEDULED"));
    assert!(!rust_uhi::text::str_eq("SCHEDULED", "scheduled"));
    assert!(!rust_uhi::text::str_eq("a", "ab"));
    assert!(!rust_uhi::text::str_eq("ab", "a"));
    assert!(rust_uhi::text::str_eq("straße", "straße"));
}
