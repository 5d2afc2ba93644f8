//! What the gateway logs: the records are built here, and written by the
//! caller.

use crate::config::LoggingConfig;
use crate::text::{join3, owned, str_eq};
use vstd::prelude::*;

verus! {

/// The span under which the handling of one request is traced.
#[derive(Debug, Clone)]
pub struct RequestSpan {
    /// Name of the span.
    pub name: String,
    /// Identifier of the transaction that the request belongs to.
    pub transaction_id: String,
    /// Identifier of the message that carried the request.
    pub message_id: String,
}

/// The record of an error.
#[derive(Debug, Clone)]
pub struct ErrorRecord {
    /// The error as text.
    pub error: String,
    /// What was under way when the error occurred.
    pub context: String,
    /// The message of the record.
    pub message: String,
}

/// The form in which events are logged.
#[derive(Clone, Copy, Debug, PartialEq, Eq, Structural)]
pub enum LogFormat {
    /// One JSON object per event.
    Json,
    /// Text for human readers.
    Pretty,
}

/// The filter that applies where the environment sets none: the gateway
/// itself at `level`, the web framework at `info`, the database layer at
/// `warn`.
pub open spec fn spec_default_filter(level: Seq<char>) -> Seq<char> {
    "rust_uhi="@ + level + ",actix_web=info,sqlx=warn"@
}

/// The span under which the request with the given identifiers is traced.
pub fn create_request_span(transaction_id: &str, message_id: &str) -> (span: RequestSpan)
    ensures
        span.name@ == "request"@,
        span.transaction_id@ == transaction_id@,
        span.message_id@ == message_id@,
{
    RequestSpan {
        name: owned("request"),
        transaction_id: owned(transaction_id),
        message_id: owned(message_id),
    }
}

/// The record of the error `error`, which occurred during `context`.
pub fn log_error(error: &str, context: &str) -> (record: ErrorRecord)
    ensures
        record.error@ == error@,
        record.context@ == context@,
        record.message@ == "An error occurred"@,
{
    ErrorRecord {
        error: owned(error),
        context: owned(context),
        message: owned("An error occurred"),
    }
}

/// The form in which events are logged under `config`: JSON where the
/// format is `json`, readable text in every other case.
pub fn log_format(config: &LoggingConfig) -> (format: LogFormat)
    ensures
        format == if config.format@ == "json"@ {
            LogFormat::Json
        } else {
            LogFormat::Pretty
        },
{
    if str_eq(config.format.as_str(), "json") {
        LogFormat::Json
    } else {
        LogFormat::Pretty
    }
}

/// The filter that applies under `config` where the environment sets none.
pub fn default_filter(config: &LoggingConfig) -> (filter: String)
    ensures
        filter@ == spec_default_filter(config.level@),
{
    join3("rust_uhi=", config.level.as_str(), ",actix_web=info,sqlx=warn")
}

} // verus!
