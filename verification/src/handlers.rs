//! What the endpoints of the gateway answer: the bodies and the statuses of
//! their responses. Receiving requests and sending responses is left to the
//! caller.

use crate::errors::AppError;
use crate::models::order::{Order, OrderStatus};
use crate::services::error::ServiceError;
use crate::text::{join2, owned};
use vstd::prelude::*;

verus! {

/// A request to check a signature.
#[derive(Debug, Clone)]
pub struct ValidateSignatureRequest {
    /// Identifier of the subscriber whose public key is used.
    pub subscriber_id: String,
    /// The signature, in base64.
    pub signature: String,
    /// The message that was signed.
    pub message: String,
}

/// The answer to a request to check a signature.
#[derive(Debug, Clone)]
pub struct ValidateSignatureResponse {
    /// Whether the signature is valid.
    pub valid: bool,
}

/// The response to a request that failed.
#[derive(Debug, Clone)]
pub struct Failure {
    /// The HTTP status of the response.
    pub status: u16,
    /// What went wrong, for the body of the response.
    pub error: String,
}

/// What hides the cause of a failure from the client.
pub open spec fn internal_error() -> Seq<char> {
    "Internal server error"@
}

/// The response to a search that failed: a missing result and an invalid
/// request are reported as such, with their detail; everything else is an
/// internal error without detail.
pub fn search(err: &ServiceError) -> (failure: Failure)
    ensures
        match *err {
            ServiceError::NotFound(detail) => failure.status == 404 && failure.error@ == detail@,
            ServiceError::Validation(detail) => failure.status == 400 && failure.error@
                == detail@,
            _ => failure.status == 500 && failure.error@ == internal_error(),
        },
{
    match err {
        ServiceError::NotFound(detail) => Failure { status: 404, error: owned(detail.as_str()) },
        ServiceError::Validation(detail) => Failure { status: 400, error: owned(detail.as_str()) },
        _ => Failure { status: 500, error: owned("Internal server error") },
    }
}

/// The response to the answer of a provider to a search, where taking the
/// answer failed: an invalid answer is reported as such, with its detail;
/// everything else is an internal error without detail.
pub fn on_search(err: &ServiceError) -> (failure: Failure)
    ensures
        match *err {
            ServiceError::Validation(detail) => failure.status == 400 && failure.error@
                == detail@,
            _ => failure.status == 500 && failure.error@ == internal_error(),
        },
{
    match err {
        ServiceError::Validation(detail) => Failure { status: 400, error: owned(detail.as_str()) },
        _ => Failure { status: 500, error: owned("Internal server error") },
    }
}

/// The response to a request for the status of an order, where finding the
/// status failed.
pub fn status(err: &ServiceError) -> (failure: Failure)
    ensures
        failure.status == 500,
        failure.error@ == "Failed to get order status: "@ + err.spec_message(),
{
    let detail = err.message();
    Failure { status: 500, error: join2("Failed to get order status: ", detail.as_str()) }
}

/// The response to a request for the status of an order, where the status
/// was found but the order could not be read afterwards.
pub fn status_order_missing(err: &ServiceError) -> (failure: Failure)
    ensures
        failure.status == 500,
        failure.error@ == "Failed to get order: "@ + err.spec_message(),
{
    let detail = err.message();
    Failure { status: 500, error: join2("Failed to get order: ", detail.as_str()) }
}

/// The status that the answer of a provider carries: the state of the
/// order in the answer, since the instant at which it was last updated.
pub fn reported_status(order: &Order) -> (status: OrderStatus)
    ensures
        status.state == order.state,
        status.updated_at == order.updated_at,
{
    OrderStatus { state: order.state.clone(), updated_at: order.updated_at }
}

/// The response to the answer of a provider on the status of an order,
/// where taking the answer failed.
pub fn on_status(err: &ServiceError) -> (failure: Failure)
    ensures
        failure.status == 500,
        failure.error@ == "Failed to process status update: "@ + err.spec_message(),
{
    let detail = err.message();
    Failure { status: 500, error: join2("Failed to process status update: ", detail.as_str()) }
}

/// The answer to a request to check a signature.
pub fn validate_signature(valid: bool) -> (response: ValidateSignatureResponse)
    ensures
        response.valid == valid,
{
    ValidateSignatureResponse { valid }
}

/// What a failure of a service is to the clients of the gateway: a missing
/// record is not found, invalid input is invalid, a failure of a service
/// behind the gateway is one of an external service, and everything else is
/// internal.
pub fn app_error(err: ServiceError) -> (reported: AppError)
    ensures
        match err {
            ServiceError::NotFound(detail) => reported == AppError::NotFoundError(detail),
            ServiceError::Validation(detail) => reported == AppError::ValidationError(detail),
            ServiceError::ExternalService(detail) => reported == AppError::ExternalServiceError(
                detail,
            ),
            _ => reported is InternalError && reported->InternalError_0@ == err.spec_message(),
        },
{
    match err {
        ServiceError::NotFound(detail) => AppError::NotFoundError(detail),
        ServiceError::Validation(detail) => AppError::ValidationError(detail),
        ServiceError::ExternalService(detail) => AppError::ExternalServiceError(detail),
        other => AppError::InternalError(other.message()),
    }
}

} // verus!
