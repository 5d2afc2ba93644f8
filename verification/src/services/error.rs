//! The error type shared by all services.

use crate::storage::StorageError;
use crate::text::join2;
use vstd::prelude::*;

verus! {

/// Why a service operation failed.
#[derive(Debug)]
pub enum ServiceError {
    /// The record store failed for a reason other than a missing record.
    Storage(StorageError),
    /// A referenced provider, fulfillment or order does not exist.
    NotFound(String),
    /// The input is malformed or incomplete.
    Validation(String),
    /// The request is well formed but breaks a rule: an illegal state
    /// transition, a slot that is closed or taken.
    BusinessLogic(String),
    /// A collaborator outside this process failed.
    ExternalService(String),
    /// Anything else.
    Internal(String),
}

impl ServiceError {
    /// The human-readable message: the kind of the error, then its detail.
    pub open spec fn spec_message(self) -> Seq<char> {
        match self {
            ServiceError::Storage(e) => "Storage error: "@ + (e.prefix() + e.detail()),
            ServiceError::NotFound(m) => "Not found: "@ + m@,
            ServiceError::Validation(m) => "Validation error: "@ + m@,
            ServiceError::BusinessLogic(m) => "Business logic error: "@ + m@,
            ServiceError::ExternalService(m) => "External service error: "@ + m@,
            ServiceError::Internal(m) => "Internal error: "@ + m@,
        }
    }

    /// Renders the error as text.
    pub fn message(&self) -> (text: String)
        ensures
            text@ == self.spec_message(),
    {
        match self {
            ServiceError::Storage(e) => {
                let inner = e.message();
                join2("Storage error: ", inner.as_str())
            },
            ServiceError::NotFound(m) => join2("Not found: ", m.as_str()),
            ServiceError::Validation(m) => join2("Validation error: ", m.as_str()),
            ServiceError::BusinessLogic(m) => join2("Business logic error: ", m.as_str()),
            ServiceError::ExternalService(m) => join2("External service error: ", m.as_str()),
            ServiceError::Internal(m) => join2("Internal error: ", m.as_str()),
        }
    }

    /// What a storage failure becomes at the service level: a missing record
    /// is reported as such, every other failure is passed on unchanged.
    pub open spec fn spec_from_storage(err: StorageError) -> ServiceError {
        match err {
            StorageError::NotFound(m) => ServiceError::NotFound(m),
            _ => ServiceError::Storage(err),
        }
    }

    /// Lifts a storage failure to the service level.
    pub fn from_storage(err: StorageError) -> (lifted: ServiceError)
        ensures
            lifted == Self::spec_from_storage(err),
    {
        match err {
            StorageError::NotFound(m) => ServiceError::NotFound(m),
            StorageError::Duplicate(m) => ServiceError::Storage(StorageError::Duplicate(m)),
            StorageError::InvalidOperation(m) => ServiceError::Storage(
                StorageError::InvalidOperation(m),
            ),
            StorageError::Internal(m) => ServiceError::Storage(StorageError::Internal(m)),
        }
    }
}

impl From<StorageError> for ServiceError {
    fn from(err: StorageError) -> (lifted: ServiceError) {
        ServiceError::from_storage(err)
    }
}

impl vstd::std_specs::convert::FromSpecImpl<StorageError> for ServiceError {
    open spec fn obeys_from_spec() -> bool {
        true
    }

    open spec fn from_spec(err: StorageError) -> ServiceError {
        ServiceError::spec_from_storage(err)
    }
}

impl From<String> for ServiceError {
    fn from(err: String) -> (lifted: ServiceError) {
        ServiceError::Internal(err)
    }
}

impl vstd::std_specs::convert::FromSpecImpl<String> for ServiceError {
    open spec fn obeys_from_spec() -> bool {
        true
    }

    open spec fn from_spec(err: String) -> ServiceError {
        ServiceError::Internal(err)
    }
}

} // verus!
