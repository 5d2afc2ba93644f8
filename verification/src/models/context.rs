//! The context of a message: who sends what to whom, and as part of which
//! transaction.
//!
//! New identifiers come from the crate `uuid` and the time from the system
//! clock; the function that draws an identifier is trusted.

use crate::time::Timestamp;
use uuid::Uuid;
use vstd::prelude::*;

verus! {

/// The context of a message.
#[derive(Debug, Clone)]
pub struct Context {
    /// The domain of the transaction, such as `nic2004:85111`.
    pub domain: String,
    /// The country in which the transaction takes place.
    pub country: String,
    /// The city in which the transaction takes place.
    pub city: String,
    /// What the message asks for or answers, such as `search`.
    pub action: String,
    /// The version of the protocol.
    pub core_version: String,
    /// Identifier of the application of the consumer.
    pub consumer_id: String,
    /// Where the application of the consumer takes answers.
    pub consumer_uri: String,
    /// Identifier of the application of the provider; unset in a first
    /// request.
    pub provider_id: Option<String>,
    /// Where the application of the provider takes messages; unset in a
    /// first request.
    pub provider_uri: Option<String>,
    /// Identifier of the transaction that the message belongs to.
    pub transaction_id: String,
    /// Identifier of the message.
    pub message_id: String,
    /// When the message was made.
    pub timestamp: Timestamp,
}

/// What carries a context.
pub trait WithContext {
    /// The context that is carried.
    fn context(&self) -> &Context;
}

/// The length of an identifier in its usual form: 32 digits in five groups,
/// with a hyphen between two groups.
pub const IDENTIFIER_LENGTH: usize = 36;

/// Draws a new identifier at random.
///
/// Trusted: calls `uuid::Uuid::new_v4` and writes the result in its usual
/// form, which `uuid` documents to be 36 characters long. The identifier is
/// a matter of chance: nothing else is claimed of it.
#[verifier::external_body]
fn new_identifier() -> (id: String)
    ensures
        id@.len() == IDENTIFIER_LENGTH,
{
    Uuid::new_v4().to_string()
}

impl Context {
    /// `self` opens a transaction: it carries the given fields and names no
    /// provider yet.
    pub open spec fn opens(
        self,
        domain: String,
        country: String,
        city: String,
        action: String,
        core_version: String,
        consumer_id: String,
        consumer_uri: String,
    ) -> bool {
        &&& self.domain == domain
        &&& self.country == country
        &&& self.city == city
        &&& self.action == action
        &&& self.core_version == core_version
        &&& self.consumer_id == consumer_id
        &&& self.consumer_uri == consumer_uri
        &&& self.provider_id is None
        &&& self.provider_uri is None
    }

    /// `self` answers `request` within the same transaction: it carries the
    /// action and the provider given, and everything else from the request
    /// but the identifier of the message and the time.
    pub open spec fn answers(
        self,
        request: Context,
        action: String,
        provider_id: String,
        provider_uri: String,
    ) -> bool {
        &&& self.domain == request.domain
        &&& self.country == request.country
        &&& self.city == request.city
        &&& self.action == action
        &&& self.core_version == request.core_version
        &&& self.consumer_id == request.consumer_id
        &&& self.consumer_uri == request.consumer_uri
        &&& self.provider_id == Some(provider_id)
        &&& self.provider_uri == Some(provider_uri)
        &&& self.transaction_id == request.transaction_id
    }

    /// The context that opens the transaction `transaction_id` with the
    /// message `message_id` at the instant `timestamp`.
    pub fn opening(
        domain: String,
        country: String,
        city: String,
        action: String,
        core_version: String,
        consumer_id: String,
        consumer_uri: String,
        transaction_id: String,
        message_id: String,
        timestamp: Timestamp,
    ) -> (context: Context)
        ensures
            context.opens(domain, country, city, action, core_version, consumer_id, consumer_uri),
            context.transaction_id == transaction_id,
            context.message_id == message_id,
            context.timestamp == timestamp,
    {
        Context {
            domain,
            country,
            city,
            action,
            core_version,
            consumer_id,
            consumer_uri,
            provider_id: None,
            provider_uri: None,
            transaction_id,
            message_id,
            timestamp,
        }
    }

    /// The context that answers `self` with the message `message_id` at the
    /// instant `timestamp`.
    pub fn answering(
        &self,
        action: String,
        provider_id: String,
        provider_uri: String,
        message_id: String,
        timestamp: Timestamp,
    ) -> (context: Context)
        ensures
            context.answers(*self, action, provider_id, provider_uri),
            context.message_id == message_id,
            context.timestamp == timestamp,
    {
        Context {
            domain: self.domain.clone(),
            country: self.country.clone(),
            city: self.city.clone(),
            action,
            core_version: self.core_version.clone(),
            consumer_id: self.consumer_id.clone(),
            consumer_uri: self.consumer_uri.clone(),
            provider_id: Some(provider_id),
            provider_uri: Some(provider_uri),
            transaction_id: self.transaction_id.clone(),
            message_id,
            timestamp,
        }
    }

    /// A context that opens a new transaction now: the identifiers of the
    /// transaction and of the message are drawn at random, the time is read
    /// off the system clock.
    pub fn new(
        domain: String,
        country: String,
        city: String,
        action: String,
        core_version: String,
        consumer_id: String,
        consumer_uri: String,
    ) -> (context: Context)
        ensures
            context.opens(domain, country, city, action, core_version, consumer_id, consumer_uri),
            context.transaction_id@.len() == IDENTIFIER_LENGTH,
            context.message_id@.len() == IDENTIFIER_LENGTH,
            context.timestamp.wf(),
    {
        let transaction_id = new_identifier();
        let message_id = new_identifier();
        Self::opening(
            domain,
            country,
            city,
            action,
            core_version,
            consumer_id,
            consumer_uri,
            transaction_id,
            message_id,
            Timestamp::now(),
        )
    }

    /// A context that answers `self` now, within the same transaction: the
    /// identifier of the message is drawn at random, the time is read off
    /// the system clock.
    pub fn create_response_context(&self, action: String, provider_id: String, provider_uri: String) -> (context:
        Context)
        ensures
            context.answers(*self, action, provider_id, provider_uri),
            context.message_id@.len() == IDENTIFIER_LENGTH,
            context.timestamp.wf(),
    {
        let message_id = new_identifier();
        self.answering(action, provider_id, provider_uri, message_id, Timestamp::now())
    }
}

} // verus!
