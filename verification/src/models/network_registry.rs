//! Participants of the network and the records of its registry.

use crate::tags::TagMap;
use crate::time::Timestamp;
use vstd::prelude::*;

verus! {

/// The role of a participant in the network.
#[derive(Clone, Copy, Debug, PartialEq, Eq, Structural)]
pub enum ParticipantType {
    /// An application of end users.
    Eua,
    /// A provider of health services.
    Hsp,
    /// A gateway.
    Gateway,
}

impl ParticipantType {
    /// The name of the role on the wire.
    pub open spec fn spec_name(self) -> Seq<char> {
        match self {
            ParticipantType::Eua => "EUA"@,
            ParticipantType::Hsp => "HSP"@,
            ParticipantType::Gateway => "GATEWAY"@,
        }
    }

    /// The name of the role on the wire.
    pub fn as_str(&self) -> (name: &'static str)
        ensures
            name@ == self.spec_name(),
    {
        match self {
            ParticipantType::Eua => "EUA",
            ParticipantType::Hsp => "HSP",
            ParticipantType::Gateway => "GATEWAY",
        }
    }
}

/// Whether a participant takes part in the network.
#[derive(Clone, Copy, Debug, PartialEq, Eq, Structural)]
pub enum ParticipantStatus {
    /// The participant takes part.
    Active,
    /// The participant does not take part.
    Inactive,
    /// The participant is suspended.
    Suspended,
}

impl ParticipantStatus {
    /// The name of the status on the wire.
    pub open spec fn spec_name(self) -> Seq<char> {
        match self {
            ParticipantStatus::Active => "ACTIVE"@,
            ParticipantStatus::Inactive => "INACTIVE"@,
            ParticipantStatus::Suspended => "SUSPENDED"@,
        }
    }

    /// The name of the status on the wire.
    pub fn as_str(&self) -> (name: &'static str)
        ensures
            name@ == self.spec_name(),
    {
        match self {
            ParticipantStatus::Active => "ACTIVE",
            ParticipantStatus::Inactive => "INACTIVE",
            ParticipantStatus::Suspended => "SUSPENDED",
        }
    }
}

/// A subscriber of the registry.
#[derive(Debug, Clone)]
pub struct Subscriber {
    /// Identifier of the subscriber.
    pub id: String,
    /// The role of the subscriber: `EUA`, `HSP` or `GATEWAY`.
    pub type_field: String,
    /// The domain in which the subscriber operates.
    pub domain: String,
    /// The city in which the subscriber operates.
    pub city: Option<String>,
    /// The country in which the subscriber operates.
    pub country: Option<String>,
    /// The base URL of the subscriber.
    pub url: String,
    /// The status of the subscriber.
    pub status: String,
    /// The public key with which the signatures of the subscriber are
    /// checked.
    pub public_key: String,
    /// When the subscriber was registered.
    pub created_at: Timestamp,
    /// When the subscriber was last updated.
    pub updated_at: Timestamp,
}

/// What a subscriber is looked up by.
#[derive(Debug, Clone)]
pub struct NetworkRegistryLookup {
    /// The role to look for.
    pub type_field: String,
    /// The domain to look for.
    pub domain: String,
    /// The city to look for.
    pub city: Option<String>,
    /// The country to look for.
    pub country: Option<String>,
}

/// A participant of the network.
#[derive(Debug, Clone)]
pub struct Participant {
    /// Identifier of the subscriber behind the participant.
    pub subscriber_id: String,
    /// The role of the participant.
    pub participant_type: String,
    /// The domains that the participant serves.
    pub domains: Vec<String>,
    /// The base URL of the participant.
    pub url: String,
    /// The status of the participant.
    pub status: String,
    /// The public key with which the signatures of the participant are
    /// checked.
    pub public_key: String,
    /// When the participant was registered.
    pub created_at: Timestamp,
    /// When the participant was last updated.
    pub updated_at: Timestamp,
    /// The certificate of the participant.
    pub certificate: Option<String>,
    /// More about the participant.
    pub metadata: Option<TagMap>,
}

/// A lookup of participants: every criterion that is given must hold.
#[derive(Debug, Clone)]
pub struct LookupRequest {
    /// The identifier that a participant must have.
    pub subscriber_id: Option<String>,
    /// Text that the domain of a participant must contain.
    pub domain: Option<String>,
    /// The role that a participant must have.
    pub participant_type: Option<String>,
}

/// The answer to a lookup of participants.
#[derive(Debug, Clone)]
pub struct LookupResponse {
    /// The participants found.
    pub participants: Vec<Participant>,
}

/// A request to register a participant.
#[derive(Debug, Clone)]
pub struct RegistrationRequest {
    /// The role of the participant.
    pub participant_type: String,
    /// The domains that the participant serves.
    pub domains: Vec<String>,
    /// The base URL of the participant.
    pub url: String,
    /// The public key of the participant.
    pub public_key: String,
    /// The certificate of the participant.
    pub certificate: Option<String>,
    /// More about the participant.
    pub metadata: Option<TagMap>,
}

/// The answer to a request to register a participant.
#[derive(Debug, Clone)]
pub struct RegistrationResponse {
    /// The identifier given to the participant.
    pub subscriber_id: String,
    /// The status of the registration.
    pub status: String,
}

/// A subscription of a participant to events.
#[derive(Debug, Clone)]
pub struct Subscription {
    /// Identifier of the subscriber.
    pub subscriber_id: String,
    /// Where the events are sent.
    pub url: String,
    /// The kinds of events subscribed to.
    pub events: Vec<String>,
}

} // verus!
