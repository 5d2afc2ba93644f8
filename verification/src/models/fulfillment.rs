//! Fulfillments: the scheduled delivery of a service to a customer.

use crate::tags::TagMap;
use crate::time::Timestamp;
use vstd::prelude::*;

verus! {

/// A person and what is known about them.
#[derive(Debug, Clone)]
pub struct Person {
    /// Name of the person.
    pub name: String,
    /// URL of a picture of the person.
    pub image: Option<String>,
    /// Gender of the person.
    pub gender: Option<String>,
    /// Credentials or qualifications of the person.
    pub creds: Option<String>,
    /// Free-form tags.
    pub tags: Option<TagMap>,
}

/// The agent who delivers the service, such as a doctor or a technician.
#[derive(Debug, Clone)]
pub struct Agent {
    /// Identifier of the agent.
    pub id: String,
    /// Name of the agent.
    pub name: String,
    /// Gender of the agent.
    pub gender: Option<String>,
    /// URL of a picture of the agent.
    pub image: Option<String>,
    /// Free-form tags.
    pub tags: TagMap,
}

/// An instant with an optional label such as "start" or "end".
#[derive(Debug, Clone)]
pub struct Time {
    /// The instant.
    pub timestamp: Timestamp,
    /// What the instant marks.
    pub label: Option<String>,
}

/// A point in time and, optionally, how long the slot lasts from there.
#[derive(Debug, Clone)]
pub struct TimeSlot {
    /// Where the slot begins.
    pub time: Time,
    /// Length of the slot in seconds.
    pub duration: Option<i64>,
}

/// The state of a fulfillment and when it was entered.
#[derive(Debug, Clone)]
pub struct State {
    /// Name of the state, such as `SCHEDULED`.
    pub descriptor: String,
    /// When the fulfillment entered the state.
    pub updated_at: Timestamp,
}

/// The customer who receives the service.
#[derive(Debug, Clone)]
pub struct Customer {
    /// Who the customer is.
    pub person: Person,
    /// How to reach the customer: kind of contact to address.
    pub contact: TagMap,
}

/// The scheduled delivery of a service.
#[derive(Debug, Clone)]
pub struct Fulfillment {
    /// Identifier of the fulfillment.
    pub id: String,
    /// Kind of delivery, such as "teleconsultation".
    pub fulfillment_type: String,
    /// Identifier of the provider who delivers the service.
    pub provider_id: String,
    /// The agent who delivers the service.
    pub agent: Option<Agent>,
    /// Where the booked span begins and, optionally, how long it lasts.
    pub start: TimeSlot,
    /// Where the booked span ends, used when `start` gives no duration.
    pub end: TimeSlot,
    /// The customer who receives the service.
    pub customer: Option<Customer>,
    /// The current state; unset until the first transition.
    pub state: Option<State>,
    /// Free-form tags.
    pub tags: TagMap,
}

/// The length in seconds assumed for a booking that gives neither a duration
/// nor an end after its start.
pub const DEFAULT_SLOT_SECONDS: i64 = 3600;

impl Fulfillment {
    /// The instant at which the booked span begins.
    pub open spec fn booked_start(self) -> Timestamp {
        self.start.time.timestamp
    }

    /// The instant at which the booked span ends: the start plus the duration
    /// where one is given; else the stated end where it lies after the start;
    /// else one hour after the start.
    pub open spec fn booked_end(self) -> Timestamp {
        match self.start.duration {
            Some(duration) => self.booked_start().spec_plus_saturating(duration as int),
            None => if self.booked_start().precedes(self.end.time.timestamp) {
                self.end.time.timestamp
            } else {
                self.booked_start().spec_plus_saturating(DEFAULT_SLOT_SECONDS as int)
            },
        }
    }

    /// The name of the current state, if one is set.
    pub open spec fn state_name(self) -> Option<Seq<char>> {
        match self.state {
            Some(state) => Some(state.descriptor@),
            None => None,
        }
    }

    /// The instant at which the booked span begins.
    pub fn span_start(&self) -> (start: Timestamp)
        ensures
            start == self.booked_start(),
    {
        self.start.time.timestamp
    }

    /// The instant at which the booked span ends.
    pub fn span_end(&self) -> (end: Timestamp)
        ensures
            end == self.booked_end(),
    {
        let start = self.start.time.timestamp;
        match self.start.duration {
            Some(duration) => start.plus_seconds_saturating(duration),
            None => if start.is_before(&self.end.time.timestamp) {
                self.end.time.timestamp
            } else {
                start.plus_seconds_saturating(DEFAULT_SLOT_SECONDS)
            },
        }
    }
}

} // verus!
