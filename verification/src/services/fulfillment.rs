//! The life cycle of a fulfillment and the rules that admit a booking:
//! the provider must be open for the whole span, and the span must not
//! conflict with a booking that exists already.

use crate::models::fulfillment::{Fulfillment, State, DEFAULT_SLOT_SECONDS};
use crate::services::error::ServiceError;
use crate::services::provider::{ProviderService, WorkingHours};
use crate::storage::{
    fulfillment_of_provider, lemma_listed_records, lists, Storage, StoreView,
};
use crate::tags::{with_prefix, TagMap};
use crate::text::{join2, join5, owned, str_eq};
use crate::time::Timestamp;
use vstd::prelude::*;

verus! {

/// A state in the life of a fulfillment.
#[derive(Clone, Copy, Debug, PartialEq, Eq, Structural)]
pub enum FulfillmentState {
    Scheduled,
    Waiting,
    InProgress,
    Completed,
    Cancelled,
    NoShow,
    Rescheduled,
}

impl FulfillmentState {
    /// The name under which the state is stored.
    pub open spec fn spec_name(self) -> Seq<char> {
        match self {
            FulfillmentState::Scheduled => "SCHEDULED"@,
            FulfillmentState::Waiting => "WAITING"@,
            FulfillmentState::InProgress => "IN_PROGRESS"@,
            FulfillmentState::Completed => "COMPLETED"@,
            FulfillmentState::Cancelled => "CANCELLED"@,
            FulfillmentState::NoShow => "NO_SHOW"@,
            FulfillmentState::Rescheduled => "RESCHEDULED"@,
        }
    }

    /// The state with the name `name`, if there is one.
    pub open spec fn spec_parse(name: Seq<char>) -> Option<FulfillmentState> {
        if name == "SCHEDULED"@ {
            Some(FulfillmentState::Scheduled)
        } else if name == "WAITING"@ {
            Some(FulfillmentState::Waiting)
        } else if name == "IN_PROGRESS"@ {
            Some(FulfillmentState::InProgress)
        } else if name == "COMPLETED"@ {
            Some(FulfillmentState::Completed)
        } else if name == "CANCELLED"@ {
            Some(FulfillmentState::Cancelled)
        } else if name == "NO_SHOW"@ {
            Some(FulfillmentState::NoShow)
        } else if name == "RESCHEDULED"@ {
            Some(FulfillmentState::Rescheduled)
        } else {
            None
        }
    }

    /// The transition table: the states that may follow `self`, in the order
    /// in which the table lists them. A state that nothing may follow is
    /// terminal.
    pub open spec fn successors(self) -> Seq<FulfillmentState> {
        match self {
            FulfillmentState::Scheduled => seq![
                FulfillmentState::Waiting,
                FulfillmentState::InProgress,
                FulfillmentState::Cancelled,
                FulfillmentState::NoShow,
                FulfillmentState::Rescheduled,
            ],
            FulfillmentState::Waiting => seq![
                FulfillmentState::InProgress,
                FulfillmentState::Cancelled,
                FulfillmentState::NoShow,
            ],
            FulfillmentState::InProgress => seq![
                FulfillmentState::Completed,
                FulfillmentState::Cancelled,
            ],
            FulfillmentState::Completed => seq![],
            FulfillmentState::Cancelled => seq![],
            FulfillmentState::NoShow => seq![FulfillmentState::Rescheduled],
            FulfillmentState::Rescheduled => seq![FulfillmentState::Scheduled],
        }
    }

    /// The table lists `next` among the states that may follow `self`.
    pub open spec fn may_become(self, next: FulfillmentState) -> bool {
        self.successors().contains(next)
    }

    /// Nothing may follow the state.
    pub open spec fn terminal(self) -> bool {
        self.successors().len() == 0
    }

    /// The name under which the state is stored.
    pub fn as_str(&self) -> (name: &'static str)
        ensures
            name@ == self.spec_name(),
    {
        match self {
            FulfillmentState::Scheduled => "SCHEDULED",
            FulfillmentState::Waiting => "WAITING",
            FulfillmentState::InProgress => "IN_PROGRESS",
            FulfillmentState::Completed => "COMPLETED",
            FulfillmentState::Cancelled => "CANCELLED",
            FulfillmentState::NoShow => "NO_SHOW",
            FulfillmentState::Rescheduled => "RESCHEDULED",
        }
    }

    /// The state with the name `name`, if there is one.
    pub fn parse(name: &str) -> (state: Option<FulfillmentState>)
        ensures
            state == Self::spec_parse(name@),
    {
        if str_eq(name, "SCHEDULED") {
            Some(FulfillmentState::Scheduled)
        } else if str_eq(name, "WAITING") {
            Some(FulfillmentState::Waiting)
        } else if str_eq(name, "IN_PROGRESS") {
            Some(FulfillmentState::InProgress)
        } else if str_eq(name, "COMPLETED") {
            Some(FulfillmentState::Completed)
        } else if str_eq(name, "CANCELLED") {
            Some(FulfillmentState::Cancelled)
        } else if str_eq(name, "NO_SHOW") {
            Some(FulfillmentState::NoShow)
        } else if str_eq(name, "RESCHEDULED") {
            Some(FulfillmentState::Rescheduled)
        } else {
            None
        }
    }

    /// The states that may follow `self`, as the transition table lists them.
    pub fn allowed_transitions(&self) -> (next: Vec<FulfillmentState>)
        ensures
            next@ == self.successors(),
    {
        let mut next: Vec<FulfillmentState> = Vec::new();
        match self {
            FulfillmentState::Scheduled => {
                next.push(FulfillmentState::Waiting);
                next.push(FulfillmentState::InProgress);
                next.push(FulfillmentState::Cancelled);
                next.push(FulfillmentState::NoShow);
                next.push(FulfillmentState::Rescheduled);
            },
            FulfillmentState::Waiting => {
                next.push(FulfillmentState::InProgress);
                next.push(FulfillmentState::Cancelled);
                next.push(FulfillmentState::NoShow);
            },
            FulfillmentState::InProgress => {
                next.push(FulfillmentState::Completed);
                next.push(FulfillmentState::Cancelled);
            },
            FulfillmentState::Completed => {},
            FulfillmentState::Cancelled => {},
            FulfillmentState::NoShow => {
                next.push(FulfillmentState::Rescheduled);
            },
            FulfillmentState::Rescheduled => {
                next.push(FulfillmentState::Scheduled);
            },
        }
        assert(next@ =~= self.successors());
        next
    }

    /// Whether the table lists `next` among the states that may follow
    /// `self`.
    pub fn can_become(&self, next: FulfillmentState) -> (allowed: bool)
        ensures
            allowed == self.may_become(next),
    {
        let table = self.allowed_transitions();
        let mut i: usize = 0;
        while i < table.len()
            invariant
                i <= table.len(),
                table@ == self.successors(),
                forall|j: int| 0 <= j < i ==> table@[j] != next,
            decreases table.len() - i,
        {
            if table[i] == next {
                return true;
            }
            i += 1;
        }
        false
    }

    /// Whether nothing may follow the state.
    pub fn is_terminal(&self) -> (done: bool)
        ensures
            done == self.terminal(),
    {
        self.allowed_transitions().len() == 0
    }
}

/// The names of the states are distinct: reading the name of a state gives
/// the state back.
pub proof fn lemma_state_names_round_trip(state: FulfillmentState)
    ensures
        FulfillmentState::spec_parse(state.spec_name()) == Some(state),
{
    reveal_strlit("SCHEDULED");
    reveal_strlit("WAITING");
    reveal_strlit("IN_PROGRESS");
    reveal_strlit("COMPLETED");
    reveal_strlit("CANCELLED");
    reveal_strlit("NO_SHOW");
    reveal_strlit("RESCHEDULED");
    assert("SCHEDULED"@[0] == 'S');
    assert("COMPLETED"@[0] == 'C');
    assert("COMPLETED"@[1] == 'O');
    assert("CANCELLED"@[0] == 'C');
    assert("CANCELLED"@[1] == 'A');
    assert("WAITING"@[0] == 'W');
    assert("NO_SHOW"@[0] == 'N');
    assert("IN_PROGRESS"@[0] == 'I');
    assert("RESCHEDULED"@[0] == 'R');
}

/// A name that denotes a state is the name of that state.
pub proof fn lemma_parsed_state_has_name(name: Seq<char>)
    ensures
        FulfillmentState::spec_parse(name) matches Some(state) ==> state.spec_name() == name,
{
}

/// The completed and the cancelled state are terminal, and no other state
/// is.
pub proof fn lemma_terminal_states(state: FulfillmentState)
    ensures
        state.terminal() <==> (state == FulfillmentState::Completed || state
            == FulfillmentState::Cancelled),
        state.terminal() ==> forall|next: FulfillmentState| !state.may_become(next),
{
}

/// Once a state is set, only the transition table opens a way: a current
/// state or a target that the table does not know is refused, and so is a
/// target that the table does not list for the current state.
pub proof fn lemma_only_listed_transitions_are_allowed(current: Seq<char>, target: Seq<char>)
    ensures
        FulfillmentService::transition_allowed(Some(current), target) <==> exists|
            from: FulfillmentState,
            to: FulfillmentState,
        |
            #![auto]
            from.spec_name() == current && to.spec_name() == target && from.may_become(to),
{
    lemma_parsed_state_has_name(current);
    lemma_parsed_state_has_name(target);
    if FulfillmentService::transition_allowed(Some(current), target) {
        let from = FulfillmentState::spec_parse(current)->0;
        let to = FulfillmentState::spec_parse(target)->0;
        assert(from.spec_name() == current && to.spec_name() == target && from.may_become(to));
    }
    if exists|from: FulfillmentState, to: FulfillmentState|
        #![auto]
        from.spec_name() == current && to.spec_name() == target && from.may_become(to) {
        let (from, to) = choose|from: FulfillmentState, to: FulfillmentState|
            #![auto]
            from.spec_name() == current && to.spec_name() == target && from.may_become(to);
        lemma_state_names_round_trip(from);
        lemma_state_names_round_trip(to);
    }
}

/// A span of time from `start` up to but not including `end`.
#[derive(Clone, Copy, Debug, PartialEq, Eq, Structural)]
pub struct Interval {
    pub start: Timestamp,
    pub end: Timestamp,
}

impl Interval {
    /// The span is not empty: it starts before it ends.
    pub open spec fn wf(self) -> bool {
        self.start.precedes(self.end)
    }

    /// `self` conflicts with `other`: it begins inside `other`, or ends
    /// inside it, or encloses it. Two spans of which one ends where the
    /// other begins do not conflict.
    pub open spec fn conflicts_with(self, other: Interval) -> bool {
        ||| (other.start.not_after(self.start) && self.start.precedes(other.end))
        ||| (other.start.precedes(self.end) && self.end.not_after(other.end))
        ||| (self.start.not_after(other.start) && other.end.not_after(self.end))
    }

    /// `self` lies inside `other` and touches neither of its ends.
    pub open spec fn strictly_inside(self, other: Interval) -> bool {
        other.start.precedes(self.start) && self.end.precedes(other.end)
    }

    /// Whether `self` conflicts with `other`.
    pub fn conflicts(&self, other: &Interval) -> (conflict: bool)
        ensures
            conflict == self.conflicts_with(*other),
    {
        (other.start.is_at_or_before(&self.start) && self.start.is_before(&other.end)) || (
        other.start.is_before(&self.end) && self.end.is_at_or_before(&other.end)) || (
        self.start.is_at_or_before(&other.start) && other.end.is_at_or_before(&self.end))
    }
}

/// The span that the fulfillment `booking` occupies.
pub open spec fn booked_span(booking: Fulfillment) -> Interval {
    Interval { start: booking.booked_start(), end: booking.booked_end() }
}

/// The span from `start` to `end` conflicts with the span of some booking of
/// `existing`.
pub open spec fn spec_has_conflict(start: Timestamp, end: Timestamp, existing: Seq<Fulfillment>) -> bool {
    exists|i: int|
        0 <= i < existing.len() && (Interval { start, end }).conflicts_with(
            booked_span(#[trigger] existing[i]),
        )
}

/// The span conflicts with the span of some booking that the store keeps
/// for the provider `provider_id`.
pub open spec fn taken(store: StoreView, provider_id: Seq<char>, span: Interval) -> bool {
    exists|key: Seq<char>| #[trigger]
        store.fulfillments.contains_key(key) && store.fulfillments[key].provider_id@
            == provider_id && span.conflicts_with(booked_span(store.fulfillments[key]))
}

/// The span conflicts with the span of some booking of `list`.
pub open spec fn conflicts_with_some(span: Interval, list: Seq<&Fulfillment>) -> bool {
    exists|k: int| 0 <= k < list.len() && span.conflicts_with(booked_span(*(#[trigger] list[k])))
}

/// Where `list` shows the bookings that a store keeps for a provider, a
/// span conflicts with one of the list exactly where it is taken.
pub proof fn lemma_listed_bookings_decide(
    store: StoreView,
    provider_id: Seq<char>,
    list: Seq<&Fulfillment>,
    span: Interval,
)
    requires
        lists(list, store.fulfillments, fulfillment_of_provider(provider_id)),
    ensures
        conflicts_with_some(span, list) == taken(store, provider_id, span),
{
    let wanted = fulfillment_of_provider(provider_id);
    lemma_listed_records(list, store.fulfillments, wanted);
    if conflicts_with_some(span, list) {
        let k = choose|k: int|
            0 <= k < list.len() && span.conflicts_with(booked_span(*(#[trigger] list[k])));
        assert(store.fulfillments.contains_value(*list[k]) && wanted(*list[k]));
        let key = choose|key: Seq<char>|
            store.fulfillments.dom().contains(key) && store.fulfillments[key] == *list[k];
        assert(store.fulfillments.contains_key(key));
    }
    if taken(store, provider_id, span) {
        let key = choose|key: Seq<char>| #[trigger]
            store.fulfillments.contains_key(key) && store.fulfillments[key].provider_id@
                == provider_id && span.conflicts_with(booked_span(store.fulfillments[key]));
        assert(wanted(store.fulfillments[key]));
        let k = choose|k: int|
            0 <= k < list.len() && *(#[trigger] list[k]) == store.fulfillments[key];
        assert(span.conflicts_with(booked_span(*list[k])));
    }
}

/// Two spans of which one ends where the other begins do not conflict,
/// whichever of the two is the requested one.
pub proof fn lemma_adjacent_spans_do_not_conflict(a: Interval, b: Interval)
    requires
        a.wf(),
        b.wf(),
        a.end == b.start,
    ensures
        !a.conflicts_with(b),
        !b.conflicts_with(a),
{
}

/// A span that strictly contains another conflicts with it; and the inner
/// one, where it is not empty, conflicts with the outer one.
pub proof fn lemma_nested_spans_conflict(outer: Interval, inner: Interval)
    requires
        inner.strictly_inside(outer),
    ensures
        outer.conflicts_with(inner),
        inner.wf() ==> inner.conflicts_with(outer),
{
}

/// A requested span that every existing booking merely touches, ending where
/// the booking begins or beginning where it ends, has no conflict.
pub proof fn lemma_back_to_back_bookings_never_conflict(
    start: Timestamp,
    end: Timestamp,
    existing: Seq<Fulfillment>,
)
    requires
        start.precedes(end),
        forall|i: int|
            0 <= i < existing.len() ==> booked_span(#[trigger] existing[i]).wf() && (end
                == existing[i].booked_start() || existing[i].booked_end() == start),
    ensures
        !spec_has_conflict(start, end, existing),
{
    assert forall|i: int| 0 <= i < existing.len() implies !(Interval {
        start,
        end,
    }).conflicts_with(booked_span(#[trigger] existing[i])) by {
        let requested = Interval { start, end };
        let span = booked_span(existing[i]);
        if end == existing[i].booked_start() {
            lemma_adjacent_spans_do_not_conflict(requested, span);
        } else {
            lemma_adjacent_spans_do_not_conflict(span, requested);
        }
    }
}

/// A requested span that strictly contains an existing booking has a
/// conflict, and so has one that begins before it ends and lies strictly
/// inside an existing booking.
pub proof fn lemma_nested_booking_conflicts(
    start: Timestamp,
    end: Timestamp,
    existing: Seq<Fulfillment>,
    k: int,
)
    requires
        0 <= k < existing.len(),
        booked_span(existing[k]).strictly_inside(Interval { start, end }) || (start.precedes(end)
            && (Interval { start, end }).strictly_inside(booked_span(existing[k]))),
    ensures
        spec_has_conflict(start, end, existing),
{
    let requested = Interval { start, end };
    let span = booked_span(existing[k]);
    if span.strictly_inside(requested) {
        lemma_nested_spans_conflict(requested, span);
    } else {
        lemma_nested_spans_conflict(span, requested);
    }
}

/// The prefix under which the context of a state change is stored among the
/// tags of the fulfillment.
pub open spec fn context_prefix() -> Seq<char> {
    "state_change_"@
}

/// The tags that a context contributes; none where no context is given.
pub open spec fn context_tags(context: Option<TagMap>) -> Map<Seq<char>, Seq<char>> {
    match context {
        Some(tags) => tags@,
        None => Map::empty(),
    }
}

/// The rules of the fulfillment service.
pub struct FulfillmentService {}

impl FulfillmentService {
    /// A fulfillment whose state is named `current`, or unset, may enter the
    /// state named `target`. Where no state is set, every target is
    /// accepted; else the transition table must list the target for the
    /// current state, so a current state that the table does not know
    /// leads nowhere.
    pub open spec fn transition_allowed(current: Option<Seq<char>>, target: Seq<char>) -> bool {
        match current {
            None => true,
            Some(name) => match (
                FulfillmentState::spec_parse(name),
                FulfillmentState::spec_parse(target),
            ) {
                (Some(from), Some(to)) => from.may_become(to),
                _ => false,
            },
        }
    }

    /// `after` is `before` once it has entered the state named `target` at
    /// the instant `now`, with the tags of `context` stored under the
    /// prefix of state changes; everything else is as it was.
    pub open spec fn entered(
        before: Fulfillment,
        after: Fulfillment,
        target: Seq<char>,
        context: Map<Seq<char>, Seq<char>>,
        now: Timestamp,
    ) -> bool {
        &&& after.state matches Some(state) && state.descriptor@ == target && state.updated_at
            == now
        &&& after.tags@ == before.tags@.union_prefer_right(with_prefix(context_prefix(), context))
        &&& after.id == before.id
        &&& after.fulfillment_type == before.fulfillment_type
        &&& after.provider_id == before.provider_id
        &&& after.agent == before.agent
        &&& after.start == before.start
        &&& after.end == before.end
        &&& after.customer == before.customer
    }

    /// Whether the provider with the hours `hours` and the bookings
    /// `existing` can take a booking that begins at `start` and lasts
    /// `duration` seconds; `None` where the start or the end of the booking
    /// is no instant of the calendar.
    pub open spec fn spec_check_availability(
        hours: WorkingHours,
        existing: Seq<Fulfillment>,
        start: Timestamp,
        duration: int,
    ) -> Option<bool> {
        match ProviderService::spec_is_available(hours, start, duration) {
            Some(open) => Some(
                open && !spec_has_conflict(
                    start,
                    start.spec_plus_seconds(duration)->0,
                    existing,
                ),
            ),
            None => None,
        }
    }

    /// Whether the provider `provider_id`, with the default schedule and
    /// the bookings that the store keeps for it, can take a booking that
    /// begins at `start` and lasts `duration` seconds; `None` where the start
    /// or the end of the booking is no instant of the calendar.
    pub open spec fn spec_free(
        store: StoreView,
        provider_id: Seq<char>,
        start: Timestamp,
        duration: int,
    ) -> Option<bool> {
        match ProviderService::spec_default_available(start, duration) {
            Some(open) => Some(
                open && !taken(
                    store,
                    provider_id,
                    Interval { start, end: start.spec_plus_seconds(duration)->0 },
                ),
            ),
            None => None,
        }
    }

    /// The store can take `booking`: its provider is stored and free for
    /// the span of the booking, and the identifier of the booking is new.
    pub open spec fn bookable(store: StoreView, booking: Fulfillment) -> bool {
        &&& store.providers.contains_key(booking.provider_id@)
        &&& Self::spec_free(
            store,
            booking.provider_id@,
            booking.booked_start(),
            Self::requested_duration(booking),
        ) == Some(true)
        &&& !store.fulfillments.contains_key(booking.id@)
    }

    /// `after` is `before` with the record of `fulfillment` replaced by the
    /// fulfillment once it has entered the state named `target` at the
    /// instant `now`, with the tags of `context`.
    pub open spec fn writes_entry(
        before: StoreView,
        after: StoreView,
        fulfillment: Fulfillment,
        target: Seq<char>,
        context: Map<Seq<char>, Seq<char>>,
        now: Timestamp,
    ) -> bool {
        &&& after.fulfillments.contains_key(fulfillment.id@)
        &&& Self::entered(fulfillment, after.fulfillments[fulfillment.id@], target, context, now)
        &&& after == (StoreView {
            fulfillments: before.fulfillments.insert(
                fulfillment.id@,
                after.fulfillments[fulfillment.id@],
            ),
            ..before
        })
    }

    /// The length in seconds of the span that a new booking asks for: its
    /// duration where it gives one, else one hour.
    pub open spec fn requested_duration(booking: Fulfillment) -> int {
        match booking.start.duration {
            Some(duration) => duration as int,
            None => DEFAULT_SLOT_SECONDS as int,
        }
    }

    /// Checks that `fulfillment` may enter the state named `new_state`.
    ///
    /// Fails with a business-logic error exactly where the transition is not
    /// allowed.
    pub fn validate_state_transition(fulfillment: &Fulfillment, new_state: &str) -> (checked:
        Result<(), ServiceError>)
        ensures
            match checked {
                Ok(_) => Self::transition_allowed(fulfillment.state_name(), new_state@),
                Err(e) => e is BusinessLogic && !Self::transition_allowed(
                    fulfillment.state_name(),
                    new_state@,
                ),
            },
    {
        let current = match &fulfillment.state {
            Some(state) => state.descriptor.as_str(),
            None => { return Ok(()); },
        };
        let allowed = match (FulfillmentState::parse(current), FulfillmentState::parse(new_state)) {
            (Some(from), Some(to)) => from.can_become(to),
            _ => false,
        };
        if allowed {
            Ok(())
        } else {
            Err(
                ServiceError::BusinessLogic(
                    join5("Invalid state transition from '", current, "' to '", new_state, "'"),
                ),
            )
        }
    }

    /// Puts `fulfillment` into the state named `state` at the instant `now`
    /// and stores the tags of `context` under the prefix of state changes.
    ///
    /// Fails with a business-logic error exactly where the transition is not
    /// allowed, and then leaves the fulfillment as it was.
    pub fn update_state_at(
        fulfillment: &mut Fulfillment,
        state: &str,
        context: Option<TagMap>,
        now: Timestamp,
    ) -> (updated: Result<(), ServiceError>)
        ensures
            match updated {
                Ok(_) => Self::transition_allowed(old(fulfillment).state_name(), state@)
                    && Self::entered(
                    *old(fulfillment),
                    *final(fulfillment),
                    state@,
                    context_tags(context),
                    now,
                ),
                Err(e) => e is BusinessLogic && !Self::transition_allowed(
                    old(fulfillment).state_name(),
                    state@,
                ) && *final(fulfillment) == *old(fulfillment),
            },
    {
        match Self::validate_state_transition(fulfillment, state) {
            Ok(_) => {},
            Err(e) => { return Err(e); },
        }
        fulfillment.state = Some(State { descriptor: owned(state), updated_at: now });
        match context {
            Some(tags) => {
                fulfillment.tags.merge_prefixed("state_change_", &tags);
            },
            None => {
                proof {
                    crate::tags::lemma_with_prefix_empty(context_prefix());
                    assert(fulfillment.tags@.union_prefer_right(
                        Map::<Seq<char>, Seq<char>>::empty(),
                    ) =~= fulfillment.tags@);
                }
            },
        }
        Ok(())
    }

    /// Puts `fulfillment` into the state named `state` as of now, by the
    /// system clock, and stores the tags of `context` under the prefix of
    /// state changes.
    ///
    /// Fails with a business-logic error exactly where the transition is not
    /// allowed, and then leaves the fulfillment as it was.
    pub fn update_state(fulfillment: &mut Fulfillment, state: &str, context: Option<TagMap>) -> (updated:
        Result<(), ServiceError>)
        ensures
            match updated {
                Ok(_) => Self::transition_allowed(old(fulfillment).state_name(), state@)
                    && final(fulfillment).state is Some && Self::entered(
                    *old(fulfillment),
                    *final(fulfillment),
                    state@,
                    context_tags(context),
                    final(fulfillment).state->0.updated_at,
                ) && final(fulfillment).state->0.updated_at.wf(),
                Err(e) => e is BusinessLogic && !Self::transition_allowed(
                    old(fulfillment).state_name(),
                    state@,
                ) && *final(fulfillment) == *old(fulfillment),
            },
    {
        let now = Timestamp::now();
        Self::update_state_at(fulfillment, state, context, now)
    }

    /// Whether the span from `requested_start` to `requested_end` conflicts
    /// with the span of some booking of `existing`.
    pub fn has_conflict(
        requested_start: &Timestamp,
        requested_end: &Timestamp,
        existing: &Vec<Fulfillment>,
    ) -> (conflict: bool)
        ensures
            conflict == spec_has_conflict(*requested_start, *requested_end, existing@),
    {
        let requested = Interval { start: *requested_start, end: *requested_end };
        let mut i: usize = 0;
        while i < existing.len()
            invariant
                i <= existing.len(),
                requested == (Interval { start: *requested_start, end: *requested_end }),
                forall|j: int|
                    0 <= j < i ==> !requested.conflicts_with(booked_span(#[trigger] existing@[j])),
            decreases existing.len() - i,
        {
            let span = Interval { start: existing[i].span_start(), end: existing[i].span_end() };
            if requested.conflicts(&span) {
                return true;
            }
            i += 1;
        }
        false
    }

    /// Whether the provider can take a booking that begins at
    /// `requested_time` and lasts `duration_seconds`: the provider must be
    /// open for the whole span, and the span must not conflict with a
    /// booking of `existing`.
    ///
    /// Fails with a validation error where the start or the end of the span
    /// lies beyond the calendar.
    pub fn check_availability(
        working_hours: &WorkingHours,
        existing: &Vec<Fulfillment>,
        requested_time: &Timestamp,
        duration_seconds: i64,
    ) -> (available: Result<bool, ServiceError>)
        ensures
            match available {
                Ok(b) => Self::spec_check_availability(
                    *working_hours,
                    existing@,
                    *requested_time,
                    duration_seconds as int,
                ) == Some(b),
                Err(e) => e is Validation && Self::spec_check_availability(
                    *working_hours,
                    existing@,
                    *requested_time,
                    duration_seconds as int,
                ) is None,
            },
    {
        let open = match ProviderService::is_available(
            working_hours,
            requested_time,
            duration_seconds,
        ) {
            Ok(open) => open,
            Err(e) => { return Err(e); },
        };
        if !open {
            return Ok(false);
        }
        match requested_time.plus_seconds(duration_seconds) {
            Some(requested_end) => Ok(
                !Self::has_conflict(requested_time, &requested_end, existing),
            ),
            None => Err(ServiceError::Validation(owned("Invalid end time"))),
        }
    }

    /// Admits a new booking: hands `fulfillment` back where the provider can
    /// take it.
    ///
    /// Fails with a business-logic error where the slot is closed or taken,
    /// and with a validation error where the start or the end of the span
    /// lies beyond the calendar.
    pub fn create_fulfillment(
        working_hours: &WorkingHours,
        existing: &Vec<Fulfillment>,
        fulfillment: Fulfillment,
    ) -> (created: Result<Fulfillment, ServiceError>)
        ensures
            match created {
                Ok(admitted) => admitted == fulfillment && Self::spec_check_availability(
                    *working_hours,
                    existing@,
                    fulfillment.booked_start(),
                    Self::requested_duration(fulfillment),
                ) == Some(true),
                Err(e) => match Self::spec_check_availability(
                    *working_hours,
                    existing@,
                    fulfillment.booked_start(),
                    Self::requested_duration(fulfillment),
                ) {
                    Some(free) => !free && e is BusinessLogic,
                    None => e is Validation,
                },
            },
    {
        let duration = match fulfillment.start.duration {
            Some(duration) => duration,
            None => DEFAULT_SLOT_SECONDS,
        };
        let start = fulfillment.start.time.timestamp;
        match Self::check_availability(working_hours, existing, &start, duration) {
            Ok(true) => Ok(fulfillment),
            Ok(false) => Err(
                ServiceError::BusinessLogic(
                    join2(
                        "Requested time slot is not available for provider ",
                        fulfillment.provider_id.as_str(),
                    ),
                ),
            ),
            Err(e) => Err(e),
        }
    }
    /// Whether the span `requested` conflicts with the span of some booking
    /// of `list`.
    fn conflicts_with_listed(requested: &Interval, list: &Vec<&Fulfillment>) -> (conflict: bool)
        ensures
            conflict == conflicts_with_some(*requested, list@),
    {
        let mut i: usize = 0;
        while i < list.len()
            invariant
                i <= list.len(),
                forall|j: int|
                    0 <= j < i ==> !requested.conflicts_with(booked_span(*(#[trigger] list@[j]))),
            decreases list.len() - i,
        {
            let span = Interval { start: list[i].span_start(), end: list[i].span_end() };
            if requested.conflicts(&span) {
                return true;
            }
            i += 1;
        }
        false
    }

    /// Whether the provider `provider_id`, who must be known to the store,
    /// can take a booking that begins at `requested_time` and lasts
    /// `duration_seconds`: the provider must be open for the whole span, and
    /// the span must not conflict with a booking that the store keeps for
    /// the provider.
    ///
    /// Fails with a not-found error where the provider is not stored, and
    /// with a validation error where the start or the end of the span lies
    /// beyond the calendar.
    pub fn is_free<S: Storage>(
        store: &S,
        provider_id: &str,
        requested_time: &Timestamp,
        duration_seconds: i64,
    ) -> (free: Result<bool, ServiceError>)
        ensures
            match free {
                Ok(b) => store@.providers.contains_key(provider_id@) && Self::spec_free(
                    store@,
                    provider_id@,
                    *requested_time,
                    duration_seconds as int,
                ) == Some(b),
                Err(e) => if store@.providers.contains_key(provider_id@) {
                    e is Validation && Self::spec_free(
                        store@,
                        provider_id@,
                        *requested_time,
                        duration_seconds as int,
                    ) is None
                } else {
                    e is NotFound
                },
            },
    {
        let hours = match ProviderService::working_hours_of(store, provider_id) {
            Ok(hours) => hours,
            Err(e) => { return Err(e); },
        };
        proof {
            ProviderService::lemma_default_schedule_decides(
                hours,
                provider_id@,
                *requested_time,
                duration_seconds as int,
            );
        }
        let open = match ProviderService::is_available(&hours, requested_time, duration_seconds) {
            Ok(open) => open,
            Err(e) => { return Err(e); },
        };
        if !open {
            return Ok(false);
        }
        match requested_time.plus_seconds(duration_seconds) {
            Some(requested_end) => {
                let requested = Interval { start: *requested_time, end: requested_end };
                let list = store.list_fulfillments_by_provider(provider_id);
                proof {
                    lemma_listed_bookings_decide(store@, provider_id@, list@, requested);
                }
                Ok(!Self::conflicts_with_listed(&requested, &list))
            },
            None => Err(ServiceError::Validation(owned("Invalid end time"))),
        }
    }

    /// Books `fulfillment` with the store, where the store can take it.
    ///
    /// Fails, and changes nothing, where it cannot: with a not-found error
    /// where the provider is not stored, with a validation error where the
    /// start or the end of the span lies beyond the calendar, with a
    /// business-logic error where the slot is closed or taken, and with a
    /// storage error where the identifier of the booking is in use.
    pub fn book<S: Storage>(store: &mut S, fulfillment: Fulfillment) -> (booked: Result<
        (),
        ServiceError,
    >)
        ensures
            match booked {
                Ok(_) => Self::bookable(old(store)@, fulfillment) && final(store)@ == (StoreView {
                    fulfillments: old(store)@.fulfillments.insert(fulfillment.id@, fulfillment),
                    ..old(store)@
                }),
                Err(e) => !Self::bookable(old(store)@, fulfillment) && final(store)@ == old(store)@ && if !old(store)@.providers.contains_key(fulfillment.provider_id@) {
                    e is NotFound
                } else {
                    match Self::spec_free(
                        old(store)@,
                        fulfillment.provider_id@,
                        fulfillment.booked_start(),
                        Self::requested_duration(fulfillment),
                    ) {
                        None => e is Validation,
                        Some(false) => e is BusinessLogic,
                        Some(true) => e is Storage,
                    }
                },
            },
    {
        let duration = match fulfillment.start.duration {
            Some(duration) => duration,
            None => DEFAULT_SLOT_SECONDS,
        };
        let start = fulfillment.start.time.timestamp;
        match Self::is_free(&*store, fulfillment.provider_id.as_str(), &start, duration) {
            Ok(true) => {},
            Ok(false) => {
                return Err(
                    ServiceError::BusinessLogic(
                        join2(
                            "Requested time slot is not available for provider ",
                            fulfillment.provider_id.as_str(),
                        ),
                    ),
                );
            },
            Err(e) => { return Err(e); },
        }
        match store.create_fulfillment(fulfillment) {
            Ok(_) => Ok(()),
            Err(e) => Err(ServiceError::from_storage(e)),
        }
    }
    /// Puts `fulfillment`, a record as it was read from the store, into the
    /// state named `state` at the instant `now`, and writes it back.
    ///
    /// Fails, and changes nothing, with a not-found error where the store
    /// has no fulfillment under the identifier, and else with a
    /// business-logic error where the transition is not allowed.
    pub fn change_state<S: Storage>(
        store: &mut S,
        fulfillment: Fulfillment,
        state: &str,
        context: Option<TagMap>,
        now: Timestamp,
    ) -> (changed: Result<(), ServiceError>)
        ensures
            match changed {
                Ok(_) => {
                    &&& old(store)@.fulfillments.contains_key(fulfillment.id@)
                    &&& Self::transition_allowed(fulfillment.state_name(), state@)
                    &&& Self::writes_entry(
                        old(store)@,
                        final(store)@,
                        fulfillment,
                        state@,
                        context_tags(context),
                        now,
                    )
                },
                Err(e) => final(store)@ == old(store)@ && if old(store)@.fulfillments.contains_key(
                    fulfillment.id@,
                ) {
                    e is BusinessLogic && !Self::transition_allowed(
                        fulfillment.state_name(),
                        state@,
                    )
                } else {
                    e is NotFound
                },
            },
    {
        match store.get_fulfillment(fulfillment.id.as_str()) {
            Ok(_) => {},
            Err(e) => { return Err(ServiceError::from_storage(e)); },
        }
        let mut fulfillment = fulfillment;
        match Self::update_state_at(&mut fulfillment, state, context, now) {
            Ok(_) => {},
            Err(e) => { return Err(e); },
        }
        match store.update_fulfillment(fulfillment) {
            Ok(_) => Ok(()),
            Err(e) => Err(ServiceError::from_storage(e)),
        }
    }
}

} // verus!
