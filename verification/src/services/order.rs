//! The state of an order and how it follows the state of the fulfillment
//! behind it.
//!
//! An order shows a state derived from its fulfillment: `status` projects
//! the state of the fulfillment onto the order, `on_status` carries a state
//! that was set on the order over to the fulfillment. Reading and writing
//! the records is left to the caller; the functions here decide what is
//! shown and what is written.

use crate::models::fulfillment::{Fulfillment, State};
use crate::models::order::{Order, OrderStatus};
use crate::services::error::ServiceError;
use crate::services::fulfillment::{FulfillmentService, FulfillmentState};
use crate::storage::{Storage, StoreView};
use crate::tags::TagMap;
use crate::text::{join2, owned, str_eq};
use crate::time::Timestamp;
use vstd::prelude::*;

verus! {

/// What `status` found: the state to show and whether the order record was
/// changed and has to be written back.
#[derive(Debug, Clone)]
pub struct StatusProjection {
    /// The state of the order as derived from its fulfillment.
    pub status: OrderStatus,
    /// Whether the state stored in the order was replaced.
    pub order_changed: bool,
}

/// A change of state to carry over to the fulfillment of an order.
#[derive(Debug, Clone)]
pub struct FulfillmentUpdate {
    /// Identifier of the fulfillment to change.
    pub fulfillment_id: String,
    /// The state that the fulfillment is to enter.
    pub state: FulfillmentState,
    /// Where the change comes from, to be stored with the fulfillment.
    pub context: TagMap,
}

/// The fulfillment that was fetched, as a value.
pub open spec fn fetched(fulfillment: Option<&Fulfillment>) -> Option<Fulfillment> {
    match fulfillment {
        Some(f) => Some(*f),
        None => None,
    }
}

/// The rules of the order service.
pub struct OrderService {}

impl OrderService {
    /// The state that an order shows while its fulfillment is in `state`.
    pub open spec fn order_state_for(state: FulfillmentState) -> Seq<char> {
        match state {
            FulfillmentState::Scheduled => "CONFIRMED"@,
            FulfillmentState::Waiting => "FULFILLMENT_PENDING"@,
            FulfillmentState::InProgress => "IN_PROGRESS"@,
            FulfillmentState::Completed => "COMPLETED"@,
            FulfillmentState::Cancelled => "CANCELLED"@,
            FulfillmentState::NoShow => "NO_SHOW"@,
            FulfillmentState::Rescheduled => "RESCHEDULED"@,
        }
    }

    /// The state that a fulfillment is to enter when its order enters the
    /// state named `order_state`; `None` where no state of a fulfillment
    /// stands for it.
    pub open spec fn spec_fulfillment_state_for(order_state: Seq<char>) -> Option<
        FulfillmentState,
    > {
        if order_state == "CONFIRMED"@ {
            Some(FulfillmentState::Scheduled)
        } else if order_state == "FULFILLMENT_PENDING"@ {
            Some(FulfillmentState::Waiting)
        } else if order_state == "IN_PROGRESS"@ {
            Some(FulfillmentState::InProgress)
        } else if order_state == "COMPLETED"@ {
            Some(FulfillmentState::Completed)
        } else if order_state == "CANCELLED"@ {
            Some(FulfillmentState::Cancelled)
        } else if order_state == "NO_SHOW"@ {
            Some(FulfillmentState::NoShow)
        } else if order_state == "RESCHEDULED"@ {
            Some(FulfillmentState::Rescheduled)
        } else {
            None
        }
    }

    /// The state that an order shows while its fulfillment is in the state
    /// named `fulfillment_state`: the mapped state where the name is that
    /// of a known state, else the state `stored` in the order.
    pub open spec fn projected_state(fulfillment_state: Seq<char>, stored: Seq<char>) -> Seq<
        char,
    > {
        match FulfillmentState::spec_parse(fulfillment_state) {
            Some(state) => Self::order_state_for(state),
            None => stored,
        }
    }

    /// The state of the fulfillment that decides what `order` shows: that of
    /// the fetched fulfillment where the order is linked to one and it has a
    /// state; else none, and the order shows its own.
    pub open spec fn deciding_state(order: Order, fulfillment: Option<Fulfillment>) -> Option<
        State,
    > {
        if order.linked() {
            match fulfillment {
                Some(f) => f.state,
                None => None,
            }
        } else {
            None
        }
    }

    /// The name of the state that `status` shows for `order`.
    pub open spec fn shown_state(order: Order, fulfillment: Option<Fulfillment>) -> Seq<char> {
        match Self::deciding_state(order, fulfillment) {
            Some(state) => Self::projected_state(state.descriptor@, order.state@),
            None => order.state@,
        }
    }

    /// The instant since which the state that `status` shows has held.
    pub open spec fn shown_since(order: Order, fulfillment: Option<Fulfillment>) -> Timestamp {
        match Self::deciding_state(order, fulfillment) {
            Some(state) => state.updated_at,
            None => order.updated_at,
        }
    }

    /// The fulfillment that the store keeps for `order`: none where the
    /// order is linked to none, or the store does not have it.
    pub open spec fn linked_fulfillment(store: StoreView, order: Order) -> Option<Fulfillment> {
        if order.linked() && store.fulfillments.contains_key(order.fulfillment.id@) {
            Some(store.fulfillments[order.fulfillment.id@])
        } else {
            None
        }
    }

    /// `after` is `before` with the record of `order` replaced by one that
    /// shows the state `shown` and is the same otherwise.
    pub open spec fn writes_state(
        before: StoreView,
        after: StoreView,
        order: Order,
        shown: Seq<char>,
    ) -> bool {
        &&& before.orders.contains_key(order.id@)
        &&& after.orders.contains_key(order.id@)
        &&& after.orders[order.id@].state@ == shown
        &&& after.orders[order.id@].same_but_state(order)
        &&& after == (StoreView {
            orders: before.orders.insert(order.id@, after.orders[order.id@]),
            ..before
        })
    }

    /// The fulfillment follows the order into the state named `state`: the
    /// order is linked, the fulfillment is at hand, a state of a fulfillment
    /// stands for `state`, and the fulfillment may enter it.
    pub open spec fn follows(order: Order, fulfillment: Option<Fulfillment>, state: Seq<char>) -> bool {
        &&& order.linked()
        &&& match (fulfillment, Self::spec_fulfillment_state_for(state)) {
            (Some(booking), Some(target)) => FulfillmentService::transition_allowed(
                booking.state_name(),
                target.spec_name(),
            ),
            _ => false,
        }
    }

    /// The tags that record where a change of state came from: the order
    /// `order_id`, by an update of its status.
    pub open spec fn status_context(order_id: Seq<char>) -> Map<Seq<char>, Seq<char>> {
        Map::<Seq<char>, Seq<char>>::empty().insert("source"@, "order_status_update"@).insert(
            "order_id"@,
            order_id,
        )
    }

    /// The name of the state that an order shows while its fulfillment is in
    /// `state`.
    pub fn order_state_name(state: FulfillmentState) -> (name: &'static str)
        ensures
            name@ == Self::order_state_for(state),
    {
        match state {
            FulfillmentState::Scheduled => "CONFIRMED",
            FulfillmentState::Waiting => "FULFILLMENT_PENDING",
            FulfillmentState::InProgress => "IN_PROGRESS",
            FulfillmentState::Completed => "COMPLETED",
            FulfillmentState::Cancelled => "CANCELLED",
            FulfillmentState::NoShow => "NO_SHOW",
            FulfillmentState::Rescheduled => "RESCHEDULED",
        }
    }

    /// The state that a fulfillment is to enter when its order enters the
    /// state named `order_state`.
    pub fn fulfillment_state_for(order_state: &str) -> (state: Option<FulfillmentState>)
        ensures
            state == Self::spec_fulfillment_state_for(order_state@),
    {
        if str_eq(order_state, "CONFIRMED") {
            Some(FulfillmentState::Scheduled)
        } else if str_eq(order_state, "FULFILLMENT_PENDING") {
            Some(FulfillmentState::Waiting)
        } else if str_eq(order_state, "IN_PROGRESS") {
            Some(FulfillmentState::InProgress)
        } else if str_eq(order_state, "COMPLETED") {
            Some(FulfillmentState::Completed)
        } else if str_eq(order_state, "CANCELLED") {
            Some(FulfillmentState::Cancelled)
        } else if str_eq(order_state, "NO_SHOW") {
            Some(FulfillmentState::NoShow)
        } else if str_eq(order_state, "RESCHEDULED") {
            Some(FulfillmentState::Rescheduled)
        } else {
            None
        }
    }

    /// Starts an order: puts it into the state `INITIALIZED`.
    pub fn init(order: Order) -> (started: Order)
        ensures
            started.state@ == "INITIALIZED"@,
            started.same_but_state(order),
    {
        let mut started = order;
        started.state = owned("INITIALIZED");
        started
    }

    /// Takes the answer of the provider to the start of an order: the
    /// quotation and the payment of `provider_order` go into `existing`,
    /// which enters the state `QUOTED`.
    ///
    /// Fails with a validation error exactly where the two orders name
    /// different providers.
    pub fn on_init(existing: Order, provider_order: Order) -> (quoted: Result<Order, ServiceError>)
        ensures
            match quoted {
                Ok(order) => {
                    &&& existing.provider.id@ == provider_order.provider.id@
                    &&& order.state@ == "QUOTED"@
                    &&& order.quote == provider_order.quote
                    &&& order.payment == provider_order.payment
                    &&& order.id == existing.id
                    &&& order.provider == existing.provider
                    &&& order.items == existing.items
                    &&& order.billing == existing.billing
                    &&& order.fulfillment == existing.fulfillment
                    &&& order.created_at == existing.created_at
                    &&& order.updated_at == existing.updated_at
                },
                Err(e) => e is Validation && existing.provider.id@ != provider_order.provider.id@,
            },
    {
        if !(existing.provider.id == provider_order.provider.id) {
            return Err(ServiceError::Validation(owned("Provider ID mismatch")));
        }
        let mut order = existing;
        order.quote = provider_order.quote;
        order.payment = provider_order.payment;
        order.state = owned("QUOTED");
        Ok(order)
    }

    /// Confirms an order: puts it into the state `CONFIRMED`.
    pub fn confirm(order: Order) -> (confirmed: Order)
        ensures
            confirmed.state@ == "CONFIRMED"@,
            confirmed.same_but_state(order),
    {
        let mut confirmed = order;
        confirmed.state = owned("CONFIRMED");
        confirmed
    }

    /// Takes the answer of the provider to a confirmation: `existing`
    /// enters the state of `provider_order`.
    ///
    /// Fails with a validation error exactly where the two orders name
    /// different providers.
    pub fn on_confirm(existing: Order, provider_order: Order) -> (confirmed: Result<
        Order,
        ServiceError,
    >)
        ensures
            match confirmed {
                Ok(order) => existing.provider.id@ == provider_order.provider.id@ && order.state
                    == provider_order.state && order.same_but_state(existing),
                Err(e) => e is Validation && existing.provider.id@ != provider_order.provider.id@,
            },
    {
        if !(existing.provider.id == provider_order.provider.id) {
            return Err(ServiceError::Validation(owned("Provider ID mismatch")));
        }
        let mut order = existing;
        order.state = provider_order.state;
        Ok(order)
    }

    /// Projects the state of the fulfillment onto the order.
    ///
    /// `fulfillment` is the fulfillment that the order is linked to, or
    /// `None` where the order is linked to none or it could not be fetched.
    /// Where it has a state, the order shows the state mapped from it, since
    /// the instant at which the fulfillment entered it; else the order shows
    /// its own state. Where the state shown differs from the one stored, it
    /// is stored in `order`, and the result says that the record changed.
    pub fn status(order: &mut Order, fulfillment: Option<&Fulfillment>) -> (projection:
        StatusProjection)
        ensures
            projection.status.state@ == Self::shown_state(*old(order), fetched(fulfillment)),
            projection.status.updated_at == Self::shown_since(*old(order), fetched(fulfillment)),
            projection.order_changed == (Self::shown_state(*old(order), fetched(fulfillment))
                != old(order).state@),
            final(order).state@ == Self::shown_state(*old(order), fetched(fulfillment)),
            final(order).same_but_state(*old(order)),
            !projection.order_changed ==> *final(order) == *old(order),
    {
        if order.is_linked() {
            if let Some(booking) = fulfillment {
                if let Some(state) = &booking.state {
                    let shown = match FulfillmentState::parse(state.descriptor.as_str()) {
                        Some(known) => owned(Self::order_state_name(known)),
                        None => order.state.clone(),
                    };
                    let changed = !(shown == order.state);
                    if changed {
                        order.state = shown.clone();
                    }
                    return StatusProjection {
                        status: OrderStatus { state: shown, updated_at: state.updated_at },
                        order_changed: changed,
                    };
                }
            }
        }
        StatusProjection {
            status: OrderStatus { state: order.state.clone(), updated_at: order.updated_at },
            order_changed: false,
        }
    }

    /// Projects the state of the fulfillment that the store keeps for
    /// `order` onto the order, and writes the order back where the state
    /// that it shows has changed.
    ///
    /// A fulfillment that the store does not have is passed over: the order
    /// then shows its own state. Fails with a not-found error, and changes
    /// nothing, exactly where the order has to be written back and the
    /// store does not have it.
    pub fn project_status<S: Storage>(store: &mut S, order: Order) -> (projected: Result<
        OrderStatus,
        ServiceError,
    >)
        ensures
            ({
                let fulfillment = Self::linked_fulfillment(old(store)@, order);
                let shown = Self::shown_state(order, fulfillment);
                match projected {
                    Ok(status) => {
                        &&& status.state@ == shown
                        &&& status.updated_at == Self::shown_since(order, fulfillment)
                        &&& if shown == order.state@ {
                            final(store)@ == old(store)@
                        } else {
                            Self::writes_state(old(store)@, final(store)@, order, shown)
                        }
                    },
                    Err(e) => {
                        &&& e is NotFound
                        &&& shown != order.state@
                        &&& !old(store)@.orders.contains_key(order.id@)
                        &&& final(store)@ == old(store)@
                    },
                }
            }),
    {
        let mut order = order;
        let projection = if order.is_linked() {
            match store.get_fulfillment(order.fulfillment.id.as_str()) {
                Ok(fulfillment) => Self::status(&mut order, Some(fulfillment)),
                Err(_) => Self::status(&mut order, None),
            }
        } else {
            Self::status(&mut order, None)
        };
        if projection.order_changed {
            match store.update_order(order) {
                Ok(_) => {},
                Err(e) => { return Err(ServiceError::from_storage(e)); },
            }
        }
        Ok(projection.status)
    }

    /// Sets the state of the order to that of `status` and says what is to
    /// happen to its fulfillment.
    ///
    /// Where the order is linked to a fulfillment, the result names the
    /// state that the fulfillment is to enter; where it is linked to none,
    /// nothing is to happen. Fails with a validation error exactly where the
    /// order is linked and no state of a fulfillment stands for the new
    /// state of the order; the order then stays as it was.
    pub fn on_status(order: &mut Order, status: &OrderStatus) -> (action: Result<
        Option<FulfillmentUpdate>,
        ServiceError,
    >)
        ensures
            match action {
                Ok(update) => {
                    &&& final(order).state@ == status.state@
                    &&& final(order).same_but_state(*old(order))
                    &&& match update {
                        Some(change) => {
                            &&& old(order).linked()
                            &&& change.fulfillment_id@ == old(order).fulfillment.id@
                            &&& Self::spec_fulfillment_state_for(status.state@) == Some(
                                change.state,
                            )
                            &&& change.context@ == Self::status_context(old(order).id@)
                        },
                        None => !old(order).linked(),
                    }
                },
                Err(e) => {
                    &&& e is Validation
                    &&& old(order).linked()
                    &&& Self::spec_fulfillment_state_for(status.state@) is None
                    &&& *final(order) == *old(order)
                },
            },
    {
        if !order.is_linked() {
            order.state = status.state.clone();
            return Ok(None);
        }
        let target = match Self::fulfillment_state_for(status.state.as_str()) {
            Some(target) => target,
            None => {
                return Err(
                    ServiceError::Validation(
                        join2(
                            "Unsupported order state for fulfillment mapping: ",
                            status.state.as_str(),
                        ),
                    ),
                );
            },
        };
        let mut context = TagMap::new();
        context.insert(owned("source"), owned("order_status_update"));
        context.insert(owned("order_id"), order.id.clone());
        let change = FulfillmentUpdate {
            fulfillment_id: order.fulfillment.id.clone(),
            state: target,
            context,
        };
        order.state = status.state.clone();
        Ok(Some(change))
    }

    /// Carries a change of state over to the fulfillment, at the instant
    /// `now`. Says whether the fulfillment took the change: it does exactly
    /// where the transition is allowed, and else stays as it was. A change
    /// that is not taken is no failure of the order.
    pub fn apply_fulfillment_update(
        fulfillment: &mut Fulfillment,
        update: FulfillmentUpdate,
        now: Timestamp,
    ) -> (applied: bool)
        ensures
            applied == FulfillmentService::transition_allowed(
                old(fulfillment).state_name(),
                update.state.spec_name(),
            ),
            applied ==> FulfillmentService::entered(
                *old(fulfillment),
                *final(fulfillment),
                update.state.spec_name(),
                update.context@,
                now,
            ),
            !applied ==> *final(fulfillment) == *old(fulfillment),
    {
        let state = update.state.as_str();
        match FulfillmentService::update_state_at(fulfillment, state, Some(update.context), now) {
            Ok(_) => true,
            Err(_) => false,
        }
    }

    /// Takes the status that a provider reports for `order`, at the instant
    /// `now`. `fulfillment` is the fulfillment that the order is linked to,
    /// or `None` where it is linked to none or it is not at hand.
    ///
    /// The order enters the state of `status`. The fulfillment follows where
    /// it may; where it may not, it stays as it was and the order keeps its
    /// new state all the same. The result says whether the fulfillment
    /// followed. Fails with a validation error exactly where the order is
    /// linked and no state of a fulfillment stands for the new state of the
    /// order; nothing changes then.
    pub fn apply_status(
        order: &mut Order,
        fulfillment: &mut Option<Fulfillment>,
        status: &OrderStatus,
        now: Timestamp,
    ) -> (followed: Result<bool, ServiceError>)
        ensures
            match followed {
                Ok(applied) => {
                    &&& final(order).state@ == status.state@
                    &&& final(order).same_but_state(*old(order))
                    &&& applied == Self::follows(*old(order), *old(fulfillment), status.state@)
                    &&& if applied {
                        *final(fulfillment) is Some && FulfillmentService::entered(
                            (*old(fulfillment))->0,
                            (*final(fulfillment))->0,
                            Self::spec_fulfillment_state_for(status.state@)->0.spec_name(),
                            Self::status_context(old(order).id@),
                            now,
                        )
                    } else {
                        *final(fulfillment) == *old(fulfillment)
                    }
                },
                Err(e) => {
                    &&& e is Validation
                    &&& old(order).linked()
                    &&& Self::spec_fulfillment_state_for(status.state@) is None
                    &&& *final(order) == *old(order)
                    &&& *final(fulfillment) == *old(fulfillment)
                },
            },
    {
        let update = match Self::on_status(order, status) {
            Ok(update) => update,
            Err(e) => { return Err(e); },
        };
        match update {
            Some(change) => match fulfillment.take() {
                Some(mut booking) => {
                    let applied = Self::apply_fulfillment_update(&mut booking, change, now);
                    *fulfillment = Some(booking);
                    Ok(applied)
                },
                None => Ok(false),
            },
            None => Ok(false),
        }
    }
}

/// The two tables are inverse to each other: the state that an order shows
/// for a state of its fulfillment leads back to that state.
pub proof fn lemma_state_tables_are_inverse(state: FulfillmentState)
    ensures
        OrderService::spec_fulfillment_state_for(OrderService::order_state_for(state)) == Some(
            state,
        ),
{
    reveal_strlit("CONFIRMED");
    reveal_strlit("FULFILLMENT_PENDING");
    reveal_strlit("IN_PROGRESS");
    reveal_strlit("COMPLETED");
    reveal_strlit("CANCELLED");
    reveal_strlit("NO_SHOW");
    reveal_strlit("RESCHEDULED");
    assert("CONFIRMED"@[2] == 'N');
    assert("COMPLETED"@[2] == 'M');
    assert("CANCELLED"@[1] == 'A');
    assert("CONFIRMED"@[1] == 'O');
    assert("IN_PROGRESS"@[0] == 'I');
    assert("RESCHEDULED"@[0] == 'R');
    assert("NO_SHOW"@[0] == 'N');
}

/// Projecting twice changes nothing more: once the order shows the state of
/// its fulfillment, a second projection finds the record up to date.
pub proof fn lemma_projection_is_idempotent(
    order: Order,
    projected: Order,
    fulfillment: Option<Fulfillment>,
)
    requires
        projected.same_but_state(order),
        projected.state@ == OrderService::shown_state(order, fulfillment),
    ensures
        OrderService::shown_state(projected, fulfillment) == projected.state@,
{
}

} // verus!
