//! Dispatch entries: what the registry stores for each type that may be received.
//!
//! An entry holds the operation that turns a payload into a change of the
//! receiving world. The registry never looks inside: it stores the operation when
//! the type is registered and hands it back when a message for the type arrives.

use crate::message::MessagePayload;
use vstd::prelude::*;

verus! {

/// Operations for receiving a component.
#[derive(Debug, Clone, Copy)]
pub struct ComponentFns<F> {
    /// Deserializes the payload and inserts the value into an entity.
    pub insert: F,
}

/// Operations for receiving a resource.
#[derive(Debug, Clone, Copy)]
pub struct ResourceFns<F> {
    /// Deserializes the payload and overwrites the resource with the value.
    pub insert: F,
}

/// Operations for receiving an event.
#[derive(Debug, Clone, Copy)]
pub struct EventFns<F> {
    /// Deserializes the payload and emits the value as an event.
    pub send: F,
}

/// Operations for receiving an observer trigger.
#[derive(Debug, Clone, Copy)]
pub struct ObserverFns<F> {
    /// Deserializes the payload and triggers observers with the value.
    pub send: F,
}

impl<F> ComponentFns<F> {
    /// The entry whose operation is `insert`.
    pub fn new(insert: F) -> (fns: Self)
        ensures
            fns.insert == insert,
    {
        ComponentFns { insert }
    }
}

impl<F> ResourceFns<F> {
    /// The entry whose operation is `insert`.
    pub fn new(insert: F) -> (fns: Self)
        ensures
            fns.insert == insert,
    {
        ResourceFns { insert }
    }
}

impl<F> EventFns<F> {
    /// The entry whose operation is `send`.
    pub fn new(send: F) -> (fns: Self)
        ensures
            fns.send == send,
    {
        EventFns { send }
    }
}

impl<F> ObserverFns<F> {
    /// The entry whose operation is `send`.
    pub fn new(send: F) -> (fns: Self)
        ensures
            fns.send == send,
    {
        ObserverFns { send }
    }
}

/// The dispatch entry of one registered type, whatever its kind.
pub enum DispatchEntry<F> {
    Component(ComponentFns<F>),
    Resource(ResourceFns<F>),
    Event(EventFns<F>),
    Observer(ObserverFns<F>),
}

/// Why an incoming message is not applied.
#[derive(Debug, Clone, Copy, PartialEq, Eq, Structural, Hash)]
pub enum DropReason {
    /// The receiving registry never issued the message's identifier.
    UnknownIdentifier,
    /// The identifier's type was registered for sending only.
    NotIncoming,
    /// The identifier's type was registered for another kind of message.
    NoDispatchEntry,
    /// The message is for an entity of the sender that has no local counterpart.
    UnknownEntity,
}

/// What the receiver is to do with one incoming message.
#[allow(inconsistent_fields)]
pub enum Decision<F> {
    /// Insert the payload's value into the local entity `entity`.
    Component { entity: u64, fns: ComponentFns<F>, payload: Seq<u8> },
    /// Overwrite a resource with the payload's value.
    Resource { fns: ResourceFns<F>, payload: Seq<u8> },
    /// Emit the payload's value as an event.
    Event { fns: EventFns<F>, payload: Seq<u8> },
    /// Trigger observers with the payload's value.
    Observer { fns: ObserverFns<F>, payload: Seq<u8> },
    /// Discard the message.
    Dropped(DropReason),
}

impl<F> Decision<F> {
    /// Whether the decision applies the message.
    pub open spec fn is_applied(self) -> bool {
        !(self is Dropped)
    }
}

/// A [`Decision`] as the receiver gets it: the dispatch entry and the payload by
/// reference, ready for the call that applies the message.
#[allow(inconsistent_fields)]
pub enum Routed<'a, F> {
    /// Insert the payload's value into the local entity `entity`.
    Component { entity: u64, fns: &'a ComponentFns<F>, payload: &'a MessagePayload },
    /// Overwrite a resource with the payload's value.
    Resource { fns: &'a ResourceFns<F>, payload: &'a MessagePayload },
    /// Emit the payload's value as an event.
    Event { fns: &'a EventFns<F>, payload: &'a MessagePayload },
    /// Trigger observers with the payload's value.
    Observer { fns: &'a ObserverFns<F>, payload: &'a MessagePayload },
    /// Discard the message.
    Dropped(DropReason),
}

impl<'a, F> View for Routed<'a, F> {
    type V = Decision<F>;

    open spec fn view(&self) -> Decision<F> {
        match *self {
            Routed::Component { entity, fns, payload } => Decision::Component {
                entity,
                fns: *fns,
                payload: payload@,
            },
            Routed::Resource { fns, payload } => Decision::Resource { fns: *fns, payload: payload@ },
            Routed::Event { fns, payload } => Decision::Event { fns: *fns, payload: payload@ },
            Routed::Observer { fns, payload } => Decision::Observer { fns: *fns, payload: payload@ },
            Routed::Dropped(reason) => Decision::Dropped(reason),
        }
    }
}

/// The decisions that a list of routed messages stands for, in the same order.
pub open spec fn decisions_of<'a, F>(routed: Seq<Routed<'a, F>>) -> Seq<Decision<F>> {
    routed.map_values(|one: Routed<'a, F>| one@)
}

} // verus!
