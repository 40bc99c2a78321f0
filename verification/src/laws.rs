//! Laws of the protocol, stated over the views of the registry and of the queues.

use crate::dispatch::{Decision, DispatchEntry, DropReason};
use crate::message::{MessageKind, MessageView};
use crate::registration::ReplicateDirection;
use crate::registry::RegistryView;
use vstd::prelude::*;

verus! {

/// One call of a `register_*` function: the path, the direction and the
/// dispatch entry that are handed in.
pub struct Request<F> {
    pub path: Seq<char>,
    pub direction: ReplicateDirection,
    pub entry: DispatchEntry<F>,
}

/// The registry after the registrations `requests` were made in order.
pub open spec fn register_all<F>(start: RegistryView<F>, requests: Seq<Request<F>>) -> RegistryView<
    F,
>
    decreases requests.len(),
{
    if requests.len() == 0 {
        start
    } else {
        register_all(start, requests.drop_last()).register(
            requests.last().path,
            requests.last().direction,
            requests.last().entry,
        )
    }
}

/// The identifier that the registration at place `place` of `requests`
/// returns: the number of registrations made before it.
pub open spec fn issued_id<F>(start: RegistryView<F>, requests: Seq<Request<F>>, place: int) -> nat {
    register_all(start, requests.take(place)).len()
}

/// What waits in the receiver's queue after a loopback: what waited before,
/// then what the sender had queued, in the sender's order.
pub open spec fn delivered(incoming: Seq<MessageView>, outgoing: Seq<MessageView>) -> Seq<
    MessageView,
> {
    incoming + outgoing
}

/// Registrations add up: a batch of registrations extends the registry by one
/// registration each, and leaves the entity map alone.
pub proof fn lemma_register_all_len<F>(start: RegistryView<F>, requests: Seq<Request<F>>)
    ensures
        register_all(start, requests).len() == start.len() + requests.len(),
        register_all(start, requests).entities == start.entities,
    decreases requests.len(),
{
    if requests.len() > 0 {
        lemma_register_all_len(start, requests.drop_last());
    }
}

/// Identifiers follow the order of registration: starting from an empty
/// registry, the registration at place `place` is given the identifier
/// `place`, whatever the directions of this and of the other registrations.
pub proof fn lemma_identifiers_follow_registration_order<F>(requests: Seq<Request<F>>, place: int)
    requires
        0 <= place < requests.len(),
    ensures
        issued_id(RegistryView::<F>::empty(), requests, place) == place,
{
    lemma_register_all_len(RegistryView::<F>::empty(), requests.take(place));
}

/// An identifier, once issued, keeps its registration: later registrations
/// change nothing of what the registry holds for it.
pub proof fn lemma_registrations_are_append_only<F>(
    start: RegistryView<F>,
    requests: Seq<Request<F>>,
    id: int,
)
    requires
        0 <= id < start.len(),
    ensures
        id < register_all(start, requests).len(),
        register_all(start, requests).registrations[id] == start.registrations[id],
    decreases requests.len(),
{
    if requests.len() > 0 {
        lemma_register_all_len(start, requests.drop_last());
        lemma_registrations_are_append_only(start, requests.drop_last(), id);
    }
}

/// Registrations keep the registry valid: a dispatch entry is present for
/// exactly the registrations that permit reception.
pub proof fn lemma_register_all_valid<F>(start: RegistryView<F>, requests: Seq<Request<F>>)
    requires
        start.valid(),
    ensures
        register_all(start, requests).valid(),
    decreases requests.len(),
{
    if requests.len() > 0 {
        lemma_register_all_valid(start, requests.drop_last());
    }
}

/// The kind of message that a dispatch entry serves.
pub open spec fn entry_kind<F>(entry: DispatchEntry<F>) -> MessageKind {
    match entry {
        DispatchEntry::Component(_) => MessageKind::Component,
        DispatchEntry::Resource(_) => MessageKind::Resource,
        DispatchEntry::Event(_) => MessageKind::Event,
        DispatchEntry::Observer(_) => MessageKind::Observer,
    }
}

/// Whether `message` is one that the receiver applies: its identifier was
/// issued to a type that may be received and that was registered for the
/// message's kind, and a component's entity has a local counterpart.
pub open spec fn deliverable<F>(view: RegistryView<F>, message: MessageView) -> bool {
    &&& message.reg_id() < view.len()
    &&& view.registrations[message.reg_id() as int].direction.permits_incoming()
    &&& view.registrations[message.reg_id() as int].entry matches Some(entry)
    &&& entry_kind(entry) == message.kind()
    &&& message matches MessageView::SendComponent { entity, .. } ==> view.entities.contains_key(
        entity,
    )
}

/// The dispatch entry and the payload that a decision applies, if it applies.
pub open spec fn applied<F>(decision: Decision<F>) -> Option<(DispatchEntry<F>, Seq<u8>)> {
    match decision {
        Decision::Component { fns, payload, .. } => Some((DispatchEntry::Component(fns), payload)),
        Decision::Resource { fns, payload } => Some((DispatchEntry::Resource(fns), payload)),
        Decision::Event { fns, payload } => Some((DispatchEntry::Event(fns), payload)),
        Decision::Observer { fns, payload } => Some((DispatchEntry::Observer(fns), payload)),
        Decision::Dropped(_) => None,
    }
}

/// A message is applied exactly if it is deliverable, and then through the
/// dispatch entry of its identifier and with its own payload.
pub proof fn lemma_applied_iff_deliverable<F>(view: RegistryView<F>, message: MessageView)
    ensures
        view.decide(message).is_applied() == deliverable(view, message),
        deliverable(view, message) ==> applied(view.decide(message)) == Some(
            (view.registrations[message.reg_id() as int].entry->0, message.payload()),
        ),
        view.decide(message) matches Decision::Component { entity, .. } ==> message
            matches MessageView::SendComponent { entity: remote, .. } && entity
            == view.entities[remote],
{
}

/// One message in, one application out: a deliverable message that arrives in
/// an empty incoming queue is, at the next drain, applied exactly once, through
/// the dispatch entry that was registered for its identifier and with the very
/// payload that was sent.
pub proof fn lemma_delivery_applies_once<F>(view: RegistryView<F>, message: MessageView)
    requires
        deliverable(view, message),
    ensures
        view.decide_all(Seq::<MessageView>::empty().push(message)).len() == 1,
        applied(view.decide_all(Seq::<MessageView>::empty().push(message))[0]) == Some(
            (view.registrations[message.reg_id() as int].entry->0, message.payload()),
        ),
{
    lemma_applied_iff_deliverable(view, message);
}

/// A value comes out as it went in: if a value is encoded into the payload of
/// a deliverable message, and the message arrives in an empty incoming queue
/// after a loopback, then the next drain applies it exactly once, through the
/// dispatch entry of its type, and the payload decodes to the same value. What
/// is asked of the encoding is only that decoding undoes it.
pub proof fn lemma_round_trip_identity<F, T>(
    view: RegistryView<F>,
    encode: spec_fn(T) -> Seq<u8>,
    decode: spec_fn(Seq<u8>) -> Option<T>,
    value: T,
    message: MessageView,
)
    requires
        decode(encode(value)) == Some(value),
        message.payload() == encode(value),
        deliverable(view, message),
    ensures
        view.decide_all(delivered(Seq::empty(), Seq::empty().push(message))).len() == 1,
        applied(view.decide_all(delivered(Seq::empty(), Seq::empty().push(message)))[0])
            matches Some((entry, payload)) && Some(entry)
            == view.registrations[message.reg_id() as int].entry && decode(payload) == Some(
            value,
        ),
{
    lemma_applied_iff_deliverable(view, message);
    assert(delivered(Seq::empty(), Seq::empty().push(message)) =~= Seq::empty().push(message));
}

/// A type registered for sending only is never received: whatever the kind
/// and the payload of a message with its identifier, the message is dropped.
pub proof fn lemma_outgoing_only_is_dropped<F>(view: RegistryView<F>, message: MessageView)
    requires
        message.reg_id() < view.len(),
        view.registrations[message.reg_id() as int].direction == ReplicateDirection::Outgoing,
    ensures
        view.decide(message) == Decision::<F>::Dropped(DropReason::NotIncoming),
{
}

/// A message whose identifier the receiving registry never issued is dropped.
pub proof fn lemma_unknown_identifier_is_dropped<F>(view: RegistryView<F>, message: MessageView)
    requires
        message.reg_id() >= view.len(),
    ensures
        view.decide(message) == Decision::<F>::Dropped(DropReason::UnknownIdentifier),
{
}

/// Order is kept from emission to application: of two messages that the sender
/// queued, the one queued first is decided first by the receiver after one
/// loopback and one drain, and nothing is lost or added on the way.
pub proof fn lemma_emission_order_is_kept<F>(
    view: RegistryView<F>,
    incoming: Seq<MessageView>,
    outgoing: Seq<MessageView>,
    first: int,
    second: int,
)
    requires
        0 <= first < second < outgoing.len(),
    ensures
        view.decide_all(delivered(incoming, outgoing)).len() == incoming.len() + outgoing.len(),
        view.decide_all(delivered(incoming, outgoing))[incoming.len() + first] == view.decide(
            outgoing[first],
        ),
        view.decide_all(delivered(incoming, outgoing))[incoming.len() + second] == view.decide(
            outgoing[second],
        ),
        incoming.len() + first < incoming.len() + second,
{
}

/// The manifest lists identifiers in ascending order, each one the latest of
/// its path and below the number of registrations.
pub proof fn lemma_manifest_ids_ascend<F>(view: RegistryView<F>, bound: nat)
    requires
        bound <= view.len(),
    ensures
        forall|i: int|
            0 <= i < view.manifest_ids(bound).len() ==> (#[trigger] view.manifest_ids(bound)[i])
                < bound && view.is_latest(
                view.registrations[view.manifest_ids(bound)[i] as int].path,
                view.manifest_ids(bound)[i] as int,
            ),
        forall|i: int, j: int|
            0 <= i < j < view.manifest_ids(bound).len() ==> view.manifest_ids(bound)[i]
                < view.manifest_ids(bound)[j],
    decreases bound,
{
    if bound > 0 {
        lemma_manifest_ids_ascend(view, (bound - 1) as nat);
    }
}

/// The manifest lists every registered path once, with its latest identifier.
pub proof fn lemma_manifest_lists_each_path<F>(view: RegistryView<F>, bound: nat, id: int)
    requires
        bound <= view.len(),
        0 <= id < bound,
        view.is_latest(view.registrations[id].path, id),
    ensures
        view.manifest_ids(bound).contains(id as nat),
    decreases bound,
{
    let last = (bound - 1) as nat;
    if id == last {
        assert(view.manifest_ids(bound).last() == last);
    } else {
        lemma_manifest_lists_each_path(view, last, id);
        let at = choose|i: int|
            0 <= i < view.manifest_ids(last).len() && view.manifest_ids(last)[i] == id as nat;
        assert(view.manifest_ids(bound)[at] == id as nat);
    }
}

/// The manifest is a function of the registrations alone: registries that hold
/// the same registrations have the same manifest, whatever entities they know.
pub proof fn lemma_manifest_is_stable<F>(a: RegistryView<F>, b: RegistryView<F>)
    requires
        a.registrations == b.registrations,
    ensures
        a.manifest() == b.manifest(),
{
    lemma_manifest_ids_agree(a, b, a.len());
    assert(a.manifest_lines(a.manifest_ids(a.len())) =~= b.manifest_lines(
        b.manifest_ids(b.len()),
    ));
}

/// Registries that hold the same registrations list the same identifiers.
proof fn lemma_manifest_ids_agree<F>(a: RegistryView<F>, b: RegistryView<F>, bound: nat)
    requires
        a.registrations == b.registrations,
    ensures
        a.manifest_ids(bound) == b.manifest_ids(bound),
    decreases bound,
{
    if bound > 0 && bound <= a.len() {
        lemma_manifest_ids_agree(a, b, (bound - 1) as nat);
    }
}

} // verus!
