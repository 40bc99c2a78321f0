//! The replicate registry: identifiers, directions, dispatch tables and the
//! map from remote to local entities, in one place.

use crate::dispatch::{
    decisions_of, ComponentFns, Decision, DispatchEntry, DropReason, EventFns, ObserverFns,
    ResourceFns, Routed,
};
use crate::engine_map::{
    direction_map_get, direction_map_insert, direction_map_new, entity_map_get, entity_map_insert,
    entity_map_new, entity_pairs, id_directions, id_paths, name_map_get, name_map_insert,
    name_map_new, path_ids, path_map_get, path_map_insert, path_map_new, EngineMap,
};
use crate::message::{views, Message, MessageView};
use crate::registration::{RegistrationId, ReplicateDirection};
use crate::text::{decimal, joined, push_decimal};
use std::collections::HashMap;
use vstd::prelude::*;
use vstd::std_specs::hash::*;
use vstd::string::*;

verus! {

broadcast use vstd::std_specs::hash::group_hash_axioms;

/// What the registry knows of one registered type.
pub struct Registration<F> {
    /// The type's path, by which the type is found again.
    pub path: Seq<char>,
    /// Who may send and who may receive the type.
    pub direction: ReplicateDirection,
    /// The dispatch entry, present exactly if the type may be received.
    pub entry: Option<DispatchEntry<F>>,
}

/// What a registry holds: the registrations in the order they were made, so that
/// the place of a registration is its identifier, and the map from remote to local entities.
pub struct RegistryView<F> {
    pub registrations: Seq<Registration<F>>,
    pub entities: Map<u64, u64>,
}

impl<F> RegistryView<F> {
    /// The number of identifiers issued so far.
    pub open spec fn len(self) -> nat {
        self.registrations.len()
    }

    /// Whether some registration was made under `path`.
    pub open spec fn is_registered(self, path: Seq<char>) -> bool {
        exists|id: int| 0 <= id < self.registrations.len() && self.registrations[id].path == path
    }

    /// Whether `id` is the identifier of the latest registration made under `path`.
    pub open spec fn is_latest(self, path: Seq<char>, id: int) -> bool {
        &&& 0 <= id < self.registrations.len()
        &&& self.registrations[id].path == path
        &&& forall|later: int|
            id < later < self.registrations.len() ==> self.registrations[later].path != path
    }

    /// The identifier of the latest registration made under `path`; meant for a
    /// registered `path`.
    pub open spec fn latest_id(self, path: Seq<char>) -> nat {
        choose|id: nat| self.is_latest(path, id as int)
    }

    /// Whether a dispatch entry is present for exactly the registrations whose
    /// direction permits reception.
    pub open spec fn valid(self) -> bool {
        forall|id: int|
            0 <= id < self.registrations.len() ==> (#[trigger] self.registrations[id]).entry.is_some()
                == self.registrations[id].direction.permits_incoming()
    }

    /// The registry without registrations and without entities.
    pub open spec fn empty() -> Self {
        RegistryView { registrations: Seq::empty(), entities: Map::empty() }
    }

    /// The registry after one more registration: the entry is kept only if the
    /// direction permits reception.
    pub open spec fn register(
        self,
        path: Seq<char>,
        direction: ReplicateDirection,
        entry: DispatchEntry<F>,
    ) -> Self {
        RegistryView {
            registrations: self.registrations.push(
                Registration {
                    path,
                    direction,
                    entry: if direction.permits_incoming() {
                        Some(entry)
                    } else {
                        None
                    },
                },
            ),
            entities: self.entities,
        }
    }

    /// The registry after one more registration of a type that is only sent:
    /// no dispatch entry is kept for it.
    pub open spec fn register_outgoing(self, path: Seq<char>) -> Self {
        RegistryView {
            registrations: self.registrations.push(
                Registration { path, direction: ReplicateDirection::Outgoing, entry: None },
            ),
            entities: self.entities,
        }
    }

    /// The registry after `remote` was given the local counterpart `local`.
    pub open spec fn map_entity(self, remote: u64, local: u64) -> Self {
        RegistryView {
            registrations: self.registrations,
            entities: self.entities.insert(remote, local),
        }
    }

    /// The dispatch entry stored for `id`, if `id` was issued to a component type
    /// that may be received.
    pub open spec fn component_entry(self, id: nat) -> Option<ComponentFns<F>> {
        if id < self.registrations.len() {
            match self.registrations[id as int].entry {
                Some(DispatchEntry::Component(fns)) => Some(fns),
                _ => None,
            }
        } else {
            None
        }
    }

    /// The dispatch entry stored for `id`, if `id` was issued to a resource type
    /// that may be received.
    pub open spec fn resource_entry(self, id: nat) -> Option<ResourceFns<F>> {
        if id < self.registrations.len() {
            match self.registrations[id as int].entry {
                Some(DispatchEntry::Resource(fns)) => Some(fns),
                _ => None,
            }
        } else {
            None
        }
    }

    /// The dispatch entry stored for `id`, if `id` was issued to an event type
    /// that may be received.
    pub open spec fn event_entry(self, id: nat) -> Option<EventFns<F>> {
        if id < self.registrations.len() {
            match self.registrations[id as int].entry {
                Some(DispatchEntry::Event(fns)) => Some(fns),
                _ => None,
            }
        } else {
            None
        }
    }

    /// The dispatch entry stored for `id`, if `id` was issued to an observer type
    /// that may be received.
    pub open spec fn observer_entry(self, id: nat) -> Option<ObserverFns<F>> {
        if id < self.registrations.len() {
            match self.registrations[id as int].entry {
                Some(DispatchEntry::Observer(fns)) => Some(fns),
                _ => None,
            }
        } else {
            None
        }
    }

    /// What the receiver is to do with `message`.
    ///
    /// A message is dropped if its identifier was never issued, if its type was
    /// registered for sending only, or if its type was registered for another
    /// kind of message. A component for an entity without a local counterpart is
    /// dropped too. Every other message is applied through the dispatch entry
    /// of its identifier.
    pub open spec fn decide(self, message: MessageView) -> Decision<F> {
        let id = message.reg_id();
        if id >= self.registrations.len() {
            Decision::Dropped(DropReason::UnknownIdentifier)
        } else if !self.registrations[id as int].direction.permits_incoming() {
            Decision::Dropped(DropReason::NotIncoming)
        } else {
            match (message, self.registrations[id as int].entry) {
                (
                    MessageView::SendComponent { entity, payload, .. },
                    Some(DispatchEntry::Component(fns)),
                ) => if self.entities.contains_key(entity) {
                    Decision::Component { entity: self.entities[entity], fns, payload }
                } else {
                    Decision::Dropped(DropReason::UnknownEntity)
                },
                (MessageView::SendResource { payload, .. }, Some(DispatchEntry::Resource(fns))) => {
                    Decision::Resource { fns, payload }
                },
                (MessageView::SendEvent { payload, .. }, Some(DispatchEntry::Event(fns))) => {
                    Decision::Event { fns, payload }
                },
                (MessageView::SendObserver { payload, .. }, Some(DispatchEntry::Observer(fns))) => {
                    Decision::Observer { fns, payload }
                },
                _ => Decision::Dropped(DropReason::NoDispatchEntry),
            }
        }
    }

    /// What the receiver is to do with each of `messages`, in their order.
    pub open spec fn decide_all(self, messages: Seq<MessageView>) -> Seq<Decision<F>> {
        messages.map_values(|message: MessageView| self.decide(message))
    }

    /// The line of the manifest for the type at `path` with identifier `id`.
    pub open spec fn manifest_line(path: Seq<char>, id: nat) -> Seq<char> {
        "  \""@ + path + "\": "@ + decimal(id)
    }

    /// The identifiers below `bound` that the manifest lists, in ascending order:
    /// each identifier that is the latest of its path.
    pub open spec fn manifest_ids(self, bound: nat) -> Seq<nat>
        decreases bound,
    {
        if bound == 0 || bound > self.registrations.len() {
            Seq::empty()
        } else {
            let id = (bound - 1) as nat;
            let earlier = self.manifest_ids(id);
            if self.is_latest(self.registrations[id as int].path, id as int) {
                earlier.push(id)
            } else {
                earlier
            }
        }
    }

    /// The manifest's lines for the identifiers `ids`, in the same order.
    pub open spec fn manifest_lines(self, ids: Seq<nat>) -> Seq<Seq<char>> {
        ids.map_values(|id: nat| Self::manifest_line(self.registrations[id as int].path, id))
    }

    /// The manifest: a JSON object that maps each registered path to its
    /// identifier, one pair on each line, in ascending order of identifier.
    pub open spec fn manifest(self) -> Seq<char> {
        "{\n"@ + joined(
            self.manifest_lines(self.manifest_ids(self.registrations.len())),
            ",\n"@,
        ) + "\n}"@
    }
}

/// The registry of replicated types.
pub struct ReplicateRegistry<F> {
    id_incr: usize,
    types: EngineMap<String, usize>,
    type_names: EngineMap<usize, String>,
    entities: EngineMap<u64, u64>,
    incoming_component_fns: HashMap<usize, ComponentFns<F>>,
    incoming_resource_fns: HashMap<usize, ResourceFns<F>>,
    incoming_event_fns: HashMap<usize, EventFns<F>>,
    incoming_observer_fns: HashMap<usize, ObserverFns<F>>,
    directions: EngineMap<usize, ReplicateDirection>,
}

impl<F> View for ReplicateRegistry<F> {
    type V = RegistryView<F>;

    closed spec fn view(&self) -> RegistryView<F> {
        RegistryView {
            registrations: Seq::new(self.id_incr as nat, |i: int| self.registration_at(i as usize)),
            entities: entity_pairs(self.entities),
        }
    }
}

impl<F> ReplicateRegistry<F> {
    spec fn has_entry(&self, id: usize) -> bool {
        ||| self.incoming_component_fns@.contains_key(id)
        ||| self.incoming_resource_fns@.contains_key(id)
        ||| self.incoming_event_fns@.contains_key(id)
        ||| self.incoming_observer_fns@.contains_key(id)
    }

    spec fn entry_at(&self, id: usize) -> Option<DispatchEntry<F>> {
        if self.incoming_component_fns@.contains_key(id) {
            Some(DispatchEntry::Component(self.incoming_component_fns@[id]))
        } else if self.incoming_resource_fns@.contains_key(id) {
            Some(DispatchEntry::Resource(self.incoming_resource_fns@[id]))
        } else if self.incoming_event_fns@.contains_key(id) {
            Some(DispatchEntry::Event(self.incoming_event_fns@[id]))
        } else if self.incoming_observer_fns@.contains_key(id) {
            Some(DispatchEntry::Observer(self.incoming_observer_fns@[id]))
        } else {
            None
        }
    }

    spec fn registration_at(&self, id: usize) -> Registration<F> {
        Registration {
            path: id_paths(self.type_names)[id],
            direction: id_directions(self.directions)[id],
            entry: self.entry_at(id),
        }
    }

    /// The direction and the path of exactly the identifiers issued are on record.
    spec fn ids_dense(&self) -> bool {
        &&& forall|id: usize|
            id_directions(self.directions).contains_key(id) <==> id < self.id_incr
        &&& forall|id: usize| id_paths(self.type_names).contains_key(id) <==> id < self.id_incr
    }

    /// Each path leads to the latest identifier issued under it.
    spec fn paths_indexed(&self) -> bool {
        &&& forall|path: Seq<char>| #[trigger]
            path_ids(self.types).contains_key(path) ==> {
                let id = path_ids(self.types)[path];
                &&& id < self.id_incr
                &&& id_paths(self.type_names)[id] == path
                &&& forall|later: usize|
                    id < later < self.id_incr ==> id_paths(self.type_names)[later] != path
            }
        &&& forall|id: usize|
            id < self.id_incr ==> path_ids(self.types).contains_key(
                #[trigger] id_paths(self.type_names)[id],
            )
    }

    /// A dispatch entry belongs to an identifier that was issued with a direction
    /// that permits reception, and no identifier has entries of two kinds.
    spec fn tables_sound(&self) -> bool {
        &&& forall|id: usize| #[trigger]
            self.has_entry(id) ==> id < self.id_incr && id_directions(
                self.directions,
            )[id].permits_incoming()
        &&& forall|id: usize| #[trigger]
            self.incoming_component_fns@.contains_key(id) ==> {
                &&& !self.incoming_resource_fns@.contains_key(id)
                &&& !self.incoming_event_fns@.contains_key(id)
                &&& !self.incoming_observer_fns@.contains_key(id)
            }
        &&& forall|id: usize| #[trigger]
            self.incoming_resource_fns@.contains_key(id) ==> {
                &&& !self.incoming_event_fns@.contains_key(id)
                &&& !self.incoming_observer_fns@.contains_key(id)
            }
        &&& forall|id: usize| #[trigger]
            self.incoming_event_fns@.contains_key(id)
                ==> !self.incoming_observer_fns@.contains_key(id)
    }

    /// Every identifier below `bound` that may be received has its dispatch entry.
    spec fn complete_below(&self, bound: usize) -> bool {
        forall|id: usize|
            id < bound && (#[trigger] id_directions(self.directions)[id]).permits_incoming()
                ==> self.has_entry(id)
    }

    /// The registry's invariant: identifiers are dense, each path leads to its
    /// latest identifier, and the dispatch tables hold an entry for exactly the
    /// identifiers that may be received.
    pub closed spec fn wf(&self) -> bool {
        &&& self.ids_dense()
        &&& self.paths_indexed()
        &&& self.tables_sound()
        &&& self.complete_below(self.id_incr)
    }

    /// A registry without registrations and without entities.
    pub fn new() -> (registry: Self)
        ensures
            registry.wf(),
            registry@.registrations == Seq::<Registration<F>>::empty(),
            registry@.entities == Map::<u64, u64>::empty(),
    {
        let registry = ReplicateRegistry {
            id_incr: 0,
            types: path_map_new(),
            type_names: name_map_new(),
            entities: entity_map_new(),
            incoming_component_fns: HashMap::new(),
            incoming_resource_fns: HashMap::new(),
            incoming_event_fns: HashMap::new(),
            incoming_observer_fns: HashMap::new(),
            directions: direction_map_new(),
        };
        assert(registry@.registrations =~= Seq::<Registration<F>>::empty());
        registry
    }

    /// The number of identifiers issued so far.
    pub fn len(&self) -> (len: usize)
        ensures
            len == self@.len(),
    {
        self.id_incr
    }

    /// Issues the next identifier and records its direction and path. The
    /// dispatch entry, where one is due, is still to be stored.
    fn next_id(&mut self, path: &str, direction: ReplicateDirection) -> (id: RegistrationId)
        requires
            old(self).wf(),
            old(self).id_incr < usize::MAX,
        ensures
            id.0 == old(self).id_incr,
            final(self).id_incr == old(self).id_incr + 1,
            final(self).ids_dense(),
            final(self).paths_indexed(),
            final(self).tables_sound(),
            final(self).complete_below(old(self).id_incr),
            !final(self).has_entry(id.0),
            id_directions(final(self).directions)[id.0] == direction,
            id_paths(final(self).type_names)[id.0] == path@,
            forall|earlier: usize|
                earlier < old(self).id_incr ==> final(self).registration_at(earlier) == old(
                    self,
                ).registration_at(earlier),
            final(self).entities == old(self).entities,
            final(self).incoming_component_fns == old(self).incoming_component_fns,
            final(self).incoming_resource_fns == old(self).incoming_resource_fns,
            final(self).incoming_event_fns == old(self).incoming_event_fns,
            final(self).incoming_observer_fns == old(self).incoming_observer_fns,
    {
        let id = self.id_incr;
        self.id_incr = self.id_incr + 1;
        direction_map_insert(&mut self.directions, id, direction);
        path_map_insert(&mut self.types, String::from_str(path), id);
        name_map_insert(&mut self.type_names, id, String::from_str(path));
        proof {
            assert forall|p: Seq<char>| #[trigger]
                path_ids(self.types).contains_key(p) implies {
                let i = path_ids(self.types)[p];
                &&& i < self.id_incr
                &&& id_paths(self.type_names)[i] == p
                &&& forall|later: usize|
                    i < later < self.id_incr ==> id_paths(self.type_names)[later] != p
            } by {
                if p != path@ {
                    assert(path_ids(old(self).types).contains_key(p));
                }
            }
            assert forall|i: usize| i < self.id_incr implies path_ids(self.types).contains_key(
                #[trigger] id_paths(self.type_names)[i],
            ) by {
                if i < id {
                    assert(path_ids(old(self).types).contains_key(
                        id_paths(old(self).type_names)[i],
                    ));
                }
            }
            assert forall|i: usize| #[trigger] self.has_entry(i) implies i < self.id_incr
                && id_directions(self.directions)[i].permits_incoming() by {
                assert(old(self).has_entry(i));
            }
            assert(!self.has_entry(id)) by {
                if self.has_entry(id) {
                    assert(old(self).has_entry(id));
                }
            }
            assert forall|i: usize|
                i < id && (#[trigger] id_directions(self.directions)[i]).permits_incoming()
                    implies self.has_entry(i) by {
                assert(id_directions(old(self).directions)[i].permits_incoming());
                assert(old(self).has_entry(i));
            }
        }
        RegistrationId(id)
    }

    /// Issues the next identifier for `path` and, if `direction` permits
    /// reception, stores `entry` in the dispatch table of its kind.
    fn register(&mut self, path: &str, direction: ReplicateDirection, entry: DispatchEntry<F>) -> (id:
        RegistrationId)
        requires
            old(self).wf(),
            old(self)@.len() < usize::MAX,
        ensures
            final(self).wf(),
            id@ == old(self)@.len(),
            final(self)@ == old(self)@.register(path@, direction, entry),
    {
        let id = self.next_id(path, direction);
        let ghost issued = *self;
        if direction.is_incoming() {
            match entry {
                DispatchEntry::Component(fns) => {
                    self.incoming_component_fns.insert(id.inner(), fns);
                },
                DispatchEntry::Resource(fns) => {
                    self.incoming_resource_fns.insert(id.inner(), fns);
                },
                DispatchEntry::Event(fns) => {
                    self.incoming_event_fns.insert(id.inner(), fns);
                },
                DispatchEntry::Observer(fns) => {
                    self.incoming_observer_fns.insert(id.inner(), fns);
                },
            }
        }
        proof {
            assert forall|earlier: usize| earlier < id.0 implies #[trigger] self.registration_at(
                earlier,
            ) == old(self).registration_at(earlier) by {
                assert(issued.registration_at(earlier) == old(self).registration_at(earlier));
            }
            assert forall|earlier: usize| earlier < id.0 implies #[trigger] self.has_entry(earlier)
                == old(self).has_entry(earlier) by {
                assert(issued.has_entry(earlier) == old(self).has_entry(earlier));
            }
            assert(self.tables_sound()) by {
                assert forall|other: usize| #[trigger] self.has_entry(other) implies other
                    < self.id_incr && id_directions(self.directions)[other].permits_incoming() by {
                    if other != id.0 {
                        assert(issued.has_entry(other));
                    }
                }
            }
            self.lemma_registered(*old(self), id.0, path@, direction, entry);
        }
        id
    }

    /// Registers a type that is only sent, whatever its kind: issues the next
    /// identifier and stores nothing for reception.
    pub fn register_outgoing(&mut self, path: &str) -> (id: RegistrationId)
        requires
            old(self).wf(),
            old(self)@.len() < usize::MAX,
        ensures
            final(self).wf(),
            id@ == old(self)@.len(),
            final(self)@ == old(self)@.register_outgoing(path@),
    {
        let id = self.next_id(path, ReplicateDirection::Outgoing);
        proof {
            assert forall|earlier: usize| earlier < id.0 implies #[trigger] self.has_entry(earlier)
                == old(self).has_entry(earlier) by {}
            let entry: DispatchEntry<F> = arbitrary();
            self.lemma_registered(*old(self), id.0, path@, ReplicateDirection::Outgoing, entry);
        }
        id
    }

    /// Registers a component type under `path`: issues the next identifier and,
    /// if `direction` permits reception, stores `fns` as its dispatch entry.
    pub fn register_component(
        &mut self,
        path: &str,
        direction: ReplicateDirection,
        fns: ComponentFns<F>,
    ) -> (id: RegistrationId)
        requires
            old(self).wf(),
            old(self)@.len() < usize::MAX,
        ensures
            final(self).wf(),
            id@ == old(self)@.len(),
            final(self)@ == old(self)@.register(path@, direction, DispatchEntry::Component(fns)),
    {
        self.register(path, direction, DispatchEntry::Component(fns))
    }

    /// Registers a resource type under `path`: issues the next identifier and,
    /// if `direction` permits reception, stores `fns` as its dispatch entry.
    pub fn register_resource(
        &mut self,
        path: &str,
        direction: ReplicateDirection,
        fns: ResourceFns<F>,
    ) -> (id: RegistrationId)
        requires
            old(self).wf(),
            old(self)@.len() < usize::MAX,
        ensures
            final(self).wf(),
            id@ == old(self)@.len(),
            final(self)@ == old(self)@.register(path@, direction, DispatchEntry::Resource(fns)),
    {
        self.register(path, direction, DispatchEntry::Resource(fns))
    }

    /// Registers an event type under `path`: issues the next identifier and,
    /// if `direction` permits reception, stores `fns` as its dispatch entry.
    pub fn register_event(
        &mut self,
        path: &str,
        direction: ReplicateDirection,
        fns: EventFns<F>,
    ) -> (id: RegistrationId)
        requires
            old(self).wf(),
            old(self)@.len() < usize::MAX,
        ensures
            final(self).wf(),
            id@ == old(self)@.len(),
            final(self)@ == old(self)@.register(path@, direction, DispatchEntry::Event(fns)),
    {
        self.register(path, direction, DispatchEntry::Event(fns))
    }

    /// Registers an observer type under `path`: issues the next identifier and,
    /// if `direction` permits reception, stores `fns` as its dispatch entry.
    pub fn register_observer(
        &mut self,
        path: &str,
        direction: ReplicateDirection,
        fns: ObserverFns<F>,
    ) -> (id: RegistrationId)
        requires
            old(self).wf(),
            old(self)@.len() < usize::MAX,
        ensures
            final(self).wf(),
            id@ == old(self)@.len(),
            final(self)@ == old(self)@.register(path@, direction, DispatchEntry::Observer(fns)),
    {
        self.register(path, direction, DispatchEntry::Observer(fns))
    }

    /// The identifier issued to the latest registration under `path`, if any.
    pub fn find_registration_id(&self, path: &str) -> (found: Option<RegistrationId>)
        requires
            self.wf(),
        ensures
            found.is_some() == self@.is_registered(path@),
            found matches Some(id) ==> self@.is_latest(path@, id@ as int) && id@
                == self@.latest_id(path@),
    {
        match path_map_get(&self.types, path) {
            Some(id) => {
                proof {
                    assert(path_ids(self.types).contains_key(path@));
                    assert(self@.registrations[id as int] == self.registration_at(id));
                    assert(self@.registrations[id as int].path == path@);
                    assert forall|later: int|
                        id < later < self@.registrations.len() implies self@.registrations[later].path
                        != path@ by {
                        assert(self@.registrations[later] == self.registration_at(later as usize));
                    }
                    lemma_latest_is_unique(self@, path@, id as int, self@.latest_id(path@) as int);
                }
                Some(RegistrationId(id))
            },
            None => {
                proof {
                    if self@.is_registered(path@) {
                        let id = choose|id: int|
                            0 <= id < self@.registrations.len() && self@.registrations[id].path
                                == path@;
                        assert(self@.registrations[id] == self.registration_at(id as usize));
                        assert(path_ids(self.types).contains_key(
                            id_paths(self.type_names)[id as usize],
                        ));
                    }
                }
                None
            },
        }
    }

    /// The identifier issued to the latest registration under `path`.
    ///
    /// To ask for the identifier of a type that was never registered is a
    /// mistake of the caller: `find_registration_id` serves a caller that
    /// cannot know.
    pub fn registration_id(&self, path: &str) -> (id: RegistrationId)
        requires
            self.wf(),
            self@.is_registered(path@),
        ensures
            self@.is_latest(path@, id@ as int),
            id@ == self@.latest_id(path@),
    {
        self.find_registration_id(path).unwrap()
    }

    /// The direction that `id` was registered with, if `id` was issued.
    pub fn direction(&self, id: RegistrationId) -> (direction: Option<ReplicateDirection>)
        requires
            self.wf(),
        ensures
            direction == if id@ < self@.len() {
                Some(self@.registrations[id@ as int].direction)
            } else {
                None
            },
    {
        let found = direction_map_get(&self.directions, id.inner());
        proof {
            if id.0 < self.id_incr {
                assert(self@.registrations[id.0 as int] == self.registration_at(id.0));
            }
        }
        found
    }

    /// The path that `id` was registered under, if `id` was issued.
    pub fn type_path(&self, id: RegistrationId) -> (path: Option<&String>)
        requires
            self.wf(),
        ensures
            path.is_some() == (id@ < self@.len()),
            path matches Some(text) ==> text@ == self@.registrations[id@ as int].path,
    {
        let found = name_map_get(&self.type_names, id.inner());
        proof {
            if id.0 < self.id_incr {
                assert(self@.registrations[id.0 as int] == self.registration_at(id.0));
            }
        }
        found
    }

    /// Gives the sender's entity `remote` the local counterpart `local`.
    pub fn insert_entity(&mut self, remote: u64, local: u64)
        requires
            old(self).wf(),
        ensures
            final(self).wf(),
            final(self)@ == old(self)@.map_entity(remote, local),
    {
        entity_map_insert(&mut self.entities, remote, local);
        proof {
            assert forall|id: usize| #[trigger] self.has_entry(id) implies id < self.id_incr
                && id_directions(self.directions)[id].permits_incoming() by {
                assert(old(self).has_entry(id));
            }
            assert forall|id: usize|
                id < self.id_incr && (#[trigger] id_directions(
                    self.directions,
                )[id]).permits_incoming() implies self.has_entry(id) by {
                assert(old(self).has_entry(id));
            }
            assert(self@.registrations =~= old(self)@.registrations);
        }
    }

    /// The local counterpart of the sender's entity `remote`, if it has one.
    pub fn local_entity(&self, remote: u64) -> (local: Option<u64>)
        ensures
            local == if self@.entities.contains_key(remote) {
                Some(self@.entities[remote])
            } else {
                None
            },
    {
        entity_map_get(&self.entities, remote)
    }

    /// The dispatch entry for components with identifier `id`, if there is one.
    pub fn incoming_component_fns(&self, id: RegistrationId) -> (fns: Option<&ComponentFns<F>>)
        requires
            self.wf(),
        ensures
            match fns {
                Some(entry) => self@.component_entry(id@) == Some(*entry),
                None => self@.component_entry(id@).is_none(),
            },
    {
        let found = self.incoming_component_fns.get(&id.0);
        proof {
            self.lemma_entry_at(id.0);
        }
        found
    }

    /// The dispatch entry for resources with identifier `id`, if there is one.
    pub fn incoming_resource_fns(&self, id: RegistrationId) -> (fns: Option<&ResourceFns<F>>)
        requires
            self.wf(),
        ensures
            match fns {
                Some(entry) => self@.resource_entry(id@) == Some(*entry),
                None => self@.resource_entry(id@).is_none(),
            },
    {
        let found = self.incoming_resource_fns.get(&id.0);
        proof {
            self.lemma_entry_at(id.0);
        }
        found
    }

    /// The dispatch entry for events with identifier `id`, if there is one.
    pub fn incoming_event_fns(&self, id: RegistrationId) -> (fns: Option<&EventFns<F>>)
        requires
            self.wf(),
        ensures
            match fns {
                Some(entry) => self@.event_entry(id@) == Some(*entry),
                None => self@.event_entry(id@).is_none(),
            },
    {
        let found = self.incoming_event_fns.get(&id.0);
        proof {
            self.lemma_entry_at(id.0);
        }
        found
    }

    /// The dispatch entry for observer triggers with identifier `id`, if there is one.
    pub fn incoming_observer_fns(&self, id: RegistrationId) -> (fns: Option<&ObserverFns<F>>)
        requires
            self.wf(),
        ensures
            match fns {
                Some(entry) => self@.observer_entry(id@) == Some(*entry),
                None => self@.observer_entry(id@).is_none(),
            },
    {
        let found = self.incoming_observer_fns.get(&id.0);
        proof {
            self.lemma_entry_at(id.0);
        }
        found
    }

    /// Resolves a component message's target: the local counterpart of `remote`
    /// and the dispatch entry for components with identifier `id`. `None` if
    /// either is missing, which the caller is to pass over in silence.
    pub fn entity_fns(&self, remote: u64, id: RegistrationId) -> (found: Option<
        (u64, &ComponentFns<F>),
    >)
        requires
            self.wf(),
        ensures
            found.is_some() == (self@.entities.contains_key(remote) && self@.component_entry(
                id@,
            ).is_some()),
            found matches Some((local, fns)) ==> local == self@.entities[remote]
                && self@.component_entry(id@) == Some(*fns),
    {
        if let Some(entity) = entity_map_get(&self.entities, remote) {
            if let Some(fns) = self.incoming_component_fns(id) {
                return Some((entity, fns));
            }
        }
        None
    }

    /// What the view says of the entry of `id` is what the tables hold.
    proof fn lemma_entry_at(self, id: usize)
        requires
            self.wf(),
        ensures
            id < self.id_incr ==> self@.registrations[id as int] == self.registration_at(id),
            id >= self.id_incr ==> !self.has_entry(id),
            self.incoming_component_fns@.contains_key(id) ==> self.entry_at(id) == Some(
                DispatchEntry::Component(self.incoming_component_fns@[id]),
            ),
            self.incoming_resource_fns@.contains_key(id) ==> self.entry_at(id) == Some(
                DispatchEntry::Resource(self.incoming_resource_fns@[id]),
            ),
            self.incoming_event_fns@.contains_key(id) ==> self.entry_at(id) == Some(
                DispatchEntry::Event(self.incoming_event_fns@[id]),
            ),
            self.incoming_observer_fns@.contains_key(id) ==> self.entry_at(id) == Some(
                DispatchEntry::Observer(self.incoming_observer_fns@[id]),
            ),
            id < self.id_incr && id_directions(self.directions)[id].permits_incoming()
                ==> self.has_entry(id),
            self.has_entry(id) ==> id_directions(self.directions)[id].permits_incoming(),
    {
        if self.has_entry(id) {
            assert(id < self.id_incr);
        }
    }

    /// Decides what is to be done with an incoming message, and hands out what
    /// the receiver needs to do it.
    pub fn route<'a>(&'a self, message: &'a Message) -> (routed: Routed<'a, F>)
        requires
            self.wf(),
        ensures
            routed@ == self@.decide(message@),
    {
        let id = message.reg_id().inner();
        proof {
            self.lemma_entry_at(id);
        }
        if id >= self.id_incr {
            return Routed::Dropped(DropReason::UnknownIdentifier);
        }
        let permitted = match direction_map_get(&self.directions, id) {
            Some(direction) => direction.is_incoming(),
            None => false,
        };
        if !permitted {
            return Routed::Dropped(DropReason::NotIncoming);
        }
        match message {
            Message::SendComponent { entity, payload, .. } => {
                match self.incoming_component_fns.get(&id) {
                    Some(fns) => match entity_map_get(&self.entities, *entity) {
                        Some(local) => Routed::Component { entity: local, fns, payload },
                        None => Routed::Dropped(DropReason::UnknownEntity),
                    },
                    None => Routed::Dropped(DropReason::NoDispatchEntry),
                }
            },
            Message::SendResource { payload, .. } => {
                match self.incoming_resource_fns.get(&id) {
                    Some(fns) => Routed::Resource { fns, payload },
                    None => Routed::Dropped(DropReason::NoDispatchEntry),
                }
            },
            Message::SendEvent { payload, .. } => {
                match self.incoming_event_fns.get(&id) {
                    Some(fns) => Routed::Event { fns, payload },
                    None => Routed::Dropped(DropReason::NoDispatchEntry),
                }
            },
            Message::SendObserver { payload, .. } => {
                match self.incoming_observer_fns.get(&id) {
                    Some(fns) => Routed::Observer { fns, payload },
                    None => Routed::Dropped(DropReason::NoDispatchEntry),
                }
            },
        }
    }

    /// The manifest of registered types: a JSON object that maps each registered
    /// path to its identifier, one pair on each line, in ascending order of
    /// identifier. Two builds whose manifests agree issue the same identifiers.
    pub fn types_to_json(&self) -> (json: String)
        requires
            self.wf(),
        ensures
            json@ == self@.manifest(),
    {
        let mut json = String::from_str("{\n");
        let mut first = true;
        let mut id: usize = 0;
        let ghost mut ids: Seq<nat> = Seq::empty();
        let ghost mut lines: Seq<Seq<char>> = Seq::empty();
        assert(self@.manifest_lines(ids) =~= lines);
        while id < self.id_incr
            invariant
                self.wf(),
                id <= self.id_incr,
                ids == self@.manifest_ids(id as nat),
                lines == self@.manifest_lines(ids),
                first == (lines.len() == 0),
                json@ == "{\n"@ + joined(lines, ",\n"@),
            decreases self.id_incr - id,
        {
            proof {
                self.lemma_entry_at(id);
            }
            if let Some(path) = name_map_get(&self.type_names, id) {
                let latest = match path_map_get(&self.types, path.as_str()) {
                    Some(found) => found == id,
                    None => false,
                };
                proof {
                    self.lemma_latest(id);
                }
                if latest {
                    let ghost line = RegistryView::<F>::manifest_line(path@, id as nat);
                    let ghost before = json@;
                    if !first {
                        json.append(",\n");
                    }
                    json.append("  \"");
                    json.append(path.as_str());
                    json.append("\": ");
                    push_decimal(&mut json, id);
                    first = false;
                    proof {
                        assert(lines.push(line).drop_last() =~= lines);
                        assert(json@ =~= "{\n"@ + joined(lines.push(line), ",\n"@));
                        assert(self@.manifest_lines(ids.push(id as nat)) =~= lines.push(line));
                        ids = ids.push(id as nat);
                        lines = lines.push(line);
                    }
                }
            }
            id += 1;
        }
        json.append("\n}");
        json
    }

    /// The path index leads to `id` exactly if `id` is the latest identifier of
    /// its path.
    proof fn lemma_latest(self, id: usize)
        requires
            self.wf(),
            id < self.id_incr,
        ensures
            path_ids(self.types).contains_key(id_paths(self.type_names)[id]),
            (path_ids(self.types)[id_paths(self.type_names)[id]] == id) == self@.is_latest(
                self@.registrations[id as int].path,
                id as int,
            ),
            self@.registrations[id as int].path == id_paths(self.type_names)[id],
    {
        let path = id_paths(self.type_names)[id];
        assert(self@.registrations[id as int] == self.registration_at(id));
        assert(path_ids(self.types).contains_key(path));
        let indexed = path_ids(self.types)[path];
        assert(self@.registrations[indexed as int] == self.registration_at(indexed));
        if indexed == id {
            assert forall|later: int|
                id < later < self@.registrations.len() implies self@.registrations[later].path
                != path by {
                assert(self@.registrations[later] == self.registration_at(later as usize));
            }
        } else if indexed < id {
            assert(id_paths(self.type_names)[id] != path);
        }
    }

    /// Decides, message by message and in order, what is to be done with the
    /// messages of one drain.
    pub fn route_all<'a>(&'a self, messages: &'a Vec<Message>) -> (routed: Vec<Routed<'a, F>>)
        requires
            self.wf(),
        ensures
            decisions_of(routed@) == self@.decide_all(views(messages@)),
    {
        let mut routed: Vec<Routed<'a, F>> = Vec::new();
        let mut i: usize = 0;
        while i < messages.len()
            invariant
                self.wf(),
                i <= messages@.len(),
                routed@.len() == i,
                forall|j: int|
                    0 <= j < i ==> (#[trigger] routed@[j])@ == self@.decide(messages@[j]@),
            decreases messages@.len() - i,
        {
            routed.push(self.route(&messages[i]));
            i += 1;
        }
        assert(decisions_of(routed@) =~= self@.decide_all(views(messages@)));
        routed
    }

    /// The view of a well-formed registry is valid.
    pub proof fn lemma_view_valid(self)
        requires
            self.wf(),
        ensures
            self@.valid(),
    {
        assert forall|id: int| 0 <= id < self@.registrations.len() implies (
        #[trigger] self@.registrations[id]).entry.is_some()
            == self@.registrations[id].direction.permits_incoming() by {
            self.lemma_entry_at(id as usize);
        }
    }

    /// After `next_id` and the storing of the entry that is due, the registry is
    /// well formed and holds one more registration.
    proof fn lemma_registered(
        self,
        before: Self,
        id: usize,
        path: Seq<char>,
        direction: ReplicateDirection,
        entry: DispatchEntry<F>,
    )
        requires
            before.wf(),
            id == before.id_incr,
            self.id_incr == id + 1,
            self.ids_dense(),
            self.paths_indexed(),
            id_directions(self.directions)[id] == direction,
            id_paths(self.type_names)[id] == path,
            self.entities == before.entities,
            forall|earlier: usize|
                earlier < id ==> #[trigger] self.registration_at(earlier) == before.registration_at(
                    earlier,
                ),
            forall|earlier: usize|
                earlier < id ==> #[trigger] self.has_entry(earlier) == before.has_entry(earlier),
            self.tables_sound(),
            self.entry_at(id) == if direction.permits_incoming() {
                Some(entry)
            } else {
                None::<DispatchEntry<F>>
            },
            self.has_entry(id) == direction.permits_incoming(),
        ensures
            self.wf(),
            self@ == before@.register(path, direction, entry),
    {
        assert forall|i: usize|
            i < self.id_incr && (#[trigger] id_directions(self.directions)[i]).permits_incoming()
                implies self.has_entry(i) by {
            if i < id {
                assert(self.registration_at(i) == before.registration_at(i));
                assert(id_directions(before.directions)[i].permits_incoming());
                assert(before.has_entry(i));
                assert(self.has_entry(i) == before.has_entry(i));
            }
        }
        let after = before@.register(path, direction, entry);
        assert(self@.registrations =~= after.registrations) by {
            assert forall|i: int| 0 <= i < self@.registrations.len() implies self@.registrations[i]
                == after.registrations[i] by {
                if i < id {
                    assert(self.registration_at(i as usize) == before.registration_at(i as usize));
                }
            }
        }
    }
}

/// Of the registrations made under one path only one is the latest, and it is
/// the one that `latest_id` names.
pub proof fn lemma_latest_is_unique<F>(view: RegistryView<F>, path: Seq<char>, a: int, b: int)
    requires
        view.is_latest(path, a),
        view.is_latest(path, b) || b == view.latest_id(path),
    ensures
        a == b,
{
    assert(view.is_latest(path, (a as nat) as int));
    assert(view.is_latest(path, view.latest_id(path) as int));
}

} // verus!
