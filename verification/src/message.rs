//! The messages that two peers exchange, and the queues that hold them.

use crate::registration::RegistrationId;
use vstd::prelude::*;

verus! {

/// One serialized value. It carries no type tag: the identifier of the message
/// that encloses it says which type the bytes encode.
#[derive(Debug, Clone, PartialEq, Eq)]
pub struct MessagePayload {
    pub bytes: Vec<u8>,
}

impl View for MessagePayload {
    type V = Seq<u8>;

    open spec fn view(&self) -> Seq<u8> {
        self.bytes@
    }
}

impl MessagePayload {
    /// The payload that holds `bytes`.
    pub fn new(bytes: Vec<u8>) -> (payload: Self)
        ensures
            payload@ == bytes@,
    {
        MessagePayload { bytes }
    }

    /// The serialized bytes.
    pub fn as_bytes(&self) -> (bytes: &Vec<u8>)
        ensures
            bytes@ == self@,
    {
        &self.bytes
    }

    /// The serialized bytes, by value.
    pub fn into_bytes(self) -> (bytes: Vec<u8>)
        ensures
            bytes@ == self@,
    {
        self.bytes
    }

    /// The number of bytes.
    pub fn len(&self) -> (len: usize)
        ensures
            len == self@.len(),
    {
        self.bytes.len()
    }
}

/// What a message asks the receiver to do with its payload.
#[derive(Debug, Clone, Copy, PartialEq, Eq, Structural, Hash)]
pub enum MessageKind {
    /// Insert the value as a component of an entity.
    Component,
    /// Overwrite a resource with the value.
    Resource,
    /// Emit the value as an event.
    Event,
    /// Trigger observers with the value.
    Observer,
}

/// A message between two peers.
#[derive(Debug, Clone, PartialEq, Eq)]
pub enum Message {
    /// A component for the receiver's copy of the sender's entity `entity`.
    SendComponent { reg_id: RegistrationId, entity: u64, payload: MessagePayload },
    /// A resource.
    SendResource { reg_id: RegistrationId, payload: MessagePayload },
    /// An event.
    SendEvent { reg_id: RegistrationId, payload: MessagePayload },
    /// An observer trigger.
    SendObserver { reg_id: RegistrationId, payload: MessagePayload },
}

/// What a [`Message`] says.
pub enum MessageView {
    SendComponent { reg_id: nat, entity: u64, payload: Seq<u8> },
    SendResource { reg_id: nat, payload: Seq<u8> },
    SendEvent { reg_id: nat, payload: Seq<u8> },
    SendObserver { reg_id: nat, payload: Seq<u8> },
}

impl MessageView {
    /// The kind of the message.
    pub open spec fn kind(self) -> MessageKind {
        match self {
            MessageView::SendComponent { .. } => MessageKind::Component,
            MessageView::SendResource { .. } => MessageKind::Resource,
            MessageView::SendEvent { .. } => MessageKind::Event,
            MessageView::SendObserver { .. } => MessageKind::Observer,
        }
    }

    /// The identifier of the payload's type.
    pub open spec fn reg_id(self) -> nat {
        match self {
            MessageView::SendComponent { reg_id, .. } => reg_id,
            MessageView::SendResource { reg_id, .. } => reg_id,
            MessageView::SendEvent { reg_id, .. } => reg_id,
            MessageView::SendObserver { reg_id, .. } => reg_id,
        }
    }

    /// The serialized value.
    pub open spec fn payload(self) -> Seq<u8> {
        match self {
            MessageView::SendComponent { payload, .. } => payload,
            MessageView::SendResource { payload, .. } => payload,
            MessageView::SendEvent { payload, .. } => payload,
            MessageView::SendObserver { payload, .. } => payload,
        }
    }
}

impl View for Message {
    type V = MessageView;

    open spec fn view(&self) -> MessageView {
        match *self {
            Message::SendComponent { reg_id, entity, payload } => MessageView::SendComponent {
                reg_id: reg_id@,
                entity,
                payload: payload@,
            },
            Message::SendResource { reg_id, payload } => MessageView::SendResource {
                reg_id: reg_id@,
                payload: payload@,
            },
            Message::SendEvent { reg_id, payload } => MessageView::SendEvent {
                reg_id: reg_id@,
                payload: payload@,
            },
            Message::SendObserver { reg_id, payload } => MessageView::SendObserver {
                reg_id: reg_id@,
                payload: payload@,
            },
        }
    }
}

/// What a sequence of messages says, message by message.
pub open spec fn views(messages: Seq<Message>) -> Seq<MessageView> {
    messages.map_values(|message: Message| message@)
}

impl Message {
    /// The kind of the message.
    pub fn kind(&self) -> (kind: MessageKind)
        ensures
            kind == self@.kind(),
    {
        match self {
            Message::SendComponent { .. } => MessageKind::Component,
            Message::SendResource { .. } => MessageKind::Resource,
            Message::SendEvent { .. } => MessageKind::Event,
            Message::SendObserver { .. } => MessageKind::Observer,
        }
    }

    /// The identifier of the payload's type.
    pub fn reg_id(&self) -> (reg_id: RegistrationId)
        ensures
            reg_id@ == self@.reg_id(),
    {
        match self {
            Message::SendComponent { reg_id, .. } => *reg_id,
            Message::SendResource { reg_id, .. } => *reg_id,
            Message::SendEvent { reg_id, .. } => *reg_id,
            Message::SendObserver { reg_id, .. } => *reg_id,
        }
    }

    /// The serialized value.
    pub fn payload(&self) -> (payload: &MessagePayload)
        ensures
            payload@ == self@.payload(),
    {
        match self {
            Message::SendComponent { payload, .. } => payload,
            Message::SendResource { payload, .. } => payload,
            Message::SendEvent { payload, .. } => payload,
            Message::SendObserver { payload, .. } => payload,
        }
    }

    /// Moves everything that waits in `send` to the end of `recv`, in order:
    /// a transport that needs no wire.
    pub fn loopback(send: &mut MessageOutgoing, recv: &mut MessageIncoming)
        ensures
            final(send)@ == Seq::<MessageView>::empty(),
            final(recv)@ == old(recv)@ + old(send)@,
    {
        let mut moved = send.drain();
        let ghost before = recv.messages@;
        let ghost added = moved@;
        recv.messages.append(&mut moved);
        assert(views(before + added) =~= views(before) + views(added));
    }
}

/// Messages that wait to be handed to the transport, oldest first.
#[derive(Debug, Clone, PartialEq, Eq)]
pub struct MessageOutgoing {
    pub messages: Vec<Message>,
}

/// Messages that the transport delivered and that wait to be applied, oldest first.
#[derive(Debug, Clone, PartialEq, Eq)]
pub struct MessageIncoming {
    pub messages: Vec<Message>,
}

impl View for MessageOutgoing {
    type V = Seq<MessageView>;

    open spec fn view(&self) -> Seq<MessageView> {
        views(self.messages@)
    }
}

impl View for MessageIncoming {
    type V = Seq<MessageView>;

    open spec fn view(&self) -> Seq<MessageView> {
        views(self.messages@)
    }
}

impl MessageOutgoing {
    /// A queue in which nothing waits.
    pub fn new() -> (queue: Self)
        ensures
            queue@ == Seq::<MessageView>::empty(),
    {
        let queue = MessageOutgoing { messages: Vec::new() };
        assert(queue@ =~= Seq::<MessageView>::empty());
        queue
    }

    /// The number of waiting messages.
    pub fn len(&self) -> (len: usize)
        ensures
            len == self@.len(),
    {
        self.messages.len()
    }

    /// Whether nothing waits.
    pub fn is_empty(&self) -> (empty: bool)
        ensures
            empty == (self@.len() == 0),
    {
        self.messages.len() == 0
    }

    /// The message at place `index`, counted from the oldest.
    pub fn get(&self, index: usize) -> (message: &Message)
        requires
            index < self@.len(),
        ensures
            message@ == self@[index as int],
    {
        &self.messages[index]
    }

    /// Puts `message` behind all that wait.
    pub fn push(&mut self, message: Message)
        ensures
            final(self)@ == old(self)@.push(message@),
    {
        self.messages.push(message);
        assert(self@ =~= old(self)@.push(message@));
    }

    /// Queues a component for the peer's copy of `entity`.
    pub fn send_component(&mut self, reg_id: RegistrationId, entity: u64, payload: MessagePayload)
        ensures
            final(self)@ == old(self)@.push(
                MessageView::SendComponent { reg_id: reg_id@, entity, payload: payload@ },
            ),
    {
        self.push(Message::SendComponent { reg_id, entity, payload });
    }

    /// Queues a resource.
    pub fn send_resource(&mut self, reg_id: RegistrationId, payload: MessagePayload)
        ensures
            final(self)@ == old(self)@.push(
                MessageView::SendResource { reg_id: reg_id@, payload: payload@ },
            ),
    {
        self.push(Message::SendResource { reg_id, payload });
    }

    /// Queues an event.
    pub fn send_event(&mut self, reg_id: RegistrationId, payload: MessagePayload)
        ensures
            final(self)@ == old(self)@.push(
                MessageView::SendEvent { reg_id: reg_id@, payload: payload@ },
            ),
    {
        self.push(Message::SendEvent { reg_id, payload });
    }

    /// Queues an observer trigger.
    pub fn send_observer(&mut self, reg_id: RegistrationId, payload: MessagePayload)
        ensures
            final(self)@ == old(self)@.push(
                MessageView::SendObserver { reg_id: reg_id@, payload: payload@ },
            ),
    {
        self.push(Message::SendObserver { reg_id, payload });
    }

    /// Empties the queue and hands out what waited, oldest first.
    pub fn drain(&mut self) -> (drained: Vec<Message>)
        ensures
            views(drained@) == old(self)@,
            final(self)@ == Seq::<MessageView>::empty(),
    {
        let mut drained: Vec<Message> = Vec::new();
        std::mem::swap(&mut drained, &mut self.messages);
        assert(self@ =~= Seq::<MessageView>::empty());
        drained
    }
}

impl MessageIncoming {
    /// A queue in which nothing waits.
    pub fn new() -> (queue: Self)
        ensures
            queue@ == Seq::<MessageView>::empty(),
    {
        let queue = MessageIncoming { messages: Vec::new() };
        assert(queue@ =~= Seq::<MessageView>::empty());
        queue
    }

    /// The number of waiting messages.
    pub fn len(&self) -> (len: usize)
        ensures
            len == self@.len(),
    {
        self.messages.len()
    }

    /// Whether nothing waits.
    pub fn is_empty(&self) -> (empty: bool)
        ensures
            empty == (self@.len() == 0),
    {
        self.messages.len() == 0
    }

    /// The message at place `index`, counted from the oldest.
    pub fn get(&self, index: usize) -> (message: &Message)
        requires
            index < self@.len(),
        ensures
            message@ == self@[index as int],
    {
        &self.messages[index]
    }

    /// Puts the messages `arrived`, in their order, behind all that wait.
    pub fn receive(&mut self, arrived: Vec<Message>)
        ensures
            final(self)@ == old(self)@ + views(arrived@),
    {
        let mut arrived = arrived;
        let ghost before = self.messages@;
        let ghost added = arrived@;
        self.messages.append(&mut arrived);
        assert(views(before + added) =~= views(before) + views(added));
    }

    /// Puts `message`, just arrived, behind all that wait.
    pub fn push(&mut self, message: Message)
        ensures
            final(self)@ == old(self)@.push(message@),
    {
        self.messages.push(message);
        assert(self@ =~= old(self)@.push(message@));
    }

    /// Empties the queue and hands out what waited, oldest first.
    pub fn drain(&mut self) -> (drained: Vec<Message>)
        ensures
            views(drained@) == old(self)@,
            final(self)@ == Seq::<MessageView>::empty(),
    {
        let mut drained: Vec<Message> = Vec::new();
        std::mem::swap(&mut drained, &mut self.messages);
        assert(self@ =~= Seq::<MessageView>::empty());
        drained
    }
}

} // verus!
