//! The outgoing hook for observer triggers.

use crate::message::{MessageOutgoing, MessagePayload, MessageView};
use crate::registry::ReplicateRegistry;
use vstd::prelude::*;

verus! {

/// Queues an observer trigger for the peer: the message carries the identifier
/// of the type registered under `path` and the serialized value `payload`.
///
/// The type must have been registered: to send what was never registered is a
/// mistake of the caller, which `ReplicateRegistry::find_registration_id` lets
/// a caller test for.
pub fn outgoing_send<F>(
    registrations: &ReplicateRegistry<F>,
    outgoing: &mut MessageOutgoing,
    path: &str,
    payload: MessagePayload,
)
    requires
        registrations.wf(),
        registrations@.is_registered(path@),
    ensures
        final(outgoing)@ == old(outgoing)@.push(
            MessageView::SendObserver {
                reg_id: registrations@.latest_id(path@),
                payload: payload@,
            },
        ),
{
    let reg_id = registrations.registration_id(path);
    outgoing.send_observer(reg_id, payload);
}

} // verus!
