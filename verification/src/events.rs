//! Events that every app replicates.

use crate::dispatch::{DispatchEntry, ObserverFns};
use crate::registration::{RegistrationId, ReplicateDirection};
use crate::registry::{RegistryView, ReplicateRegistry};
use vstd::prelude::*;

verus! {

/// Sent by the app when it starts.
#[derive(Debug, Default, Clone, Copy, PartialEq, Eq, Structural)]
pub struct AppStartup;

/// Sent by the app once it is ready, usually when its assets are loaded.
#[derive(Debug, Default, Clone, Copy, PartialEq, Eq, Structural)]
pub struct AppReady;

/// A message of the user to the app: the app's standard input.
#[derive(Debug, Clone, PartialEq, Eq)]
pub struct OnUserMessage(pub String);

/// A message of the app to the user: the app's standard output.
#[derive(Debug, Clone, PartialEq, Eq)]
pub struct OnAppMessage(pub String);

impl OnUserMessage {
    /// The message that says `text`.
    pub fn new(text: String) -> (message: Self)
        ensures
            message.0 == text,
    {
        OnUserMessage(text)
    }
}

/// The paths under which an app registers the common events.
pub struct CommonEventPaths<'a> {
    pub app_startup: &'a str,
    pub app_ready: &'a str,
    pub on_user_message: &'a str,
    pub on_app_message: &'a str,
}

/// The identifiers of the common events.
#[derive(Debug, Clone, Copy, PartialEq, Eq)]
pub struct CommonEventIds {
    pub app_startup: RegistrationId,
    pub app_ready: RegistrationId,
    pub on_user_message: RegistrationId,
    pub on_app_message: RegistrationId,
}

/// The registry after the common events were registered: the start and the
/// readiness of the app are sent, messages of the user are received, messages
/// of the app are sent, in this order.
pub open spec fn with_common_events<F>(
    view: RegistryView<F>,
    app_startup: Seq<char>,
    app_ready: Seq<char>,
    on_user_message: Seq<char>,
    on_app_message: Seq<char>,
    fns: ObserverFns<F>,
) -> RegistryView<F> {
    view.register_outgoing(app_startup).register_outgoing(app_ready).register(
        on_user_message,
        ReplicateDirection::Incoming,
        DispatchEntry::Observer(fns),
    ).register_outgoing(on_app_message)
}

/// Registers the common events, in the one order that all apps share. An app
/// does this before it registers anything else, so that the common events
/// have the same identifiers in every app.
pub fn register_common_events<F>(
    registry: &mut ReplicateRegistry<F>,
    paths: CommonEventPaths<'_>,
    on_user_message: ObserverFns<F>,
) -> (ids: CommonEventIds)
    requires
        old(registry).wf(),
        old(registry)@.len() + 4 <= usize::MAX,
    ensures
        final(registry).wf(),
        ids.app_startup@ == old(registry)@.len(),
        ids.app_ready@ == old(registry)@.len() + 1,
        ids.on_user_message@ == old(registry)@.len() + 2,
        ids.on_app_message@ == old(registry)@.len() + 3,
        final(registry)@ == with_common_events(
            old(registry)@,
            paths.app_startup@,
            paths.app_ready@,
            paths.on_user_message@,
            paths.on_app_message@,
            on_user_message,
        ),
{
    let app_startup = registry.register_outgoing(paths.app_startup);
    let app_ready = registry.register_outgoing(paths.app_ready);
    let on_user_message = registry.register_observer(
        paths.on_user_message,
        ReplicateDirection::Incoming,
        on_user_message,
    );
    let on_app_message = registry.register_outgoing(paths.on_app_message);
    CommonEventIds { app_startup, app_ready, on_user_message, on_app_message }
}

} // verus!
