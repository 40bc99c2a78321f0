//! Replication registry and message protocol for exchanging typed events,
//! components and resources between two application instances.
//!
//! The registry issues dense identifiers in the order of registration, keeps a
//! dispatch entry for each type that may be received, and decides for each
//! incoming message whether and how it is applied. Messages wait in ordered
//! queues between the app and its transport. Beside the protocol stand the
//! rules that an app's tools decide on plain values: the checks of exported
//! scenes, the index of exported bindings, the arguments of a web build, and
//! the terminal's line of input.

pub mod asset_ready;
pub mod build_web;
pub mod dispatch;
pub mod engine_map;
pub mod events;
pub mod frame;
pub mod laws;
pub mod line_order;
pub mod message;
pub mod observer;
pub mod registration;
pub mod registry;
pub mod scene_checks;
pub mod scene_export;
pub mod scene_format;
pub mod screenshot;
pub mod terminal;
pub mod text;
pub mod type_info;
pub mod typescript_exporter;
