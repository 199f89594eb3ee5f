//! A registry of named, typed, mutable tunable values that a running program
//! exposes for live editing.
//!
//! The crate provides the typed data model ([`field::Field`]), the concurrent
//! key-to-field store ([`registry::Registry`]), the grouped display view
//! ([`grouping`]), the widget rendering ([`render`]), and the change-probe
//! state used by the editing client to poll for newly registered entries
//! ([`sync`]).

pub mod field;
pub mod grouping;
pub mod registry;
pub mod render;
pub mod store;
pub mod sync;
pub mod text;
