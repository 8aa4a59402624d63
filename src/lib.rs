//! A shared, type-erasing handle for layers: values that turn an inner value
//! (typically a service) into a new service.
//!
//! [`BoxLayer`] keeps one immutable adapter behind an atomically
//! reference-counted pointer. Cloning it shares the adapter; applying it
//! delegates to the adapter. Because the adapter may be a trait object, layers
//! of different concrete types can be stored under one type.
//! [`EraseLayer`] is the adapter such a handle usually holds: it applies a
//! concrete layer and at once erases the produced service.

pub mod boxed;

pub use boxed::{BoxLayer, EraseLayer};
