//! Verified bookkeeping for binding native views to behaviour objects:
//! the registry of generated subclasses, the per-instance callback slot,
//! the trampolines that route a native callback to its behaviour, and the
//! life cycle of a view wrapper.
//!
//! Nothing here talks to a native toolkit. Each function either decides what
//! the host has to do next or takes what the host answered as a plain value.

pub mod foundation;
pub mod layout;
pub mod lifecycle;
pub mod listview;
pub mod registry;
pub mod textview;
