//! Verified core of a runtime instrumentation layer for a fighting game: the
//! classification of script loads into slots, the storage of replacement
//! scripts, the lifecycle of the overlay's rendering resources and the
//! chaining of the host window's message procedure.

pub mod script;
pub mod storage;
pub mod classifier;
pub mod render;
pub mod wndproc;
