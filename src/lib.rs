//! Lifecycle core of an embedded QuickJS engine instance: the owned engine
//! state with its ordered teardown, the bookkeeping record attached to the
//! native handle, and the decoding of the engine's job-queue status codes.

pub mod error;
pub mod inner;
pub mod job;
pub mod opaque;
