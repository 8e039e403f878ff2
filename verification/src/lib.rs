//! Thread-local contexts that can be referenced from async tasks, together with
//! the shutdown barrier that keeps thread-local data alive until every worker
//! thread has reached it.
pub mod context;
pub mod local_ref;
pub mod barrier;
pub mod runtime;
pub mod as_context;
pub mod doomsday;
