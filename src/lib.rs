//! Client side of a chunked generation protocol: the session state threaded
//! through budget-limited remote calls, the cache partitioning that bounds each
//! call's payload, and the state machine that sequences the calls.
pub mod chat;
pub mod laws;
pub mod protocol;
pub mod session;
mod text;
