//! A bidirectional remote-procedure-call runtime, as far as it can be
//! proved: the table that pairs each reply with the call that awaits it,
//! the client handle that issues calls, and the dispatch of inbound
//! messages. Threads and sockets are left to the code around it.

pub mod client;
pub mod correlation;
pub mod dispatch;
pub mod error;
pub mod message;
pub mod queue;
pub mod runtime;
pub mod sync;
