//! A structured task group and the request-handling core of a JSON-RPC 2.0
//! server, with their contracts proved.

pub mod channel;
pub mod message;
pub mod queue;
pub mod server;
pub mod task;
