//! A small task service: the task record, the rules of its table, and the
//! mapping of requests and store outcomes to HTTP responses.

pub mod task;
pub mod store;
pub mod request;
pub mod handlers;
pub mod laws;
