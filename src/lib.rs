//! Synchronisation engine for shared todo lists: the wire protocol, the
//! connection registry, the event pipeline, the list store's contract and
//! the decisions of the issue mirror. Beside it, the session logic of the
//! analytics upload endpoint.

pub mod json;
pub mod payload;
pub mod todo_list;
pub mod event;
pub mod protocol;
pub mod registry;
pub mod store;
pub mod gateway;
pub mod mirror;
pub mod token;
pub mod config;
pub mod country;
pub mod analytics;
