//! A builder-style client for bot actions on a chat platform. A
//! [`client::ClientFactory`] shares one [`runtime::Runtime`] among the
//! clients it builds; each [`client::Client`] converts its context into the
//! canonical [`types::ActionContext`] and starts exactly one action, whose
//! builder hands one request to the runtime.

pub mod chat_details;
pub mod chat_events;
pub mod client;
pub mod create_channel;
pub mod delete_channel;
pub mod greet;
pub mod laws;
pub mod runtime;
pub mod send_message;
pub mod types;
