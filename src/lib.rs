//! The core of a desktop chat client: the decisions of the real-time
//! transport controller and of its connection session, the frames and error
//! categories they exchange, and the per-conversation message history with
//! its monotonic delivery-state reconciliation.

pub mod chat;
pub mod controller;
pub mod history;
pub mod login;
pub mod message;
pub mod notify;
pub mod protocol;
pub mod session;
pub mod text;
