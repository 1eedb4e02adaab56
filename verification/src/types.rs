//! Plain data types exchanged with the outside collaborators.

pub mod assistant_incoming;
pub mod assistant_outgoing;
pub mod honeywell;
pub mod service;
