//! The third-party services the server can act against.

pub mod honeywell;
