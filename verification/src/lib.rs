//! Account authentication, an OAuth2 authorization-code flow for a
//! voice-assistant consumer, and per-user service credential storage.
//!
//! The relational store backing the server is modelled in `database`; the
//! endpoint logic operates on that model and is specified against it.

pub mod appdata;
pub mod common;
pub mod config;
pub mod crypto;
pub mod database;
pub mod endpoints;
pub mod environment;
pub mod services;
pub mod text;
pub mod types;
