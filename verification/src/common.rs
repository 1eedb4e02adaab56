//! Operations shared by several endpoints.

pub mod service;
pub mod user;
