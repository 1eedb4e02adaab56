//! The endpoint logic: each function here is the computation behind one
//! HTTP endpoint, taking plain request values and the store, and returning
//! the response values the surrounding server writes out.

pub mod auth;
pub mod oauth;
pub mod services;
pub mod webhook;
