//! Short-code allocation and resolution for a URL shortener.
//!
//! The library decides everything about a short link: how codes are drawn,
//! how collisions are avoided, which policy verdict a lookup yields and how a
//! record changes when it is resolved. It holds an in-memory store of its
//! own; external stores, HTTP and configuration loading sit outside it and
//! hand it plain values.

pub mod code;
pub mod config;
pub mod errors;
pub mod laws;
pub mod models;
pub mod password;
pub mod policy;
pub mod service;
pub mod store;
