//! Warden's bootstrap layer: it resolves the deployment environment, turns
//! that environment's YAML source into a typed `Config`, derives the bind
//! address, and hands the finished configuration out through a shared,
//! read-only `State` handle.
pub mod config;
pub mod document;
pub mod environment;
pub mod error;
pub mod health;
pub mod state;
