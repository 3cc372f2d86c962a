//! Event-sourced content and access-management domain: aggregates, their
//! commands and events, the aggregate context that records and replays
//! events, and the value types the aggregates are built from.
pub mod aggregate;
pub mod context;
pub mod dto;
pub mod permission;
pub mod permission_code;
pub mod post;
pub mod role;
pub mod service;
pub mod sets;
pub mod tag;
pub mod taxonomy;
pub mod taxonomy_path;
pub mod text;
pub mod usecase;
pub mod user;
