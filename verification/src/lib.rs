//! Verified core of a Lightning payment terminal: domain types, wire protocol,
//! terminal state machine and gateway decision logic.

pub mod clock;
pub mod config;
pub mod models;
pub mod terminal;
pub mod protocol;
pub mod text;
pub mod crypto;
pub mod auth;
pub mod provider;
pub mod storage;
pub mod error;
pub mod routes;
pub mod ui;
