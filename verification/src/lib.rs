//! Core of a campus captive-portal login agent.
//!
//! The agent detects when the client sits behind the campus gateway,
//! resolves the portal's dynamic authentication endpoints by scraping its
//! redirect page and the script referenced there, submits credentials
//! through a two-phase form protocol, and keeps the connection alive from a
//! background loop while a small local HTTP control plane reads and updates
//! the shared configuration.
//!
//! This crate holds the verified core: the parsing of the gateway pages,
//! the authentication protocol as an explicit state machine, the shared
//! agent state with its persistence document, and the decision logic of the
//! login loop and of the control server.  Network and file transport around
//! it hands plain values in and out.

pub mod auth;
pub mod component;
pub mod config;
pub mod data;
pub mod daemon;
pub mod logout;
pub mod protocol;
pub mod scan;
pub mod serve;
