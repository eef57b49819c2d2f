//! Passkey registration and logon, DPoP-bound sessions, and grant-based
//! authorization for a set of independently deployed HTTP functions.
//!
//! This crate holds the decisions those services make; the services
//! themselves (HTTP routing, database access, WebAuthn ceremonies) live
//! around it and hand it plain values.

pub mod admin;
pub mod attributes;
pub mod authorization;
pub mod check;
pub mod clock;
pub mod codec;
pub mod config;
pub mod dpop;
pub mod logon;
pub mod logout;
pub mod registration;
pub mod response;
pub mod session;
pub mod store;
pub mod text;
