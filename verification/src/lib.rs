//! Client-side core of a conversational-bot HTTP API client.
//!
//! The verified core covers the authenticated-request subsystem: bearer
//! tokens with expiry tracking, the cached-token refresh protocol, URL
//! composition for the bot endpoints, and classification of HTTP responses
//! into typed successes and typed errors. The network transport, JSON
//! (de)serialization and the persistence layer live outside the library and
//! hand it plain values.

pub mod cache;
pub mod error;
pub mod request;
pub mod response;
pub mod token;
pub mod url;
