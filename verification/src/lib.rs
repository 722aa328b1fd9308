//! OAuth2 authorization-code flow against a third-party identity provider:
//! building the provider redirect URL, assembling the token-exchange
//! request, and deciding the outcome of the callback.
//!
//! Network I/O stays with the caller: the library builds the exact strings
//! that go over the wire and decides the outcome from what came back.

pub mod auth;
pub mod config;
pub mod extractor;
pub mod redirect;
pub mod token;
pub mod urlenc;
