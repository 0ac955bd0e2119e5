//! Bearer-token authentication for a small account service.
//!
//! Tokens are compact, RSA-signed and carry a subject identifier and an expiry instant.
//! The crate issues them, verifies them against a registry of public keys, and decides
//! for each request whether it may proceed.

pub mod base64url;
pub mod bearer;
pub mod error;
pub mod json;
pub mod rs256;
pub mod text;
pub mod jwk;
pub mod key_material;
pub mod token;
pub mod middleware;
pub mod menu;
pub mod account;
