//! Verification of decentralized identity profiles.
//!
//! A profile is published as a signed token (a JWS in compact form) that
//! embeds its own public key in the header.  The library extracts that key,
//! dispatches on its curve family, has the signature checked, decodes the
//! verified payload into a profile record, and pairs every asserted claim
//! with the outcome of its external verification.  Network transport and
//! the per-claim checking service are collaborators supplied by the caller;
//! everything the library itself computes is verified.

pub mod claims;
pub mod error;
pub mod jose;
pub mod openpgp;
pub mod payload;
pub mod profile;
pub mod strutil;
pub mod uri;

pub use strutil::str_eq;
