//! Verification pipeline for compressed recursive (folding-scheme) proofs over
//! the Pallas/Vesta curve cycle.
//!
//! The crate decodes untrusted byte blobs into typed public-input records,
//! resolves which curve plays the primary and which the secondary role,
//! materialises trusted commitment generators, and classifies every failure
//! mode distinctly.  The cryptographic engine that consumes the prepared data
//! is an external collaborator; everything this crate decides is specified and
//! proved here.

pub mod codec;
pub mod curve;
pub mod dispatch;
pub mod errors;
pub mod pipeline;
pub mod pubs;
pub mod store;
