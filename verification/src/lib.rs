//! On-chain registry of non-transferable course certificates for an academy.
//!
//! For each `(owner, course_id)` pair the registry keeps at most one
//! certificate record describing the level attained, the issuer that granted
//! it, the issuance time, and whether it has since been revoked.  A single
//! configuration record names the authority permitted to issue and revoke.
//! Every committed write appends exactly one event for off-chain indexers.

pub mod codec;
pub mod derivation;
pub mod errors;
pub mod events;
pub mod laws;
pub mod records;
pub mod registry;
