//! The append-only event stream.  Exactly one event is appended by each
//! committed write except the one-time bootstrap; an aborted operation
//! appends nothing.

use vstd::prelude::*;

verus! {

/// Emitted when a certificate is issued.
#[derive(Clone, Copy, Debug, PartialEq, Eq)]
pub struct CertificateIssued {
    pub user: [u8; 32],
    pub course_id: u64,
    pub level: u8,
    pub issued_at: i64,
}

/// Emitted when the issuer revokes a certificate.
#[derive(Clone, Copy, Debug, PartialEq, Eq)]
pub struct CertificateRevoked {
    pub user: [u8; 32],
    pub course_id: u64,
}

/// Emitted when the owner burns a certificate, before the record is
/// destroyed, so indexers see its final state.
#[derive(Clone, Copy, Debug, PartialEq, Eq)]
pub struct CertificateBurned {
    pub user: [u8; 32],
    pub course_id: u64,
}

/// Emitted when the issuer authority is rotated.
#[derive(Clone, Copy, Debug, PartialEq, Eq)]
pub struct IssuerAuthorityUpdated {
    pub old_authority: [u8; 32],
    pub new_authority: [u8; 32],
}

/// One entry of the event stream.
#[derive(Clone, Copy, Debug, PartialEq, Eq)]
pub enum Event {
    Issued(CertificateIssued),
    Revoked(CertificateRevoked),
    Burned(CertificateBurned),
    AuthorityUpdated(IssuerAuthorityUpdated),
}

} // verus!
