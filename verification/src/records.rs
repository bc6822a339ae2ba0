//! The two persistent record kinds and the read-only projection of a
//! certificate.
//!
//! Identities (the recipient of a certificate, the authority that issued it)
//! are 32-byte public keys, carried here as plain `[u8; 32]` values.

use vstd::prelude::*;

verus! {

/// One certificate per `(owner, course_id)` pair.  All fields but
/// `is_revoked` are frozen at issuance; `is_revoked` moves from `false` to
/// `true` at most conceptually once and never back.
#[derive(Clone, Copy, Debug, PartialEq, Eq)]
pub struct Certificate {
    /// 32-byte public identity of the recipient.
    pub owner: [u8; 32],
    /// Course this certificate attests.
    pub course_id: u64,
    /// Level attained: 1 (Beginner), 2 (Intermediate) or 3 (Advanced).
    pub level: u8,
    /// Seconds since epoch, taken from the host clock at issuance.
    pub issued_at: i64,
    /// Identity of the authority that issued; kept even if the authority
    /// later rotates.
    pub issuer: [u8; 32],
    /// Salt of the deterministic address derivation, stored so later lookups
    /// skip the search.
    pub bump: u8,
    /// Whether the issuer has since revoked this certificate.
    pub is_revoked: bool,
}

/// The singleton configuration record.
#[derive(Clone, Copy, Debug, PartialEq, Eq)]
pub struct ProgramConfig {
    /// Identity currently permitted to issue and revoke.
    pub issuer_authority: [u8; 32],
    /// Address-derivation salt of the configuration record itself.
    pub bump: u8,
    /// Issuance counter, reserved for bookkeeping.  It is initialized to
    /// zero and no operation increments it.
    pub total_issued: u64,
}

/// Read-only projection of a certificate, as handed to callers.
#[derive(Clone, Copy, Debug, PartialEq, Eq)]
pub struct CertificateInfo {
    pub owner: [u8; 32],
    pub course_id: u64,
    pub level: u8,
    pub issued_at: i64,
    pub issuer: [u8; 32],
    pub is_revoked: bool,
}

/// The level domain: exactly the three published levels.
pub open spec fn valid_level(level: u8) -> bool {
    1 <= level <= 3
}

impl Certificate {
    /// The projection of this record that `get_certificate_info` returns.
    pub open spec fn spec_info(self) -> CertificateInfo {
        CertificateInfo {
            owner: self.owner,
            course_id: self.course_id,
            level: self.level,
            issued_at: self.issued_at,
            issuer: self.issuer,
            is_revoked: self.is_revoked,
        }
    }
}

/// True when two 32-byte identities hold the same bytes.
pub fn id_eq(a: &[u8; 32], b: &[u8; 32]) -> (r: bool)
    ensures
        r <==> a@ =~= b@,
{
    let mut i: usize = 0;
    while i < 32
        invariant
            i <= 32,
            forall|k: int| 0 <= k < i ==> a@[k] == b@[k],
        decreases 32 - i,
    {
        if a[i] != b[i] {
            return false;
        }
        i = i + 1;
    }
    assert(a@ =~= b@);
    true
}

} // verus!
