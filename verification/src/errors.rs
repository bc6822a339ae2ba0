//! The error taxonomy: the core's own error codes and the failures the host
//! storage layer reports around them.

use vstd::prelude::*;

verus! {

/// The core's error codes, in their stable order.  Each is surfaced as a
/// numeric code together with a fixed English message.
///
/// `CertificateRevoked` is declared for on-wire stability but no operation
/// raises it: an issue against a revoked-but-not-burned certificate is
/// stopped earlier, by the occupied storage slot, as `CertificateExists`.
#[derive(Clone, Copy, Debug, PartialEq, Eq, Structural)]
pub enum AcademyError {
    Unauthorized,
    InvalidLevel,
    CertificateExists,
    CertificateRevoked,
}

/// What a failed operation reports: either one of the core's error codes, or
/// a failure of the host storage layer (a record that does not resolve, or an
/// allocation at an already occupied slot).
#[derive(Clone, Copy, Debug, PartialEq, Eq, Structural)]
pub enum OpError {
    /// The core rejected the call with one of its numeric error codes.
    Academy(AcademyError),
    /// Address resolution failed: no record lives at the derived address.
    RecordNotFound,
    /// The configuration record already exists; it is created exactly once.
    AlreadyInitialized,
}

impl AcademyError {
    /// The stable numeric code of this error.
    pub open spec fn spec_code(self) -> u32 {
        match self {
            AcademyError::Unauthorized => 1,
            AcademyError::InvalidLevel => 2,
            AcademyError::CertificateExists => 3,
            AcademyError::CertificateRevoked => 4,
        }
    }

    /// The numeric code surfaced to callers.
    pub fn code(&self) -> (c: u32)
        ensures
            c == self.spec_code(),
    {
        match self {
            AcademyError::Unauthorized => 1,
            AcademyError::InvalidLevel => 2,
            AcademyError::CertificateExists => 3,
            AcademyError::CertificateRevoked => 4,
        }
    }

    /// The fixed English message surfaced beside the numeric code.
    pub fn message(&self) -> (m: &'static str)
        ensures
            self == AcademyError::Unauthorized ==> m@ =~= "Unauthorized: Only issuer authority can perform this action"@,
            self == AcademyError::InvalidLevel ==> m@ =~= "Invalid level: Must be 1 (Beginner), 2 (Intermediate), or 3 (Advanced)"@,
            self == AcademyError::CertificateExists ==> m@ =~= "Certificate already exists for this course"@,
            self == AcademyError::CertificateRevoked ==> m@ =~= "Certificate has been revoked"@,
    {
        match self {
            AcademyError::Unauthorized => "Unauthorized: Only issuer authority can perform this action",
            AcademyError::InvalidLevel => "Invalid level: Must be 1 (Beginner), 2 (Intermediate), or 3 (Advanced)",
            AcademyError::CertificateExists => "Certificate already exists for this course",
            AcademyError::CertificateRevoked => "Certificate has been revoked",
        }
    }
}

} // verus!
