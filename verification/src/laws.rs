//! The registry's laws: what holds across operations, proved once and for
//! all over the transition functions of [`crate::registry`].

use vstd::prelude::*;

use crate::derivation::lemma_certificate_seeds_injective;
use crate::derivation::spec_certificate_seeds;
use crate::errors::AcademyError;
use crate::errors::OpError;
use crate::events::CertificateBurned;
use crate::events::CertificateIssued;
use crate::events::CertificateRevoked;
use crate::events::Event;
use crate::events::IssuerAuthorityUpdated;
use crate::records::Certificate;
use crate::records::CertificateInfo;
use crate::records::ProgramConfig;
use crate::records::valid_level;
use crate::registry::RegistryView;
use crate::registry::cert_index;
use crate::registry::cert_lookup;
use crate::registry::cert_matches;
use crate::registry::has_cert;
use crate::registry::lemma_burn_preserves_wf;
use crate::registry::lemma_cert_index_unique;
use crate::registry::lemma_issue_preserves_wf;
use crate::registry::lemma_remove_only_match;
use crate::registry::lemma_revoke_preserves_wf;
use crate::registry::spec_burn;
use crate::registry::spec_get_info;
use crate::registry::spec_initialize;
use crate::registry::spec_issue;
use crate::registry::spec_revoke;
use crate::registry::spec_update_authority;
use crate::registry::spec_verify;

verus! {

/// In a well-formed registry any two live records build distinct seed
/// lists, so the host's deterministic derivation keeps them in distinct
/// storage slots.
pub proof fn lemma_records_occupy_distinct_slots(s: RegistryView)
    requires
        s.wf(),
    ensures
        forall|i: int, j: int| #![trigger s.certs[i], s.certs[j]]
            0 <= i < s.certs.len() && 0 <= j < s.certs.len() && i != j
            ==> spec_certificate_seeds(s.certs[i].owner@, s.certs[i].course_id)
                != spec_certificate_seeds(s.certs[j].owner@, s.certs[j].course_id),
{
    assert forall|i: int, j: int| #![trigger s.certs[i], s.certs[j]]
        0 <= i < s.certs.len() && 0 <= j < s.certs.len() && i != j
        implies spec_certificate_seeds(s.certs[i].owner@, s.certs[i].course_id)
            != spec_certificate_seeds(s.certs[j].owner@, s.certs[j].course_id) by {
        if spec_certificate_seeds(s.certs[i].owner@, s.certs[i].course_id)
            == spec_certificate_seeds(s.certs[j].owner@, s.certs[j].course_id) {
            lemma_certificate_seeds_injective(
                s.certs[i].owner@, s.certs[i].course_id,
                s.certs[j].owner@, s.certs[j].course_id,
            );
        }
    }
}

/// After a successful issue, reading the pair back returns exactly the
/// issued record: the recipient as owner, the course, the level, the
/// caller — the authority at issue time — as issuer, the clock reading as
/// issuance time, and no revocation.
pub proof fn lemma_issue_then_get_info(
    s: RegistryView,
    caller: [u8; 32],
    user: [u8; 32],
    course_id: u64,
    level: u8,
    now: i64,
    bump: u8,
)
    requires
        s.wf(),
        spec_issue(s, caller, user, course_id, level, now, bump).1 == Ok::<(), OpError>(()),
    ensures
        spec_get_info(spec_issue(s, caller, user, course_id, level, now, bump).0, user, course_id)
            == Ok::<CertificateInfo, OpError>(CertificateInfo {
                owner: user,
                course_id,
                level,
                issued_at: now,
                issuer: caller,
                is_revoked: false,
            }),
{
    let s1 = spec_issue(s, caller, user, course_id, level, now, bump).0;
    let cert = Certificate {
        owner: user,
        course_id,
        level,
        issued_at: now,
        issuer: caller,
        bump,
        is_revoked: false,
    };
    let n = s.certs.len() as int;
    assert(s1.certs == s.certs.push(cert));
    assert(cert_matches(s1.certs[n], user@, course_id));
    lemma_issue_preserves_wf(s, caller, user, course_id, level, now, bump);
    lemma_cert_index_unique(s1.certs, user@, course_id, n);
}

/// A second issue for the same pair fails with `CertificateExists` and
/// changes nothing, even under the same authority with a valid level.
pub proof fn lemma_reissue_rejected(
    s: RegistryView,
    caller: [u8; 32],
    user: [u8; 32],
    course_id: u64,
    level: u8,
    now: i64,
    bump: u8,
    level2: u8,
    now2: i64,
    bump2: u8,
)
    requires
        s.wf(),
        spec_issue(s, caller, user, course_id, level, now, bump).1 == Ok::<(), OpError>(()),
        valid_level(level2),
    ensures
        spec_issue(
            spec_issue(s, caller, user, course_id, level, now, bump).0,
            caller, user, course_id, level2, now2, bump2,
        ) == (
            spec_issue(s, caller, user, course_id, level, now, bump).0,
            Err::<(), OpError>(OpError::Academy(AcademyError::CertificateExists)),
        ),
{
    let s1 = spec_issue(s, caller, user, course_id, level, now, bump).0;
    let n = s.certs.len() as int;
    assert(cert_matches(s1.certs[n], user@, course_id));
    assert(has_cert(s1.certs, user@, course_id));
}

/// An issue whose level lies outside the domain fails with `InvalidLevel`
/// and creates no record.
pub proof fn lemma_invalid_level_rejected(
    s: RegistryView,
    caller: [u8; 32],
    user: [u8; 32],
    course_id: u64,
    level: u8,
    now: i64,
    bump: u8,
)
    requires
        s.config is Some,
        s.config->Some_0.issuer_authority@ == caller@,
        !valid_level(level),
    ensures
        spec_issue(s, caller, user, course_id, level, now, bump)
            == (s, Err::<(), OpError>(OpError::Academy(AcademyError::InvalidLevel))),
{
}

/// An issue by a signer other than the current issuer authority fails with
/// `Unauthorized` and changes nothing.
pub proof fn lemma_unauthorized_issue_rejected(
    s: RegistryView,
    caller: [u8; 32],
    user: [u8; 32],
    course_id: u64,
    level: u8,
    now: i64,
    bump: u8,
)
    requires
        s.config is Some,
        s.config->Some_0.issuer_authority@ != caller@,
    ensures
        spec_issue(s, caller, user, course_id, level, now, bump)
            == (s, Err::<(), OpError>(OpError::Academy(AcademyError::Unauthorized))),
{
}

/// A revoke of an existing certificate by a signer other than the current
/// issuer authority fails with `Unauthorized` and changes nothing.
pub proof fn lemma_unauthorized_revoke_rejected(
    s: RegistryView,
    caller: [u8; 32],
    user: [u8; 32],
    course_id: u64,
)
    requires
        has_cert(s.certs, user@, course_id),
        s.config is Some,
        s.config->Some_0.issuer_authority@ != caller@,
    ensures
        spec_revoke(s, caller, user, course_id)
            == (s, Err::<(), OpError>(OpError::Academy(AcademyError::Unauthorized))),
{
}

/// A burn of an existing certificate by a signer other than its owner
/// fails with `Unauthorized` and changes nothing.
pub proof fn lemma_unauthorized_burn_rejected(
    s: RegistryView,
    caller: [u8; 32],
    user: [u8; 32],
    course_id: u64,
)
    requires
        has_cert(s.certs, user@, course_id),
        caller@ != user@,
    ensures
        spec_burn(s, caller, user, course_id)
            == (s, Err::<(), OpError>(OpError::Academy(AcademyError::Unauthorized))),
{
    let i = cert_index(s.certs, user@, course_id);
    assert(cert_matches(s.certs[i], user@, course_id));
}

/// After a revoke commits, verification of the pair returns `false`.
pub proof fn lemma_revoke_then_verify(
    s: RegistryView,
    caller: [u8; 32],
    user: [u8; 32],
    course_id: u64,
)
    requires
        s.wf(),
        spec_revoke(s, caller, user, course_id).1 == Ok::<(), OpError>(()),
    ensures
        spec_verify(spec_revoke(s, caller, user, course_id).0, user, course_id)
            == Ok::<bool, OpError>(false),
{
    let s1 = spec_revoke(s, caller, user, course_id).0;
    let i = cert_index(s.certs, user@, course_id);
    assert(cert_matches(s1.certs[i], user@, course_id));
    lemma_revoke_preserves_wf(s, caller, user, course_id);
    lemma_cert_index_unique(s1.certs, user@, course_id, i);
}

/// Verification of an existing, unrevoked certificate returns `true`.
pub proof fn lemma_verify_active(s: RegistryView, user: [u8; 32], course_id: u64)
    requires
        has_cert(s.certs, user@, course_id),
        !cert_lookup(s.certs, user@, course_id).is_revoked,
    ensures
        spec_verify(s, user, course_id) == Ok::<bool, OpError>(true),
{
}

/// After a burn commits, the pair's record no longer resolves, and an
/// issue for the same pair can succeed again.
pub proof fn lemma_burn_frees_slot(
    s: RegistryView,
    caller: [u8; 32],
    user: [u8; 32],
    course_id: u64,
    caller2: [u8; 32],
    level2: u8,
    now2: i64,
    bump2: u8,
)
    requires
        s.wf(),
        spec_burn(s, caller, user, course_id).1 == Ok::<(), OpError>(()),
        s.config is Some,
        s.config->Some_0.issuer_authority@ == caller2@,
        valid_level(level2),
    ensures
        spec_get_info(spec_burn(s, caller, user, course_id).0, user, course_id)
            == Err::<CertificateInfo, OpError>(OpError::RecordNotFound),
        spec_issue(spec_burn(s, caller, user, course_id).0, caller2, user, course_id, level2, now2, bump2).1
            == Ok::<(), OpError>(()),
{
    let s1 = spec_burn(s, caller, user, course_id).0;
    let i = cert_index(s.certs, user@, course_id);
    assert(cert_matches(s.certs[i], user@, course_id));
    lemma_remove_only_match(s.certs, user@, course_id, i);
    assert(s1.certs == s.certs.remove(i));
}

/// After an authority rotation, the new authority can issue and the old
/// one — when it differs from the new one — is rejected as unauthorized.
pub proof fn lemma_rotation_governs_issue(
    s: RegistryView,
    caller: [u8; 32],
    new_authority: [u8; 32],
    user: [u8; 32],
    course_id: u64,
    level: u8,
    now: i64,
    bump: u8,
)
    requires
        s.wf(),
        spec_update_authority(s, caller, new_authority).1 == Ok::<(), OpError>(()),
        valid_level(level),
        !has_cert(s.certs, user@, course_id),
    ensures
        spec_issue(
            spec_update_authority(s, caller, new_authority).0,
            new_authority, user, course_id, level, now, bump,
        ).1 == Ok::<(), OpError>(()),
        caller@ != new_authority@ ==> spec_issue(
            spec_update_authority(s, caller, new_authority).0,
            caller, user, course_id, level, now, bump,
        ).1 == Err::<(), OpError>(OpError::Academy(AcademyError::Unauthorized)),
{
}

/// Authority rotation leaves every certificate record — in particular its
/// historical `issuer` field — untouched.
pub proof fn lemma_rotation_keeps_certificates(s: RegistryView, caller: [u8; 32], new_authority: [u8; 32])
    ensures
        spec_update_authority(s, caller, new_authority).0.certs == s.certs,
        forall|i: int| 0 <= i < s.certs.len()
            ==> #[trigger] spec_update_authority(s, caller, new_authority).0.certs[i].issuer
                == s.certs[i].issuer,
{
}

/// A committed issue appends exactly one `CertificateIssued` event, whose
/// fields equal the stored record's.
pub proof fn lemma_issue_event(
    s: RegistryView,
    caller: [u8; 32],
    user: [u8; 32],
    course_id: u64,
    level: u8,
    now: i64,
    bump: u8,
)
    requires
        spec_issue(s, caller, user, course_id, level, now, bump).1 == Ok::<(), OpError>(()),
    ensures
        ({
            let s1 = spec_issue(s, caller, user, course_id, level, now, bump).0;
            let cert = s1.certs.last();
            &&& s1.certs.len() == s.certs.len() + 1
            &&& s1.events == s.events.push(Event::Issued(CertificateIssued {
                user: cert.owner,
                course_id: cert.course_id,
                level: cert.level,
                issued_at: cert.issued_at,
            }))
        }),
{
}

/// A committed revoke appends exactly one `CertificateRevoked` event, whose
/// fields equal the record's final state, and the record reads as revoked.
pub proof fn lemma_revoke_event(
    s: RegistryView,
    caller: [u8; 32],
    user: [u8; 32],
    course_id: u64,
)
    requires
        s.wf(),
        spec_revoke(s, caller, user, course_id).1 == Ok::<(), OpError>(()),
    ensures
        ({
            let s1 = spec_revoke(s, caller, user, course_id).0;
            let cert = cert_lookup(s1.certs, user@, course_id);
            &&& cert.is_revoked
            &&& s1.events == s.events.push(Event::Revoked(CertificateRevoked {
                user: cert.owner,
                course_id: cert.course_id,
            }))
        }),
{
    let s1 = spec_revoke(s, caller, user, course_id).0;
    let i = cert_index(s.certs, user@, course_id);
    assert(cert_matches(s1.certs[i], user@, course_id));
    lemma_revoke_preserves_wf(s, caller, user, course_id);
    lemma_cert_index_unique(s1.certs, user@, course_id, i);
}

/// A committed burn appends exactly one `CertificateBurned` event carrying
/// the destroyed record's final state, and removes exactly that record.
pub proof fn lemma_burn_event(s: RegistryView, caller: [u8; 32], user: [u8; 32], course_id: u64)
    requires
        s.wf(),
        spec_burn(s, caller, user, course_id).1 == Ok::<(), OpError>(()),
    ensures
        ({
            let s1 = spec_burn(s, caller, user, course_id).0;
            let cert = cert_lookup(s.certs, user@, course_id);
            &&& s1.certs.len() + 1 == s.certs.len()
            &&& s1.events == s.events.push(Event::Burned(CertificateBurned {
                user: cert.owner,
                course_id: cert.course_id,
            }))
        }),
{
}

/// A committed authority rotation appends exactly one
/// `IssuerAuthorityUpdated` event naming the outgoing and incoming
/// authorities, and the configuration then names the incoming one.
pub proof fn lemma_rotation_event(s: RegistryView, caller: [u8; 32], new_authority: [u8; 32])
    requires
        spec_update_authority(s, caller, new_authority).1 == Ok::<(), OpError>(()),
    ensures
        ({
            let s1 = spec_update_authority(s, caller, new_authority).0;
            &&& s1.config == Some(ProgramConfig {
                issuer_authority: new_authority,
                bump: s.config->Some_0.bump,
                total_issued: s.config->Some_0.total_issued,
            })
            &&& s1.events == s.events.push(Event::AuthorityUpdated(IssuerAuthorityUpdated {
                old_authority: s.config->Some_0.issuer_authority,
                new_authority,
            }))
        }),
{
}

/// A rejected write aborts without observable effect: no state change and
/// no phantom event, whichever operation failed.
pub proof fn lemma_aborted_write_changes_nothing(
    s: RegistryView,
    caller: [u8; 32],
    user: [u8; 32],
    course_id: u64,
    level: u8,
    now: i64,
    bump: u8,
    new_authority: [u8; 32],
)
    ensures
        spec_initialize(s, caller, bump).1 is Err ==> spec_initialize(s, caller, bump).0 == s,
        spec_issue(s, caller, user, course_id, level, now, bump).1 is Err
            ==> spec_issue(s, caller, user, course_id, level, now, bump).0 == s,
        spec_revoke(s, caller, user, course_id).1 is Err
            ==> spec_revoke(s, caller, user, course_id).0 == s,
        spec_burn(s, caller, user, course_id).1 is Err
            ==> spec_burn(s, caller, user, course_id).0 == s,
        spec_update_authority(s, caller, new_authority).1 is Err
            ==> spec_update_authority(s, caller, new_authority).0 == s,
{
}

} // verus!
