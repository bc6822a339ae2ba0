//! The certificate registry: the configuration record, the certificate
//! store, and the event stream, with the six operations that act on them.
//!
//! The host ledger is modelled as the in-memory store inside [`Registry`]:
//! a record "exists" when the store holds an entry for its `(owner,
//! course_id)` pair, and "address resolution fails" when it does not.  The
//! host-supplied inputs that the chain would provide — the authenticated
//! caller, the clock reading, and the address-derivation bump — come in as
//! plain arguments.  Each operation's contract is the transition function
//! `spec_*` it implements, stated over the registry's abstract view.

use vstd::prelude::*;

use crate::errors::AcademyError;
use crate::errors::OpError;
use crate::events::CertificateBurned;
use crate::events::CertificateIssued;
use crate::events::CertificateRevoked;
use crate::events::Event;
use crate::events::IssuerAuthorityUpdated;
use crate::records::Certificate;
use crate::records::CertificateInfo;
use crate::records::ProgramConfig;
use crate::records::id_eq;
use crate::records::valid_level;

verus! {

/// The abstract state of a registry: the configuration record if it has
/// been created, the live certificate records, and the event stream.
#[verifier::ext_equal]
pub struct RegistryView {
    pub config: Option<ProgramConfig>,
    pub certs: Seq<Certificate>,
    pub events: Seq<Event>,
}

/// True when `cert` is the record of the `(owner, course_id)` pair.
pub open spec fn cert_matches(cert: Certificate, owner: Seq<u8>, course_id: u64) -> bool {
    cert.owner@ == owner && cert.course_id == course_id
}

/// True when a record for `(owner, course_id)` exists, i.e. its derived
/// address resolves.
pub open spec fn has_cert(certs: Seq<Certificate>, owner: Seq<u8>, course_id: u64) -> bool {
    exists|i: int| 0 <= i < certs.len() && cert_matches(certs[i], owner, course_id)
}

/// The position of the record of `(owner, course_id)`; meaningful when
/// `has_cert` holds.
pub open spec fn cert_index(certs: Seq<Certificate>, owner: Seq<u8>, course_id: u64) -> int {
    choose|i: int| 0 <= i < certs.len() && cert_matches(certs[i], owner, course_id)
}

/// The record of `(owner, course_id)`; meaningful when `has_cert` holds.
pub open spec fn cert_lookup(certs: Seq<Certificate>, owner: Seq<u8>, course_id: u64) -> Certificate {
    certs[cert_index(certs, owner, course_id)]
}

/// At most one record per `(owner, course_id)` pair: the storage layer
/// refuses a second allocation at the same derived address.
pub open spec fn unique_keys(certs: Seq<Certificate>) -> bool {
    forall|i: int, j: int| #![trigger certs[i], certs[j]]
        0 <= i < certs.len() && 0 <= j < certs.len() && i != j
        ==> !(certs[i].owner@ == certs[j].owner@ && certs[i].course_id == certs[j].course_id)
}

/// Every stored level lies in the published domain.
pub open spec fn levels_valid(certs: Seq<Certificate>) -> bool {
    forall|i: int| 0 <= i < certs.len() ==> valid_level(#[trigger] certs[i].level)
}

impl RegistryView {
    /// The registry's invariant.
    pub open spec fn wf(self) -> bool {
        unique_keys(self.certs) && levels_valid(self.certs)
    }
}

/// Creates the singleton configuration record.  Fails when it already
/// exists; the bootstrap emits no event.
pub open spec fn spec_initialize(s: RegistryView, issuer_authority: [u8; 32], bump: u8) -> (RegistryView, Result<(), OpError>) {
    if s.config is Some {
        (s, Err(OpError::AlreadyInitialized))
    } else {
        (
            RegistryView {
                config: Some(ProgramConfig { issuer_authority, bump, total_issued: 0 }),
                ..s
            },
            Ok(()),
        )
    }
}

/// Issues the certificate of `(user, course_id)`.  The caller must be the
/// current issuer authority, the level must lie in the domain, and the
/// record must not exist yet; exactly one `CertificateIssued` event is
/// appended on success.
pub open spec fn spec_issue(
    s: RegistryView,
    caller: [u8; 32],
    user: [u8; 32],
    course_id: u64,
    level: u8,
    now: i64,
    bump: u8,
) -> (RegistryView, Result<(), OpError>) {
    match s.config {
        None => (s, Err(OpError::RecordNotFound)),
        Some(config) => {
            if config.issuer_authority@ != caller@ {
                (s, Err(OpError::Academy(AcademyError::Unauthorized)))
            } else if !valid_level(level) {
                (s, Err(OpError::Academy(AcademyError::InvalidLevel)))
            } else if has_cert(s.certs, user@, course_id) {
                (s, Err(OpError::Academy(AcademyError::CertificateExists)))
            } else {
                let cert = Certificate {
                    owner: user,
                    course_id,
                    level,
                    issued_at: now,
                    issuer: caller,
                    bump,
                    is_revoked: false,
                };
                let ev = Event::Issued(CertificateIssued { user, course_id, level, issued_at: now });
                (
                    RegistryView { certs: s.certs.push(cert), events: s.events.push(ev), ..s },
                    Ok(()),
                )
            }
        }
    }
}

/// Whether the certificate of `(user, course_id)` exists and has not been
/// revoked.  Fails at address resolution when the record is absent.
pub open spec fn spec_verify(s: RegistryView, user: [u8; 32], course_id: u64) -> Result<bool, OpError> {
    if has_cert(s.certs, user@, course_id) {
        Ok(!cert_lookup(s.certs, user@, course_id).is_revoked)
    } else {
        Err(OpError::RecordNotFound)
    }
}

/// Revokes the certificate of `(user, course_id)`.  The caller must be the
/// current issuer authority.  Re-revoking an already revoked certificate is
/// accepted and appends a duplicate event.
pub open spec fn spec_revoke(
    s: RegistryView,
    caller: [u8; 32],
    user: [u8; 32],
    course_id: u64,
) -> (RegistryView, Result<(), OpError>) {
    if !has_cert(s.certs, user@, course_id) {
        (s, Err(OpError::RecordNotFound))
    } else {
        match s.config {
            None => (s, Err(OpError::RecordNotFound)),
            Some(config) => {
                if config.issuer_authority@ != caller@ {
                    (s, Err(OpError::Academy(AcademyError::Unauthorized)))
                } else {
                    let i = cert_index(s.certs, user@, course_id);
                    let cert = s.certs[i];
                    let ev = Event::Revoked(CertificateRevoked {
                        user: cert.owner,
                        course_id: cert.course_id,
                    });
                    (
                        RegistryView {
                            certs: s.certs.update(i, Certificate { is_revoked: true, ..cert }),
                            events: s.events.push(ev),
                            ..s
                        },
                        Ok(()),
                    )
                }
            }
        }
    }
}

/// Burns the certificate of `(user, course_id)`: destroys the record, so
/// its address becomes available again.  The caller must be the owner; the
/// event is appended with the record's final state.
pub open spec fn spec_burn(
    s: RegistryView,
    caller: [u8; 32],
    user: [u8; 32],
    course_id: u64,
) -> (RegistryView, Result<(), OpError>) {
    if !has_cert(s.certs, user@, course_id) {
        (s, Err(OpError::RecordNotFound))
    } else {
        let i = cert_index(s.certs, user@, course_id);
        let cert = s.certs[i];
        if cert.owner@ != caller@ {
            (s, Err(OpError::Academy(AcademyError::Unauthorized)))
        } else {
            let ev = Event::Burned(CertificateBurned { user: cert.owner, course_id: cert.course_id });
            (
                RegistryView { certs: s.certs.remove(i), events: s.events.push(ev), ..s },
                Ok(()),
            )
        }
    }
}

/// Replaces the issuer authority.  The caller must be the current
/// authority; certificates, including their `issuer` fields, are untouched.
pub open spec fn spec_update_authority(
    s: RegistryView,
    caller: [u8; 32],
    new_authority: [u8; 32],
) -> (RegistryView, Result<(), OpError>) {
    match s.config {
        None => (s, Err(OpError::RecordNotFound)),
        Some(config) => {
            if config.issuer_authority@ != caller@ {
                (s, Err(OpError::Academy(AcademyError::Unauthorized)))
            } else {
                let ev = Event::AuthorityUpdated(IssuerAuthorityUpdated {
                    old_authority: config.issuer_authority,
                    new_authority,
                });
                (
                    RegistryView {
                        config: Some(ProgramConfig { issuer_authority: new_authority, ..config }),
                        events: s.events.push(ev),
                        ..s
                    },
                    Ok(()),
                )
            }
        }
    }
}

/// The read-only projection of the certificate of `(user, course_id)`.
/// Fails at address resolution when the record is absent.
pub open spec fn spec_get_info(s: RegistryView, user: [u8; 32], course_id: u64) -> Result<CertificateInfo, OpError> {
    if has_cert(s.certs, user@, course_id) {
        Ok(cert_lookup(s.certs, user@, course_id).spec_info())
    } else {
        Err(OpError::RecordNotFound)
    }
}

/// Any position holding the record of `(owner, course_id)` is the one
/// `cert_index` names.
pub proof fn lemma_cert_index_unique(certs: Seq<Certificate>, owner: Seq<u8>, course_id: u64, i: int)
    requires
        unique_keys(certs),
        0 <= i < certs.len(),
        cert_matches(certs[i], owner, course_id),
    ensures
        has_cert(certs, owner, course_id),
        cert_index(certs, owner, course_id) == i,
        cert_lookup(certs, owner, course_id) == certs[i],
{
    assert(has_cert(certs, owner, course_id)) by {
        assert(0 <= i < certs.len() && cert_matches(certs[i], owner, course_id));
    }
    let j = cert_index(certs, owner, course_id);
    assert(0 <= j < certs.len() && cert_matches(certs[j], owner, course_id));
    if i != j {
        assert(certs[i].owner@ == certs[j].owner@ && certs[i].course_id == certs[j].course_id);
        assert(false);
    }
}

/// Removing the record of `(owner, course_id)` leaves no record of that
/// pair behind.
pub proof fn lemma_remove_only_match(certs: Seq<Certificate>, owner: Seq<u8>, course_id: u64, i: int)
    requires
        unique_keys(certs),
        0 <= i < certs.len(),
        cert_matches(certs[i], owner, course_id),
    ensures
        !has_cert(certs.remove(i), owner, course_id),
{
    let r = certs.remove(i);
    assert forall|k: int| 0 <= k < r.len() implies !cert_matches(r[k], owner, course_id) by {
        let k0: int = if k < i { k } else { k + 1 };
        assert(r[k] == certs[k0]);
        if cert_matches(certs[k0], owner, course_id) {
            assert(certs[k0].owner@ == certs[i].owner@ && certs[k0].course_id == certs[i].course_id);
        }
    }
}

/// A successful issue keeps the invariant: the new record's pair was free
/// and its level was checked.
pub proof fn lemma_issue_preserves_wf(
    s: RegistryView,
    caller: [u8; 32],
    user: [u8; 32],
    course_id: u64,
    level: u8,
    now: i64,
    bump: u8,
)
    requires
        s.wf(),
    ensures
        spec_issue(s, caller, user, course_id, level, now, bump).0.wf(),
{
    let s1 = spec_issue(s, caller, user, course_id, level, now, bump).0;
    let n = s.certs.len() as int;
    if spec_issue(s, caller, user, course_id, level, now, bump).1 is Ok {
        assert forall|i: int, j: int| #![trigger s1.certs[i], s1.certs[j]]
            0 <= i < s1.certs.len() && 0 <= j < s1.certs.len() && i != j
            implies !(s1.certs[i].owner@ == s1.certs[j].owner@
                && s1.certs[i].course_id == s1.certs[j].course_id) by {
            if i < n && j < n {
                assert(s1.certs[i] == s.certs[i] && s1.certs[j] == s.certs[j]);
            } else {
                let k: int = if i < n { i } else { j };
                if k < n && s1.certs[i].owner@ == s1.certs[j].owner@
                    && s1.certs[i].course_id == s1.certs[j].course_id {
                    assert(cert_matches(s.certs[k], user@, course_id));
                    assert(has_cert(s.certs, user@, course_id));
                }
            }
        }
        assert(levels_valid(s1.certs)) by {
            assert forall|i: int| 0 <= i < s1.certs.len() implies valid_level(#[trigger] s1.certs[i].level) by {
                if i < n {
                    assert(s1.certs[i] == s.certs[i]);
                }
            }
        }
    }
}

/// A revoke keeps the invariant: it changes only the revocation flag.
pub proof fn lemma_revoke_preserves_wf(s: RegistryView, caller: [u8; 32], user: [u8; 32], course_id: u64)
    requires
        s.wf(),
    ensures
        spec_revoke(s, caller, user, course_id).0.wf(),
{
    let s1 = spec_revoke(s, caller, user, course_id).0;
    if spec_revoke(s, caller, user, course_id).1 is Ok {
        assert forall|i: int, j: int| #![trigger s1.certs[i], s1.certs[j]]
            0 <= i < s1.certs.len() && 0 <= j < s1.certs.len() && i != j
            implies !(s1.certs[i].owner@ == s1.certs[j].owner@
                && s1.certs[i].course_id == s1.certs[j].course_id) by {
            assert(s1.certs[i].owner@ == s.certs[i].owner@ && s1.certs[i].course_id == s.certs[i].course_id);
            assert(s1.certs[j].owner@ == s.certs[j].owner@ && s1.certs[j].course_id == s.certs[j].course_id);
        }
        assert(levels_valid(s1.certs)) by {
            assert forall|i: int| 0 <= i < s1.certs.len() implies valid_level(#[trigger] s1.certs[i].level) by {
                assert(s1.certs[i].level == s.certs[i].level);
            }
        }
    }
}

/// A burn keeps the invariant: a subsequence of distinct pairs stays
/// distinct.
pub proof fn lemma_burn_preserves_wf(s: RegistryView, caller: [u8; 32], user: [u8; 32], course_id: u64)
    requires
        s.wf(),
    ensures
        spec_burn(s, caller, user, course_id).0.wf(),
{
    let s1 = spec_burn(s, caller, user, course_id).0;
    if spec_burn(s, caller, user, course_id).1 is Ok {
        let t = cert_index(s.certs, user@, course_id);
        assert forall|i: int, j: int| #![trigger s1.certs[i], s1.certs[j]]
            0 <= i < s1.certs.len() && 0 <= j < s1.certs.len() && i != j
            implies !(s1.certs[i].owner@ == s1.certs[j].owner@
                && s1.certs[i].course_id == s1.certs[j].course_id) by {
            let i0: int = if i < t { i } else { i + 1 };
            let j0: int = if j < t { j } else { j + 1 };
            assert(s1.certs[i] == s.certs[i0] && s1.certs[j] == s.certs[j0]);
        }
        assert(levels_valid(s1.certs)) by {
            assert forall|i: int| 0 <= i < s1.certs.len() implies valid_level(#[trigger] s1.certs[i].level) by {
                let i0: int = if i < t { i } else { i + 1 };
                assert(s1.certs[i] == s.certs[i0]);
            }
        }
    }
}

/// The registry: the singleton configuration record, the certificate
/// records keyed by their derived addresses, and the append-only event
/// stream.
pub struct Registry {
    config: Option<ProgramConfig>,
    certificates: Vec<Certificate>,
    events: Vec<Event>,
}

impl View for Registry {
    type V = RegistryView;

    closed spec fn view(&self) -> RegistryView {
        RegistryView { config: self.config, certs: self.certificates@, events: self.events@ }
    }
}

impl Registry {
    /// An empty registry: no configuration, no certificates, no events.
    pub fn new() -> (r: Registry)
        ensures
            r@ == (RegistryView {
                config: None,
                certs: Seq::<Certificate>::empty(),
                events: Seq::<Event>::empty(),
            }),
            r@.wf(),
    {
        let r = Registry { config: None, certificates: Vec::new(), events: Vec::new() };
        proof {
            assert(r@ =~= RegistryView {
                config: None,
                certs: Seq::<Certificate>::empty(),
                events: Seq::<Event>::empty(),
            });
        }
        r
    }

    /// The position of the record of `(user, course_id)`, if it exists.
    fn find_cert(&self, user: &[u8; 32], course_id: u64) -> (r: Option<usize>)
        ensures
            (match r {
                Some(i) => i < self@.certs.len() && cert_matches(self@.certs[i as int], user@, course_id),
                None => !has_cert(self@.certs, user@, course_id),
            }),
    {
        let n = self.certificates.len();
        let mut i: usize = 0;
        while i < n
            invariant
                n == self.certificates@.len(),
                i <= n,
                forall|k: int| 0 <= k < i ==> !cert_matches(self.certificates@[k], user@, course_id),
            decreases n - i,
        {
            let c = self.certificates[i];
            if c.course_id == course_id && id_eq(&c.owner, user) {
                return Some(i);
            }
            i = i + 1;
        }
        None
    }

    /// Creates the singleton configuration record with the given authority.
    /// Fails with `AlreadyInitialized` when it exists; the bootstrap emits
    /// no event.
    pub fn initialize(&mut self, issuer_authority: [u8; 32], bump: u8) -> (r: Result<(), OpError>)
        requires
            old(self)@.wf(),
        ensures
            final(self)@ == spec_initialize(old(self)@, issuer_authority, bump).0,
            r == spec_initialize(old(self)@, issuer_authority, bump).1,
            final(self)@.wf(),
    {
        if self.config.is_some() {
            return Err(OpError::AlreadyInitialized);
        }
        self.config = Some(ProgramConfig { issuer_authority, bump, total_issued: 0 });
        proof {
            assert(self@ =~= spec_initialize(old(self)@, issuer_authority, bump).0);
        }
        Ok(())
    }

    /// Issues the certificate of `(user, course_id)` at the given level,
    /// stamped with the host clock reading `now` and the derivation salt
    /// `bump`.  Only the issuer authority may issue; the level must be 1, 2
    /// or 3; the pair must not hold a certificate yet.
    pub fn issue_certificate(
        &mut self,
        caller: [u8; 32],
        user: [u8; 32],
        course_id: u64,
        level: u8,
        now: i64,
        bump: u8,
    ) -> (r: Result<(), OpError>)
        requires
            old(self)@.wf(),
        ensures
            final(self)@ == spec_issue(old(self)@, caller, user, course_id, level, now, bump).0,
            r == spec_issue(old(self)@, caller, user, course_id, level, now, bump).1,
            final(self)@.wf(),
    {
        proof {
            lemma_issue_preserves_wf(old(self)@, caller, user, course_id, level, now, bump);
        }
        let authority = match &self.config {
            None => {
                return Err(OpError::RecordNotFound);
            },
            Some(config) => config.issuer_authority,
        };
        if !id_eq(&authority, &caller) {
            return Err(OpError::Academy(AcademyError::Unauthorized));
        }
        if !(1 <= level && level <= 3) {
            return Err(OpError::Academy(AcademyError::InvalidLevel));
        }
        if self.find_cert(&user, course_id).is_some() {
            return Err(OpError::Academy(AcademyError::CertificateExists));
        }
        let cert = Certificate {
            owner: user,
            course_id,
            level,
            issued_at: now,
            issuer: caller,
            bump,
            is_revoked: false,
        };
        self.certificates.push(cert);
        self.events.push(Event::Issued(CertificateIssued { user, course_id, level, issued_at: now }));
        proof {
            assert(self@ =~= spec_issue(old(self)@, caller, user, course_id, level, now, bump).0);
        }
        Ok(())
    }

    /// Whether the certificate of `(user, course_id)` exists and has not
    /// been revoked.  Read-only; fails when the record does not resolve.
    pub fn verify_certificate(&self, user: [u8; 32], course_id: u64) -> (r: Result<bool, OpError>)
        requires
            self@.wf(),
        ensures
            r == spec_verify(self@, user, course_id),
    {
        match self.find_cert(&user, course_id) {
            None => Err(OpError::RecordNotFound),
            Some(i) => {
                proof {
                    lemma_cert_index_unique(self@.certs, user@, course_id, i as int);
                }
                Ok(!self.certificates[i].is_revoked)
            },
        }
    }

    /// Revokes the certificate of `(user, course_id)`.  Only the issuer
    /// authority may revoke; revoking an already revoked certificate is
    /// accepted and appends a duplicate event.
    pub fn revoke_certificate(&mut self, caller: [u8; 32], user: [u8; 32], course_id: u64) -> (r: Result<(), OpError>)
        requires
            old(self)@.wf(),
        ensures
            final(self)@ == spec_revoke(old(self)@, caller, user, course_id).0,
            r == spec_revoke(old(self)@, caller, user, course_id).1,
            final(self)@.wf(),
    {
        proof {
            lemma_revoke_preserves_wf(old(self)@, caller, user, course_id);
        }
        let i = match self.find_cert(&user, course_id) {
            None => {
                return Err(OpError::RecordNotFound);
            },
            Some(i) => i,
        };
        proof {
            lemma_cert_index_unique(self@.certs, user@, course_id, i as int);
        }
        let authority = match &self.config {
            None => {
                return Err(OpError::RecordNotFound);
            },
            Some(config) => config.issuer_authority,
        };
        if !id_eq(&authority, &caller) {
            return Err(OpError::Academy(AcademyError::Unauthorized));
        }
        let mut cert = self.certificates[i];
        cert.is_revoked = true;
        self.certificates.set(i, cert);
        self.events.push(Event::Revoked(CertificateRevoked {
            user: cert.owner,
            course_id: cert.course_id,
        }));
        proof {
            assert(self@ =~= spec_revoke(old(self)@, caller, user, course_id).0);
        }
        Ok(())
    }

    /// Burns the certificate of `(user, course_id)`: the record is
    /// destroyed and its address becomes available again.  Only the owner
    /// may burn; the event carries the record's final state.
    pub fn burn_certificate(&mut self, caller: [u8; 32], user: [u8; 32], course_id: u64) -> (r: Result<(), OpError>)
        requires
            old(self)@.wf(),
        ensures
            final(self)@ == spec_burn(old(self)@, caller, user, course_id).0,
            r == spec_burn(old(self)@, caller, user, course_id).1,
            final(self)@.wf(),
    {
        proof {
            lemma_burn_preserves_wf(old(self)@, caller, user, course_id);
        }
        let i = match self.find_cert(&user, course_id) {
            None => {
                return Err(OpError::RecordNotFound);
            },
            Some(i) => i,
        };
        proof {
            lemma_cert_index_unique(self@.certs, user@, course_id, i as int);
        }
        let cert = self.certificates[i];
        if !id_eq(&cert.owner, &caller) {
            return Err(OpError::Academy(AcademyError::Unauthorized));
        }
        self.certificates.remove(i);
        self.events.push(Event::Burned(CertificateBurned {
            user: cert.owner,
            course_id: cert.course_id,
        }));
        proof {
            assert(self@ =~= spec_burn(old(self)@, caller, user, course_id).0);
        }
        Ok(())
    }

    /// Replaces the issuer authority.  Only the current authority may
    /// rotate; issued certificates keep their historical `issuer` field.
    pub fn update_issuer_authority(&mut self, caller: [u8; 32], new_authority: [u8; 32]) -> (r: Result<(), OpError>)
        requires
            old(self)@.wf(),
        ensures
            final(self)@ == spec_update_authority(old(self)@, caller, new_authority).0,
            r == spec_update_authority(old(self)@, caller, new_authority).1,
            final(self)@.wf(),
    {
        let config = match &self.config {
            None => {
                return Err(OpError::RecordNotFound);
            },
            Some(config) => *config,
        };
        if !id_eq(&config.issuer_authority, &caller) {
            return Err(OpError::Academy(AcademyError::Unauthorized));
        }
        self.config = Some(ProgramConfig { issuer_authority: new_authority, ..config });
        self.events.push(Event::AuthorityUpdated(IssuerAuthorityUpdated {
            old_authority: config.issuer_authority,
            new_authority,
        }));
        proof {
            assert(self@ =~= spec_update_authority(old(self)@, caller, new_authority).0);
        }
        Ok(())
    }

    /// The read-only projection of the certificate of `(user, course_id)`.
    /// Fails when the record does not resolve.
    pub fn get_certificate_info(&self, user: [u8; 32], course_id: u64) -> (r: Result<CertificateInfo, OpError>)
        requires
            self@.wf(),
        ensures
            r == spec_get_info(self@, user, course_id),
    {
        match self.find_cert(&user, course_id) {
            None => Err(OpError::RecordNotFound),
            Some(i) => {
                proof {
                    lemma_cert_index_unique(self@.certs, user@, course_id, i as int);
                }
                let cert = self.certificates[i];
                Ok(CertificateInfo {
                    owner: cert.owner,
                    course_id: cert.course_id,
                    level: cert.level,
                    issued_at: cert.issued_at,
                    issuer: cert.issuer,
                    is_revoked: cert.is_revoked,
                })
            },
        }
    }

    /// The configuration record, if it has been created.
    pub fn current_config(&self) -> (r: &Option<ProgramConfig>)
        ensures
            *r == self@.config,
    {
        &self.config
    }

    /// The event stream, oldest first.
    pub fn event_log(&self) -> (r: &Vec<Event>)
        ensures
            r@ == self@.events,
    {
        &self.events
    }

    /// How many certificate records exist.
    pub fn certificate_count(&self) -> (r: usize)
        ensures
            r == self@.certs.len(),
    {
        self.certificates.len()
    }
}

} // verus!
