use tyt_academy_sbt::errors::{AcademyError, OpError};
use tyt_academy_sbt::events::Event;
use tyt_academy_sbt::registry::Registry;

fn authority() -> [u8; 32] {
    [0xAAu8; 32]
}

fn student() -> [u8; 32] {
    [0x01u8; 32]
}

fn bootstrapped() -> Registry {
    let mut r = Registry::new();
    r.initialize(authority(), 255).unwrap();
    r
}

#[test]
fn bootstrap_and_issue() {
    let mut r = bootstrapped();
    let cfg = r.current_config().unwrap();
    assert_eq!(cfg.issuer_authority, authority());
    assert_eq!(cfg.total_issued, 0);
    assert_eq!(cfg.bump, 255);

    r.issue_certificate(authority(), student(), 42, 2, 1_700_000_000, 254).unwrap();
    let info = r.get_certificate_info(student(), 42).unwrap();
    assert_eq!(info.owner, student());
    assert_eq!(info.course_id, 42);
    assert_eq!(info.level, 2);
    assert_eq!(info.issued_at, 1_700_000_000);
    assert_eq!(info.issuer, authority());
    assert!(!info.is_revoked);

    let log = r.event_log();
    assert_eq!(log.len(), 1);
    match &log[0] {
        Event::Issued(ev) => {
            assert_eq!(ev.user, student());
            assert_eq!(ev.course_id, 42);
            assert_eq!(ev.level, 2);
            assert_eq!(ev.issued_at, 1_700_000_000);
        }
        other => panic!("expected an issued event, got {:?}", other),
    }
}

#[test]
fn initialize_is_one_time() {
    let mut r = bootstrapped();
    let err = r.initialize([0xBBu8; 32], 250).unwrap_err();
    assert_eq!(err, OpError::AlreadyInitialized);
    // The original configuration is untouched.
    assert_eq!(r.current_config().unwrap().issuer_authority, authority());
    assert!(r.event_log().is_empty());
}

#[test]
fn double_issue_rejected() {
    let mut r = bootstrapped();
    r.issue_certificate(authority(), student(), 42, 2, 1_700_000_000, 254).unwrap();
    let err = r
        .issue_certificate(authority(), student(), 42, 3, 1_700_000_100, 254)
        .unwrap_err();
    assert_eq!(err, OpError::Academy(AcademyError::CertificateExists));
    // Record unchanged, no second event.
    let info = r.get_certificate_info(student(), 42).unwrap();
    assert_eq!(info.level, 2);
    assert_eq!(info.issued_at, 1_700_000_000);
    assert_eq!(r.event_log().len(), 1);
}

#[test]
fn invalid_level_rejected() {
    let mut r = bootstrapped();
    for level in [0u8, 4, 255] {
        let err = r
            .issue_certificate(authority(), student(), 7, level, 1_700_000_000, 254)
            .unwrap_err();
        assert_eq!(err, OpError::Academy(AcademyError::InvalidLevel));
    }
    // No record, no event.
    assert_eq!(
        r.get_certificate_info(student(), 7).unwrap_err(),
        OpError::RecordNotFound
    );
    assert_eq!(r.certificate_count(), 0);
    assert!(r.event_log().is_empty());
}

#[test]
fn boundary_levels_accepted() {
    let mut r = bootstrapped();
    r.issue_certificate(authority(), student(), 1, 1, 10, 254).unwrap();
    r.issue_certificate(authority(), student(), 3, 3, 10, 253).unwrap();
    assert_eq!(r.get_certificate_info(student(), 1).unwrap().level, 1);
    assert_eq!(r.get_certificate_info(student(), 3).unwrap().level, 3);
}

#[test]
fn issue_and_revoke_need_the_authority() {
    let mut r = bootstrapped();
    let imposter = [0xEEu8; 32];
    let err = r
        .issue_certificate(imposter, student(), 42, 2, 1_700_000_000, 254)
        .unwrap_err();
    assert_eq!(err, OpError::Academy(AcademyError::Unauthorized));

    r.issue_certificate(authority(), student(), 42, 2, 1_700_000_000, 254).unwrap();
    let err = r.revoke_certificate(imposter, student(), 42).unwrap_err();
    assert_eq!(err, OpError::Academy(AcademyError::Unauthorized));
    assert!(!r.get_certificate_info(student(), 42).unwrap().is_revoked);
}

#[test]
fn revoke_then_verify() {
    let mut r = bootstrapped();
    r.issue_certificate(authority(), student(), 42, 2, 1_700_000_000, 254).unwrap();
    assert_eq!(r.verify_certificate(student(), 42).unwrap(), true);

    r.revoke_certificate(authority(), student(), 42).unwrap();
    assert_eq!(r.verify_certificate(student(), 42).unwrap(), false);
    assert!(r.get_certificate_info(student(), 42).unwrap().is_revoked);

    let log = r.event_log();
    assert_eq!(log.len(), 2);
    match &log[1] {
        Event::Revoked(ev) => {
            assert_eq!(ev.user, student());
            assert_eq!(ev.course_id, 42);
        }
        other => panic!("expected a revoked event, got {:?}", other),
    }
}

#[test]
fn verify_fails_without_a_record() {
    let r = bootstrapped();
    assert_eq!(
        r.verify_certificate(student(), 42).unwrap_err(),
        OpError::RecordNotFound
    );
}

#[test]
fn re_revoke_is_idempotent_with_duplicate_event() {
    let mut r = bootstrapped();
    r.issue_certificate(authority(), student(), 42, 2, 1_700_000_000, 254).unwrap();
    r.revoke_certificate(authority(), student(), 42).unwrap();
    r.revoke_certificate(authority(), student(), 42).unwrap();
    assert!(r.get_certificate_info(student(), 42).unwrap().is_revoked);
    // One issued event plus two revoked events.
    assert_eq!(r.event_log().len(), 3);
}

#[test]
fn burn_needs_the_owner() {
    let mut r = bootstrapped();
    r.issue_certificate(authority(), student(), 42, 2, 1_700_000_000, 254).unwrap();

    let err = r.burn_certificate(authority(), student(), 42).unwrap_err();
    assert_eq!(err, OpError::Academy(AcademyError::Unauthorized));
    assert!(r.get_certificate_info(student(), 42).is_ok());

    r.burn_certificate(student(), student(), 42).unwrap();
    assert_eq!(
        r.get_certificate_info(student(), 42).unwrap_err(),
        OpError::RecordNotFound
    );
    let log = r.event_log();
    assert_eq!(log.len(), 2);
    match &log[1] {
        Event::Burned(ev) => {
            assert_eq!(ev.user, student());
            assert_eq!(ev.course_id, 42);
        }
        other => panic!("expected a burned event, got {:?}", other),
    }
}

#[test]
fn burn_frees_the_pair_for_reissue() {
    let mut r = bootstrapped();
    r.issue_certificate(authority(), student(), 42, 2, 1_700_000_000, 254).unwrap();
    r.burn_certificate(student(), student(), 42).unwrap();
    // The address is free again: a fresh issue succeeds.
    r.issue_certificate(authority(), student(), 42, 1, 1_700_000_500, 254).unwrap();
    let info = r.get_certificate_info(student(), 42).unwrap();
    assert_eq!(info.level, 1);
    assert_eq!(info.issued_at, 1_700_000_500);
}

#[test]
fn burn_a_revoked_certificate() {
    let mut r = bootstrapped();
    r.issue_certificate(authority(), student(), 42, 2, 1_700_000_000, 254).unwrap();
    r.revoke_certificate(authority(), student(), 42).unwrap();
    r.burn_certificate(student(), student(), 42).unwrap();
    assert_eq!(r.certificate_count(), 0);
}

#[test]
fn authority_rotation() {
    let mut r = bootstrapped();
    r.issue_certificate(authority(), student(), 42, 2, 1_700_000_000, 254).unwrap();

    let new_authority = [0xBBu8; 32];
    let err = r
        .update_issuer_authority(new_authority, new_authority)
        .unwrap_err();
    assert_eq!(err, OpError::Academy(AcademyError::Unauthorized));

    r.update_issuer_authority(authority(), new_authority).unwrap();
    assert_eq!(r.current_config().unwrap().issuer_authority, new_authority);

    // The old authority is rejected, the new one may issue.
    let err = r
        .issue_certificate(authority(), student(), 43, 1, 1_700_001_000, 253)
        .unwrap_err();
    assert_eq!(err, OpError::Academy(AcademyError::Unauthorized));
    r.issue_certificate(new_authority, student(), 43, 1, 1_700_001_000, 253).unwrap();

    // Historical issuer fields are untouched; the new record names the new
    // authority.
    assert_eq!(r.get_certificate_info(student(), 42).unwrap().issuer, authority());
    assert_eq!(r.get_certificate_info(student(), 43).unwrap().issuer, new_authority);

    match r.event_log().last().unwrap() {
        Event::Issued(_) => {}
        other => panic!("expected an issued event, got {:?}", other),
    }
    match &r.event_log()[1] {
        Event::AuthorityUpdated(ev) => {
            assert_eq!(ev.old_authority, authority());
            assert_eq!(ev.new_authority, new_authority);
        }
        other => panic!("expected an authority update event, got {:?}", other),
    }
}

#[test]
fn operations_without_config_fail() {
    let mut r = Registry::new();
    assert_eq!(
        r.issue_certificate(authority(), student(), 1, 1, 0, 254).unwrap_err(),
        OpError::RecordNotFound
    );
    assert_eq!(
        r.update_issuer_authority(authority(), [0u8; 32]).unwrap_err(),
        OpError::RecordNotFound
    );
}

#[test]
fn distinct_pairs_are_independent() {
    let mut r = bootstrapped();
    let other = [0x02u8; 32];
    r.issue_certificate(authority(), student(), 42, 2, 100, 254).unwrap();
    r.issue_certificate(authority(), other, 42, 3, 101, 253).unwrap();
    r.issue_certificate(authority(), student(), 43, 1, 102, 252).unwrap();
    assert_eq!(r.certificate_count(), 3);

    r.revoke_certificate(authority(), student(), 42).unwrap();
    assert_eq!(r.verify_certificate(other, 42).unwrap(), true);
    assert_eq!(r.verify_certificate(student(), 43).unwrap(), true);
    assert_eq!(r.verify_certificate(student(), 42).unwrap(), false);

    r.burn_certificate(other, other, 42).unwrap();
    assert_eq!(r.certificate_count(), 2);
    assert!(r.get_certificate_info(student(), 42).is_ok());
    assert!(r.get_certificate_info(student(), 43).is_ok());
}

#[test]
fn failed_writes_leave_no_event() {
    let mut r = bootstrapped();
    let imposter = [0xEEu8; 32];
    let _ = r.issue_certificate(imposter, student(), 42, 2, 0, 254);
    let _ = r.issue_certificate(authority(), student(), 7, 9, 0, 254);
    let _ = r.revoke_certificate(authority(), student(), 42);
    let _ = r.burn_certificate(student(), student(), 42);
    let _ = r.update_issuer_authority(imposter, imposter);
    assert!(r.event_log().is_empty());
    assert_eq!(r.certificate_count(), 0);
}
