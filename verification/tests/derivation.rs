use anchor_lang::prelude::Pubkey;
use tyt_academy_sbt::derivation::{
    certificate_seeds, config_seeds, derive_certificate_address, derive_config_address, program_id,
};

#[test]
fn config_seed_bytes() {
    let seeds = config_seeds();
    assert_eq!(seeds.len(), 1);
    assert_eq!(seeds[0], b"config".to_vec());
}

#[test]
fn certificate_seed_bytes() {
    let owner = [0x11u8; 32];
    let seeds = certificate_seeds(&owner, 0x0102030405060708);
    assert_eq!(seeds.len(), 3);
    assert_eq!(seeds[0], b"certificate".to_vec());
    assert_eq!(seeds[1], owner.to_vec());
    // The course id is encoded as eight little-endian bytes.
    assert_eq!(seeds[2], vec![0x08, 0x07, 0x06, 0x05, 0x04, 0x03, 0x02, 0x01]);
}

#[test]
fn derivation_is_deterministic() {
    let owner = [0x11u8; 32];
    let a = derive_certificate_address(&owner, 42).unwrap();
    let b = derive_certificate_address(&owner, 42).unwrap();
    assert_eq!(a, b);
    let c = derive_config_address().unwrap();
    let d = derive_config_address().unwrap();
    assert_eq!(c, d);
}

#[test]
fn distinct_pairs_get_distinct_addresses() {
    let owner = [0x11u8; 32];
    let other = [0x22u8; 32];
    let a = derive_certificate_address(&owner, 42).unwrap().0;
    let b = derive_certificate_address(&owner, 43).unwrap().0;
    let c = derive_certificate_address(&other, 42).unwrap().0;
    let cfg = derive_config_address().unwrap().0;
    assert_ne!(a, b);
    assert_ne!(a, c);
    assert_ne!(b, c);
    assert_ne!(a, cfg);
}

#[test]
fn derived_address_is_not_an_input() {
    // The derivation really hashes: the address equals neither the owner
    // bytes nor the program id.
    let owner = [0x11u8; 32];
    let (addr, _bump) = derive_certificate_address(&owner, 42).unwrap();
    assert_ne!(addr, owner);
    assert_ne!(addr, program_id());
}

#[test]
fn derivation_matches_the_host_algorithm() {
    // The same derivation performed directly against the host's own
    // routine, bit for bit.
    let owner = [0x11u8; 32];
    let course: u64 = 42;
    let (addr, bump) = derive_certificate_address(&owner, course).unwrap();
    let pid = Pubkey::new_from_array(program_id());
    let (expect, expect_bump) = Pubkey::try_find_program_address(
        &[b"certificate", owner.as_ref(), course.to_le_bytes().as_ref()],
        &pid,
    )
    .unwrap();
    assert_eq!(addr, expect.to_bytes());
    assert_eq!(bump, expect_bump);
}
