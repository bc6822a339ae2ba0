use tyt_academy_sbt::codec::{
    decode_certificate, decode_config, encode_certificate, encode_config, CERTIFICATE_WIRE_LEN,
    CONFIG_WIRE_LEN,
};
use tyt_academy_sbt::records::{Certificate, ProgramConfig};

fn sample() -> Certificate {
    Certificate {
        owner: [0x11u8; 32],
        course_id: 42,
        level: 2,
        issued_at: 1_700_000_000,
        issuer: [0xAAu8; 32],
        bump: 254,
        is_revoked: false,
    }
}

#[test]
fn certificate_wire_layout_is_exact() {
    let bytes = encode_certificate(&sample());
    assert_eq!(bytes.len(), CERTIFICATE_WIRE_LEN);
    assert_eq!(&bytes[0..32], &[0x11u8; 32]);
    assert_eq!(&bytes[32..40], &[42, 0, 0, 0, 0, 0, 0, 0]);
    assert_eq!(bytes[40], 2);
    // 1_700_000_000 = 0x6553_F100, little-endian.
    assert_eq!(&bytes[41..49], &[0x00, 0xF1, 0x53, 0x65, 0, 0, 0, 0]);
    assert_eq!(&bytes[49..81], &[0xAAu8; 32]);
    assert_eq!(bytes[81], 254);
    assert_eq!(bytes[82], 0);
}

#[test]
fn certificate_round_trips() {
    let cert = sample();
    let decoded = decode_certificate(&encode_certificate(&cert)).unwrap();
    assert_eq!(decoded, cert);

    let revoked = Certificate { is_revoked: true, ..cert };
    let bytes = encode_certificate(&revoked);
    assert_eq!(bytes[82], 1);
    assert_eq!(decode_certificate(&bytes).unwrap(), revoked);
}

#[test]
fn negative_timestamp_round_trips() {
    let cert = Certificate { issued_at: -1, ..sample() };
    let bytes = encode_certificate(&cert);
    // Two's complement of -1: all ones.
    assert_eq!(&bytes[41..49], &[0xFFu8; 8]);
    assert_eq!(decode_certificate(&bytes).unwrap().issued_at, -1);
}

#[test]
fn certificate_decode_rejects_bad_buffers() {
    let bytes = encode_certificate(&sample());
    assert!(decode_certificate(&bytes[..82]).is_none());
    let mut long = bytes.clone();
    long.push(0);
    assert!(decode_certificate(&long).is_none());
    let mut bad_bool = bytes.clone();
    bad_bool[82] = 7;
    assert!(decode_certificate(&bad_bool).is_none());
}

#[test]
fn config_wire_layout_is_exact() {
    let cfg = ProgramConfig { issuer_authority: [0xAAu8; 32], bump: 255, total_issued: 7 };
    let bytes = encode_config(&cfg);
    assert_eq!(bytes.len(), CONFIG_WIRE_LEN);
    assert_eq!(&bytes[0..32], &[0xAAu8; 32]);
    assert_eq!(bytes[32], 255);
    assert_eq!(&bytes[33..41], &[7, 0, 0, 0, 0, 0, 0, 0]);
}

#[test]
fn config_round_trips() {
    let cfg = ProgramConfig { issuer_authority: [0x42u8; 32], bump: 253, total_issued: 0 };
    assert_eq!(decode_config(&encode_config(&cfg)).unwrap(), cfg);
    assert!(decode_config(&encode_config(&cfg)[..40]).is_none());
}
