//! The on-wire layout of the persistent records, with the field order fixed
//! for compatibility.
//!
//! A certificate record is laid out as `owner (32)` ‖ `course_id (u64 LE,
//! 8)` ‖ `level (u8, 1)` ‖ `issued_at (i64 LE, 8)` ‖ `issuer (32)` ‖
//! `bump (u8, 1)` ‖ `is_revoked (u8, 1)`; the configuration record as
//! `issuer_authority (32)` ‖ `bump (u8, 1)` ‖ `total_issued (u64 LE, 8)`.
//! The host prepends its own eight-byte record discriminator; that prefix
//! is the host's and is not part of these layouts.

use vstd::prelude::*;

use crate::records::Certificate;
use crate::records::ProgramConfig;

verus! {

/// Encoded size of a certificate record, without the host's prefix.
pub const CERTIFICATE_WIRE_LEN: usize = 83;

/// Encoded size of the configuration record, without the host's prefix.
pub const CONFIG_WIRE_LEN: usize = 41;

/// A signed count of seconds, as eight little-endian bytes of its two's
/// complement.
pub open spec fn spec_i64_to_le_bytes(x: i64) -> Seq<u8> {
    vstd::bytes::spec_u64_to_le_bytes(x as u64)
}

/// The single wire byte of a boolean.
pub open spec fn bool_byte(b: bool) -> u8 {
    if b {
        1u8
    } else {
        0u8
    }
}

/// The exact wire image of a certificate record.
pub open spec fn spec_encode_certificate(c: Certificate) -> Seq<u8> {
    c.owner@ + vstd::bytes::spec_u64_to_le_bytes(c.course_id) + seq![c.level]
        + spec_i64_to_le_bytes(c.issued_at) + c.issuer@ + seq![c.bump]
        + seq![bool_byte(c.is_revoked)]
}

/// The exact wire image of the configuration record.
pub open spec fn spec_encode_config(c: ProgramConfig) -> Seq<u8> {
    c.issuer_authority@ + seq![c.bump] + vstd::bytes::spec_u64_to_le_bytes(c.total_issued)
}

/// Appends a byte slice to a buffer.
fn extend_bytes(out: &mut Vec<u8>, bytes: &[u8])
    ensures
        final(out)@ == old(out)@ + bytes@,
{
    let n = bytes.len();
    let mut i: usize = 0;
    while i < n
        invariant
            n == bytes@.len(),
            i <= n,
            out@ == old(out)@ + bytes@.subrange(0, i as int),
        decreases n - i,
    {
        out.push(bytes[i]);
        proof {
            assert(bytes@.subrange(0, i + 1) =~= bytes@.subrange(0, i as int).push(bytes@[i as int]));
        }
        i = i + 1;
    }
    proof {
        assert(bytes@.subrange(0, n as int) =~= bytes@);
    }
}

/// Reads a 32-byte identity out of a buffer.
fn read_id(bytes: &[u8], start: usize) -> (r: [u8; 32])
    requires
        start + 32 <= bytes@.len(),
    ensures
        r@ == bytes@.subrange(start as int, start as int + 32),
{
    let n = bytes.len();
    let mut id = [0u8; 32];
    let mut i: usize = 0;
    while i < 32
        invariant
            n == bytes@.len(),
            start + 32 <= n,
            i <= 32,
            forall|k: int| 0 <= k < i ==> id@[k] == bytes@[start + k],
        decreases 32 - i,
    {
        id[i] = bytes[start + i];
        i = i + 1;
    }
    proof {
        assert(id@ =~= bytes@.subrange(start as int, start as int + 32));
    }
    id
}

/// Encodes a certificate record into its wire image.
pub fn encode_certificate(c: &Certificate) -> (r: Vec<u8>)
    ensures
        r@ == spec_encode_certificate(*c),
        r@.len() == CERTIFICATE_WIRE_LEN,
{
    let mut out: Vec<u8> = Vec::new();
    extend_bytes(&mut out, c.owner.as_slice());
    let course_bytes = vstd::bytes::u64_to_le_bytes(c.course_id);
    extend_bytes(&mut out, course_bytes.as_slice());
    out.push(c.level);
    let issued_bytes = vstd::bytes::u64_to_le_bytes(c.issued_at as u64);
    extend_bytes(&mut out, issued_bytes.as_slice());
    extend_bytes(&mut out, c.issuer.as_slice());
    out.push(c.bump);
    out.push(if c.is_revoked { 1 } else { 0 });
    proof {
        vstd::bytes::lemma_auto_spec_u64_to_from_le_bytes();
        assert(out@ =~= spec_encode_certificate(*c));
    }
    out
}

/// Decodes a certificate record from its wire image.  Succeeds exactly on
/// buffers of the right length whose revocation byte is 0 or 1; the level
/// byte is carried as stored — its domain is the registry's concern, not
/// the wire's.
pub fn decode_certificate(bytes: &[u8]) -> (r: Option<Certificate>)
    ensures
        r is Some <==> bytes@.len() == CERTIFICATE_WIRE_LEN
            && (bytes@[82] == 0 || bytes@[82] == 1),
        (match r {
            Some(c) => {
                &&& c.owner@ == bytes@.subrange(0, 32)
                &&& c.course_id == vstd::bytes::spec_u64_from_le_bytes(bytes@.subrange(32, 40))
                &&& c.level == bytes@[40]
                &&& c.issued_at == vstd::bytes::spec_u64_from_le_bytes(bytes@.subrange(41, 49)) as i64
                &&& c.issuer@ == bytes@.subrange(49, 81)
                &&& c.bump == bytes@[81]
                &&& c.is_revoked == (bytes@[82] == 1)
            },
            None => true,
        }),
{
    if bytes.len() != CERTIFICATE_WIRE_LEN {
        return None;
    }
    let is_revoked = match bytes[82] {
        0 => false,
        1 => true,
        _ => {
            return None;
        },
    };
    let owner = read_id(bytes, 0);
    let course_id = vstd::bytes::u64_from_le_bytes(vstd::slice::slice_subrange(bytes, 32, 40));
    let level = bytes[40];
    let issued_at = vstd::bytes::u64_from_le_bytes(vstd::slice::slice_subrange(bytes, 41, 49)) as i64;
    let issuer = read_id(bytes, 49);
    let bump = bytes[81];
    Some(Certificate { owner, course_id, level, issued_at, issuer, bump, is_revoked })
}

/// Encodes the configuration record into its wire image.
pub fn encode_config(c: &ProgramConfig) -> (r: Vec<u8>)
    ensures
        r@ == spec_encode_config(*c),
        r@.len() == CONFIG_WIRE_LEN,
{
    let mut out: Vec<u8> = Vec::new();
    extend_bytes(&mut out, c.issuer_authority.as_slice());
    out.push(c.bump);
    let total_bytes = vstd::bytes::u64_to_le_bytes(c.total_issued);
    extend_bytes(&mut out, total_bytes.as_slice());
    proof {
        vstd::bytes::lemma_auto_spec_u64_to_from_le_bytes();
        assert(out@ =~= spec_encode_config(*c));
    }
    out
}

/// Decodes the configuration record from its wire image.  Succeeds exactly
/// on buffers of the right length.
pub fn decode_config(bytes: &[u8]) -> (r: Option<ProgramConfig>)
    ensures
        r is Some <==> bytes@.len() == CONFIG_WIRE_LEN,
        (match r {
            Some(c) => {
                &&& c.issuer_authority@ == bytes@.subrange(0, 32)
                &&& c.bump == bytes@[32]
                &&& c.total_issued == vstd::bytes::spec_u64_from_le_bytes(bytes@.subrange(33, 41))
            },
            None => true,
        }),
{
    if bytes.len() != CONFIG_WIRE_LEN {
        return None;
    }
    let issuer_authority = read_id(bytes, 0);
    let bump = bytes[32];
    let total_issued = vstd::bytes::u64_from_le_bytes(vstd::slice::slice_subrange(bytes, 33, 41));
    Some(ProgramConfig { issuer_authority, bump, total_issued })
}

/// A certificate's wire image reads back field by field as the record it
/// encodes: the layout loses nothing.
pub proof fn lemma_certificate_wire_round_trip(c: Certificate)
    ensures
        ({
            let bytes = spec_encode_certificate(c);
            &&& bytes.len() == CERTIFICATE_WIRE_LEN
            &&& bytes[82] == 0 || bytes[82] == 1
            &&& bytes.subrange(0, 32) == c.owner@
            &&& vstd::bytes::spec_u64_from_le_bytes(bytes.subrange(32, 40)) == c.course_id
            &&& bytes[40] == c.level
            &&& vstd::bytes::spec_u64_from_le_bytes(bytes.subrange(41, 49)) as i64 == c.issued_at
            &&& bytes.subrange(49, 81) == c.issuer@
            &&& bytes[81] == c.bump
            &&& (bytes[82] == 1) == c.is_revoked
        }),
{
    vstd::bytes::lemma_auto_spec_u64_to_from_le_bytes();
    let bytes = spec_encode_certificate(c);
    assert(bytes.subrange(0, 32) =~= c.owner@);
    assert(bytes.subrange(32, 40) =~= vstd::bytes::spec_u64_to_le_bytes(c.course_id));
    assert(bytes.subrange(41, 49) =~= vstd::bytes::spec_u64_to_le_bytes(c.issued_at as u64));
    assert(bytes.subrange(49, 81) =~= c.issuer@);
    let x = c.issued_at;
    assert((x as u64) as i64 == x) by (bit_vector);
}

/// Distinct certificate records have distinct wire images.
pub proof fn lemma_certificate_encoding_injective(c1: Certificate, c2: Certificate)
    requires
        spec_encode_certificate(c1) == spec_encode_certificate(c2),
    ensures
        c1 == c2,
{
    lemma_certificate_wire_round_trip(c1);
    lemma_certificate_wire_round_trip(c2);
    assert(c1.owner =~= c2.owner);
    assert(c1.issuer =~= c2.issuer);
}

/// The configuration record's wire image reads back field by field as the
/// record it encodes.
pub proof fn lemma_config_wire_round_trip(c: ProgramConfig)
    ensures
        ({
            let bytes = spec_encode_config(c);
            &&& bytes.len() == CONFIG_WIRE_LEN
            &&& bytes.subrange(0, 32) == c.issuer_authority@
            &&& bytes[32] == c.bump
            &&& vstd::bytes::spec_u64_from_le_bytes(bytes.subrange(33, 41)) == c.total_issued
        }),
{
    vstd::bytes::lemma_auto_spec_u64_to_from_le_bytes();
    let bytes = spec_encode_config(c);
    assert(bytes.subrange(0, 32) =~= c.issuer_authority@);
    assert(bytes.subrange(33, 41) =~= vstd::bytes::spec_u64_to_le_bytes(c.total_issued));
}

/// Distinct configuration records have distinct wire images.
pub proof fn lemma_config_encoding_injective(c1: ProgramConfig, c2: ProgramConfig)
    requires
        spec_encode_config(c1) == spec_encode_config(c2),
    ensures
        c1 == c2,
{
    lemma_config_wire_round_trip(c1);
    lemma_config_wire_round_trip(c2);
    assert(c1.issuer_authority =~= c2.issuer_authority);
}

} // verus!
