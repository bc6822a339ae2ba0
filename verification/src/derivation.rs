//! Deterministic address derivation.
//!
//! A record's storage address is a pure function of a list of seed
//! byte-strings and the program's identity.  The configuration record lives
//! under the single seed `"config"`; a certificate lives under
//! `["certificate", owner bytes, course id as little-endian bytes]`.  The
//! hash behind the derivation is the host's; this module builds the exact
//! seed lists, proves that distinct `(owner, course_id)` pairs build
//! distinct seed lists, and calls out for the hash itself.

use vstd::prelude::*;

use anchor_lang::prelude::Pubkey;

verus! {

/// The seed of the configuration record: the bytes of `"config"`.
pub open spec fn config_seed() -> Seq<u8> {
    seq![99u8, 111u8, 110u8, 102u8, 105u8, 103u8]
}

/// The tag seed of every certificate record: the bytes of `"certificate"`.
pub open spec fn certificate_seed_tag() -> Seq<u8> {
    seq![99u8, 101u8, 114u8, 116u8, 105u8, 102u8, 105u8, 99u8, 97u8, 116u8, 101u8]
}

/// The full seed list of the configuration record.
pub open spec fn spec_config_seeds() -> Seq<Seq<u8>> {
    seq![config_seed()]
}

/// The full seed list of the certificate record of `(owner, course_id)`.
pub open spec fn spec_certificate_seeds(owner: Seq<u8>, course_id: u64) -> Seq<Seq<u8>> {
    seq![certificate_seed_tag(), owner, vstd::bytes::spec_u64_to_le_bytes(course_id)]
}

/// The byte contents of a list of seed buffers.
pub open spec fn views_of(seeds: Seq<Vec<u8>>) -> Seq<Seq<u8>> {
    seeds.map_values(|s: Vec<u8>| s@)
}

/// What the host's deterministic-address algorithm yields for a seed list
/// under a program identity: the storage address and its bump salt, or
/// nothing in the statistically improbable case that no salt yields a valid
/// address (or when a seed breaks the host's length limits).
pub uninterp spec fn derived_address(seeds: Seq<Seq<u8>>, program_id: Seq<u8>) -> Option<(Seq<u8>, u8)>;

/// Relies on `Pubkey::try_find_program_address` (reached through
/// `anchor_lang`): the derived address and bump salt are a pure function of
/// the seed list and the program id, and the call returns `None` rather than
/// failing when no salt fits.
#[verifier::external_body]
fn try_find_address(seeds: &Vec<Vec<u8>>, program_id: &[u8; 32]) -> (r: Option<([u8; 32], u8)>)
    ensures
        (match r {
            Some((addr, bump)) => Some((addr@, bump)),
            None => None,
        }) == derived_address(views_of(seeds@), program_id@),
{
    let refs: Vec<&[u8]> = seeds.iter().map(|s| s.as_slice()).collect();
    let pid = Pubkey::new_from_array(*program_id);
    Pubkey::try_find_program_address(&refs, &pid).map(|(addr, bump)| (addr.to_bytes(), bump))
}

/// The identity under which this registry derives its storage addresses.
pub open spec fn spec_program_id() -> Seq<u8> {
    seq![
        116u8, 121u8, 116u8, 95u8, 97u8, 99u8, 97u8, 100u8, 101u8, 109u8, 121u8, 95u8, 115u8,
        98u8, 116u8, 0u8, 0u8, 0u8, 0u8, 0u8, 0u8, 0u8, 0u8, 0u8, 0u8, 0u8, 0u8, 0u8, 0u8, 0u8,
        0u8, 0u8,
    ]
}

/// The identity under which this registry derives its storage addresses.
pub fn program_id() -> (r: [u8; 32])
    ensures
        r@ =~= spec_program_id(),
{
    [
        116u8, 121u8, 116u8, 95u8, 97u8, 99u8, 97u8, 100u8, 101u8, 109u8, 121u8, 95u8, 115u8,
        98u8, 116u8, 0u8, 0u8, 0u8, 0u8, 0u8, 0u8, 0u8, 0u8, 0u8, 0u8, 0u8, 0u8, 0u8, 0u8, 0u8,
        0u8, 0u8,
    ]
}

/// The seed list of the configuration record, as buffers for the host.
pub fn config_seeds() -> (r: Vec<Vec<u8>>)
    ensures
        views_of(r@) =~= spec_config_seeds(),
{
    let mut tag: Vec<u8> = Vec::new();
    tag.push(99u8);
    tag.push(111u8);
    tag.push(110u8);
    tag.push(102u8);
    tag.push(105u8);
    tag.push(103u8);
    assert(tag@ =~= config_seed());
    let mut seeds: Vec<Vec<u8>> = Vec::new();
    seeds.push(tag);
    seeds
}

/// The seed list of the certificate record of `(owner, course_id)`.
pub fn certificate_seeds(owner: &[u8; 32], course_id: u64) -> (r: Vec<Vec<u8>>)
    ensures
        views_of(r@) =~= spec_certificate_seeds(owner@, course_id),
{
    let mut tag: Vec<u8> = Vec::new();
    tag.push(99u8);
    tag.push(101u8);
    tag.push(114u8);
    tag.push(116u8);
    tag.push(105u8);
    tag.push(102u8);
    tag.push(105u8);
    tag.push(99u8);
    tag.push(97u8);
    tag.push(116u8);
    tag.push(101u8);
    assert(tag@ =~= certificate_seed_tag());

    let mut owner_bytes: Vec<u8> = Vec::new();
    let mut i: usize = 0;
    while i < 32
        invariant
            i <= 32,
            owner_bytes@.len() == i,
            forall|k: int| 0 <= k < i ==> owner_bytes@[k] == owner@[k],
        decreases 32 - i,
    {
        owner_bytes.push(owner[i]);
        i = i + 1;
    }
    assert(owner_bytes@ =~= owner@);

    let course_bytes = vstd::bytes::u64_to_le_bytes(course_id);

    let mut seeds: Vec<Vec<u8>> = Vec::new();
    seeds.push(tag);
    seeds.push(owner_bytes);
    seeds.push(course_bytes);
    seeds
}

/// The derived address and bump of the configuration record.
pub fn derive_config_address() -> (r: Option<([u8; 32], u8)>)
    ensures
        (match r {
            Some((addr, bump)) => Some((addr@, bump)),
            None => None,
        }) == derived_address(spec_config_seeds(), spec_program_id()),
{
    let seeds = config_seeds();
    let pid = program_id();
    try_find_address(&seeds, &pid)
}

/// The derived address and bump of the certificate record of
/// `(owner, course_id)`.
pub fn derive_certificate_address(owner: &[u8; 32], course_id: u64) -> (r: Option<([u8; 32], u8)>)
    ensures
        (match r {
            Some((addr, bump)) => Some((addr@, bump)),
            None => None,
        }) == derived_address(spec_certificate_seeds(owner@, course_id), spec_program_id()),
{
    let seeds = certificate_seeds(owner, course_id);
    let pid = program_id();
    try_find_address(&seeds, &pid)
}

/// Distinct `(owner, course_id)` pairs build distinct seed lists, so under a
/// deterministic derivation each pair claims a storage slot of its own.
pub proof fn lemma_certificate_seeds_injective(o1: Seq<u8>, c1: u64, o2: Seq<u8>, c2: u64)
    requires
        spec_certificate_seeds(o1, c1) == spec_certificate_seeds(o2, c2),
    ensures
        o1 == o2,
        c1 == c2,
{
    let s1 = spec_certificate_seeds(o1, c1);
    let s2 = spec_certificate_seeds(o2, c2);
    assert(o1 == s1[1] && o2 == s2[1]);
    assert(vstd::bytes::spec_u64_to_le_bytes(c1) == vstd::bytes::spec_u64_to_le_bytes(c2));
    vstd::bytes::lemma_auto_spec_u64_to_from_le_bytes();
}

/// The configuration record's seed list never collides with a certificate's.
pub proof fn lemma_config_seeds_distinct(owner: Seq<u8>, course_id: u64)
    ensures
        spec_config_seeds() != spec_certificate_seeds(owner, course_id),
{
    assert(spec_config_seeds().len() == 1);
    assert(spec_certificate_seeds(owner, course_id).len() == 3);
}

} // verus!
