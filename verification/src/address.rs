//! Address derivation: the deterministic mapping from a namespace and seed
//! values to a unique storage slot.
//!
//! Each entity lives at a slot derived from its component's key and stable
//! seeds — `user` slots from the principal's key, `poll` slots from the
//! creator's key and the poll id, `vote` slots from the poll's slot and the
//! voter's key, `treasury` slots from the poll's slot.  The derivation is a
//! pure function: identical inputs always yield the identical slot and bump,
//! which replaces a central registry.  Distinct seed tuples collide only if
//! the underlying hash does, which the design takes as impossible.

use vstd::prelude::*;

use crate::keys::AccountKey;
use vstd::bytes::lemma_auto_spec_u64_to_from_le_bytes;
use vstd::bytes::spec_u64_from_le_bytes;
use vstd::bytes::spec_u64_to_le_bytes;
use vstd::bytes::u64_from_le_bytes;
use vstd::bytes::u64_to_le_bytes;
use vstd::string::StringSliceAdditionalSpecFns;

verus! {

/// The 32-byte little-endian encoding of a key.
pub open spec fn key_bytes(k: AccountKey) -> Seq<u8> {
    spec_u64_to_le_bytes(k.w0) + spec_u64_to_le_bytes(k.w1) + spec_u64_to_le_bytes(k.w2)
        + spec_u64_to_le_bytes(k.w3)
}

/// Encodes a key as its 32 bytes.
pub fn key_to_bytes(k: &AccountKey) -> (b: Vec<u8>)
    ensures
        b@ == key_bytes(*k),
        b@.len() == 32,
{
    let mut b = u64_to_le_bytes(k.w0);
    let mut b1 = u64_to_le_bytes(k.w1);
    b.append(&mut b1);
    let mut b2 = u64_to_le_bytes(k.w2);
    b.append(&mut b2);
    let mut b3 = u64_to_le_bytes(k.w3);
    b.append(&mut b3);
    b
}

/// Decodes a key from its 32 bytes.
pub fn key_from_bytes(b: &[u8]) -> (k: AccountKey)
    requires
        b@.len() == 32,
    ensures
        key_bytes(k) == b@,
{
    proof {
        lemma_auto_spec_u64_to_from_le_bytes();
    }
    let w0 = u64_from_le_bytes(&b[0..8]);
    let w1 = u64_from_le_bytes(&b[8..16]);
    let w2 = u64_from_le_bytes(&b[16..24]);
    let w3 = u64_from_le_bytes(&b[24..32]);
    let k = AccountKey { w0, w1, w2, w3 };
    proof {
        assert(spec_u64_to_le_bytes(w0) == b@.subrange(0, 8));
        assert(spec_u64_to_le_bytes(w1) == b@.subrange(8, 16));
        assert(spec_u64_to_le_bytes(w2) == b@.subrange(16, 24));
        assert(spec_u64_to_le_bytes(w3) == b@.subrange(24, 32));
        assert(key_bytes(k) =~= b@);
    }
    k
}

/// The key whose 32-byte encoding is `b`: the specification-level inverse of
/// `key_bytes`.
pub open spec fn key_of_bytes(b: Seq<u8>) -> AccountKey {
    AccountKey {
        w0: spec_u64_from_le_bytes(b.subrange(0, 8)),
        w1: spec_u64_from_le_bytes(b.subrange(8, 16)),
        w2: spec_u64_from_le_bytes(b.subrange(16, 24)),
        w3: spec_u64_from_le_bytes(b.subrange(24, 32)),
    }
}

/// Decoding a key's encoding gives the key back.
pub proof fn lemma_key_bytes_roundtrip(k: AccountKey)
    ensures
        key_of_bytes(key_bytes(k)) == k,
{
    lemma_auto_spec_u64_to_from_le_bytes();
    assert(key_bytes(k).subrange(0, 8) =~= spec_u64_to_le_bytes(k.w0));
    assert(key_bytes(k).subrange(8, 16) =~= spec_u64_to_le_bytes(k.w1));
    assert(key_bytes(k).subrange(16, 24) =~= spec_u64_to_le_bytes(k.w2));
    assert(key_bytes(k).subrange(24, 32) =~= spec_u64_to_le_bytes(k.w3));
}

/// What the Solana runtime's program-derived-address search returns for the
/// given seed byte strings and program key: a derived 32-byte slot and its
/// bump seed, or nothing in the statistically improbable event that no bump
/// works.  A pure function of its arguments.
pub uninterp spec fn derived_slot(seeds: Seq<Seq<u8>>, program_key: Seq<u8>) -> Option<
    (Seq<u8>, u8),
>;

/// Relies on Pubkey::try_find_program_address of the Solana SDK (re-exported
/// by anchor_lang): a deterministic search for a derived address off the
/// ed25519 curve, returning the address and its bump seed, or None when no
/// bump yields one.  Addresses are 32 bytes.
#[verifier::external_body]
fn find_program_slot(seeds: &Vec<Vec<u8>>, program_key: &Vec<u8>) -> (r: Option<(Vec<u8>, u8)>)
    requires
        program_key@.len() == 32,
    ensures
        r is None ==> derived_slot(seeds@.map_values(|s: Vec<u8>| s@), program_key@) is None,
        r matches Some(p) ==> derived_slot(seeds@.map_values(|s: Vec<u8>| s@), program_key@)
            == Some((p.0@, p.1)) && p.0@.len() == 32,
{
    let seed_slices: Vec<&[u8]> = seeds.iter().map(|s| s.as_slice()).collect();
    let program = anchor_lang::solana_program::pubkey::Pubkey::new_from_array(
        program_key.as_slice().try_into().unwrap(),
    );
    let found = anchor_lang::solana_program::pubkey::Pubkey::try_find_program_address(
        &seed_slices,
        &program,
    );
    found.map(|(addr, bump)| (addr.to_bytes().to_vec(), bump))
}

/// The namespace of user-profile slots.
pub open spec fn user_namespace() -> Seq<u8> {
    "user".spec_bytes()
}

/// The namespace of poll slots.
pub open spec fn poll_namespace() -> Seq<u8> {
    "poll".spec_bytes()
}

/// The namespace of vote-record slots.
pub open spec fn vote_namespace() -> Seq<u8> {
    "vote".spec_bytes()
}

/// The namespace of escrow slots.
pub open spec fn treasury_namespace() -> Seq<u8> {
    "treasury".spec_bytes()
}

/// Copies a namespace tag into an owned seed.
fn namespace_seed(tag: &str) -> (v: Vec<u8>)
    ensures
        v@ == tag.spec_bytes(),
{
    let mut v: Vec<u8> = Vec::new();
    v.extend_from_slice(tag.as_bytes());
    v
}

/// Converts the raw slot that the derivation search found into a key.
fn slot_to_key(found: Option<(Vec<u8>, u8)>, Ghost(seeds): Ghost<Seq<Seq<u8>>>, Ghost(
    program,
): Ghost<Seq<u8>>) -> (r: Option<(AccountKey, u8)>)
    requires
        found is None ==> derived_slot(seeds, program) is None,
        found matches Some(p) ==> derived_slot(seeds, program) == Some((p.0@, p.1)) && p.0@.len()
            == 32,
    ensures
        r is None ==> derived_slot(seeds, program) is None,
        r matches Some(p) ==> derived_slot(seeds, program) == Some((key_bytes(p.0), p.1)),
{
    match found {
        Some((addr, bump)) => {
            let k = key_from_bytes(addr.as_slice());
            Some((k, bump))
        },
        None => None,
    }
}

/// Derives the slot of a principal's user profile under the user ledger.
pub fn derive_user_slot(program: &AccountKey, authority: &AccountKey) -> (r: Option<
    (AccountKey, u8),
>)
    ensures
        r is None ==> derived_slot(
            seq![user_namespace(), key_bytes(*authority)],
            key_bytes(*program),
        ) is None,
        r matches Some(p) ==> derived_slot(
            seq![user_namespace(), key_bytes(*authority)],
            key_bytes(*program),
        ) == Some((key_bytes(p.0), p.1)),
{
    let mut seeds: Vec<Vec<u8>> = Vec::new();
    seeds.push(namespace_seed("user"));
    seeds.push(key_to_bytes(authority));
    let program_key = key_to_bytes(program);
    proof {
        assert(seeds@.map_values(|s: Vec<u8>| s@) =~= seq![
            user_namespace(),
            key_bytes(*authority),
        ]);
    }
    let ghost seed_views = seq![user_namespace(), key_bytes(*authority)];
    let ghost program_view = key_bytes(*program);
    let found = find_program_slot(&seeds, &program_key);
    slot_to_key(found, Ghost(seed_views), Ghost(program_view))
}

/// Derives the slot of a poll under the poll ledger, from its creator's key
/// and the creator-scoped poll id.
pub fn derive_poll_slot(program: &AccountKey, creator: &AccountKey, poll_id: u64) -> (r: Option<
    (AccountKey, u8),
>)
    ensures
        r is None ==> derived_slot(
            seq![poll_namespace(), key_bytes(*creator), spec_u64_to_le_bytes(poll_id)],
            key_bytes(*program),
        ) is None,
        r matches Some(p) ==> derived_slot(
            seq![poll_namespace(), key_bytes(*creator), spec_u64_to_le_bytes(poll_id)],
            key_bytes(*program),
        ) == Some((key_bytes(p.0), p.1)),
{
    let mut seeds: Vec<Vec<u8>> = Vec::new();
    seeds.push(namespace_seed("poll"));
    seeds.push(key_to_bytes(creator));
    seeds.push(u64_to_le_bytes(poll_id));
    let program_key = key_to_bytes(program);
    proof {
        assert(seeds@.map_values(|s: Vec<u8>| s@) =~= seq![
            poll_namespace(),
            key_bytes(*creator),
            spec_u64_to_le_bytes(poll_id),
        ]);
    }
    let ghost seed_views = seq![poll_namespace(), key_bytes(*creator), spec_u64_to_le_bytes(poll_id)];
    let ghost program_view = key_bytes(*program);
    let found = find_program_slot(&seeds, &program_key);
    slot_to_key(found, Ghost(seed_views), Ghost(program_view))
}

/// Derives the slot of a voter's vote record under the vote ledger, from the
/// poll's slot and the voter's key.
pub fn derive_vote_slot(program: &AccountKey, poll_slot: &AccountKey, voter: &AccountKey) -> (r:
    Option<(AccountKey, u8)>)
    ensures
        r is None ==> derived_slot(
            seq![vote_namespace(), key_bytes(*poll_slot), key_bytes(*voter)],
            key_bytes(*program),
        ) is None,
        r matches Some(p) ==> derived_slot(
            seq![vote_namespace(), key_bytes(*poll_slot), key_bytes(*voter)],
            key_bytes(*program),
        ) == Some((key_bytes(p.0), p.1)),
{
    let mut seeds: Vec<Vec<u8>> = Vec::new();
    seeds.push(namespace_seed("vote"));
    seeds.push(key_to_bytes(poll_slot));
    seeds.push(key_to_bytes(voter));
    let program_key = key_to_bytes(program);
    proof {
        assert(seeds@.map_values(|s: Vec<u8>| s@) =~= seq![
            vote_namespace(),
            key_bytes(*poll_slot),
            key_bytes(*voter),
        ]);
    }
    let ghost seed_views = seq![vote_namespace(), key_bytes(*poll_slot), key_bytes(*voter)];
    let ghost program_view = key_bytes(*program);
    let found = find_program_slot(&seeds, &program_key);
    slot_to_key(found, Ghost(seed_views), Ghost(program_view))
}

/// Derives the slot of a poll's escrow under the poll ledger, from the
/// poll's slot.
pub fn derive_treasury_slot(program: &AccountKey, poll_slot: &AccountKey) -> (r: Option<
    (AccountKey, u8),
>)
    ensures
        r is None ==> derived_slot(
            seq![treasury_namespace(), key_bytes(*poll_slot)],
            key_bytes(*program),
        ) is None,
        r matches Some(p) ==> derived_slot(
            seq![treasury_namespace(), key_bytes(*poll_slot)],
            key_bytes(*program),
        ) == Some((key_bytes(p.0), p.1)),
{
    let mut seeds: Vec<Vec<u8>> = Vec::new();
    seeds.push(namespace_seed("treasury"));
    seeds.push(key_to_bytes(poll_slot));
    let program_key = key_to_bytes(program);
    proof {
        assert(seeds@.map_values(|s: Vec<u8>| s@) =~= seq![
            treasury_namespace(),
            key_bytes(*poll_slot),
        ]);
    }
    let ghost seed_views = seq![treasury_namespace(), key_bytes(*poll_slot)];
    let ghost program_view = key_bytes(*program);
    let found = find_program_slot(&seeds, &program_key);
    slot_to_key(found, Ghost(seed_views), Ghost(program_view))
}

} // verus!
