use vstd::prelude::*;
use vstd::bytes::{lemma_auto_spec_u64_to_from_le_bytes, spec_u64_to_le_bytes, u64_to_le_bytes};
use anchor_lang::prelude::Pubkey;
use crate::key::{lemma_key_view_injective, Key};

verus! {

/// What `Pubkey::try_find_program_address` returns for the seed list `seeds`
/// under the program `program_id`: the derived address with its nonce, or
/// nothing where no nonce yields an address.
pub uninterp spec fn program_address(seeds: Seq<Seq<u8>>, program_id: Seq<u8>) -> Option<
    (Seq<u8>, u8),
>;

/// A derived address and its nonce by their plain values.
pub open spec fn address_view(found: Option<(Key, u8)>) -> Option<(Seq<u8>, u8)> {
    match found {
        Some((address, bump)) => Some((address@, bump)),
        None => None,
    }
}

/// Calls `Pubkey::try_find_program_address` of solana-pubkey, as anchor-lang
/// exports it. Trusted: the result is the one that function gives for these
/// seeds and this program, which depends on nothing else. It returns `None`
/// rather than panic where the seeds are too many or too long or no nonce
/// is found.
#[verifier::external_body]
fn find_program_address(seeds: &Vec<Vec<u8>>, program_id: &Key) -> (found: Option<(Key, u8)>)
    ensures
        address_view(found) == program_address(seeds.deep_view(), program_id@),
{
    let parts: Vec<&[u8]> = seeds.iter().map(|part| part.as_slice()).collect();
    let program = Pubkey::new_from_array(program_id.bytes);
    match Pubkey::try_find_program_address(&parts, &program) {
        Some((address, bump)) => Some((Key { bytes: address.to_bytes() }, bump)),
        None => None,
    }
}

/// The tag that keeps vault addresses apart from any other derived address
/// of the program: the ASCII bytes of `vault`.
pub open spec fn spec_vault_tag() -> Seq<u8> {
    seq![0x76u8, 0x61u8, 0x75u8, 0x6cu8, 0x74u8]
}

/// The seed list of the vault that `creator` opened under `seed`: the tag,
/// the creator's key, and `seed` as eight little-endian bytes.
pub open spec fn spec_vault_seeds(creator: Key, seed: u64) -> Seq<Seq<u8>> {
    seq![spec_vault_tag(), creator@, spec_u64_to_le_bytes(seed)]
}

/// The seed list of the vault that `creator` opened under `seed`.
pub fn vault_seeds(creator: &Key, seed: u64) -> (seeds: Vec<Vec<u8>>)
    ensures
        seeds.deep_view() == spec_vault_seeds(*creator, seed),
{
    let mut tag: Vec<u8> = Vec::new();
    tag.push(0x76u8);
    tag.push(0x61u8);
    tag.push(0x75u8);
    tag.push(0x6cu8);
    tag.push(0x74u8);
    let mut who: Vec<u8> = Vec::new();
    let mut i: usize = 0;
    while i < 32
        invariant
            i <= 32,
            who@ == creator@.subrange(0, i as int),
        decreases 32 - i,
    {
        who.push(creator.bytes[i]);
        i += 1;
    }
    let which = u64_to_le_bytes(seed);
    let mut seeds: Vec<Vec<u8>> = Vec::new();
    seeds.push(tag);
    seeds.push(who);
    seeds.push(which);
    proof {
        assert(seeds@[0].deep_view() =~= spec_vault_tag());
        assert(seeds@[1].deep_view() =~= creator@);
        assert(seeds@[2].deep_view() =~= spec_u64_to_le_bytes(seed));
        assert(seeds.deep_view() =~= spec_vault_seeds(*creator, seed));
    }
    seeds
}

/// The address of the vault that `creator` opened under `seed` in the
/// program `program_id`, with its nonce.
pub open spec fn spec_vault_address(program_id: Key, creator: Key, seed: u64) -> Option<
    (Seq<u8>, u8),
> {
    program_address(spec_vault_seeds(creator, seed), program_id@)
}

/// Derives the address of the vault that `creator` opened under `seed` in
/// the program `program_id`, with its nonce.
pub fn vault_address(program_id: &Key, creator: &Key, seed: u64) -> (found: Option<(Key, u8)>)
    ensures
        address_view(found) == spec_vault_address(*program_id, *creator, seed),
{
    let seeds = vault_seeds(creator, seed);
    find_program_address(&seeds, program_id)
}

/// Whether `derived` names the address `vault_key` under the nonce `bump`.
pub fn is_derived(derived: &Option<(Key, u8)>, vault_key: &Key, bump: u8) -> (same: bool)
    ensures
        same == (*derived == Some((*vault_key, bump))),
{
    match derived {
        Some((address, nonce)) => *address == *vault_key && *nonce == bump,
        None => false,
    }
}

/// Whether `vault_key` under the nonce `bump` is the address of the vault
/// that `creator` opened under `seed` in the program `program_id`.
pub fn is_vault_address(
    program_id: &Key,
    creator: &Key,
    seed: u64,
    vault_key: &Key,
    bump: u8,
) -> (same: bool)
    ensures
        same == (spec_vault_address(*program_id, *creator, seed) == Some((vault_key@, bump))),
{
    let derived = vault_address(program_id, creator, seed);
    proof {
        if let Some((address, nonce)) = derived {
            lemma_key_view_injective(address, *vault_key);
        }
    }
    is_derived(&derived, vault_key, bump)
}

/// The bytes that the derivation hashes for a vault: its seeds, one after
/// the other.
pub open spec fn spec_vault_seed_bytes(creator: Key, seed: u64) -> Seq<u8> {
    spec_vault_tag() + creator@ + spec_u64_to_le_bytes(seed)
}

/// The seeds of a vault, laid end to end, are those bytes.
pub proof fn lemma_vault_seeds_flatten(creator: Key, seed: u64)
    ensures
        spec_vault_seeds(creator, seed).flatten() == spec_vault_seed_bytes(creator, seed),
{
    let seeds = spec_vault_seeds(creator, seed);
    let tag = spec_vault_tag();
    let who = creator@;
    let which = spec_u64_to_le_bytes(seed);
    assert(seeds.drop_first() =~= seq![who, which]);
    assert(seeds.drop_first().drop_first() =~= seq![which]);
    assert(seq![which].drop_first() =~= Seq::<Seq<u8>>::empty());
    assert(seq![which].flatten() =~= which) by {
        assert(seq![which].first() == which);
        assert(Seq::<Seq<u8>>::empty().flatten() =~= Seq::<u8>::empty());
    }
    assert(seq![who, which].flatten() =~= who + which) by {
        assert(seq![who, which].first() == who);
        assert(seq![who, which].drop_first() =~= seq![which]);
    }
    assert(seeds.flatten() =~= tag + (who + which)) by {
        assert(seeds.first() == tag);
    }
    assert(tag + (who + which) =~= tag + who + which);
}

/// The seeds are of fixed lengths, so the bytes that are hashed name one
/// creator and one seed only: no other vault of the program hashes the same
/// bytes.
pub proof fn lemma_vault_seed_bytes_injective(
    creator_a: Key,
    seed_a: u64,
    creator_b: Key,
    seed_b: u64,
)
    ensures
        spec_vault_seed_bytes(creator_a, seed_a) == spec_vault_seed_bytes(creator_b, seed_b)
            <==> creator_a == creator_b && seed_a == seed_b,
{
    let a = spec_vault_seed_bytes(creator_a, seed_a);
    let b = spec_vault_seed_bytes(creator_b, seed_b);
    lemma_auto_spec_u64_to_from_le_bytes();
    if a == b {
        assert(creator_a@ =~= a.subrange(5, 37));
        assert(creator_b@ =~= b.subrange(5, 37));
        assert(spec_u64_to_le_bytes(seed_a) =~= a.subrange(37, 45));
        assert(spec_u64_to_le_bytes(seed_b) =~= b.subrange(37, 45));
        lemma_key_view_injective(creator_a, creator_b);
    }
}

/// Two vaults have the same seed list only if they have the same creator
/// and the same seed.
pub proof fn lemma_vault_seeds_injective(creator_a: Key, seed_a: u64, creator_b: Key, seed_b: u64)
    ensures
        spec_vault_seeds(creator_a, seed_a) == spec_vault_seeds(creator_b, seed_b) <==> creator_a
            == creator_b && seed_a == seed_b,
{
    let a = spec_vault_seeds(creator_a, seed_a);
    let b = spec_vault_seeds(creator_b, seed_b);
    if a == b {
        assert(a[1] == b[1]);
        assert(a[2] == b[2]);
        lemma_key_view_injective(creator_a, creator_b);
        lemma_auto_spec_u64_to_from_le_bytes();
    }
}

} // verus!
