//! Account addresses and the derivation of the pool's canonical addresses.
//!
//! An address is derived from an ordered list of seeds and the identity of a
//! program. The search for the derived address is the ledger runtime's; this
//! module fixes the seeds and states every result over one name,
//! [`program_address`].

use vstd::prelude::*;

verus! {

/// The address of an account: 32 bytes.
pub type Pubkey = [u8; 32];

/// What a derivation yields: the derived address and its bump, or nothing.
pub type Derived = Option<(Pubkey, u8)>;

/// What a derivation yields, with the address as a list of bytes.
pub type DerivedView = Option<(Seq<u8>, u8)>;

/// The identity of the pool program: the namespace of the pool and LP-mint
/// addresses.
pub const ID: Pubkey = [
    10, 247, 223, 48, 40, 252, 12, 187, 152, 73, 136, 135, 137, 167, 246, 213, 97, 33, 37, 255, 22,
    204, 150, 182, 139, 0, 183, 191, 119, 184, 73, 210,
];

/// The identity of the token program.
pub const TOKEN_PROGRAM_ID: Pubkey = [
    6, 221, 246, 225, 215, 101, 161, 147, 217, 203, 225, 70, 206, 235, 121, 172, 28, 180, 133, 237,
    95, 91, 55, 145, 58, 140, 245, 133, 126, 255, 0, 169,
];

/// The identity of the associated-token-account program: the namespace of
/// associated token addresses.
pub const ASSOCIATED_TOKEN_PROGRAM_ID: Pubkey = [
    140, 151, 37, 143, 78, 36, 137, 241, 187, 61, 16, 41, 20, 142, 13, 131, 11, 90, 19, 153, 218,
    255, 16, 132, 4, 142, 123, 216, 219, 233, 248, 89,
];

/// What the runtime's search yields for `seeds` under `program_id`: the
/// derived address with its bump, or nothing where the search finds none.
pub uninterp spec fn program_address(seeds: Seq<Seq<u8>>, program_id: Seq<u8>) -> Option<
    (Seq<u8>, u8),
>;

/// The seeds as lists of bytes.
pub open spec fn seed_views(seeds: Seq<Vec<u8>>) -> Seq<Seq<u8>> {
    seeds.map_values(|seed: Vec<u8>| seed@)
}

/// A derivation result with its address as a list of bytes.
pub open spec fn derived_view(derived: Derived) -> DerivedView {
    match derived {
        Some((address, bump)) => Some((address@, bump)),
        None => None,
    }
}

/// The bytes of `pool`.
pub open spec fn pool_tag() -> Seq<u8> {
    seq![112u8, 111, 111, 108]
}

/// The bytes of `lp_mint`.
pub open spec fn lp_mint_tag() -> Seq<u8> {
    seq![108u8, 112, 95, 109, 105, 110, 116]
}

/// The seeds of a pool's address: the tag and the two mints, in order.
pub open spec fn pool_seeds(token_a_mint: Pubkey, token_b_mint: Pubkey) -> Seq<Seq<u8>> {
    seq![pool_tag(), token_a_mint@, token_b_mint@]
}

/// The seeds of a pool's LP-mint address: the tag and the pool's address.
pub open spec fn lp_mint_seeds(pool: Pubkey) -> Seq<Seq<u8>> {
    seq![lp_mint_tag(), pool@]
}

/// The seeds of the associated token address of `owner` for `mint`.
pub open spec fn associated_token_seeds(owner: Pubkey, mint: Pubkey) -> Seq<Seq<u8>> {
    seq![owner@, TOKEN_PROGRAM_ID@, mint@]
}

/// The pool address for an ordered pair of mints, as the runtime derives it.
pub open spec fn pool_address(token_a_mint: Pubkey, token_b_mint: Pubkey) -> DerivedView {
    program_address(pool_seeds(token_a_mint, token_b_mint), ID@)
}

/// The LP-mint address of a pool, as the runtime derives it.
pub open spec fn lp_mint_address(pool: Pubkey) -> DerivedView {
    program_address(lp_mint_seeds(pool), ID@)
}

/// The associated token address of `owner` for `mint`, as the runtime
/// derives it.
pub open spec fn associated_token_address(owner: Pubkey, mint: Pubkey) -> DerivedView {
    program_address(associated_token_seeds(owner, mint), ASSOCIATED_TOKEN_PROGRAM_ID@)
}

/// Calls `pinocchio::pubkey::try_find_program_address`, which hands the seeds
/// and the program identity to the runtime's address search. The contract
/// claims one thing: that the outcome is a function of the seeds and the
/// program identity alone, which it names `program_address`. In a build for
/// the ledger's runtime the call returns `None` where the search finds no
/// address, where a seed is longer than 32 bytes or where there are 16 seeds
/// or more. In a build for any other target it returns `None` for every
/// input.
#[verifier::external_body]
fn try_find_program_address(seeds: &Vec<Vec<u8>>, program_id: &Pubkey) -> (r: Derived)
    ensures
        derived_view(r) == program_address(seed_views(seeds@), program_id@),
{
    let slices: Vec<&[u8]> = seeds.iter().map(|seed| seed.as_slice()).collect();
    pinocchio::pubkey::try_find_program_address(&slices, program_id)
}

/// Whether two addresses are the same.
pub fn keys_equal(a: &Pubkey, b: &Pubkey) -> (r: bool)
    ensures
        r == (*a == *b),
{
    let mut i: usize = 0;
    while i < 32
        invariant
            i <= 32,
            forall|j: int| 0 <= j < i ==> a[j] == b[j],
        decreases 32 - i,
    {
        if a[i] != b[i] {
            return false;
        }
        i = i + 1;
    }
    assert(*a =~= *b);
    true
}

/// The bytes of an address, as a seed.
pub fn key_seed(key: &Pubkey) -> (seed: Vec<u8>)
    ensures
        seed@ == key@,
{
    vstd::slice::slice_to_vec(key.as_slice())
}

/// Derives the pool address for an ordered pair of mints.
pub fn find_pool_address(token_a_mint: &Pubkey, token_b_mint: &Pubkey) -> (r: Derived)
    ensures
        derived_view(r) == pool_address(*token_a_mint, *token_b_mint),
{
    let mut seeds: Vec<Vec<u8>> = Vec::new();
    seeds.push(vec![112u8, 111, 111, 108]);
    seeds.push(key_seed(token_a_mint));
    seeds.push(key_seed(token_b_mint));
    assert(seed_views(seeds@) =~= pool_seeds(*token_a_mint, *token_b_mint));
    try_find_program_address(&seeds, &ID)
}

/// Derives the LP-mint address of a pool.
pub fn find_lp_mint_address(pool: &Pubkey) -> (r: Derived)
    ensures
        derived_view(r) == lp_mint_address(*pool),
{
    let mut seeds: Vec<Vec<u8>> = Vec::new();
    seeds.push(vec![108u8, 112, 95, 109, 105, 110, 116]);
    seeds.push(key_seed(pool));
    assert(seed_views(seeds@) =~= lp_mint_seeds(*pool));
    try_find_program_address(&seeds, &ID)
}

/// Derives the associated token address of `owner` for `mint`.
pub fn find_associated_token_address(owner: &Pubkey, mint: &Pubkey) -> (r: Derived)
    ensures
        derived_view(r) == associated_token_address(*owner, *mint),
{
    let mut seeds: Vec<Vec<u8>> = Vec::new();
    seeds.push(key_seed(owner));
    seeds.push(key_seed(&TOKEN_PROGRAM_ID));
    seeds.push(key_seed(mint));
    assert(seed_views(seeds@) =~= associated_token_seeds(*owner, *mint));
    try_find_program_address(&seeds, &ASSOCIATED_TOKEN_PROGRAM_ID)
}

/// Two addresses with the same bytes are the same address.
pub proof fn lemma_key_is_its_bytes(a: Pubkey, b: Pubkey)
    ensures
        a@ == b@ <==> a == b,
{
    if a@ == b@ {
        assert(forall|i: int| 0 <= i < 32 ==> a[i] == a@[i]);
        assert(a =~= b);
    }
}

/// Deriving again from the same seeds under the same program yields the same
/// address and the same bump.
pub proof fn lemma_derivation_is_stable(
    first: Derived,
    second: Derived,
    seeds: Seq<Seq<u8>>,
    program_id: Pubkey,
)
    requires
        derived_view(first) == program_address(seeds, program_id@),
        derived_view(second) == program_address(seeds, program_id@),
    ensures
        first == second,
{
    if let Some((a, _)) = first {
        if let Some((b, _)) = second {
            lemma_key_is_its_bytes(a, b);
        }
    }
}

/// The seeds of a pool's address determine the ordered pair of mints: two
/// pairs share their seeds only if they are the same pair, so a pair of
/// distinct mints and the same pair in the other order are derived from
/// different seeds.
pub proof fn lemma_pool_seeds_injective(a1: Pubkey, b1: Pubkey, a2: Pubkey, b2: Pubkey)
    ensures
        pool_seeds(a1, b1) == pool_seeds(a2, b2) <==> (a1 == a2 && b1 == b2),
        a1 != b1 ==> pool_seeds(a1, b1) != pool_seeds(b1, a1),
{
    lemma_key_is_its_bytes(a1, a2);
    lemma_key_is_its_bytes(b1, b2);
    lemma_key_is_its_bytes(a1, b1);
    if pool_seeds(a1, b1) == pool_seeds(a2, b2) {
        assert(pool_seeds(a1, b1)[1] == pool_seeds(a2, b2)[1]);
        assert(pool_seeds(a1, b1)[2] == pool_seeds(a2, b2)[2]);
    }
    if a1 != b1 && pool_seeds(a1, b1) == pool_seeds(b1, a1) {
        assert(pool_seeds(a1, b1)[1] == pool_seeds(b1, a1)[1]);
    }
}

} // verus!
