use vstd::prelude::*;
use vstd::slice::slice_to_vec;

verus! {

/// A 32-byte account address on the chain.
pub type Address = [u8; 32];

/// The program that verifies enclave attestations on chain.
pub const ATTESTATION_PID: Address = [
    12, 246, 37, 40, 156, 146, 161, 132, 190, 120, 201, 18, 161, 81, 189, 215,
    81, 28, 243, 189, 81, 230, 198, 37, 127, 189, 237, 45, 180, 3, 188, 191,
];

/// The seed tag of quote accounts: the bytes of `"QuoteAccountData"`.
pub const QUOTE_SEED: [u8; 16] = [81, 117, 111, 116, 101, 65, 99, 99, 111, 117, 110, 116, 68, 97, 116, 97];

/// The seed tag of permission accounts: the bytes of `"PermissionAccountData"`.
pub const PERMISSION_SEED: [u8; 21] = [
    80, 101, 114, 109, 105, 115, 115, 105, 111, 110, 65, 99, 99, 111, 117, 110, 116, 68, 97, 116, 97,
];

/// The seed tag of the global state account: the bytes of `"STATE"`.
pub const STATE_SEED: [u8; 5] = [83, 84, 65, 84, 69];

/// The largest number of seeds a derivation takes; the bump seed is the next one.
pub const MAX_SEEDS: usize = 15;

/// The largest length of a single seed.
pub const MAX_SEED_LEN: usize = 32;

/// The program-derived address and bump seed of a seed tuple under a program.
pub uninterp spec fn program_address(seeds: Seq<Seq<u8>>, program: Seq<u8>) -> (Seq<u8>, u8);

/// The byte strings held by a vector of seeds.
pub open spec fn seeds_view(seeds: Seq<Vec<u8>>) -> Seq<Seq<u8>> {
    seeds.map_values(|s: Vec<u8>| s@)
}

/// A seed tuple that a derivation accepts.
pub open spec fn valid_seeds(seeds: Seq<Seq<u8>>) -> bool {
    &&& seeds.len() <= MAX_SEEDS
    &&& forall|i: int| 0 <= i < seeds.len() ==> #[trigger] seeds[i].len() <= MAX_SEED_LEN
}

/// Relies on solana_sdk::pubkey::Pubkey::find_program_address: the first
/// off-curve address of the seeds, the bump seed and the program, searched
/// from bump 255 down. It panics when more than fifteen seeds or a seed
/// longer than 32 bytes are given, or when no bump fits, which happens with
/// probability 2^-256.
#[verifier::external_body]
fn find_program_address(seeds: &Vec<Vec<u8>>, program: &Address) -> (r: (Address, u8))
    requires
        valid_seeds(seeds_view(seeds@)),
    ensures
        (r.0@, r.1) == program_address(seeds_view(seeds@), program@),
{
    let slices: Vec<&[u8]> = seeds.iter().map(|s| s.as_slice()).collect();
    let (key, bump) = solana_sdk::pubkey::Pubkey::find_program_address(
        &slices,
        &solana_sdk::pubkey::Pubkey::new_from_array(*program),
    );
    (key.to_bytes(), bump)
}

/// Derives the address and bump seed of `seeds` under `program`.
pub fn derive_address(seeds: &Vec<Vec<u8>>, program: &Address) -> (r: (Address, u8))
    requires
        valid_seeds(seeds_view(seeds@)),
    ensures
        (r.0@, r.1) == program_address(seeds_view(seeds@), program@),
{
    find_program_address(seeds, program)
}

/// Deriving twice from equal seed tuples and programs gives the same address
/// and bump: derivation depends on its inputs alone.
pub proof fn lemma_derive_deterministic(
    seeds1: Seq<Seq<u8>>,
    seeds2: Seq<Seq<u8>>,
    program1: Seq<u8>,
    program2: Seq<u8>,
)
    requires
        seeds1 == seeds2,
        program1 == program2,
    ensures
        program_address(seeds1, program1) == program_address(seeds2, program2),
{
}

/// The seeds of a function's quote account: the tag `"QuoteAccountData"` and the function.
pub open spec fn function_quote_seeds(function: Seq<u8>) -> Seq<Seq<u8>> {
    seq![QUOTE_SEED@, function]
}

/// The seeds of a permission of `grantee` on `queue`, granted by `authority`.
pub open spec fn permission_seeds(authority: Seq<u8>, queue: Seq<u8>, grantee: Seq<u8>) -> Seq<Seq<u8>> {
    seq![PERMISSION_SEED@, authority, queue, grantee]
}

/// The seeds of the program's global state account: the tag `"STATE"`.
pub open spec fn state_seeds() -> Seq<Seq<u8>> {
    seq![STATE_SEED@]
}

/// The quote account of a function.
pub fn function_quote_address(function: &Address) -> (r: Address)
    ensures
        r@ == program_address(function_quote_seeds(function@), ATTESTATION_PID@).0,
{
    let tag = slice_to_vec(QUOTE_SEED.as_slice());
    let seeds: Vec<Vec<u8>> = vec![tag, slice_to_vec(function.as_slice())];
    assert(seeds_view(seeds@) =~= function_quote_seeds(function@));
    derive_address(&seeds, &ATTESTATION_PID).0
}

/// The permission account of `grantee` on `queue`, granted by the queue's `authority`.
pub fn permission_address(authority: &Address, queue: &Address, grantee: &Address) -> (r: Address)
    ensures
        r@ == program_address(permission_seeds(authority@, queue@, grantee@), ATTESTATION_PID@).0,
{
    let tag = slice_to_vec(PERMISSION_SEED.as_slice());
    let seeds: Vec<Vec<u8>> = vec![
        tag,
        slice_to_vec(authority.as_slice()),
        slice_to_vec(queue.as_slice()),
        slice_to_vec(grantee.as_slice()),
    ];
    assert(seeds_view(seeds@) =~= permission_seeds(authority@, queue@, grantee@));
    derive_address(&seeds, &ATTESTATION_PID).0
}

/// The global state account of the attestation program.
pub fn state_address() -> (r: Address)
    ensures
        r@ == program_address(state_seeds(), ATTESTATION_PID@).0,
{
    let tag = slice_to_vec(STATE_SEED.as_slice());
    let seeds: Vec<Vec<u8>> = vec![tag];
    assert(seeds_view(seeds@) =~= state_seeds());
    derive_address(&seeds, &ATTESTATION_PID).0
}

} // verus!
