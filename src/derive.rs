use crate::identity::{option_view, Identity};
use anchor_lang::prelude::Pubkey;
use vstd::prelude::*;

verus! {

/// The program-derived address and bump seed that the ledger assigns to `seeds`
/// under the program `program`, or `None` where no bump seed gives one.
pub uninterp spec fn program_address_of(seeds: Seq<Seq<u8>>, program: Seq<u8>) -> Option<(Seq<u8>, u8)>;

/// Relies on `Pubkey::try_find_program_address`: the search depends on the seeds
/// and the program id alone, and each seed here is at most 32 bytes, with fewer
/// than 16 seeds, so the call does not panic.
#[verifier::external_body]
fn try_find_program_address(seeds: &Vec<Vec<u8>>, program: &Identity) -> (r: Option<(Identity, u8)>)
    requires
        seeds@.len() < 16,
        forall|i: int| 0 <= i < seeds@.len() ==> seeds@[i]@.len() <= 32,
    ensures
        match r {
            Some((a, b)) => program_address_of(seeds@.map_values(|s: Vec<u8>| s@), program@)
                == Some((a@, b)),
            None => program_address_of(seeds@.map_values(|s: Vec<u8>| s@), program@) is None,
        },
{
    let slices: Vec<&[u8]> = seeds.iter().map(|s| s.as_slice()).collect();
    let program_id = Pubkey::new_from_array(program.bytes);
    Pubkey::try_find_program_address(&slices, &program_id)
        .map(|(k, b)| (Identity { bytes: k.to_bytes() }, b))
}

/// The seed that opens every trust record's derivation: the bytes of "trust".
pub open spec fn trust_prefix() -> Seq<u8> {
    seq![116u8, 114u8, 117u8, 115u8, 116u8]
}

/// The seeds of the trust record of `owner`.
pub open spec fn trust_seeds(owner: Seq<u8>) -> Seq<Seq<u8>> {
    seq![trust_prefix(), owner]
}

/// The storage key of the trust record of `owner` under the registry `registry`.
pub open spec fn trust_key_of(registry: Seq<u8>, owner: Seq<u8>) -> Option<Seq<u8>> {
    match program_address_of(trust_seeds(owner), registry) {
        Some((key, _bump)) => Some(key),
        None => None,
    }
}

/// Derives the storage key of the trust record of `owner` under `registry`.
pub fn derive_trust_key(registry: &Identity, owner: &Identity) -> (r: Option<Identity>)
    ensures
        option_view(r) == trust_key_of(registry@, owner@),
{
    let prefix: Vec<u8> = vec![116u8, 114u8, 117u8, 115u8, 116u8];
    let owner_seed: Vec<u8> = owner.to_vec();
    let seeds: Vec<Vec<u8>> = vec![prefix, owner_seed];
    assert(seeds@.map_values(|s: Vec<u8>| s@) =~= trust_seeds(owner@));
    match try_find_program_address(&seeds, registry) {
        Some((key, _bump)) => Some(key),
        None => None,
    }
}

} // verus!
