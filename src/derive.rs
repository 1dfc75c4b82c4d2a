use vstd::prelude::*;

use crate::key::Pubkey;

verus! {

/// The program-derived address for `seeds` under `program_id`, where one exists.
pub uninterp spec fn program_address(seeds: Seq<Seq<u8>>, program_id: Seq<u8>) -> Option<Seq<u8>>;

/// Relies on `Pubkey::try_find_program_address` (solana_program, re-exported by anchor_lang):
/// the address it finds depends on the seeds and the program id alone, and it returns `None`
/// where a seed is too long, there are too many seeds, or no bump seed gives an address.
#[verifier::external_body]
fn find_program_address(seeds: &Vec<Vec<u8>>, program_id: &Pubkey) -> (r: Option<Pubkey>)
    ensures
        match r {
            Some(k) => program_address(seeds_view(seeds@), program_id@) == Some(k@),
            None => program_address(seeds_view(seeds@), program_id@) is None,
        },
{
    let slices: Vec<&[u8]> = seeds.iter().map(|s| s.as_slice()).collect();
    let id = anchor_lang::prelude::Pubkey::new_from_array(program_id.bytes);
    anchor_lang::prelude::Pubkey::try_find_program_address(&slices, &id).map(
        |(k, _bump)| Pubkey { bytes: k.to_bytes() },
    )
}

/// The byte strings of a list of seeds.
pub open spec fn seeds_view(seeds: Seq<Vec<u8>>) -> Seq<Seq<u8>> {
    seeds.map_values(|s: Vec<u8>| s@)
}

/// ASCII `global_state`.
pub open spec fn global_state_tag() -> Seq<u8> {
    seq![103u8, 108, 111, 98, 97, 108, 95, 115, 116, 97, 116, 101]
}

/// ASCII `escrow`.
pub open spec fn escrow_tag() -> Seq<u8> {
    seq![101u8, 115, 99, 114, 111, 119]
}

/// ASCII `reward_claimed`.
pub open spec fn reward_claimed_tag() -> Seq<u8> {
    seq![114u8, 101, 119, 97, 114, 100, 95, 99, 108, 97, 105, 109, 101, 100]
}

/// Seeds of the registry's address.
pub open spec fn global_state_seeds() -> Seq<Seq<u8>> {
    seq![global_state_tag()]
}

/// Seeds of a quest's escrow account.
pub open spec fn escrow_seeds(quest: Seq<u8>) -> Seq<Seq<u8>> {
    seq![escrow_tag(), quest]
}

/// Seeds of the claim receipt of `winner` for `quest`.
pub open spec fn reward_claimed_seeds(quest: Seq<u8>, winner: Seq<u8>) -> Seq<Seq<u8>> {
    seq![reward_claimed_tag(), quest, winner]
}

/// Whether `supplied` is the address derived from `seeds` under `program_id`.
pub open spec fn is_derived(seeds: Seq<Seq<u8>>, program_id: Pubkey, supplied: Pubkey) -> bool {
    program_address(seeds, program_id@) == Some(supplied@)
}

fn check_derived(seeds: &Vec<Vec<u8>>, program_id: &Pubkey, supplied: &Pubkey) -> (r: bool)
    ensures
        r == is_derived(seeds_view(seeds@), *program_id, *supplied),
{
    match find_program_address(seeds, program_id) {
        Some(k) => {
            let same = k.same_as(supplied);
            proof {
                broadcast use vstd::array::group_array_axioms, vstd::array::lemma_array_index;

                if k@ == supplied@ {
                    assert(k.bytes =~= supplied.bytes);
                }
            }
            same
        },
        None => false,
    }
}

/// Id of the token program (`TokenkegQfeZyiNwAJbNbGKPFXCWuBvf9Ss623VQ5DA`).
pub open spec fn token_program_id() -> Seq<u8> {
    seq![6u8, 221, 246, 225, 215, 101, 161, 147, 217, 203, 225, 70, 206, 235, 121, 172, 28, 180, 133, 237, 95, 91, 55, 145, 58, 140, 245, 133, 126, 255, 0, 169]
}

/// Id of the associated-token program (`ATokenGPvbdGVxr1b2hvZbsiqW5xWH25efTNsLJA8knL`).
pub open spec fn associated_token_program_id() -> Seq<u8> {
    seq![140u8, 151, 37, 143, 78, 36, 137, 241, 187, 61, 16, 41, 20, 142, 13, 131, 11, 90, 19, 153, 218, 255, 16, 132, 4, 142, 123, 216, 219, 233, 248, 89]
}

/// Seeds of the associated token account of `wallet` for `mint`.
pub open spec fn associated_token_seeds(wallet: Seq<u8>, mint: Seq<u8>) -> Seq<Seq<u8>> {
    seq![wallet, token_program_id(), mint]
}

/// Whether `supplied` is the associated token account of `wallet` for `mint`: the
/// address derived from its seeds under the associated-token program.
pub open spec fn is_associated_address(wallet: Pubkey, mint: Pubkey, supplied: Pubkey) -> bool {
    program_address(associated_token_seeds(wallet@, mint@), associated_token_program_id())
        == Some(supplied@)
}

/// Whether `supplied` is the registry's derived address.
pub fn is_global_state_address(program_id: &Pubkey, supplied: &Pubkey) -> (r: bool)
    ensures
        r == is_derived(global_state_seeds(), *program_id, *supplied),
{
    let tag: Vec<u8> = vec![103u8, 108, 111, 98, 97, 108, 95, 115, 116, 97, 116, 101];
    assert(tag@ =~= global_state_tag());
    let seeds: Vec<Vec<u8>> = vec![tag];
    assert(seeds_view(seeds@) =~= global_state_seeds());
    check_derived(&seeds, program_id, supplied)
}

/// Whether `supplied` is the derived escrow address of `quest`.
pub fn is_escrow_address(program_id: &Pubkey, quest: &Pubkey, supplied: &Pubkey) -> (r: bool)
    ensures
        r == is_derived(escrow_seeds(quest@), *program_id, *supplied),
{
    let tag: Vec<u8> = vec![101u8, 115, 99, 114, 111, 119];
    assert(tag@ =~= escrow_tag());
    let seeds: Vec<Vec<u8>> = vec![tag, quest.to_vec()];
    assert(seeds_view(seeds@) =~= escrow_seeds(quest@));
    check_derived(&seeds, program_id, supplied)
}

/// Whether `supplied` is the derived address of the claim receipt of `winner` for `quest`.
pub fn is_reward_claimed_address(
    program_id: &Pubkey,
    quest: &Pubkey,
    winner: &Pubkey,
    supplied: &Pubkey,
) -> (r: bool)
    ensures
        r == is_derived(reward_claimed_seeds(quest@, winner@), *program_id, *supplied),
{
    let tag: Vec<u8> = vec![114u8, 101, 119, 97, 114, 100, 95, 99, 108, 97, 105, 109, 101, 100];
    assert(tag@ =~= reward_claimed_tag());
    let seeds: Vec<Vec<u8>> = vec![tag, quest.to_vec(), winner.to_vec()];
    assert(seeds_view(seeds@) =~= reward_claimed_seeds(quest@, winner@));
    check_derived(&seeds, program_id, supplied)
}

/// Whether `supplied` is the associated token account of `wallet` for `mint`.
pub fn is_associated_token_address(wallet: &Pubkey, mint: &Pubkey, supplied: &Pubkey) -> (r: bool)
    ensures
        r == is_associated_address(*wallet, *mint, *supplied),
{
    let token_program: Vec<u8> = vec![6u8, 221, 246, 225, 215, 101, 161, 147, 217, 203, 225, 70, 206, 235, 121, 172, 28, 180, 133, 237, 95, 91, 55, 145, 58, 140, 245, 133, 126, 255, 0, 169];
    assert(token_program@ =~= token_program_id());
    let seeds: Vec<Vec<u8>> = vec![wallet.to_vec(), token_program, mint.to_vec()];
    assert(seeds_view(seeds@) =~= associated_token_seeds(wallet@, mint@));
    let program = Pubkey { bytes: [140u8, 151, 37, 143, 78, 36, 137, 241, 187, 61, 16, 41, 20, 142, 13, 131, 11, 90, 19, 153, 218, 255, 16, 132, 4, 142, 123, 216, 219, 233, 248, 89] };
    assert(program@ =~= associated_token_program_id());
    check_derived(&seeds, &program, supplied)
}

} // verus!
