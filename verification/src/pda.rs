use crate::bytes::Address;
use anchor_lang::prelude::Pubkey;
use vstd::prelude::*;

verus! {

/// The address that the chain derives for a program from a list of seeds,
/// with the bump that completes the seeds, or `None` where it derives none:
/// what `Pubkey::try_find_program_address` returns for them.
pub uninterp spec fn program_address(seeds: Seq<Seq<u8>>, program_id: Seq<u8>) -> Option<
    (Seq<u8>, u8),
>;

/// What a derivation returned, with the address as a sequence of bytes.
pub open spec fn derived(found: Option<(Address, u8)>) -> Option<(Seq<u8>, u8)> {
    match found {
        Some((address, bump)) => Some((address@, bump)),
        None => None,
    }
}

/// Derives a program address with `Pubkey::try_find_program_address` of
/// `solana_program`, which `anchor_lang` hands on. The call is trusted, not
/// proved. Its contract claims one thing: what it returns is the value of
/// [`program_address`] at the bytes of the seeds and of the program's
/// identifier, so that the same seeds and program always give the same
/// address and bump, or always none. It does not say which address that is.
#[verifier::external_body]
pub(crate) fn find_program_address(seeds: &Vec<Vec<u8>>, program_id: &Address) -> (found: Option<
    (Address, u8),
>)
    ensures
        derived(found) == program_address(seeds.deep_view(), program_id@),
{
    let slices: Vec<&[u8]> = seeds.iter().map(|seed| seed.as_slice()).collect();
    let program = Pubkey::new_from_array(*program_id);
    Pubkey::try_find_program_address(&slices, &program).map(|(key, bump)| (key.to_bytes(), bump))
}

} // verus!
