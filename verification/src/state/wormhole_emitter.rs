use crate::bytes::{extend, Address};
use crate::pda::{find_program_address, program_address};
use vstd::prelude::*;

verus! {

/// The seed from which the address of the program's emitter is derived.
pub const SEED_PREFIX_EMITTER: [u8; 7] = [101, 109, 105, 116, 116, 101, 114];

/// The program's own emitter: the bump with which its address is derived
/// from [`SEED_PREFIX_EMITTER`]. Written once when the program is initialized.
#[derive(Clone, Copy, Debug, PartialEq, Eq, Structural)]
pub struct WormholeEmitter {
    pub bump: u8,
}

/// The seeds of the address of a program's emitter: the prefix alone.
pub open spec fn emitter_seeds() -> Seq<Seq<u8>> {
    seq![SEED_PREFIX_EMITTER@]
}

/// What a search for an emitter returned, with the address as a sequence of
/// bytes.
pub open spec fn found_emitter(found: Option<(Address, WormholeEmitter)>) -> Option<
    (Seq<u8>, u8),
> {
    match found {
        Some((address, emitter)) => Some((address@, emitter.bump)),
        None => None,
    }
}

impl WormholeEmitter {
    /// The address under which the bridge knows the emitter of program
    /// `program_id`, and the emitter with the bump of that address. The
    /// same program always has the same emitter.
    pub fn find(program_id: &Address) -> (found: Option<(Address, WormholeEmitter)>)
        ensures
            found_emitter(found) == program_address(emitter_seeds(), program_id@),
    {
        let mut prefix: Vec<u8> = Vec::new();
        extend(&mut prefix, SEED_PREFIX_EMITTER.as_slice());
        let mut seeds: Vec<Vec<u8>> = Vec::new();
        seeds.push(prefix);
        assert(seeds.deep_view() =~~= emitter_seeds());
        match find_program_address(&seeds, program_id) {
            Some((address, bump)) => Some((address, WormholeEmitter { bump })),
            None => None,
        }
    }
}

} // verus!
