use crate::bytes::{extend, u64_be, u64_to_be_bytes, Address};
use crate::pda::{derived, find_program_address, program_address};
use vstd::prelude::*;

verus! {

/// The sequence number of the first message that an emitter posts.
pub const INITIAL_SEQUENCE: u64 = 1;

/// The seed from which the address of every posted message is derived.
pub const SEED_PREFIX_SENT: [u8; 4] = [115, 101, 110, 116];

/// The bridge's count of the messages that an emitter has posted. The bridge
/// owns it and adds one with every message it accepts; the program reads it.
#[derive(Clone, Copy, Debug, PartialEq, Eq, Structural)]
pub struct SequenceTracker {
    pub sequence: u64,
}

impl SequenceTracker {
    /// The sequence number that the emitter's next message takes.
    pub open spec fn spec_next_value(self) -> int {
        self.sequence + 1
    }

    /// The count as it stands.
    pub fn value(&self) -> (value: u64)
        ensures
            value == self.sequence,
    {
        self.sequence
    }

    /// The sequence number that the emitter's next message takes: one more
    /// than the count.
    pub fn next_value(&self) -> (next: u64)
        requires
            self.sequence < u64::MAX,
        ensures
            next == self.spec_next_value(),
    {
        self.sequence + 1
    }
}

/// The seeds of the address of the message with sequence number `sequence`:
/// the prefix, then the eight bytes of the number, most significant first.
pub open spec fn slot_seeds(sequence: u64) -> Seq<Seq<u8>> {
    seq![SEED_PREFIX_SENT@, u64_be(sequence)]
}

/// The seeds of the address of the message with sequence number `sequence`.
pub fn slot_seeds_of(sequence: u64) -> (seeds: Vec<Vec<u8>>)
    ensures
        seeds.deep_view() == slot_seeds(sequence),
{
    let mut prefix: Vec<u8> = Vec::new();
    extend(&mut prefix, SEED_PREFIX_SENT.as_slice());
    let number = u64_to_be_bytes(sequence);
    let mut digits: Vec<u8> = Vec::new();
    extend(&mut digits, number.as_slice());
    let mut seeds: Vec<Vec<u8>> = Vec::new();
    seeds.push(prefix);
    seeds.push(digits);
    assert(seeds.deep_view() =~~= slot_seeds(sequence));
    seeds
}

/// The address at which the bridge stores the message of program
/// `program_id` with sequence number `sequence`, and its bump. The same
/// program and number always give the same address.
pub fn slot_of_sequence(program_id: &Address, sequence: u64) -> (slot: Option<(Address, u8)>)
    ensures
        derived(slot) == program_address(slot_seeds(sequence), program_id@),
{
    let seeds = slot_seeds_of(sequence);
    find_program_address(&seeds, program_id)
}

/// The sequence number that the next message of program `program_id` takes,
/// and the address at which the bridge will store that message, with its
/// bump: known before the message is posted.
pub fn next_slot(program_id: &Address, tracker: &SequenceTracker) -> (next: (
    u64,
    Option<(Address, u8)>,
))
    requires
        tracker.sequence < u64::MAX,
    ensures
        next.0 == tracker.spec_next_value(),
        derived(next.1) == program_address(slot_seeds(next.0), program_id@),
{
    let sequence = tracker.next_value();
    (sequence, slot_of_sequence(program_id, sequence))
}

/// Messages with different sequence numbers have different seeds.
pub proof fn lemma_slot_seeds_injective(a: u64, b: u64)
    requires
        slot_seeds(a) == slot_seeds(b),
    ensures
        a == b,
{
    assert(slot_seeds(a)[1] == u64_be(a));
    assert(slot_seeds(b)[1] == u64_be(b));
    crate::bytes::lemma_u64_be_injective(a, b);
}

} // verus!
