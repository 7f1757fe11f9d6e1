use crate::bytes::{extend, Address};
use crate::pda::program_address;
use crate::sequence::{
    slot_of_sequence, slot_seeds, slot_seeds_of, SequenceTracker, INITIAL_SEQUENCE,
};
use crate::state::config::{Finality, WormholeAddresses};
use crate::state::wormhole_emitter::{emitter_seeds, WormholeEmitter, SEED_PREFIX_EMITTER};
use vstd::prelude::*;

verus! {

/// The bumps of the addresses that an initialization derives.
#[derive(Clone, Copy, Debug, PartialEq, Eq, Structural)]
pub struct InitializeBumps {
    /// Of the program's emitter.
    pub wormhole_emitter: u8,
    /// Of the address that the `Alive` message is stored at.
    pub wormhole_message: u8,
}

/// What an initialization is called with.
#[derive(Clone, Copy, Debug, PartialEq, Eq)]
pub struct Initialize {
    /// The identifier of the program that is initialized.
    pub program_id: Address,
    /// Who initializes the program, and owns it from then on.
    pub owner: Address,
    /// Where the bridge takes messages.
    pub wormhole_bridge: Address,
    /// Where the bridge takes its fee.
    pub wormhole_fee_collector: Address,
    /// Where the bridge counts the program's messages.
    pub wormhole_sequence: Address,
    pub bumps: InitializeBumps,
}

impl Initialize {
    /// What [`Initialize::derive`] returns, where `emitter` and `message`
    /// are the derived addresses, with their bumps, of the program's
    /// emitter and of its first message.
    pub open spec fn derived_from(
        program_id: Address,
        owner: Address,
        wormhole: WormholeAddresses,
        emitter: Option<(Seq<u8>, u8)>,
        message: Option<(Seq<u8>, u8)>,
    ) -> Option<Initialize> {
        match (emitter, message) {
            (Some((_, emitter_bump)), Some((_, message_bump))) => Some(
                Initialize {
                    program_id,
                    owner,
                    wormhole_bridge: wormhole.bridge,
                    wormhole_fee_collector: wormhole.fee_collector,
                    wormhole_sequence: wormhole.sequence,
                    bumps: InitializeBumps {
                        wormhole_emitter: emitter_bump,
                        wormhole_message: message_bump,
                    },
                },
            ),
            _ => None,
        }
    }

    /// The call that initializes program `program_id` for `owner` with the
    /// bridge's addresses `wormhole`: the bumps are those of the program's
    /// emitter and of the address that its first message is stored at.
    /// `None` where one of the two addresses cannot be derived.
    pub fn derive(program_id: Address, owner: Address, wormhole: WormholeAddresses) -> (r: Option<
        Initialize,
    >)
        ensures
            r == Initialize::derived_from(
                program_id,
                owner,
                wormhole,
                program_address(emitter_seeds(), program_id@),
                program_address(slot_seeds(INITIAL_SEQUENCE), program_id@),
            ),
    {
        let emitter = WormholeEmitter::find(&program_id);
        let message = slot_of_sequence(&program_id, INITIAL_SEQUENCE);
        match (emitter, message) {
            (Some((_, emitter)), Some((_, message_bump))) => Some(
                Initialize {
                    program_id,
                    owner,
                    wormhole_bridge: wormhole.bridge,
                    wormhole_fee_collector: wormhole.fee_collector,
                    wormhole_sequence: wormhole.sequence,
                    bumps: InitializeBumps {
                        wormhole_emitter: emitter.bump,
                        wormhole_message: message_bump,
                    },
                },
            ),
            _ => None,
        }
    }
}

/// What a registration of a foreign emitter is called with.
#[derive(Clone, Copy, Debug, PartialEq, Eq)]
pub struct RegisterEmitter {
    /// Who asks for the registration.
    pub owner: Address,
}

/// The bump of the address that a sent message is stored at.
#[derive(Clone, Copy, Debug, PartialEq, Eq, Structural)]
pub struct SendMessageBumps {
    pub wormhole_message: u8,
}

/// What the sending of a message is called with.
#[derive(Clone, Copy, Debug, PartialEq, Eq)]
pub struct SendMessage {
    /// The address handed in as the bridge's.
    pub wormhole_bridge: Address,
    /// The address handed in as the fee collector's.
    pub wormhole_fee_collector: Address,
    /// The address handed in as that of the bridge's count.
    pub wormhole_sequence: Address,
    /// The bridge's count of the program's messages, as it stands.
    pub sequence: SequenceTracker,
    pub bumps: SendMessageBumps,
}

/// A message that the bridge has verified and holds under its hash.
#[derive(Clone, Debug, PartialEq, Eq)]
pub struct PostedVaa {
    /// The chain the message comes from.
    pub emitter_chain: u16,
    /// Who sent it on that chain.
    pub emitter_address: Address,
    /// The sender's sequence number of the message.
    pub sequence: u64,
    /// The nonce it was sent with.
    pub batch_id: u32,
    /// The payload, still encoded.
    pub payload: Vec<u8>,
}

/// What the receiving of a message is called with.
#[derive(Clone, Debug, PartialEq, Eq)]
pub struct ReceiveMessage {
    /// The attested message that the bridge holds under the given hash.
    pub posted: PostedVaa,
}

/// A request to the bridge to post a message, as a mathematical value.
pub struct PostRequest {
    pub batch_id: u32,
    pub payload: Seq<u8>,
    pub finality: Finality,
    pub sequence: u64,
    pub message_seeds: Seq<Seq<u8>>,
    pub emitter_seeds: Seq<Seq<u8>>,
}

/// A request to the bridge to post a message. The program decides what is
/// posted; its caller hands the request to the bridge.
#[derive(Clone, Debug, PartialEq, Eq)]
pub struct PostMessage {
    /// The nonce of the message.
    pub batch_id: u32,
    /// The encoded message.
    pub payload: Vec<u8>,
    /// How long the bridge is to wait before it attests the message.
    pub finality: Finality,
    /// The sequence number that the message takes.
    pub sequence: u64,
    /// The seeds with which the program signs for the address that the
    /// message is stored at.
    pub message_seeds: Vec<Vec<u8>>,
    /// The seeds with which the program signs for its emitter.
    pub emitter_seeds: Vec<Vec<u8>>,
}

impl View for PostMessage {
    type V = PostRequest;

    open spec fn view(&self) -> PostRequest {
        PostRequest {
            batch_id: self.batch_id,
            payload: self.payload@,
            finality: self.finality,
            sequence: self.sequence,
            message_seeds: self.message_seeds.deep_view(),
            emitter_seeds: self.emitter_seeds.deep_view(),
        }
    }
}

/// The seeds that sign for the stored message with sequence number
/// `sequence`: the seeds of its address, then the bump.
pub open spec fn message_signer_seeds(sequence: u64, bump: u8) -> Seq<Seq<u8>> {
    slot_seeds(sequence).push(seq![bump])
}

/// The seeds that sign for the program's emitter: the prefix, then the bump.
pub open spec fn emitter_signer_seeds(bump: u8) -> Seq<Seq<u8>> {
    seq![SEED_PREFIX_EMITTER@, seq![bump]]
}

/// The seeds that sign for the stored message with sequence number
/// `sequence`.
pub fn message_signer_seeds_of(sequence: u64, bump: u8) -> (seeds: Vec<Vec<u8>>)
    ensures
        seeds.deep_view() == message_signer_seeds(sequence, bump),
{
    let mut seeds = slot_seeds_of(sequence);
    let mut last: Vec<u8> = Vec::new();
    last.push(bump);
    seeds.push(last);
    assert(seeds.deep_view() =~~= message_signer_seeds(sequence, bump));
    seeds
}

/// The seeds that sign for the program's emitter.
pub fn emitter_signer_seeds_of(bump: u8) -> (seeds: Vec<Vec<u8>>)
    ensures
        seeds.deep_view() == emitter_signer_seeds(bump),
{
    let mut prefix: Vec<u8> = Vec::new();
    extend(&mut prefix, SEED_PREFIX_EMITTER.as_slice());
    let mut last: Vec<u8> = Vec::new();
    last.push(bump);
    let mut seeds: Vec<Vec<u8>> = Vec::new();
    seeds.push(prefix);
    seeds.push(last);
    assert(seeds.deep_view() =~~= emitter_signer_seeds(bump));
    seeds
}

} // verus!
