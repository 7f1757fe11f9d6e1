use crate::bytes::Address;
use crate::error::WhMessengerError;
use crate::message::{decode, encode, lemma_decode_encode, WhMessage, WireMessage};
use crate::state::foreign_emitter::{verifies, EmitterRegistry};
use crate::state::received::{Received, ReceivedMessage, ReplayGuard, MESSAGE_MAX_LENGTH};
use vstd::prelude::*;

verus! {

/// What the acceptance of an attested message returns, where `emitters`
/// holds the registered address of each chain that has one, and `received`
/// the record of each chain and sequence number that has one: the record
/// that is stored, or `InvalidMessage` where the payload does not decode to
/// a `Hello` message of at most 512 bytes, else `InvalidForeignEmitter`
/// where the sender is not the registered emitter of its chain, else
/// `DuplicateMessage` where the chain and sequence number have a record.
pub open spec fn accept_result(
    emitters: Map<u16, Address>,
    received: Map<(u16, u64), ReceivedMessage>,
    chain: u16,
    address: Address,
    sequence: u64,
    batch_id: u32,
    source_hash: Address,
    payload: Seq<u8>,
) -> Result<ReceivedMessage, WhMessengerError> {
    match decode(payload) {
        Ok(WireMessage::Hello { message }) => {
            if message.len() > MESSAGE_MAX_LENGTH {
                Err(WhMessengerError::InvalidMessage)
            } else if !verifies(emitters, chain, address) {
                Err(WhMessengerError::InvalidForeignEmitter)
            } else if received.contains_key((chain, sequence)) {
                Err(WhMessengerError::DuplicateMessage)
            } else {
                Ok(ReceivedMessage { batch_id, source_hash: source_hash@, message })
            }
        },
        _ => Err(WhMessengerError::InvalidMessage),
    }
}

/// What an acceptance returned, with the record as a mathematical value.
pub open spec fn received_view(r: Result<Received, WhMessengerError>) -> Result<
    ReceivedMessage,
    WhMessengerError,
> {
    match r {
        Ok(record) => Ok(record@),
        Err(e) => Err(e),
    }
}

/// Accepts a message that the bridge has attested: decodes its payload,
/// checks that it is a `Hello` message and that its sender is the emitter
/// registered for its chain, and stores it under its chain and sequence
/// number, once. Returns the record that was stored.
///
/// Fails with `InvalidMessage` where the payload does not decode to a
/// `Hello` message; else with `InvalidForeignEmitter` where `address` is
/// not the registered emitter of `chain`, or the chain has none; else with
/// `DuplicateMessage` where a message of `chain` with `sequence` was
/// accepted before. An acceptance that fails stores nothing.
pub fn accept(
    emitters: &EmitterRegistry,
    received: &mut ReplayGuard,
    chain: u16,
    address: &Address,
    sequence: u64,
    batch_id: u32,
    source_hash: Address,
    payload: &[u8],
) -> (r: Result<Received, WhMessengerError>)
    requires
        emitters.wf(),
    ensures
        received_view(r) == accept_result(
            emitters@,
            old(received)@,
            chain,
            *address,
            sequence,
            batch_id,
            source_hash,
            payload@,
        ),
        r matches Ok(record) ==> final(received)@ == old(received)@.insert(
            (chain, sequence),
            record@,
        ),
        r is Err ==> final(received)@ == old(received)@,
{
    let message = match WhMessage::deserialize_reader(payload) {
        Ok(WhMessage::Hello { message }) => message,
        _ => {
            return Err(WhMessengerError::InvalidMessage);
        },
    };
    if message.len() > MESSAGE_MAX_LENGTH {
        return Err(WhMessengerError::InvalidMessage);
    }
    if !emitters.verify(chain, address) {
        return Err(WhMessengerError::InvalidForeignEmitter);
    }
    let record = Received { batch_id, wormhole_message_hash: source_hash, message };
    let copy = record.duplicate();
    match received.create(chain, sequence, record) {
        Ok(()) => Ok(copy),
        Err(e) => Err(e),
    }
}

/// A message is accepted once. After an acceptance that succeeded, a second
/// one for the same chain and sequence number fails with `DuplicateMessage`,
/// whatever batch, hash and `Hello` payload it brings, and the record that
/// is stored is the first one.
pub proof fn lemma_replay_rejected(
    emitters: Map<u16, Address>,
    received: Map<(u16, u64), ReceivedMessage>,
    chain: u16,
    address: Address,
    sequence: u64,
    batch_id: u32,
    source_hash: Address,
    payload: Seq<u8>,
    second_batch_id: u32,
    second_source_hash: Address,
    second_payload: Seq<u8>,
)
    requires
        accept_result(emitters, received, chain, address, sequence, batch_id, source_hash, payload)
            is Ok,
        decode(second_payload) matches Ok(m) && m is Hello,
    ensures
        ({
            let record = accept_result(
                emitters,
                received,
                chain,
                address,
                sequence,
                batch_id,
                source_hash,
                payload,
            )->Ok_0;
            let after = received.insert((chain, sequence), record);
            &&& accept_result(
                emitters,
                after,
                chain,
                address,
                sequence,
                second_batch_id,
                second_source_hash,
                second_payload,
            ) == Err::<ReceivedMessage, WhMessengerError>(WhMessengerError::DuplicateMessage)
            &&& after[(chain, sequence)] == record
        }),
{
}

/// Once a chain and a sequence number have a record, no acceptance for them
/// succeeds, whatever sender, batch, hash and payload it brings.
pub proof fn lemma_accepted_once(
    emitters: Map<u16, Address>,
    received: Map<(u16, u64), ReceivedMessage>,
    chain: u16,
    address: Address,
    sequence: u64,
    batch_id: u32,
    source_hash: Address,
    payload: Seq<u8>,
)
    requires
        received.contains_key((chain, sequence)),
    ensures
        accept_result(emitters, received, chain, address, sequence, batch_id, source_hash, payload)
            is Err,
{
}

/// A `Hello` message whose sender is not the registered emitter of its
/// chain is refused with `InvalidForeignEmitter`: where the chain has
/// another emitter, and where it has none at all.
pub proof fn lemma_foreign_emitter_mismatch(
    emitters: Map<u16, Address>,
    received: Map<(u16, u64), ReceivedMessage>,
    chain: u16,
    address: Address,
    sequence: u64,
    batch_id: u32,
    source_hash: Address,
    payload: Seq<u8>,
)
    requires
        decode(payload) matches Ok(m) && m is Hello,
        !emitters.contains_key(chain) || emitters[chain] != address,
    ensures
        accept_result(emitters, received, chain, address, sequence, batch_id, source_hash, payload)
            == Err::<ReceivedMessage, WhMessengerError>(WhMessengerError::InvalidForeignEmitter),
{
}

/// What is accepted is what was encoded: where the payload is the encoding
/// of a `Hello` message of at most 512 bytes, the sender is the registered
/// emitter and the chain and sequence number are new, the record that is
/// stored holds that message, with the batch and the hash handed in.
pub proof fn lemma_accept_encoded(
    emitters: Map<u16, Address>,
    received: Map<(u16, u64), ReceivedMessage>,
    chain: u16,
    address: Address,
    sequence: u64,
    batch_id: u32,
    source_hash: Address,
    message: Seq<u8>,
)
    requires
        message.len() <= 512,
        verifies(emitters, chain, address),
        !received.contains_key((chain, sequence)),
    ensures
        accept_result(
            emitters,
            received,
            chain,
            address,
            sequence,
            batch_id,
            source_hash,
            encode(WireMessage::Hello { message })->Ok_0,
        ) == Ok::<ReceivedMessage, WhMessengerError>(
            ReceivedMessage { batch_id, source_hash: source_hash@, message },
        ),
{
    lemma_decode_encode(WireMessage::Hello { message }, Seq::empty());
}

} // verus!
