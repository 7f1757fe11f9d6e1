use crate::bytes::{copy_range, Address};
use crate::error::WhMessengerError;
use std::collections::HashMap;
use vstd::prelude::*;

verus! {

broadcast use vstd::std_specs::hash::group_hash_axioms;

/// Largest number of message bytes that a stored record may hold.
pub const MESSAGE_MAX_LENGTH: usize = 512;

/// A received message as a mathematical value: what [`Received`] stands for.
pub struct ReceivedMessage {
    pub batch_id: u32,
    pub source_hash: Seq<u8>,
    pub message: Seq<u8>,
}

/// The record of one received message.
#[derive(Clone, Debug, PartialEq, Eq)]
pub struct Received {
    /// The nonce the message was sent with.
    pub batch_id: u32,
    /// The hash under which the bridge holds the attested message.
    pub wormhole_message_hash: Address,
    /// The bytes of the message.
    pub message: Vec<u8>,
}

impl View for Received {
    type V = ReceivedMessage;

    open spec fn view(&self) -> ReceivedMessage {
        ReceivedMessage {
            batch_id: self.batch_id,
            source_hash: self.wormhole_message_hash@,
            message: self.message@,
        }
    }
}

impl Received {
    /// A copy of the record.
    pub fn duplicate(&self) -> (copy: Received)
        ensures
            copy@ == self@,
    {
        let message = copy_range(self.message.as_slice(), 0, self.message.len());
        assert(message@ =~= self.message@);
        Received {
            batch_id: self.batch_id,
            wormhole_message_hash: self.wormhole_message_hash,
            message,
        }
    }
}

/// The number under which the record of chain `chain` and sequence number
/// `sequence` is stored: different pairs have different numbers.
pub open spec fn record_key(chain: u16, sequence: u64) -> u128 {
    (chain * 0x1_0000_0000_0000_0000 + sequence) as u128
}

/// The received messages, at most one for each pair of a chain and a
/// sequence number. A record is created once and never changed: an attempt
/// to create a second one under the same pair is how a replay is noticed.
pub struct ReplayGuard {
    records: HashMap<u128, Received>,
}

impl View for ReplayGuard {
    type V = Map<(u16, u64), ReceivedMessage>;

    /// The record of each pair that has one.
    closed spec fn view(&self) -> Map<(u16, u64), ReceivedMessage> {
        Map::new(
            |key: (u16, u64)| self.records@.contains_key(record_key(key.0, key.1)),
            |key: (u16, u64)| self.records@[record_key(key.0, key.1)]@,
        )
    }
}

impl ReplayGuard {
    /// A store without records.
    pub fn new() -> (guard: ReplayGuard)
        ensures
            guard@ == Map::<(u16, u64), ReceivedMessage>::empty(),
    {
        let guard = ReplayGuard { records: HashMap::new() };
        assert(guard@ =~= Map::<(u16, u64), ReceivedMessage>::empty());
        guard
    }

    /// Whether a message of `chain` with `sequence` was received.
    pub fn contains(&self, chain: u16, sequence: u64) -> (found: bool)
        ensures
            found == self@.contains_key((chain, sequence)),
    {
        let key = key_of(chain, sequence);
        self.records.contains_key(&key)
    }

    /// The record of the message of `chain` with `sequence`, if it was
    /// received.
    pub fn get(&self, chain: u16, sequence: u64) -> (found: Option<&Received>)
        ensures
            found is Some <==> self@.contains_key((chain, sequence)),
            found matches Some(record) ==> record@ == self@[(chain, sequence)],
    {
        let key = key_of(chain, sequence);
        self.records.get(&key)
    }

    /// Stores `record` as the message of `chain` with `sequence`, unless
    /// there is one: then it fails with `DuplicateMessage` and changes
    /// nothing. The test and the insertion are one step.
    pub fn create(&mut self, chain: u16, sequence: u64, record: Received) -> (r: Result<
        (),
        WhMessengerError,
    >)
        ensures
            old(self)@.contains_key((chain, sequence)) ==> r == Err::<(), WhMessengerError>(
                WhMessengerError::DuplicateMessage,
            ) && final(self)@ == old(self)@,
            !old(self)@.contains_key((chain, sequence)) ==> r is Ok && final(self)@ == old(
                self,
            )@.insert((chain, sequence), record@),
    {
        let key = key_of(chain, sequence);
        if self.records.contains_key(&key) {
            return Err(WhMessengerError::DuplicateMessage);
        }
        self.records.insert(key, record);
        proof {
            assert forall|other: (u16, u64)| other != (chain, sequence) implies record_key(
                other.0,
                other.1,
            ) != record_key(chain, sequence) by {}
            assert(self@ =~= old(self)@.insert((chain, sequence), record@));
        }
        Ok(())
    }
}

/// The number under which the record of `chain` and `sequence` is stored.
fn key_of(chain: u16, sequence: u64) -> (key: u128)
    ensures
        key == record_key(chain, sequence),
{
    (chain as u128) * 0x1_0000_0000_0000_0000 + (sequence as u128)
}

} // verus!
