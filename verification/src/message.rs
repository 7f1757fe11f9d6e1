use crate::bytes::{copy_range, extend, read_address, u16_be, u16_from_be, u16_from_be_bytes, u16_to_be_bytes, Address};
use crate::error::WhMessengerError;
use vstd::prelude::*;

verus! {

/// Tag of an `Alive` payload.
pub const PAYLOAD_ID_ALIVE: u8 = 0;

/// Tag of a `Hello` payload.
pub const PAYLOAD_ID_HELLO: u8 = 1;

/// Largest number of bytes that a `Hello` message may carry.
pub const WH_MESSAGE_MAX_LENGTH: usize = 512;

/// A message as the wire format sees it: the mathematical value that
/// [`WhMessage`] stands for.
pub enum WireMessage {
    /// The announcement a program makes of itself when it is initialized.
    Alive { local_identity: Seq<u8> },
    /// An arbitrary message of at most 512 bytes.
    Hello { message: Seq<u8> },
}

impl WireMessage {
    /// Whether the message has an encoding: an identity of 32 bytes, a
    /// message of at most 512.
    pub open spec fn encodable(self) -> bool {
        match self {
            WireMessage::Alive { local_identity } => local_identity.len() == 32,
            WireMessage::Hello { message } => message.len() <= WH_MESSAGE_MAX_LENGTH,
        }
    }
}

/// The payload of a message: one tag byte, then for `Alive` the 32 bytes of
/// the identity, for `Hello` the length of the message as two bytes, most
/// significant first, and the message itself.
pub open spec fn encode(m: WireMessage) -> Result<Seq<u8>, WhMessengerError> {
    match m {
        WireMessage::Alive { local_identity } => Ok(seq![PAYLOAD_ID_ALIVE] + local_identity),
        WireMessage::Hello { message } => if message.len() > WH_MESSAGE_MAX_LENGTH {
            Err(WhMessengerError::MessageTooLong)
        } else {
            Ok(seq![PAYLOAD_ID_HELLO] + u16_be(message.len() as u16) + message)
        },
    }
}

/// The message at the front of `bytes`; bytes behind it are not looked at.
pub open spec fn decode(bytes: Seq<u8>) -> Result<WireMessage, WhMessengerError> {
    if bytes.len() == 0 {
        Err(WhMessengerError::Truncated)
    } else if bytes[0] == PAYLOAD_ID_ALIVE {
        if bytes.len() < 33 {
            Err(WhMessengerError::Truncated)
        } else {
            Ok(WireMessage::Alive { local_identity: bytes.subrange(1, 33) })
        }
    } else if bytes[0] == PAYLOAD_ID_HELLO {
        if bytes.len() < 3 {
            Err(WhMessengerError::Truncated)
        } else {
            let length = u16_from_be(bytes[1], bytes[2]) as int;
            if length > WH_MESSAGE_MAX_LENGTH || bytes.len() < 3 + length {
                Err(WhMessengerError::InvalidPayload)
            } else {
                Ok(WireMessage::Hello { message: bytes.subrange(3, 3 + length) })
            }
        }
    } else {
        Err(WhMessengerError::InvalidPayload)
    }
}

/// The messages this program sends and receives.
///
/// * `Alive`: tag 0, sent once when the program is initialized.
/// * `Hello`: tag 1, sent for every message handed to the program.
#[derive(Clone, Debug, PartialEq, Eq)]
pub enum WhMessage {
    Alive { program_id: Address },
    Hello { message: Vec<u8> },
}

impl View for WhMessage {
    type V = WireMessage;

    open spec fn view(&self) -> WireMessage {
        match *self {
            WhMessage::Alive { program_id } => WireMessage::Alive { local_identity: program_id@ },
            WhMessage::Hello { message } => WireMessage::Hello { message: message@ },
        }
    }
}

/// What a decoding returned, with the message as its mathematical value.
pub open spec fn decoded(r: Result<WhMessage, WhMessengerError>) -> Result<
    WireMessage,
    WhMessengerError,
> {
    match r {
        Ok(m) => Ok(m@),
        Err(e) => Err(e),
    }
}

/// What an encoding returned, with the payload as a sequence of bytes.
pub open spec fn encoded(r: Result<Vec<u8>, WhMessengerError>) -> Result<
    Seq<u8>,
    WhMessengerError,
> {
    match r {
        Ok(bytes) => Ok(bytes@),
        Err(e) => Err(e),
    }
}

impl WhMessage {
    /// Appends the payload of the message to `writer`. A `Hello` message of
    /// more than 512 bytes is refused with `MessageTooLong`, and `writer` is
    /// then left as it was.
    pub fn serialize(&self, writer: &mut Vec<u8>) -> (r: Result<(), WhMessengerError>)
        ensures
            match encode(self@) {
                Ok(payload) => r is Ok && final(writer)@ == old(writer)@ + payload,
                Err(e) => r == Err::<(), WhMessengerError>(e) && final(writer)@ == old(writer)@,
            },
            r is Err <==> (self@ matches WireMessage::Hello { message } && message.len()
                > WH_MESSAGE_MAX_LENGTH),
            r matches Err(e) ==> e == WhMessengerError::MessageTooLong,
    {
        match self {
            WhMessage::Alive { program_id } => {
                writer.push(PAYLOAD_ID_ALIVE);
                extend(writer, program_id.as_slice());
                assert(writer@ =~= old(writer)@ + (seq![PAYLOAD_ID_ALIVE] + program_id@));
                Ok(())
            },
            WhMessage::Hello { message } => {
                if message.len() > WH_MESSAGE_MAX_LENGTH {
                    Err(WhMessengerError::MessageTooLong)
                } else {
                    let length = u16_to_be_bytes(message.len() as u16);
                    writer.push(PAYLOAD_ID_HELLO);
                    extend(writer, length.as_slice());
                    extend(writer, message.as_slice());
                    assert(writer@ =~= old(writer)@ + (seq![PAYLOAD_ID_HELLO] + u16_be(
                        message.len() as u16,
                    ) + message@));
                    Ok(())
                }
            },
        }
    }

    /// The payload of the message, or `MessageTooLong` for a `Hello` message
    /// of more than 512 bytes.
    pub fn try_to_vec(&self) -> (r: Result<Vec<u8>, WhMessengerError>)
        ensures
            encoded(r) == encode(self@),
    {
        let mut payload: Vec<u8> = Vec::new();
        match self.serialize(&mut payload) {
            Ok(()) => {
                assert(payload@ =~= encode(self@)->Ok_0);
                Ok(payload)
            },
            Err(e) => Err(e),
        }
    }

    /// Reads the message at the front of `reader`. Bytes behind the message
    /// are not looked at.
    ///
    /// Fails with `Truncated` where `reader` is empty, or ends before the 32
    /// bytes of an identity or the two bytes of a length are complete; with
    /// `InvalidPayload` where the tag is neither 0 nor 1, the length is over
    /// 512, or fewer bytes follow than the length says.
    pub fn deserialize_reader(reader: &[u8]) -> (r: Result<WhMessage, WhMessengerError>)
        ensures
            decoded(r) == decode(reader@),
    {
        if reader.len() == 0 {
            return Err(WhMessengerError::Truncated);
        }
        let tag = reader[0];
        if tag == PAYLOAD_ID_ALIVE {
            if reader.len() < 33 {
                Err(WhMessengerError::Truncated)
            } else {
                Ok(WhMessage::Alive { program_id: read_address(reader, 1) })
            }
        } else if tag == PAYLOAD_ID_HELLO {
            if reader.len() < 3 {
                Err(WhMessengerError::Truncated)
            } else {
                let length = u16_from_be_bytes(reader[1], reader[2]) as usize;
                if length > WH_MESSAGE_MAX_LENGTH || reader.len() - 3 < length {
                    Err(WhMessengerError::InvalidPayload)
                } else {
                    Ok(WhMessage::Hello { message: copy_range(reader, 3, 3 + length) })
                }
            }
        } else {
            Err(WhMessengerError::InvalidPayload)
        }
    }
}

/// Decoding the payload of a message gives the message back, whatever bytes
/// follow the payload: for every `Hello` message of at most 512 bytes, and
/// for every `Alive` message.
pub proof fn lemma_decode_encode(m: WireMessage, rest: Seq<u8>)
    requires
        m.encodable(),
    ensures
        encode(m) is Ok,
        decode(encode(m)->Ok_0) == Ok::<WireMessage, WhMessengerError>(m),
        decode(encode(m)->Ok_0 + rest) == Ok::<WireMessage, WhMessengerError>(m),
{
    let payload = encode(m)->Ok_0;
    let longer = payload + rest;
    match m {
        WireMessage::Alive { local_identity } => {
            assert(payload.subrange(1, 33) =~= local_identity);
            assert(longer.subrange(1, 33) =~= local_identity);
        },
        WireMessage::Hello { message } => {
            let n = message.len() as int;
            assert(payload[1] == u16_be(n as u16)[0] && payload[2] == u16_be(n as u16)[1]);
            assert(longer[1] == u16_be(n as u16)[0] && longer[2] == u16_be(n as u16)[1]);
            assert(u16_from_be(payload[1], payload[2]) == n);
            assert(payload.subrange(3, 3 + n) =~= message);
            assert(longer.subrange(3, 3 + n) =~= message);
        },
    }
}

/// A sequence of bytes decodes to a message only where it starts with the
/// payload of that message.
pub proof fn lemma_encode_decode(bytes: Seq<u8>)
    requires
        decode(bytes) is Ok,
    ensures
        decode(bytes)->Ok_0.encodable(),
        encode(decode(bytes)->Ok_0) is Ok,
        encode(decode(bytes)->Ok_0)->Ok_0.is_prefix_of(bytes),
{
    let m = decode(bytes)->Ok_0;
    let payload = encode(m)->Ok_0;
    match m {
        WireMessage::Alive { local_identity } => {
            assert(payload =~= bytes.subrange(0, 33));
        },
        WireMessage::Hello { message } => {
            let n = message.len() as int;
            assert(n == u16_from_be(bytes[1], bytes[2]));
            assert(u16_be(n as u16) =~= seq![bytes[1], bytes[2]]);
            assert(payload =~= bytes.subrange(0, 3 + n));
        },
    }
}

/// Encoding a `Hello` message fails, with `MessageTooLong`, exactly where the
/// message has more than 512 bytes; one of exactly 512 bytes is encoded.
pub proof fn lemma_length_boundary(message: Seq<u8>)
    ensures
        encode(WireMessage::Hello { message }) == Err::<Seq<u8>, WhMessengerError>(
            WhMessengerError::MessageTooLong,
        ) <==> message.len() > 512,
        encode(WireMessage::Hello { message }) is Err <==> message.len() > 512,
        message.len() == 512 ==> encode(WireMessage::Hello { message }) is Ok,
{
}

/// A payload whose tag is neither 0 nor 1 is refused with `InvalidPayload`,
/// whatever follows the tag.
pub proof fn lemma_unknown_tag(bytes: Seq<u8>)
    requires
        bytes.len() > 0,
        bytes[0] != PAYLOAD_ID_ALIVE,
        bytes[0] != PAYLOAD_ID_HELLO,
    ensures
        decode(bytes) == Err::<WireMessage, WhMessengerError>(WhMessengerError::InvalidPayload),
{
}

} // verus!
