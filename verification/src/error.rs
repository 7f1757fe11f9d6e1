use vstd::prelude::*;

verus! {

/// Every way an operation of the messenger can fail. A failed operation
/// leaves the stored state as it was.
#[derive(Clone, Copy, Debug, PartialEq, Eq, Structural)]
pub enum WhMessengerError {
    /// The requester is not the owner recorded in the configuration.
    OwnerOnly,
    /// A foreign emitter with chain 0, with this chain's own identifier or
    /// with the all-zero address; or an attested message whose sender is not
    /// the emitter registered for its chain.
    InvalidForeignEmitter,
    /// The chain already has a registered emitter.
    AlreadyRegistered,
    /// A `Hello` message of more than 512 bytes was to be encoded.
    MessageTooLong,
    /// The payload has an unknown tag, declares more than 512 message bytes,
    /// or declares more message bytes than it holds.
    InvalidPayload,
    /// The payload ends before a field of fixed size is complete.
    Truncated,
    /// A received payload that does not decode to a `Hello` message.
    InvalidMessage,
    /// A message with this chain and sequence number was received before.
    DuplicateMessage,
    /// A bridge address that differs from the one in the configuration.
    InvalidBridgeConfig,
}

impl WhMessengerError {
    /// The text of the error, as `name` returns it.
    pub open spec fn spec_name(self) -> Seq<char> {
        match self {
            WhMessengerError::OwnerOnly => "OwnerOnly"@,
            WhMessengerError::InvalidForeignEmitter => "InvalidForeignEmitter"@,
            WhMessengerError::AlreadyRegistered => "AlreadyRegistered"@,
            WhMessengerError::MessageTooLong => "MessageTooLong"@,
            WhMessengerError::InvalidPayload => "InvalidPayload"@,
            WhMessengerError::Truncated => "Truncated"@,
            WhMessengerError::InvalidMessage => "InvalidMessage"@,
            WhMessengerError::DuplicateMessage => "DuplicateMessage"@,
            WhMessengerError::InvalidBridgeConfig => "InvalidBridgeConfig"@,
        }
    }

    /// The text shown for this error: the name of its kind.
    pub fn name(&self) -> (text: &'static str)
        ensures
            text@ == self.spec_name(),
    {
        match self {
            WhMessengerError::OwnerOnly => "OwnerOnly",
            WhMessengerError::InvalidForeignEmitter => "InvalidForeignEmitter",
            WhMessengerError::AlreadyRegistered => "AlreadyRegistered",
            WhMessengerError::MessageTooLong => "MessageTooLong",
            WhMessengerError::InvalidPayload => "InvalidPayload",
            WhMessengerError::Truncated => "Truncated",
            WhMessengerError::InvalidMessage => "InvalidMessage",
            WhMessengerError::DuplicateMessage => "DuplicateMessage",
            WhMessengerError::InvalidBridgeConfig => "InvalidBridgeConfig",
        }
    }
}

} // verus!
