pub mod bytes;
pub mod context;
pub mod error;
pub mod inbound;
pub mod message;
pub mod pda;
pub mod program;
pub mod sequence;
pub mod state;

pub use crate::bytes::Address;
pub use crate::context::{
    Initialize, InitializeBumps, PostMessage, PostedVaa, ReceiveMessage, RegisterEmitter,
    SendMessage, SendMessageBumps,
};
pub use crate::error::WhMessengerError;
pub use crate::inbound::accept;
pub use crate::message::{WhMessage, WH_MESSAGE_MAX_LENGTH};
pub use crate::program::{
    initialize, receive_message, register_emitter, send_message, WhMessenger,
};
pub use crate::sequence::{
    next_slot, slot_of_sequence, SequenceTracker, INITIAL_SEQUENCE, SEED_PREFIX_SENT,
};
pub use crate::state::config::{Config, Finality, WormholeAddresses};
pub use crate::state::foreign_emitter::{EmitterRegistry, ForeignEmitter, CHAIN_ID_SOLANA};
pub use crate::state::received::{Received, ReplayGuard, MESSAGE_MAX_LENGTH};
pub use crate::state::wormhole_emitter::{WormholeEmitter, SEED_PREFIX_EMITTER};
