use crate::bytes::Address;
use vstd::prelude::*;

verus! {

/// How many confirmations the bridge waits for before it attests a message.
#[derive(Clone, Copy, Debug, PartialEq, Eq, Structural)]
pub enum Finality {
    Confirmed,
    Finalized,
}

impl Finality {
    /// The number that stands for the level in the configuration.
    pub open spec fn spec_to_u8(self) -> u8 {
        match self {
            Finality::Confirmed => 0,
            Finality::Finalized => 1,
        }
    }

    /// The level that `value` stands for, if it stands for one.
    pub open spec fn spec_try_from(value: u8) -> Option<Finality> {
        if value == 0 {
            Some(Finality::Confirmed)
        } else if value == 1 {
            Some(Finality::Finalized)
        } else {
            None
        }
    }

    /// The number that stands for the level in the configuration.
    pub fn to_u8(self) -> (value: u8)
        ensures
            value == self.spec_to_u8(),
    {
        match self {
            Finality::Confirmed => 0,
            Finality::Finalized => 1,
        }
    }

    /// The level that `value` stands for: 0 is `Confirmed`, 1 is
    /// `Finalized`, and no other number is a level.
    pub fn try_from(value: u8) -> (level: Option<Finality>)
        ensures
            level == Finality::spec_try_from(value),
    {
        if value == 0 {
            Some(Finality::Confirmed)
        } else if value == 1 {
            Some(Finality::Finalized)
        } else {
            None
        }
    }
}

/// The addresses of the bridge that the program was initialized with.
#[derive(Clone, Copy, Debug, PartialEq, Eq)]
pub struct WormholeAddresses {
    /// Where messages are posted.
    pub bridge: Address,
    /// Where the fee for a message is paid.
    pub fee_collector: Address,
    /// Where the bridge counts this program's messages.
    pub sequence: Address,
}

/// The configuration of the program, written once when it is initialized.
#[derive(Clone, Copy, Debug, PartialEq, Eq)]
pub struct Config {
    /// Who may register foreign emitters.
    pub owner: Address,
    /// The bridge's addresses.
    pub wormhole: WormholeAddresses,
    /// The nonce sent with every message; always zero.
    pub batch_id: u32,
    /// The number of a [`Finality`] level.
    pub finality: u8,
}

impl Config {
    /// Whether `finality` is the number of a level.
    pub open spec fn wf(self) -> bool {
        Finality::spec_try_from(self.finality) is Some
    }

    /// The configuration that an initialization with these addresses
    /// writes: batch 0 and the level `Confirmed`.
    pub open spec fn initial(owner: Address, wormhole: WormholeAddresses) -> Config {
        Config { owner, wormhole, batch_id: 0, finality: Finality::Confirmed.spec_to_u8() }
    }

    /// Whether `bridge`, `fee_collector` and `sequence` are the three
    /// addresses of the configuration.
    pub open spec fn spec_matches_bridge(
        self,
        bridge: Address,
        fee_collector: Address,
        sequence: Address,
    ) -> bool {
        &&& bridge == self.wormhole.bridge
        &&& fee_collector == self.wormhole.fee_collector
        &&& sequence == self.wormhole.sequence
    }
}

} // verus!
