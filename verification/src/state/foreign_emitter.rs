use crate::bytes::{address_eq, all_zero, is_zero_address, Address};
use crate::error::WhMessengerError;
use crate::state::config::Config;
use std::collections::HashMap;
use vstd::prelude::*;

verus! {

broadcast use vstd::std_specs::hash::group_hash_axioms;

/// This chain's identifier in the bridge's numbering of chains.
pub const CHAIN_ID_SOLANA: u16 = 1;

/// The sender on another chain whose messages the program accepts.
#[derive(Clone, Copy, Debug, PartialEq, Eq)]
pub struct ForeignEmitter {
    /// The emitter's chain. Never 0, never this chain.
    pub chain: u16,
    /// The emitter's address on that chain. Never all zero.
    pub address: Address,
}

impl ForeignEmitter {
    /// Whether `chain` and `address` can be registered: the chain is not 0
    /// and not this chain, and the address is not all zero.
    pub open spec fn valid(chain: u16, address: Address) -> bool {
        chain != 0 && chain != CHAIN_ID_SOLANA && !all_zero(address)
    }

    /// Whether the record is one that can be registered.
    pub open spec fn wf(self) -> bool {
        ForeignEmitter::valid(self.chain, self.address)
    }

    /// The record for `chain` and `address`, or `InvalidForeignEmitter`
    /// where the chain is 0 or this chain, or the address is all zero.
    pub fn new(chain: u16, address: Address) -> (r: Result<ForeignEmitter, WhMessengerError>)
        ensures
            ForeignEmitter::valid(chain, address) ==> r == Ok::<ForeignEmitter, WhMessengerError>(
                ForeignEmitter { chain, address },
            ),
            !ForeignEmitter::valid(chain, address) ==> r == Err::<
                ForeignEmitter,
                WhMessengerError,
            >(WhMessengerError::InvalidForeignEmitter),
    {
        if chain == 0 || chain == CHAIN_ID_SOLANA || is_zero_address(&address) {
            Err(WhMessengerError::InvalidForeignEmitter)
        } else {
            Ok(ForeignEmitter { chain, address })
        }
    }

    /// Whether `address` is the emitter's address, byte for byte.
    pub fn verify(&self, address: &Address) -> (same: bool)
        ensures
            same == (*address == self.address),
    {
        address_eq(address, &self.address)
    }
}

/// Whether `address` is the registered emitter of `chain`, where `emitters`
/// holds the registered address of each chain that has one.
pub open spec fn verifies(emitters: Map<u16, Address>, chain: u16, address: Address) -> bool {
    emitters.contains_key(chain) && emitters[chain] == address
}

/// What a registration asked for by `requester` returns, where `owner` is
/// the configured owner and `emitters` holds the registered address of each
/// chain that has one: `OwnerOnly` where the requester is not the owner,
/// else `InvalidForeignEmitter` where the emitter cannot be registered, else
/// `AlreadyRegistered` where the chain has an emitter.
pub open spec fn register_result(
    owner: Address,
    emitters: Map<u16, Address>,
    requester: Address,
    chain: u16,
    address: Address,
) -> Result<(), WhMessengerError> {
    if requester != owner {
        Err(WhMessengerError::OwnerOnly)
    } else if !ForeignEmitter::valid(chain, address) {
        Err(WhMessengerError::InvalidForeignEmitter)
    } else if emitters.contains_key(chain) {
        Err(WhMessengerError::AlreadyRegistered)
    } else {
        Ok(())
    }
}

/// The registered foreign emitters: at most one for each chain.
pub struct EmitterRegistry {
    emitters: HashMap<u16, ForeignEmitter>,
}

impl View for EmitterRegistry {
    type V = Map<u16, Address>;

    /// The registered address of each chain that has one.
    closed spec fn view(&self) -> Map<u16, Address> {
        self.emitters@.map_values(|e: ForeignEmitter| e.address)
    }
}

impl EmitterRegistry {
    /// Whether every record is stored under its own chain and is one that
    /// can be registered.
    pub closed spec fn wf(&self) -> bool {
        forall|chain: u16| #[trigger]
            self.emitters@.contains_key(chain) ==> self.emitters@[chain].chain == chain
                && self.emitters@[chain].wf()
    }

    /// A registry without emitters.
    pub fn new() -> (registry: EmitterRegistry)
        ensures
            registry.wf(),
            registry@ == Map::<u16, Address>::empty(),
    {
        let registry = EmitterRegistry { emitters: HashMap::new() };
        assert(registry@ =~= Map::<u16, Address>::empty());
        registry
    }

    /// Registers `address` as the emitter of `chain`, for the owner of
    /// `config` only.
    ///
    /// Fails with `OwnerOnly` where `requester` is not the owner; else with
    /// `InvalidForeignEmitter` where the chain is 0 or this chain, or the
    /// address is all zero; else with `AlreadyRegistered` where the chain
    /// has an emitter. A registration that fails changes nothing.
    pub fn register(
        &mut self,
        config: &Config,
        requester: &Address,
        chain: u16,
        address: Address,
    ) -> (r: Result<(), WhMessengerError>)
        requires
            old(self).wf(),
        ensures
            final(self).wf(),
            r == register_result(config.owner, old(self)@, *requester, chain, address),
            r is Ok ==> final(self)@ == old(self)@.insert(chain, address),
            r is Err ==> final(self)@ == old(self)@,
    {
        if !address_eq(requester, &config.owner) {
            return Err(WhMessengerError::OwnerOnly);
        }
        let emitter = match ForeignEmitter::new(chain, address) {
            Ok(emitter) => emitter,
            Err(e) => {
                return Err(e);
            },
        };
        if self.emitters.contains_key(&chain) {
            return Err(WhMessengerError::AlreadyRegistered);
        }
        self.emitters.insert(chain, emitter);
        assert(self@ =~= old(self)@.insert(chain, address));
        Ok(())
    }

    /// The emitter registered for `chain`, if there is one.
    pub fn get(&self, chain: u16) -> (found: Option<ForeignEmitter>)
        requires
            self.wf(),
        ensures
            found is Some <==> self@.contains_key(chain),
            found matches Some(e) ==> e.chain == chain && e.address == self@[chain] && e.wf(),
    {
        match self.emitters.get(&chain) {
            Some(emitter) => Some(*emitter),
            None => None,
        }
    }

    /// Whether `address` is the registered emitter of `chain`. A chain
    /// without an emitter has no address that passes.
    pub fn verify(&self, chain: u16, address: &Address) -> (ok: bool)
        requires
            self.wf(),
        ensures
            ok == verifies(self@, chain, *address),
    {
        match self.emitters.get(&chain) {
            Some(emitter) => emitter.verify(address),
            None => false,
        }
    }
}

/// Every registered emitter is one that can be registered: its chain is not
/// 0 and not this chain, and its address is not all zero.
pub proof fn lemma_registered_is_valid(registry: EmitterRegistry, chain: u16)
    requires
        registry.wf(),
        registry@.contains_key(chain),
    ensures
        ForeignEmitter::valid(chain, registry@[chain]),
{
}

/// A registration asked for by anyone but the owner fails with `OwnerOnly`,
/// whether or not the chain and the address could be registered.
pub proof fn lemma_owner_only(
    owner: Address,
    emitters: Map<u16, Address>,
    requester: Address,
    chain: u16,
    address: Address,
)
    requires
        requester != owner,
    ensures
        register_result(owner, emitters, requester, chain, address) == Err::<(), WhMessengerError>(
            WhMessengerError::OwnerOnly,
        ),
{
}

/// The owner's registration fails with `InvalidForeignEmitter` exactly
/// where the chain is 0 or this chain, or the address is all zero; an
/// emitter that is none of these is registered where its chain has none.
pub proof fn lemma_emitter_validation(
    owner: Address,
    emitters: Map<u16, Address>,
    chain: u16,
    address: Address,
)
    ensures
        register_result(owner, emitters, owner, chain, address) == Err::<(), WhMessengerError>(
            WhMessengerError::InvalidForeignEmitter,
        ) <==> chain == 0 || chain == CHAIN_ID_SOLANA || all_zero(address),
        ForeignEmitter::valid(chain, address) && !emitters.contains_key(chain) ==> register_result(
            owner,
            emitters,
            owner,
            chain,
            address,
        ) is Ok,
{
}

/// A chain is registered once: after a registration that succeeded, every
/// further registration for that chain fails, whoever asks and whatever
/// address it brings, and the first address is the only one that passes.
pub proof fn lemma_register_once(
    owner: Address,
    emitters: Map<u16, Address>,
    requester: Address,
    chain: u16,
    address: Address,
    later: Address,
    other: Address,
)
    requires
        register_result(owner, emitters, requester, chain, address) is Ok,
    ensures
        register_result(owner, emitters.insert(chain, address), later, chain, other) is Err,
        verifies(emitters.insert(chain, address), chain, other) <==> other == address,
{
}

} // verus!
