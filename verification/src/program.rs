use crate::bytes::{address_eq, Address};
use crate::context::{
    emitter_signer_seeds, emitter_signer_seeds_of, message_signer_seeds, message_signer_seeds_of,
    Initialize, PostMessage, PostRequest, ReceiveMessage, RegisterEmitter, SendMessage,
};
use crate::error::WhMessengerError;
use crate::inbound::{accept, accept_result, received_view};
use crate::message::{decode, encode, lemma_decode_encode, WhMessage, WireMessage};
use crate::sequence::INITIAL_SEQUENCE;
use crate::state::config::{Config, Finality, WormholeAddresses};
use crate::state::foreign_emitter::{register_result, EmitterRegistry, ForeignEmitter};
use crate::state::received::{Received, ReceivedMessage, ReplayGuard, MESSAGE_MAX_LENGTH};
use crate::state::wormhole_emitter::WormholeEmitter;
use vstd::prelude::*;

verus! {

/// Everything the program has stored, as a mathematical value.
pub struct ProtocolState {
    /// The program's own identifier.
    pub program_id: Address,
    /// The configuration.
    pub config: Config,
    /// The program's emitter.
    pub wormhole_emitter: WormholeEmitter,
    /// The registered address of each chain that has one.
    pub foreign_emitters: Map<u16, Address>,
    /// The received message of each chain and sequence number that has one.
    pub received: Map<(u16, u64), ReceivedMessage>,
}

impl ProtocolState {
    /// Whether the configuration names a finality level, every registered
    /// emitter is one that can be registered, and no stored message has
    /// more than 512 bytes.
    pub open spec fn wf(self) -> bool {
        &&& self.config.wf()
        &&& forall|chain: u16| #[trigger]
            self.foreign_emitters.contains_key(chain) ==> ForeignEmitter::valid(
                chain,
                self.foreign_emitters[chain],
            )
        &&& forall|key: (u16, u64)| #[trigger]
            self.received.contains_key(key) ==> self.received[key].message.len()
                <= MESSAGE_MAX_LENGTH
    }

    /// What an initialization stores: the configuration with the owner and
    /// the bridge's addresses, batch 0 and the level `Confirmed`; the
    /// emitter's bump; no foreign emitter and no received message.
    pub open spec fn initial(ctx: Initialize) -> ProtocolState {
        ProtocolState {
            program_id: ctx.program_id,
            config: Config::initial(
                ctx.owner,
                WormholeAddresses {
                    bridge: ctx.wormhole_bridge,
                    fee_collector: ctx.wormhole_fee_collector,
                    sequence: ctx.wormhole_sequence,
                },
            ),
            wormhole_emitter: WormholeEmitter { bump: ctx.bumps.wormhole_emitter },
            foreign_emitters: Map::empty(),
            received: Map::empty(),
        }
    }
}

/// The request that an initialization makes of the bridge: the `Alive`
/// message of the program, with batch 0 and the level `Confirmed`, under
/// the initial sequence number.
pub open spec fn alive_request(ctx: Initialize) -> PostRequest {
    PostRequest {
        batch_id: 0,
        payload: encode(WireMessage::Alive { local_identity: ctx.program_id@ })->Ok_0,
        finality: Finality::Confirmed,
        sequence: INITIAL_SEQUENCE,
        message_seeds: message_signer_seeds(INITIAL_SEQUENCE, ctx.bumps.wormhole_message),
        emitter_seeds: emitter_signer_seeds(ctx.bumps.wormhole_emitter),
    }
}

/// What the sending of `message` returns: the request to the bridge, or
/// `InvalidBridgeConfig` where an address handed in is not the configured
/// one, else `MessageTooLong` where the message has more than 512 bytes.
pub open spec fn send_result(
    config: Config,
    wormhole_emitter: WormholeEmitter,
    ctx: SendMessage,
    message: Seq<u8>,
) -> Result<PostRequest, WhMessengerError> {
    if !config.spec_matches_bridge(
        ctx.wormhole_bridge,
        ctx.wormhole_fee_collector,
        ctx.wormhole_sequence,
    ) {
        Err(WhMessengerError::InvalidBridgeConfig)
    } else {
        match encode(WireMessage::Hello { message }) {
            Err(e) => Err(e),
            Ok(payload) => Ok(
                PostRequest {
                    batch_id: config.batch_id,
                    payload,
                    finality: Finality::spec_try_from(config.finality)->Some_0,
                    sequence: ctx.sequence.spec_next_value() as u64,
                    message_seeds: message_signer_seeds(
                        ctx.sequence.spec_next_value() as u64,
                        ctx.bumps.wormhole_message,
                    ),
                    emitter_seeds: emitter_signer_seeds(wormhole_emitter.bump),
                },
            ),
        }
    }
}

/// What a sending returned, with the request as a mathematical value.
pub open spec fn posted_view(r: Result<PostMessage, WhMessengerError>) -> Result<
    PostRequest,
    WhMessengerError,
> {
    match r {
        Ok(post) => Ok(post@),
        Err(e) => Err(e),
    }
}

/// An initialized program: its configuration, its emitter, the foreign
/// emitters registered with it and the messages it has received. There is
/// no program before its initialization, and none of its operations ends it.
pub struct WhMessenger {
    program_id: Address,
    config: Config,
    wormhole_emitter: WormholeEmitter,
    foreign_emitters: EmitterRegistry,
    received: ReplayGuard,
}

impl View for WhMessenger {
    type V = ProtocolState;

    closed spec fn view(&self) -> ProtocolState {
        ProtocolState {
            program_id: self.program_id,
            config: self.config,
            wormhole_emitter: self.wormhole_emitter,
            foreign_emitters: self.foreign_emitters@,
            received: self.received@,
        }
    }
}

impl WhMessenger {
    /// Whether the stored state is one that the operations can have left.
    pub closed spec fn wf(&self) -> bool {
        self.foreign_emitters.wf() && self@.wf()
    }

    /// The program as it was stored, from its identifier, its configuration
    /// and its emitter, with no foreign emitter and no received message
    /// loaded; `None` where the configuration names no finality level.
    pub fn restore(program_id: Address, config: Config, wormhole_emitter: WormholeEmitter) -> (r:
        Option<WhMessenger>)
        ensures
            r is Some <==> config.wf(),
            r matches Some(program) ==> program.wf() && program@ == (ProtocolState {
                program_id,
                config,
                wormhole_emitter,
                foreign_emitters: Map::empty(),
                received: Map::empty(),
            }),
    {
        if Finality::try_from(config.finality).is_none() {
            return None;
        }
        Some(
            WhMessenger {
                program_id,
                config,
                wormhole_emitter,
                foreign_emitters: EmitterRegistry::new(),
                received: ReplayGuard::new(),
            },
        )
    }

    /// The program's own identifier.
    pub fn program_id(&self) -> (id: Address)
        ensures
            id == self@.program_id,
    {
        self.program_id
    }

    /// The configuration.
    pub fn config(&self) -> (config: Config)
        ensures
            config == self@.config,
    {
        self.config
    }

    /// The program's emitter.
    pub fn wormhole_emitter(&self) -> (emitter: WormholeEmitter)
        ensures
            emitter == self@.wormhole_emitter,
    {
        self.wormhole_emitter
    }

    /// The registered foreign emitters.
    pub fn foreign_emitters(&self) -> (emitters: &EmitterRegistry)
        requires
            self.wf(),
        ensures
            emitters.wf(),
            emitters@ == self@.foreign_emitters,
    {
        &self.foreign_emitters
    }

    /// The received messages.
    pub fn received(&self) -> (received: &ReplayGuard)
        ensures
            received@ == self@.received,
    {
        &self.received
    }
}

/// Initializes the program: writes the configuration with `ctx.owner` as
/// the owner, the bridge's addresses, batch 0 and the level `Confirmed`,
/// records the emitter's bump, and announces the program with an `Alive`
/// message that carries its identifier, under the initial sequence number.
/// Returns the program, and the request to hand to the bridge.
pub fn initialize(ctx: &Initialize) -> (out: (WhMessenger, PostMessage))
    ensures
        out.0.wf(),
        out.0@ == ProtocolState::initial(*ctx),
        out.1@ == alive_request(*ctx),
{
    let config = Config {
        owner: ctx.owner,
        wormhole: WormholeAddresses {
            bridge: ctx.wormhole_bridge,
            fee_collector: ctx.wormhole_fee_collector,
            sequence: ctx.wormhole_sequence,
        },
        batch_id: 0,
        finality: Finality::Confirmed.to_u8(),
    };
    let wormhole_emitter = WormholeEmitter { bump: ctx.bumps.wormhole_emitter };
    let program = WhMessenger {
        program_id: ctx.program_id,
        config,
        wormhole_emitter,
        foreign_emitters: EmitterRegistry::new(),
        received: ReplayGuard::new(),
    };
    let alive = WhMessage::Alive { program_id: ctx.program_id };
    let mut payload: Vec<u8> = Vec::new();
    let written = alive.serialize(&mut payload);
    assert(written is Ok);
    assert(payload@ =~= encode(alive@)->Ok_0);
    let post = PostMessage {
        batch_id: config.batch_id,
        payload,
        finality: Finality::Confirmed,
        sequence: INITIAL_SEQUENCE,
        message_seeds: message_signer_seeds_of(INITIAL_SEQUENCE, ctx.bumps.wormhole_message),
        emitter_seeds: emitter_signer_seeds_of(wormhole_emitter.bump),
    };
    (program, post)
}

/// Registers `address` as the emitter of `chain`, from whom the program
/// then accepts messages. Only the owner may register, and a chain is
/// registered once: there is no way to change its emitter.
///
/// Fails with `OwnerOnly` where `ctx.owner` is not the configured owner,
/// whatever the other arguments are; else with `InvalidForeignEmitter`
/// where the chain is 0 or this chain, or the address is all zero; else
/// with `AlreadyRegistered` where the chain has an emitter. A registration
/// that fails changes nothing.
pub fn register_emitter(
    program: &mut WhMessenger,
    ctx: &RegisterEmitter,
    chain: u16,
    address: Address,
) -> (r: Result<(), WhMessengerError>)
    requires
        old(program).wf(),
    ensures
        final(program).wf(),
        r == register_result(
            old(program)@.config.owner,
            old(program)@.foreign_emitters,
            ctx.owner,
            chain,
            address,
        ),
        r is Ok ==> final(program)@ == (ProtocolState {
            foreign_emitters: old(program)@.foreign_emitters.insert(chain, address),
            ..old(program)@
        }),
        r is Err ==> final(program)@ == old(program)@,
{
    let config = program.config;
    let r = program.foreign_emitters.register(&config, &ctx.owner, chain, address);
    proof {
        if r is Ok {
            assert(program@ =~= (ProtocolState {
                foreign_emitters: old(program)@.foreign_emitters.insert(chain, address),
                ..old(program)@
            }));
        } else {
            assert(program@ =~= old(program)@);
        }
    }
    r
}

/// Decides what the bridge is asked to post for `message`: the message
/// encoded as `Hello`, with the configured batch and finality, under the
/// sequence number that follows the bridge's count, signed for with the
/// seeds of the address that belongs to that number. The program's state
/// does not change: the bridge moves the count on when it takes the message.
///
/// Fails with `InvalidBridgeConfig` where one of the three addresses of
/// `ctx` is not the configured one; else with `MessageTooLong` where the
/// message has more than 512 bytes.
pub fn send_message(program: &WhMessenger, ctx: &SendMessage, message: Vec<u8>) -> (r: Result<
    PostMessage,
    WhMessengerError,
>)
    requires
        program.wf(),
        ctx.sequence.sequence < u64::MAX,
    ensures
        posted_view(r) == send_result(
            program@.config,
            program@.wormhole_emitter,
            *ctx,
            message@,
        ),
{
    let config = &program.config;
    if !address_eq(&ctx.wormhole_bridge, &config.wormhole.bridge) || !address_eq(
        &ctx.wormhole_fee_collector,
        &config.wormhole.fee_collector,
    ) || !address_eq(&ctx.wormhole_sequence, &config.wormhole.sequence) {
        return Err(WhMessengerError::InvalidBridgeConfig);
    }
    let hello = WhMessage::Hello { message };
    let payload = match hello.try_to_vec() {
        Ok(payload) => payload,
        Err(e) => {
            return Err(e);
        },
    };
    // A stored configuration always names a level.
    let finality = match Finality::try_from(config.finality) {
        Some(finality) => finality,
        None => Finality::Confirmed,
    };
    let sequence = ctx.sequence.next_value();
    Ok(
        PostMessage {
            batch_id: config.batch_id,
            payload,
            finality,
            sequence,
            message_seeds: message_signer_seeds_of(sequence, ctx.bumps.wormhole_message),
            emitter_seeds: emitter_signer_seeds_of(program.wormhole_emitter.bump),
        },
    )
}

/// Receives the attested message that the bridge holds under `vaa_hash`:
/// accepts `ctx.posted` as [`accept`] does, and returns the record that was
/// stored.
///
/// Fails with `InvalidMessage` where the payload does not decode to a
/// `Hello` message; else with `InvalidForeignEmitter` where the sender is
/// not the registered emitter of its chain; else with `DuplicateMessage`
/// where a message of that chain with that sequence number was received.
/// A reception that fails changes nothing.
pub fn receive_message(program: &mut WhMessenger, ctx: &ReceiveMessage, vaa_hash: Address) -> (r:
    Result<Received, WhMessengerError>)
    requires
        old(program).wf(),
    ensures
        final(program).wf(),
        received_view(r) == accept_result(
            old(program)@.foreign_emitters,
            old(program)@.received,
            ctx.posted.emitter_chain,
            ctx.posted.emitter_address,
            ctx.posted.sequence,
            ctx.posted.batch_id,
            vaa_hash,
            ctx.posted.payload@,
        ),
        r matches Ok(record) ==> final(program)@ == (ProtocolState {
            received: old(program)@.received.insert(
                (ctx.posted.emitter_chain, ctx.posted.sequence),
                record@,
            ),
            ..old(program)@
        }),
        r is Err ==> final(program)@ == old(program)@,
{
    let posted = &ctx.posted;
    let r = accept(
        &program.foreign_emitters,
        &mut program.received,
        posted.emitter_chain,
        &posted.emitter_address,
        posted.sequence,
        posted.batch_id,
        vaa_hash,
        posted.payload.as_slice(),
    );
    proof {
        if r is Ok {
            assert(program@ =~= (ProtocolState {
                received: old(program)@.received.insert(
                    (ctx.posted.emitter_chain, ctx.posted.sequence),
                    r->Ok_0@,
                ),
                ..old(program)@
            }));
        } else {
            assert(program@ =~= old(program)@);
        }
    }
    r
}

/// What a program stores is always well formed: its configuration names a
/// finality level, every registered emitter has a chain that is not 0 and
/// not this chain and an address that is not all zero, and no stored
/// message has more than 512 bytes.
pub proof fn lemma_wf_state(program: WhMessenger)
    requires
        program.wf(),
    ensures
        program@.wf(),
{
}

/// What is sent is what can be accepted: the payload of every request that
/// a sending returns decodes to the `Hello` message that was handed in.
pub proof fn lemma_send_payload(
    config: Config,
    wormhole_emitter: WormholeEmitter,
    ctx: SendMessage,
    message: Seq<u8>,
)
    requires
        send_result(config, wormhole_emitter, ctx, message) is Ok,
    ensures
        message.len() <= 512,
        decode(send_result(config, wormhole_emitter, ctx, message)->Ok_0.payload) == Ok::<
            WireMessage,
            WhMessengerError,
        >(WireMessage::Hello { message }),
{
    lemma_decode_encode(WireMessage::Hello { message }, Seq::empty());
}

/// The sequence number of a request is the one that follows the bridge's
/// count: the initial number where the bridge has counted no message, and
/// one more with every message that it has taken since.
pub proof fn lemma_send_sequence(
    config: Config,
    wormhole_emitter: WormholeEmitter,
    ctx: SendMessage,
    next: SendMessage,
    message: Seq<u8>,
)
    requires
        send_result(config, wormhole_emitter, ctx, message) is Ok,
        send_result(config, wormhole_emitter, next, message) is Ok,
        next.sequence.sequence == ctx.sequence.sequence + 1,
        next.sequence.sequence < u64::MAX,
    ensures
        ctx.sequence.sequence == 0 ==> send_result(
            config,
            wormhole_emitter,
            ctx,
            message,
        )->Ok_0.sequence == INITIAL_SEQUENCE,
        send_result(config, wormhole_emitter, next, message)->Ok_0.sequence == send_result(
            config,
            wormhole_emitter,
            ctx,
            message,
        )->Ok_0.sequence + 1,
{
}

} // verus!
