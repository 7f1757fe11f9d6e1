use anchor_lang::prelude::Pubkey;
use wh_messenger::{
    accept, initialize, next_slot, receive_message, register_emitter, send_message, Address, Config,
    EmitterRegistry, Finality, ForeignEmitter, Initialize, InitializeBumps, PostMessage,
    PostedVaa, ReceiveMessage, Received, RegisterEmitter, ReplayGuard, SendMessage,
    SendMessageBumps, SequenceTracker, WhMessage, WhMessenger, WhMessengerError,
    WormholeAddresses, WormholeEmitter, CHAIN_ID_SOLANA, INITIAL_SEQUENCE, MESSAGE_MAX_LENGTH,
    SEED_PREFIX_EMITTER, SEED_PREFIX_SENT,
};
use wh_messenger::context::{emitter_signer_seeds_of, message_signer_seeds_of};
use wh_messenger::sequence::{slot_of_sequence, slot_seeds_of};
use wormhole_anchor_sdk::wormhole;

const OWNER: Address = [7u8; 32];
const STRANGER: Address = [8u8; 32];
const PROGRAM: Address = [42u8; 32];
const BRIDGE: Address = [11u8; 32];
const FEE_COLLECTOR: Address = [12u8; 32];
const SEQUENCE: Address = [13u8; 32];

fn address_a() -> Address {
    let mut a = [0u8; 32];
    a[0] = 1;
    a
}

fn init_ctx() -> Initialize {
    Initialize {
        program_id: PROGRAM,
        owner: OWNER,
        wormhole_bridge: BRIDGE,
        wormhole_fee_collector: FEE_COLLECTOR,
        wormhole_sequence: SEQUENCE,
        bumps: InitializeBumps { wormhole_emitter: 254, wormhole_message: 253 },
    }
}

fn fresh() -> WhMessenger {
    initialize(&init_ctx()).0
}

fn send_ctx(count: u64) -> SendMessage {
    SendMessage {
        wormhole_bridge: BRIDGE,
        wormhole_fee_collector: FEE_COLLECTOR,
        wormhole_sequence: SEQUENCE,
        sequence: SequenceTracker { sequence: count },
        bumps: SendMessageBumps { wormhole_message: 250 },
    }
}

fn attested(chain: u16, address: Address, sequence: u64, payload: Vec<u8>) -> ReceiveMessage {
    ReceiveMessage {
        posted: PostedVaa {
            emitter_chain: chain,
            emitter_address: address,
            sequence,
            batch_id: 3,
            payload,
        },
    }
}

fn hello_payload(message: &[u8]) -> Vec<u8> {
    WhMessage::Hello { message: message.to_vec() }.try_to_vec().unwrap()
}

#[test]
fn initialize_writes_the_configuration() {
    let (program, _) = initialize(&init_ctx());
    assert_eq!(
        program.config(),
        Config {
            owner: OWNER,
            wormhole: WormholeAddresses {
                bridge: BRIDGE,
                fee_collector: FEE_COLLECTOR,
                sequence: SEQUENCE,
            },
            batch_id: 0,
            finality: 0,
        }
    );
    assert_eq!(program.wormhole_emitter(), WormholeEmitter { bump: 254 });
    assert_eq!(program.program_id(), PROGRAM);
    assert_eq!(program.foreign_emitters().get(2), None);
    assert_eq!(program.received().get(2, 0), None);
}

#[test]
fn initialize_announces_the_program() {
    let (_, post) = initialize(&init_ctx());
    let mut payload = vec![0u8];
    payload.extend_from_slice(&PROGRAM);
    assert_eq!(
        post,
        PostMessage {
            batch_id: 0,
            payload,
            finality: Finality::Confirmed,
            sequence: 1,
            message_seeds: vec![b"sent".to_vec(), vec![0, 0, 0, 0, 0, 0, 0, 1], vec![253]],
            emitter_seeds: vec![b"emitter".to_vec(), vec![254]],
        }
    );
    assert_eq!(
        WhMessage::deserialize_reader(&post.payload),
        Ok(WhMessage::Alive { program_id: PROGRAM })
    );
}

#[test]
fn emitter_validation() {
    let mut program = fresh();
    let owner = RegisterEmitter { owner: OWNER };
    assert_eq!(
        register_emitter(&mut program, &owner, 0, address_a()),
        Err(WhMessengerError::InvalidForeignEmitter)
    );
    assert_eq!(
        register_emitter(&mut program, &owner, CHAIN_ID_SOLANA, address_a()),
        Err(WhMessengerError::InvalidForeignEmitter)
    );
    assert_eq!(
        register_emitter(&mut program, &owner, 5, [0u8; 32]),
        Err(WhMessengerError::InvalidForeignEmitter)
    );
    assert_eq!(program.foreign_emitters().get(5), None);
    assert_eq!(register_emitter(&mut program, &owner, 5, address_a()), Ok(()));
    assert_eq!(
        program.foreign_emitters().get(5),
        Some(ForeignEmitter { chain: 5, address: address_a() })
    );
    assert!(program.foreign_emitters().verify(5, &address_a()));
    assert!(!program.foreign_emitters().verify(5, &OWNER));
    assert!(!program.foreign_emitters().verify(6, &address_a()));
}

#[test]
fn address_with_a_single_set_byte_can_be_registered() {
    for i in 0..32 {
        let mut address = [0u8; 32];
        address[i] = 1;
        assert_eq!(ForeignEmitter::new(2, address), Ok(ForeignEmitter { chain: 2, address }));
    }
    assert_eq!(ForeignEmitter::new(u16::MAX, [255u8; 32]).map(|e| e.chain), Ok(u16::MAX));
    assert_eq!(ForeignEmitter::new(2, [0u8; 32]), Err(WhMessengerError::InvalidForeignEmitter));
}

#[test]
fn only_the_owner_registers() {
    let mut program = fresh();
    let stranger = RegisterEmitter { owner: STRANGER };
    assert_eq!(
        register_emitter(&mut program, &stranger, 5, address_a()),
        Err(WhMessengerError::OwnerOnly)
    );
    assert_eq!(
        register_emitter(&mut program, &stranger, 0, address_a()),
        Err(WhMessengerError::OwnerOnly)
    );
    assert_eq!(
        register_emitter(&mut program, &stranger, CHAIN_ID_SOLANA, [0u8; 32]),
        Err(WhMessengerError::OwnerOnly)
    );
    assert_eq!(program.foreign_emitters().get(5), None);
    let owner = RegisterEmitter { owner: OWNER };
    assert_eq!(register_emitter(&mut program, &owner, 5, address_a()), Ok(()));
    assert_eq!(
        register_emitter(&mut program, &stranger, 5, address_a()),
        Err(WhMessengerError::OwnerOnly)
    );
}

#[test]
fn a_chain_is_registered_once() {
    let mut program = fresh();
    let owner = RegisterEmitter { owner: OWNER };
    assert_eq!(register_emitter(&mut program, &owner, 5, address_a()), Ok(()));
    assert_eq!(
        register_emitter(&mut program, &owner, 5, [9u8; 32]),
        Err(WhMessengerError::AlreadyRegistered)
    );
    assert_eq!(
        register_emitter(&mut program, &owner, 5, address_a()),
        Err(WhMessengerError::AlreadyRegistered)
    );
    assert_eq!(
        register_emitter(&mut program, &owner, 5, [0u8; 32]),
        Err(WhMessengerError::InvalidForeignEmitter)
    );
    assert!(program.foreign_emitters().verify(5, &address_a()));
    assert!(!program.foreign_emitters().verify(5, &[9u8; 32]));
    assert_eq!(register_emitter(&mut program, &owner, 6, [9u8; 32]), Ok(()));
    assert!(program.foreign_emitters().verify(6, &[9u8; 32]));
}

#[test]
fn registry_alone() {
    let config = fresh().config();
    let mut registry = EmitterRegistry::new();
    assert_eq!(registry.get(2), None);
    assert!(!registry.verify(2, &address_a()));
    assert_eq!(
        registry.register(&config, &STRANGER, 2, address_a()),
        Err(WhMessengerError::OwnerOnly)
    );
    assert_eq!(registry.register(&config, &OWNER, 2, address_a()), Ok(()));
    assert_eq!(registry.get(2), Some(ForeignEmitter { chain: 2, address: address_a() }));
    assert!(registry.verify(2, &address_a()));
    assert!(!registry.verify(3, &address_a()));
    assert!(ForeignEmitter { chain: 2, address: address_a() }.verify(&address_a()));
    assert!(!ForeignEmitter { chain: 2, address: address_a() }.verify(&OWNER));
}

#[test]
fn sequencing_of_the_first_and_second_send() {
    let program = fresh();
    let mut count = SequenceTracker { sequence: 0 };
    let first = send_message(&program, &send_ctx(count.value()), b"one".to_vec()).unwrap();
    assert_eq!(first.sequence, INITIAL_SEQUENCE);
    count.sequence += 1;
    let second = send_message(&program, &send_ctx(count.value()), b"two".to_vec()).unwrap();
    assert_eq!(second.sequence, INITIAL_SEQUENCE + 1);
    assert_ne!(first.message_seeds, second.message_seeds);
}

#[test]
fn initialization_takes_the_initial_sequence_number() {
    let (program, alive) = initialize(&init_ctx());
    assert_eq!(alive.sequence, INITIAL_SEQUENCE);
    let after_alive = SequenceTracker { sequence: 1 };
    let next = send_message(&program, &send_ctx(after_alive.value()), vec![]).unwrap();
    assert_eq!(next.sequence, alive.sequence + 1);
}

#[test]
fn send_message_says_what_is_posted() {
    let program = fresh();
    let post = send_message(&program, &send_ctx(0x0102_0304), vec![0x01, 0x02, 0x03]).unwrap();
    assert_eq!(
        post,
        PostMessage {
            batch_id: 0,
            payload: vec![0x01, 0x00, 0x03, 0x01, 0x02, 0x03],
            finality: Finality::Confirmed,
            sequence: 0x0102_0305,
            message_seeds: vec![
                vec![b's', b'e', b'n', b't'],
                vec![0, 0, 0, 0, 1, 2, 3, 5],
                vec![250],
            ],
            emitter_seeds: vec![b"emitter".to_vec(), vec![254]],
        }
    );
}

#[test]
fn send_message_checks_the_bridge_addresses() {
    let program = fresh();
    let mut ctx = send_ctx(1);
    ctx.wormhole_bridge = STRANGER;
    assert_eq!(
        send_message(&program, &ctx, vec![1]),
        Err(WhMessengerError::InvalidBridgeConfig)
    );
    let mut ctx = send_ctx(1);
    ctx.wormhole_fee_collector = BRIDGE;
    assert_eq!(
        send_message(&program, &ctx, vec![1]),
        Err(WhMessengerError::InvalidBridgeConfig)
    );
    let mut ctx = send_ctx(1);
    ctx.wormhole_sequence[31] ^= 1;
    assert_eq!(
        send_message(&program, &ctx, vec![0; 600]),
        Err(WhMessengerError::InvalidBridgeConfig)
    );
}

#[test]
fn send_message_refuses_a_long_message() {
    let program = fresh();
    assert_eq!(
        send_message(&program, &send_ctx(1), vec![0; 513]),
        Err(WhMessengerError::MessageTooLong)
    );
    let post = send_message(&program, &send_ctx(1), vec![0; 512]).unwrap();
    assert_eq!(post.payload.len(), 515);
}

#[test]
fn next_slot_is_the_derived_address() {
    let program = Pubkey::new_from_array(PROGRAM);
    for count in [0u64, 1, 41, 0x0102_0304_0506_0707] {
        let tracker = SequenceTracker { sequence: count };
        let (sequence, slot) = next_slot(&PROGRAM, &tracker);
        assert_eq!(sequence, count + 1);
        let (address, bump) =
            Pubkey::find_program_address(&[b"sent", &sequence.to_be_bytes()], &program);
        assert_eq!(slot, Some((address.to_bytes(), bump)));
        assert_eq!(next_slot(&PROGRAM, &tracker), (sequence, slot));
    }
    let (_, a) = next_slot(&PROGRAM, &SequenceTracker { sequence: 1 });
    let (_, b) = next_slot(&PROGRAM, &SequenceTracker { sequence: 2 });
    let (_, c) = next_slot(&OWNER, &SequenceTracker { sequence: 1 });
    assert_ne!(a, b);
    assert_ne!(a, c);
}

#[test]
fn signer_seeds_derive_the_slot() {
    let (sequence, slot) = next_slot(&PROGRAM, &SequenceTracker { sequence: 9 });
    let (address, bump) = slot.unwrap();
    let mut ctx = send_ctx(9);
    ctx.bumps.wormhole_message = bump;
    let post = send_message(&fresh(), &ctx, vec![1]).unwrap();
    assert_eq!(post.sequence, sequence);
    let seeds: Vec<&[u8]> = post.message_seeds.iter().map(|s| s.as_slice()).collect();
    let derived = Pubkey::create_program_address(&seeds, &Pubkey::new_from_array(PROGRAM));
    assert_eq!(derived.map(|key| key.to_bytes()), Ok(address));
}

#[test]
fn constants_agree_with_the_bridge() {
    assert_eq!(CHAIN_ID_SOLANA, wormhole::CHAIN_ID_SOLANA);
    assert_eq!(INITIAL_SEQUENCE, wormhole::INITIAL_SEQUENCE);
    assert_eq!(&SEED_PREFIX_EMITTER, wormhole::SEED_PREFIX_EMITTER);
    assert_eq!(&SEED_PREFIX_SENT, b"sent");
    assert_eq!(MESSAGE_MAX_LENGTH, 512);
    assert_eq!(Finality::Confirmed.to_u8(), wormhole::Finality::Confirmed as u8);
    assert_eq!(Finality::Finalized.to_u8(), wormhole::Finality::Finalized as u8);
    for value in 0..=255u8 {
        let ours = Finality::try_from(value).map(|level| level.to_u8());
        let theirs = wormhole::Finality::try_from(value).ok().map(|level| level as u8);
        assert_eq!(ours, theirs);
    }
    assert_eq!(Finality::try_from(0), Some(Finality::Confirmed));
    assert_eq!(Finality::try_from(1), Some(Finality::Finalized));
    assert_eq!(Finality::try_from(2), None);
    for count in [0u64, 1, 77, u64::MAX - 1] {
        let ours = SequenceTracker { sequence: count };
        let theirs = wormhole::SequenceTracker { sequence: count };
        assert_eq!(ours.value(), theirs.value());
        assert_eq!(ours.next_value(), theirs.next_value());
    }
    assert_eq!(SequenceTracker { sequence: 0 }.next_value(), INITIAL_SEQUENCE);
}

#[test]
fn replay_is_rejected() {
    let mut program = fresh();
    let owner = RegisterEmitter { owner: OWNER };
    register_emitter(&mut program, &owner, 2, address_a()).unwrap();
    let first = attested(2, address_a(), 17, hello_payload(b"first"));
    assert_eq!(
        receive_message(&mut program, &first, [1u8; 32]),
        Ok(Received { batch_id: 3, wormhole_message_hash: [1u8; 32], message: b"first".to_vec() })
    );
    let second = attested(2, address_a(), 17, hello_payload(b"another payload"));
    assert_eq!(
        receive_message(&mut program, &second, [2u8; 32]),
        Err(WhMessengerError::DuplicateMessage)
    );
    assert_eq!(
        receive_message(&mut program, &first, [1u8; 32]),
        Err(WhMessengerError::DuplicateMessage)
    );
    assert_eq!(program.received().get(2, 17).map(|r| r.message.clone()), Some(b"first".to_vec()));
    assert_eq!(program.received().get(2, 17).map(|r| r.wormhole_message_hash), Some([1u8; 32]));
    let next = attested(2, address_a(), 18, hello_payload(b"first"));
    assert!(receive_message(&mut program, &next, [1u8; 32]).is_ok());
}

#[test]
fn same_sequence_number_of_another_chain_is_no_replay() {
    let mut program = fresh();
    let owner = RegisterEmitter { owner: OWNER };
    register_emitter(&mut program, &owner, 2, address_a()).unwrap();
    register_emitter(&mut program, &owner, 3, address_a()).unwrap();
    register_emitter(&mut program, &owner, 0xffff, address_a()).unwrap();
    let payload = hello_payload(b"x");
    for sequence in [0u64, 1, u64::MAX] {
        for chain in [2u16, 3, 0xffff] {
            let ctx = attested(chain, address_a(), sequence, payload.clone());
            assert!(receive_message(&mut program, &ctx, [0u8; 32]).is_ok());
        }
    }
    for sequence in [0u64, 1, u64::MAX] {
        for chain in [2u16, 3, 0xffff] {
            let ctx = attested(chain, address_a(), sequence, payload.clone());
            assert_eq!(
                receive_message(&mut program, &ctx, [0u8; 32]),
                Err(WhMessengerError::DuplicateMessage)
            );
        }
    }
    assert_eq!(program.received().get(2, 2), None);
}

#[test]
fn foreign_emitter_mismatch() {
    let mut program = fresh();
    let payload = hello_payload(b"ping");
    let unregistered = attested(2, address_a(), 0, payload.clone());
    assert_eq!(
        receive_message(&mut program, &unregistered, [1u8; 32]),
        Err(WhMessengerError::InvalidForeignEmitter)
    );
    let owner = RegisterEmitter { owner: OWNER };
    register_emitter(&mut program, &owner, 2, address_a()).unwrap();
    let mut other = address_a();
    other[31] = 1;
    let wrong_sender = attested(2, other, 0, payload.clone());
    assert_eq!(
        receive_message(&mut program, &wrong_sender, [1u8; 32]),
        Err(WhMessengerError::InvalidForeignEmitter)
    );
    let wrong_chain = attested(3, address_a(), 0, payload.clone());
    assert_eq!(
        receive_message(&mut program, &wrong_chain, [1u8; 32]),
        Err(WhMessengerError::InvalidForeignEmitter)
    );
    assert_eq!(program.received().get(2, 0), None);
    let right = attested(2, address_a(), 0, payload);
    assert!(receive_message(&mut program, &right, [1u8; 32]).is_ok());
}

#[test]
fn only_hello_is_received() {
    let mut program = fresh();
    let owner = RegisterEmitter { owner: OWNER };
    register_emitter(&mut program, &owner, 2, address_a()).unwrap();
    let alive = WhMessage::Alive { program_id: PROGRAM }.try_to_vec().unwrap();
    for payload in [alive, vec![], vec![2, 0, 0], vec![1, 0], vec![1, 0, 4, 1], vec![1, 3, 0]] {
        let ctx = attested(2, address_a(), 5, payload.clone());
        assert_eq!(
            receive_message(&mut program, &ctx, [1u8; 32]),
            Err(WhMessengerError::InvalidMessage)
        );
        let unregistered = attested(9, address_a(), 5, payload);
        assert_eq!(
            receive_message(&mut program, &unregistered, [1u8; 32]),
            Err(WhMessengerError::InvalidMessage)
        );
    }
    assert_eq!(program.received().get(2, 5), None);
    let ctx = attested(2, address_a(), 5, hello_payload(&[0u8; 512]));
    assert_eq!(
        receive_message(&mut program, &ctx, [1u8; 32]).map(|r| r.message.len()),
        Ok(512)
    );
    let ctx = attested(2, address_a(), 5, vec![2]);
    assert_eq!(
        receive_message(&mut program, &ctx, [1u8; 32]),
        Err(WhMessengerError::InvalidMessage)
    );
}

#[test]
fn accept_takes_plain_values() {
    let config = fresh().config();
    let mut emitters = EmitterRegistry::new();
    emitters.register(&config, &OWNER, 2, address_a()).unwrap();
    let mut received = ReplayGuard::new();
    let record = Received { batch_id: 9, wormhole_message_hash: [5u8; 32], message: vec![0xca, 0xfe] };
    assert_eq!(
        accept(&emitters, &mut received, 2, &address_a(), 4, 9, [5u8; 32], &[1, 0, 2, 0xca, 0xfe, 0xff]),
        Ok(record.duplicate())
    );
    assert_eq!(
        accept(&emitters, &mut received, 2, &address_a(), 4, 9, [5u8; 32], &[1, 0, 2, 0xca, 0xfe]),
        Err(WhMessengerError::DuplicateMessage)
    );
    assert_eq!(
        accept(&emitters, &mut received, 2, &OWNER, 5, 9, [5u8; 32], &[1, 0, 0]),
        Err(WhMessengerError::InvalidForeignEmitter)
    );
    assert_eq!(
        accept(&emitters, &mut received, 2, &address_a(), 5, 9, [5u8; 32], &[0; 33]),
        Err(WhMessengerError::InvalidMessage)
    );
    assert_eq!(received.get(2, 4), Some(&record));
    assert_eq!(received.get(2, 5), None);
}

#[test]
fn restore_takes_a_stored_configuration() {
    let (program, _) = initialize(&init_ctx());
    let restored =
        WhMessenger::restore(PROGRAM, program.config(), program.wormhole_emitter()).unwrap();
    assert_eq!(restored.config(), program.config());
    assert_eq!(restored.wormhole_emitter(), WormholeEmitter { bump: 254 });
    assert_eq!(restored.program_id(), PROGRAM);
    assert_eq!(restored.foreign_emitters().get(2), None);
    assert_eq!(
        send_message(&restored, &send_ctx(3), vec![1]),
        send_message(&program, &send_ctx(3), vec![1])
    );
    let mut config = program.config();
    config.finality = 1;
    let finalized = WhMessenger::restore(PROGRAM, config, WormholeEmitter { bump: 1 }).unwrap();
    let post = send_message(&finalized, &send_ctx(3), vec![1]).unwrap();
    assert_eq!(post.finality, Finality::Finalized);
    assert_eq!(post.emitter_seeds, vec![b"emitter".to_vec(), vec![1]]);
    config.finality = 2;
    assert!(WhMessenger::restore(PROGRAM, config, WormholeEmitter { bump: 1 }).is_none());
}

#[test]
fn replay_guard_alone() {
    let mut guard = ReplayGuard::new();
    let record = Received { batch_id: 1, wormhole_message_hash: [1u8; 32], message: vec![1] };
    let other = Received { batch_id: 2, wormhole_message_hash: [2u8; 32], message: vec![2] };
    assert!(!guard.contains(1, 1));
    assert_eq!(guard.get(1, 1), None);
    assert_eq!(guard.create(1, 1, record.duplicate()), Ok(()));
    assert_eq!(guard.create(1, 1, other.duplicate()), Err(WhMessengerError::DuplicateMessage));
    assert_eq!(guard.get(1, 1), Some(&record));
    assert!(guard.contains(1, 1));
    assert!(!guard.contains(0, 1 << 16));
    assert!(!guard.contains(1, 0));
    assert_eq!(guard.create(0, 1, other.duplicate()), Ok(()));
    assert_eq!(guard.create(1, 0, other.duplicate()), Ok(()));
    assert_eq!(guard.get(1, 1), Some(&record));
    assert_eq!(guard.get(0, 1), Some(&other));
}

#[test]
fn end_to_end() {
    let (mut program, alive) = initialize(&init_ctx());
    assert_eq!(alive.payload[0], 0);
    let owner = RegisterEmitter { owner: OWNER };
    assert_eq!(register_emitter(&mut program, &owner, 2, address_a()), Ok(()));
    let ctx = attested(2, address_a(), 0, hello_payload(b"ping"));
    assert_eq!(
        receive_message(&mut program, &ctx, [0x33; 32]),
        Ok(Received { batch_id: 3, wormhole_message_hash: [0x33; 32], message: b"ping".to_vec() })
    );
    assert_eq!(
        receive_message(&mut program, &ctx, [0x33; 32]),
        Err(WhMessengerError::DuplicateMessage)
    );
    assert_eq!(program.received().get(2, 0).map(|r| r.message.as_slice()), Some(&b"ping"[..]));
}

#[test]
fn what_is_sent_can_be_received() {
    let sender = fresh();
    let mut receiver = fresh();
    register_emitter(&mut receiver, &RegisterEmitter { owner: OWNER }, 2, address_a()).unwrap();
    let post = send_message(&sender, &send_ctx(6), b"across".to_vec()).unwrap();
    let ctx = attested(2, address_a(), post.sequence, post.payload);
    assert_eq!(
        receive_message(&mut receiver, &ctx, [4u8; 32]).map(|r| r.message),
        Ok(b"across".to_vec())
    );
}

#[test]
fn seeds_are_the_prefix_and_the_big_endian_number() {
    assert_eq!(slot_seeds_of(1), vec![b"sent".to_vec(), vec![0, 0, 0, 0, 0, 0, 0, 1]]);
    assert_eq!(
        slot_seeds_of(0x1122_3344_5566_7788),
        vec![b"sent".to_vec(), vec![0x11, 0x22, 0x33, 0x44, 0x55, 0x66, 0x77, 0x88]]
    );
    assert_eq!(
        message_signer_seeds_of(258, 7),
        vec![b"sent".to_vec(), vec![0, 0, 0, 0, 0, 0, 1, 2], vec![7]]
    );
    assert_eq!(emitter_signer_seeds_of(255), vec![b"emitter".to_vec(), vec![255]]);
}

#[test]
fn slot_of_a_sequence_number_is_always_the_same() {
    let slot = slot_of_sequence(&PROGRAM, 5);
    assert!(slot.is_some());
    assert_eq!(slot_of_sequence(&PROGRAM, 5), slot);
    assert_eq!(next_slot(&PROGRAM, &SequenceTracker { sequence: 4 }), (5, slot));
    assert_ne!(slot_of_sequence(&PROGRAM, 6), slot);
    let expected = Pubkey::find_program_address(
        &[b"sent", &[0, 0, 0, 0, 0, 0, 0, 5]],
        &Pubkey::new_from_array(PROGRAM),
    );
    assert_eq!(slot, Some((expected.0.to_bytes(), expected.1)));
}

#[test]
fn derived_initialization_signs_for_the_derived_addresses() {
    let wormhole =
        WormholeAddresses { bridge: BRIDGE, fee_collector: FEE_COLLECTOR, sequence: SEQUENCE };
    let ctx = Initialize::derive(PROGRAM, OWNER, wormhole).unwrap();
    let program = Pubkey::new_from_array(PROGRAM);
    let (emitter, emitter_bump) = Pubkey::find_program_address(&[b"emitter"], &program);
    let (message, message_bump) =
        Pubkey::find_program_address(&[b"sent", &1u64.to_be_bytes()], &program);
    assert_eq!(
        ctx,
        Initialize {
            program_id: PROGRAM,
            owner: OWNER,
            wormhole_bridge: BRIDGE,
            wormhole_fee_collector: FEE_COLLECTOR,
            wormhole_sequence: SEQUENCE,
            bumps: InitializeBumps {
                wormhole_emitter: emitter_bump,
                wormhole_message: message_bump,
            },
        }
    );
    assert_eq!(
        WormholeEmitter::find(&PROGRAM),
        Some((emitter.to_bytes(), WormholeEmitter { bump: emitter_bump }))
    );
    assert_ne!(WormholeEmitter::find(&OWNER).map(|found| found.0), Some(emitter.to_bytes()));

    let (_, post) = initialize(&ctx);
    let seeds: Vec<&[u8]> = post.emitter_seeds.iter().map(|s| s.as_slice()).collect();
    assert_eq!(Pubkey::create_program_address(&seeds, &program), Ok(emitter));
    let seeds: Vec<&[u8]> = post.message_seeds.iter().map(|s| s.as_slice()).collect();
    assert_eq!(Pubkey::create_program_address(&seeds, &program), Ok(message));
}
