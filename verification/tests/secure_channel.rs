use ockam_channel::channel::{Channel, ChannelMessage};
use ockam_channel::channel_listener::{ChannelListenerMessage, XXChannelListener};
use ockam_channel::error::ChannelError;
use ockam_channel::routing::{Address, Route};
use ockam_channel::worker::{Action, Context, OutboundMessage, Worker};

fn addr(bytes: &[u8]) -> Address {
    Address::from_bytes(bytes.to_vec())
}

fn route_of(hops: &[&[u8]]) -> Route {
    let mut r = Route::new();
    for h in hops {
        r = r.append(addr(h));
    }
    r
}

fn take_send(action: Action) -> (Route, OutboundMessage) {
    match action {
        Action::Send { route, message } => (route, message),
        _ => panic!("expected a send action"),
    }
}

/// Runs the full three-message handshake between an initiator channel and a
/// responder channel spawned through the listener, the way the substrate
/// would deliver each requested action. Returns both completed channels.
fn run_handshake(channel_id: &str) -> (Channel, Channel) {
    let init_addr = Channel::get_address(channel_id.to_string());
    let listener_route = route_of(&[b"xx_channel_listener"]);

    // The application asks for an initiator channel toward the listener.
    let mut app_ctx = Context::new(addr(b"app"));
    Channel::start_initiator_channel(&mut app_ctx, channel_id.to_string(), listener_route)
        .unwrap();
    let mut initiator = match app_ctx.actions.remove(0) {
        Action::StartChannel { channel, .. } => channel,
        _ => panic!("expected a start action"),
    };

    // The substrate starts the channel: it initializes and sends the
    // session-initiation request toward the listener.
    let mut ictx = Context::new(init_addr.clone());
    initiator.initialize(&mut ictx).unwrap();
    let (_, m) = take_send(ictx.actions.remove(0));
    let (listener_msg_id, msg1) = match m {
        OutboundMessage::Listener(ChannelListenerMessage::CreateResponderChannel {
            channel_id,
            payload,
        }) => (channel_id, payload),
        _ => panic!("expected a session-initiation request"),
    };
    assert_eq!(listener_msg_id, channel_id);

    // The listener spawns a responder channel and forwards the first
    // handshake message to it.
    let mut listener = XXChannelListener::new(addr(b""));
    let mut lctx = Context::new(addr(b"xx_channel_listener"));
    listener
        .handle_message(
            &mut lctx,
            ChannelListenerMessage::CreateResponderChannel {
                channel_id: listener_msg_id,
                payload: msg1,
            },
            route_of(&[init_addr.bytes.as_slice()]),
        )
        .unwrap();
    let mut responder = match lctx.actions.remove(0) {
        Action::StartChannel { channel, .. } => channel,
        _ => panic!("expected a start action"),
    };
    let resp_addr = Channel::get_address(channel_id.to_string());
    let mut rctx = Context::new(resp_addr.clone());
    responder.initialize(&mut rctx).unwrap();
    assert!(rctx.actions.is_empty());
    let (_, fwd) = take_send(lctx.actions.remove(0));
    let msg1 = match fwd {
        OutboundMessage::Channel(ChannelMessage::KeyExchange { payload }) => payload,
        _ => panic!("expected the forwarded handshake payload"),
    };

    // Message 1 reaches the responder, which answers with message 2.
    responder
        .handle_message(
            &mut rctx,
            ChannelMessage::KeyExchange { payload: msg1 },
            route_of(&[resp_addr.bytes.as_slice()]),
            route_of(&[init_addr.bytes.as_slice()]),
        )
        .unwrap();
    let (_, m2) = take_send(rctx.actions.remove(0));
    let msg2 = match m2 {
        OutboundMessage::Channel(ChannelMessage::KeyExchange { payload }) => payload,
        _ => panic!("expected handshake message 2"),
    };

    // Message 2 reaches the initiator, which answers with message 3 and
    // completes, notifying the application.
    initiator
        .handle_message(
            &mut ictx,
            ChannelMessage::KeyExchange { payload: msg2 },
            route_of(&[init_addr.bytes.as_slice()]),
            route_of(&[resp_addr.bytes.as_slice()]),
        )
        .unwrap();
    let (_, m3) = take_send(ictx.actions.remove(0));
    let msg3 = match m3 {
        OutboundMessage::Channel(ChannelMessage::KeyExchange { payload }) => payload,
        _ => panic!("expected handshake message 3"),
    };
    let (notify_route, done) = take_send(ictx.actions.remove(0));
    assert_eq!(notify_route.hops[0].bytes, b"app".to_vec());
    match done {
        OutboundMessage::Completed(c) => assert_eq!(c.channel_id(), channel_id),
        _ => panic!("expected the completion notification"),
    }

    // Message 3 reaches the responder, which completes silently (the
    // listener registered no notification route).
    responder
        .handle_message(
            &mut rctx,
            ChannelMessage::KeyExchange { payload: msg3 },
            route_of(&[resp_addr.bytes.as_slice()]),
            route_of(&[init_addr.bytes.as_slice()]),
        )
        .unwrap();
    assert!(rctx.actions.is_empty());

    (initiator, responder)
}

#[test]
fn handshake_completes_with_equal_transcript_hash() {
    let (initiator, responder) = run_handshake("s1");
    let ik = initiator.keys.as_ref().expect("initiator keys");
    let rk = responder.keys.as_ref().expect("responder keys");
    assert_eq!(ik.h, rk.h);
    assert_eq!(ik.nonce, 1);
    assert_eq!(rk.nonce, 1);
}

#[test]
fn first_encryption_uses_nonce_one_and_round_trips() {
    let (mut initiator, mut responder) = run_handshake("s1");
    let mut ictx = Context::new(Channel::get_address("s1".to_string()));
    initiator
        .handle_message(
            &mut ictx,
            ChannelMessage::Encrypt { m: b"hello".to_vec() },
            route_of(&[b"channel/s1", b"echo_server"]),
            route_of(&[b"app"]),
        )
        .unwrap();
    let (to, m) = take_send(ictx.actions.remove(0));
    assert_eq!(to.hops[0].bytes, b"channel/s1".to_vec());
    let ciphertext = match m {
        OutboundMessage::Channel(ChannelMessage::Decrypt { payload }) => payload,
        _ => panic!("expected a decrypt message toward the peer"),
    };
    assert_eq!(&ciphertext[..2], &[0x00, 0x01]);

    let mut rctx = Context::new(Channel::get_address("s1".to_string()));
    responder
        .handle_message(
            &mut rctx,
            ChannelMessage::Decrypt { payload: ciphertext },
            route_of(&[b"channel/s1"]),
            route_of(&[b"channel/s1"]),
        )
        .unwrap();
    match rctx.actions.remove(0) {
        Action::Forward { envelope } => {
            assert_eq!(envelope.version, 1);
            assert_eq!(envelope.payload, b"hello".to_vec());
            assert_eq!(envelope.onward.hops.len(), 1);
            assert_eq!(envelope.onward.hops[0].bytes, b"echo_server".to_vec());
            // Replies traverse back through the responder channel.
            assert_eq!(envelope.return_.hops.len(), 2);
            assert_eq!(envelope.return_.hops[0].bytes, b"channel/s1".to_vec());
            assert_eq!(envelope.return_.hops[1].bytes, b"app".to_vec());
        },
        _ => panic!("expected the envelope to be forwarded"),
    }
}

#[test]
fn successive_encryptions_use_increasing_nonces() {
    let (mut initiator, _) = run_handshake("s1");
    let mut ictx = Context::new(Channel::get_address("s1".to_string()));
    for expected in [[0x00u8, 0x01], [0x00, 0x02], [0x00, 0x03]] {
        initiator
            .handle_message(
                &mut ictx,
                ChannelMessage::Encrypt { m: b"x".to_vec() },
                route_of(&[b"channel/s1", b"peer"]),
                route_of(&[b"app"]),
            )
            .unwrap();
        let (_, m) = take_send(ictx.actions.remove(0));
        match m {
            OutboundMessage::Channel(ChannelMessage::Decrypt { payload }) => {
                assert_eq!(&payload[..2], &expected);
            },
            _ => panic!("expected a decrypt message"),
        }
    }
    assert_eq!(initiator.keys.as_ref().unwrap().nonce, 4);
}

#[test]
fn bit_flipped_ciphertext_is_rejected() {
    let (mut initiator, mut responder) = run_handshake("s1");
    let mut ictx = Context::new(Channel::get_address("s1".to_string()));
    initiator
        .handle_message(
            &mut ictx,
            ChannelMessage::Encrypt { m: b"hi".to_vec() },
            route_of(&[b"channel/s1", b"peer"]),
            route_of(&[b"app"]),
        )
        .unwrap();
    let (_, m) = take_send(ictx.actions.remove(0));
    let ciphertext = match m {
        OutboundMessage::Channel(ChannelMessage::Decrypt { payload }) => payload,
        _ => panic!("expected a decrypt message"),
    };
    // Flip every single bit of the ciphertext body in turn: authentication
    // must fail each time and nothing may be forwarded.
    for byte in 2..ciphertext.len() {
        for bit in 0..8 {
            let mut tampered = ciphertext.clone();
            tampered[byte] ^= 1u8 << bit;
            let mut rctx = Context::new(Channel::get_address("s1".to_string()));
            let r = responder.handle_message(
                &mut rctx,
                ChannelMessage::Decrypt { payload: tampered },
                route_of(&[b"channel/s1"]),
                route_of(&[b"channel/s1"]),
            );
            assert_eq!(r, Err(ChannelError::CryptoAuthFailure));
            assert!(rctx.actions.is_empty());
        }
    }
}

#[test]
fn encrypt_and_decrypt_refused_before_handshake() {
    let mut channel = Channel::new(
        addr(b""),
        true,
        route_of(&[b"somewhere"]),
        "s9".to_string(),
        None,
    );
    let mut ctx = Context::new(addr(b"channel/s9"));
    let r = channel.handle_message(
        &mut ctx,
        ChannelMessage::Encrypt { m: b"x".to_vec() },
        route_of(&[b"channel/s9", b"peer"]),
        route_of(&[b"app"]),
    );
    assert_eq!(r, Err(ChannelError::KeyExchangeNotComplete));
    assert!(ctx.actions.is_empty());
    let r = channel.handle_message(
        &mut ctx,
        ChannelMessage::Decrypt { payload: vec![0, 1, 2, 3] },
        route_of(&[b"channel/s9"]),
        route_of(&[b"peer"]),
    );
    assert_eq!(r, Err(ChannelError::KeyExchangeNotComplete));
    assert!(ctx.actions.is_empty());
}

#[test]
fn nonce_exhaustion_disables_encryption_permanently() {
    let (mut initiator, _) = run_handshake("s1");
    initiator.keys.as_mut().unwrap().nonce = u16::MAX;
    let mut ictx = Context::new(Channel::get_address("s1".to_string()));
    for _ in 0..2 {
        let r = initiator.handle_message(
            &mut ictx,
            ChannelMessage::Encrypt { m: b"x".to_vec() },
            route_of(&[b"channel/s1", b"peer"]),
            route_of(&[b"app"]),
        );
        assert_eq!(r, Err(ChannelError::InvalidNonce));
        assert!(ictx.actions.is_empty());
        assert_eq!(initiator.keys.as_ref().unwrap().nonce, u16::MAX);
    }
}

#[test]
fn short_ciphertext_is_an_invalid_nonce() {
    let (_, mut responder) = run_handshake("s1");
    let mut rctx = Context::new(Channel::get_address("s1".to_string()));
    let r = responder.handle_message(
        &mut rctx,
        ChannelMessage::Decrypt { payload: vec![7] },
        route_of(&[b"channel/s1"]),
        route_of(&[b"peer"]),
    );
    assert_eq!(r, Err(ChannelError::InvalidNonce));
    assert!(rctx.actions.is_empty());
}

#[test]
fn handshake_session_refuses_reuse_after_completion() {
    let (mut initiator, mut responder) = run_handshake("s1");
    for channel in [&mut initiator, &mut responder] {
        let mut ctx = Context::new(Channel::get_address("s1".to_string()));
        let r = channel.handle_message(
            &mut ctx,
            ChannelMessage::KeyExchange { payload: vec![1, 2, 3] },
            route_of(&[b"channel/s1"]),
            route_of(&[b"peer"]),
        );
        assert_eq!(r, Err(ChannelError::InvalidInternalState));
    }
}

#[test]
fn second_key_delivery_is_refused() {
    // Completed keys arriving at a channel that already holds keys are a
    // protocol violation.
    let (mut initiator, responder) = run_handshake("s1");
    let taken = responder.keys.unwrap();
    let mut ctx = Context::new(Channel::get_address("s1".to_string()));
    let reply = ockam_channel::initiator::KexReply {
        response: ockam_channel::KeyExchangeResponseMessage::new(
            None,
            Some(ockam_channel::Keys::new(taken.h, taken.encrypt_key, taken.decrypt_key)),
        ),
        vault: Some(taken.vault),
    };
    let r = initiator.handle_key_exchange_local(&mut ctx, reply);
    assert_eq!(r, Err(ChannelError::InvalidInternalState));
}

#[test]
fn listener_survives_colliding_session_identifiers() {
    let mut listener = XXChannelListener::new(addr(b""));
    let mut lctx = Context::new(addr(b"xx_channel_listener"));
    for _ in 0..2 {
        listener
            .handle_message(
                &mut lctx,
                ChannelListenerMessage::CreateResponderChannel {
                    channel_id: "dup".to_string(),
                    payload: vec![1, 2, 3],
                },
                route_of(&[b"peer"]),
            )
            .unwrap();
    }
    // Both requests produced a start and a forward; collision handling is
    // left to the substrate.
    assert_eq!(lctx.actions.len(), 4);
}

#[test]
fn channel_address_is_derived_from_the_identifier() {
    let a = Channel::get_address("s1".to_string());
    assert_eq!(a.bytes, b"channel/s1".to_vec());
    assert_eq!(
        ockam_channel::channel_listener::XX_CHANNEL_LISTENER_ADDRESS,
        "xx_channel_listener"
    );
}

#[test]
fn malformed_handshake_payload_is_rejected() {
    // Scramble the first handshake message before it reaches the responder.
    let listener_route = route_of(&[b"xx_channel_listener"]);
    let mut app_ctx = Context::new(addr(b"app"));
    Channel::start_initiator_channel(&mut app_ctx, "s2".to_string(), listener_route).unwrap();
    let mut initiator = match app_ctx.actions.remove(0) {
        Action::StartChannel { channel, .. } => channel,
        _ => panic!("expected a start action"),
    };
    let mut ictx = Context::new(Channel::get_address("s2".to_string()));
    initiator.initialize(&mut ictx).unwrap();

    let mut responder = Channel::new(
        addr(b""),
        false,
        route_of(&[b"channel/s2"]),
        "s2".to_string(),
        None,
    );
    let mut rctx = Context::new(Channel::get_address("s2".to_string()));
    responder.initialize(&mut rctx).unwrap();
    let r = responder.handle_message(
        &mut rctx,
        ChannelMessage::KeyExchange { payload: vec![0xAB; 7] },
        route_of(&[b"channel/s2"]),
        route_of(&[b"channel/s2"]),
    );
    assert_eq!(r, Err(ChannelError::CodecError));
    assert!(responder.keys.is_none());
}

struct IdleWorker;

impl ockam_channel::worker::Worker for IdleWorker {
    type Message = ChannelMessage;
}

#[test]
fn worker_defaults_do_nothing() {
    let mut w = IdleWorker;
    let mut ctx = Context::new(addr(b"idle"));
    assert!(w.initialize(&mut ctx).is_ok());
    assert!(
        w.handle_message(
            &mut ctx,
            ChannelMessage::Encrypt { m: vec![] },
            Route::new(),
            Route::new(),
        )
        .is_ok()
    );
    assert!(w.shutdown(&mut ctx).is_ok());
    assert!(ctx.actions.is_empty());
}
