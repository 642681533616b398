use ockam_channel::codec::prepare_message;
use ockam_channel::error::ChannelError;
use ockam_channel::routing::{Address, Envelope, Route};

fn addr(bytes: &[u8]) -> Address {
    Address::from_bytes(bytes.to_vec())
}

fn route_of(hops: &[&[u8]]) -> Route {
    let mut r = Route::new();
    for h in hops {
        r = r.append(addr(h));
    }
    r
}

fn sample_envelope() -> Envelope {
    Envelope {
        version: 1,
        onward: route_of(&[b"a"]),
        return_: route_of(&[b"bc", b"d"]),
        payload: vec![9, 9],
    }
}

#[test]
fn envelope_encodes_to_exact_bytes() {
    let bytes = sample_envelope().encode().unwrap();
    assert_eq!(
        bytes,
        vec![
            1, // version
            0, 1, 0, 1, b'a', // onward: one hop of one byte
            0, 2, 0, 2, b'b', b'c', 0, 1, b'd', // return: two hops
            9, 9, // payload
        ]
    );
}

#[test]
fn envelope_round_trips_through_its_encoding() {
    let e = sample_envelope();
    let bytes = e.encode().unwrap();
    let d = Envelope::decode(bytes.as_slice()).unwrap();
    assert_eq!(d.version, e.version);
    assert_eq!(d.onward.hops.len(), 1);
    assert_eq!(d.onward.hops[0].bytes, b"a".to_vec());
    assert_eq!(d.return_.hops.len(), 2);
    assert_eq!(d.return_.hops[0].bytes, b"bc".to_vec());
    assert_eq!(d.return_.hops[1].bytes, b"d".to_vec());
    assert_eq!(d.payload, vec![9, 9]);
}

#[test]
fn empty_routes_and_payload_round_trip() {
    let e = Envelope { version: 1, onward: Route::new(), return_: Route::new(), payload: vec![] };
    let bytes = e.encode().unwrap();
    assert_eq!(bytes, vec![1, 0, 0, 0, 0]);
    let d = Envelope::decode(bytes.as_slice()).unwrap();
    assert_eq!(d.version, 1);
    assert_eq!(d.onward.hops.len(), 0);
    assert_eq!(d.return_.hops.len(), 0);
    assert_eq!(d.payload, Vec::<u8>::new());
}

#[test]
fn truncated_bytes_fail_to_decode() {
    let bytes = sample_envelope().encode().unwrap();
    // The payload runs to the end of the buffer, so only cuts into the
    // route section can be detected.
    for cut in 0..5 {
        match Envelope::decode(&bytes[..cut]) {
            Err(e) => assert_eq!(e, ChannelError::CodecError),
            Ok(_) => panic!("a truncated route section must not decode"),
        }
    }
}

#[test]
fn oversized_address_is_refused_by_encode() {
    let e = Envelope {
        version: 1,
        onward: route_of(&[&[0u8; 0x1_0000]]),
        return_: Route::new(),
        payload: vec![],
    };
    match e.encode() {
        Err(err) => assert_eq!(err, ChannelError::CodecError),
        Ok(_) => panic!("an address longer than two bytes can say must be refused"),
    }
}

#[test]
fn prepare_message_prefixes_the_length() {
    let framed = prepare_message(&sample_envelope()).unwrap();
    let body = sample_envelope().encode().unwrap();
    assert_eq!(framed[0], 0);
    assert_eq!(framed[1], body.len() as u8);
    assert_eq!(&framed[2..], body.as_slice());
}

#[test]
fn route_step_and_prepend() {
    let mut r = route_of(&[b"x", b"y"]);
    assert_eq!(r.len(), 2);
    let first = r.step().unwrap();
    assert_eq!(first.bytes, b"x".to_vec());
    assert_eq!(r.len(), 1);
    r.prepend(addr(b"z"));
    assert_eq!(r.hops[0].bytes, b"z".to_vec());
    assert_eq!(r.hops[1].bytes, b"y".to_vec());
    let cloned = r.clone();
    assert_eq!(cloned.hops[0].bytes, r.hops[0].bytes);
    let mut empty = Route::new();
    assert!(empty.step().is_none());
}

#[test]
fn error_messages_name_each_failure() {
    let errors = [
        ChannelError::InvalidNonce,
        ChannelError::KeyExchangeNotComplete,
        ChannelError::InvalidInternalState,
        ChannelError::CryptoAuthFailure,
        ChannelError::CodecError,
        ChannelError::RoutingError,
    ];
    for (i, a) in errors.iter().enumerate() {
        assert!(!a.message().is_empty());
        for (j, b) in errors.iter().enumerate() {
            if i != j {
                assert_ne!(a.message(), b.message());
            }
        }
    }
}

#[test]
fn keys_and_response_message_accessors() {
    let keys = ockam_channel::Keys::new([7u8; 32], 3, 4);
    assert_eq!(keys.h(), [7u8; 32]);
    assert_eq!(keys.encrypt_key(), 3);
    assert_eq!(keys.decrypt_key(), 4);
    let resp = ockam_channel::KeyExchangeResponseMessage::new(Some(vec![1]), None);
    assert_eq!(resp.payload, Some(vec![1]));
    assert!(resp.keys.is_none());
    let m = ockam_channel::channel::ChannelMessage::encrypt(b"m".to_vec()).unwrap();
    match m {
        ockam_channel::channel::ChannelMessage::Encrypt { m } => assert_eq!(m, b"m".to_vec()),
        _ => panic!("expected an encrypt request"),
    }
}
