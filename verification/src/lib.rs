//! A secure-channel protocol engine: handshake sessions, a per-session
//! channel state machine that bootstraps the handshake and then encrypts and
//! decrypts application traffic, and a listener that instantiates responder
//! sessions on demand.
//!
//! The message-routing substrate is an external collaborator: every handler
//! here is a plain function from state and message to new state plus a list
//! of [`worker::Action`]s for the substrate to perform.
use vstd::prelude::*;

pub mod channel;
pub mod channel_listener;
pub mod codec;
pub mod crypto;
pub mod error;
pub mod initiator;
pub mod responder;
pub mod routing;
pub mod worker;

verus! {

/// One step of the handshake dialogue sent to a handshake session.
pub enum KeyExchangeRequestMessage {
    Payload(Vec<u8>),
    InitiatorFirstMessage,
}

/// What a completed handshake derives: the transcript-binding hash and the
/// store handles of the two symmetric keys.
#[derive(Clone, Copy)]
pub struct Keys {
    pub h: [u8; 32],
    pub encrypt_key: usize,
    pub decrypt_key: usize,
}

impl Keys {
    /// Bundle a transcript hash with the two key handles.
    pub fn new(h: [u8; 32], encrypt_key: usize, decrypt_key: usize) -> (r: Self)
        ensures
            r.h == h,
            r.encrypt_key == encrypt_key,
            r.decrypt_key == decrypt_key,
    {
        Keys { h, encrypt_key, decrypt_key }
    }

    /// The transcript-binding hash.
    pub fn h(&self) -> (r: [u8; 32])
        ensures
            r == self.h,
    {
        self.h
    }

    /// The handle of the key this side encrypts with.
    pub fn encrypt_key(&self) -> (r: usize)
        ensures
            r == self.encrypt_key,
    {
        self.encrypt_key
    }

    /// The handle of the key this side decrypts with.
    pub fn decrypt_key(&self) -> (r: usize)
        ensures
            r == self.decrypt_key,
    {
        self.decrypt_key
    }
}

/// What a handshake session answers after each request: an optional outgoing
/// handshake payload, and the derived keys once the exchange completed.
pub struct KeyExchangeResponseMessage {
    pub payload: Option<Vec<u8>>,
    pub keys: Option<Keys>,
}

impl KeyExchangeResponseMessage {
    /// Bundle an optional outgoing payload with optional completed keys.
    pub fn new(payload: Option<Vec<u8>>, keys: Option<Keys>) -> (r: Self)
        ensures
            r.payload == payload,
            r.keys == keys,
    {
        KeyExchangeResponseMessage { payload, keys }
    }
}

} // verus!
