use vstd::prelude::*;

use crate::channel_listener::ChannelListenerMessage;
use crate::codec::{spec_envelope_enc, spec_envelope_dec, spec_u16_be, spec_u16_of};
use crate::crypto::{aead_dec, aead_decrypt, aead_enc, aead_encrypt, kex_initiator_new,
    kex_responder_new, vault_has_aead_key, vault_key, VaultBox};
use crate::error::ChannelError;
use crate::initiator::{KexReply, XInitiator};
use crate::responder::XResponder;
use crate::routing::{Address, Envelope, EnvelopeView, Route};
use crate::worker::{Action, Context, OutboundMessage};
use crate::KeyExchangeRequestMessage;

verus! {

/// The bytes of the address `channel/<id>` derived from a session
/// identifier: a pure function of the identifier's characters.
pub uninterp spec fn spec_channel_address(id: Seq<char>) -> Seq<u8>;

/// The 96-bit AEAD nonce built from a counter: ten zero bytes, then the
/// counter in two-byte big-endian form.
pub open spec fn spec_nonce12(n: int) -> Seq<u8> {
    seq![0u8, 0u8, 0u8, 0u8, 0u8, 0u8, 0u8, 0u8, 0u8, 0u8] + spec_u16_be(n)
}

/// The envelope a channel builds for an outgoing `Encrypt` request: protocol
/// version 1, the caller's onward route with the channel's own hop stripped
/// from the front, the caller's reply route, and the raw payload.
pub open spec fn spec_encrypt_envelope(
    onward: Seq<Seq<u8>>,
    reply: Seq<Seq<u8>>,
    m: Seq<u8>,
) -> EnvelopeView {
    EnvelopeView { version: 1u8, onward: onward.drop_first(), return_: reply, payload: m }
}

/// Law: a ciphertext produced by a channel's own encryption — the two-byte
/// counter, then the sealed encoding of the envelope — opens, under the same
/// key material, back to exactly the envelope that was sealed, so the
/// application payload comes back unchanged. The hypotheses are precisely
/// what a successful `Encrypt` guarantees of its output; the conclusion is
/// precisely the successful branch of `Decrypt`'s contract.
pub proof fn lemma_encrypt_decrypt_roundtrip(
    key: Seq<u8>,
    ctr: u16,
    onward: Seq<Seq<u8>>,
    reply: Seq<Seq<u8>>,
    m: Seq<u8>,
    ct: Seq<u8>,
)
    ensures
        ({
            let env = spec_encrypt_envelope(onward, reply, m);
            let enc = spec_envelope_enc(env);
            (env.wf() && ct == spec_u16_be(ctr as int) + aead_enc(
                key,
                spec_nonce12(ctr as int),
                enc,
            ) && aead_dec(key, spec_nonce12(ctr as int), ct.skip(2)) == Some(enc)) ==> (ct.len()
                >= 2 && spec_u16_of(ct[0], ct[1]) == ctr as int && (match aead_dec(
                key,
                spec_nonce12(spec_u16_of(ct[0], ct[1])),
                ct.skip(2),
            ) {
                Some(pt) => spec_envelope_dec(pt) == Some(env) && env.payload == m,
                None => false,
            }))
        }),
{
    let env = spec_encrypt_envelope(onward, reply, m);
    let enc = spec_envelope_enc(env);
    if env.wf() && ct == spec_u16_be(ctr as int) + aead_enc(key, spec_nonce12(ctr as int), enc)
        && aead_dec(key, spec_nonce12(ctr as int), ct.skip(2)) == Some(enc) {
        crate::codec::lemma_u16_be_of(ctr as int);
        assert(ct[0] == spec_u16_be(ctr as int)[0]);
        assert(ct[1] == spec_u16_be(ctr as int)[1]);
        assert(spec_u16_of(ct[0], ct[1]) == ctr as int);
        crate::codec::lemma_envelope_roundtrip(env);
    }
}

/// Law: two successive successful encryptions on one channel use the counter
/// values `n` and `n + 1` — strictly increasing — and the 96-bit nonces built
/// from distinct counters differ, so no (key, nonce) pair is ever reused
/// while the key stays fixed.
pub proof fn lemma_nonce_never_reused(a: u16, b: u16)
    requires
        a != b,
    ensures
        spec_nonce12(a as int) != spec_nonce12(b as int),
{
    crate::codec::lemma_u16_be_of(a as int);
    crate::codec::lemma_u16_be_of(b as int);
    assert(spec_nonce12(a as int)[10] == spec_u16_be(a as int)[0]);
    assert(spec_nonce12(a as int)[11] == spec_u16_be(a as int)[1]);
    assert(spec_nonce12(b as int)[10] == spec_u16_be(b as int)[0]);
    assert(spec_nonce12(b as int)[11] == spec_u16_be(b as int)[1]);
    if spec_nonce12(a as int) == spec_nonce12(b as int) {
        assert(spec_u16_of(spec_u16_be(a as int)[0], spec_u16_be(a as int)[1]) == a as int);
        assert(spec_u16_of(spec_u16_be(b as int)[0], spec_u16_be(b as int)[1]) == b as int);
    }
}

/// What the application and the remote peer send a channel.
pub enum ChannelMessage {
    /// Handshake bytes from the remote peer.
    KeyExchange { payload: Vec<u8> },
    /// A local request to encrypt and send the bytes `m`.
    Encrypt { m: Vec<u8> },
    /// Ciphertext from the remote peer: a two-byte nonce counter, then the
    /// AEAD ciphertext of an envelope.
    Decrypt { payload: Vec<u8> },
}

impl ChannelMessage {
    /// Wrap already-encoded application bytes as an encryption request.
    pub fn encrypt(m: Vec<u8>) -> (r: Result<ChannelMessage, ChannelError>)
        ensures
            r matches Ok(cm) && cm matches ChannelMessage::Encrypt { m: m2 } && m2@ == m@,
    {
        Ok(ChannelMessage::Encrypt { m })
    }
}

/// The one-shot notification a channel emits when its handshake completes.
pub struct KeyExchangeCompleted {
    pub channel_id: String,
}

impl KeyExchangeCompleted {
    /// The session identifier of the completed channel.
    pub fn channel_id(&self) -> (r: &str)
        ensures
            r@ == self.channel_id@,
    {
        self.channel_id.as_str()
    }
}

/// The cryptographic state a channel holds once its handshake completed: the
/// transcript hash, the two key handles, the monotone outgoing nonce
/// counter, and the key store the handles point into.
pub struct ChannelKeys {
    pub h: [u8; 32],
    pub encrypt_key: usize,
    pub decrypt_key: usize,
    pub nonce: u16,
    pub vault: VaultBox,
}

/// The nested handshake session a channel drives, in its role.
pub enum KexWorker {
    Initiator(XInitiator),
    Responder(XResponder),
}

/// One end of a secure channel: drives the handshake bootstrap, then
/// encrypts and decrypts application envelopes for the session's life.
pub struct Channel {
    pub key_exchange_factory_address: Address,
    pub is_initiator: bool,
    pub sent_first_msg: bool,
    pub received_first_msg: bool,
    pub route: Route,
    pub channel_id: String,
    pub kex: Option<KexWorker>,
    pub keys: Option<ChannelKeys>,
    pub key_exchange_completed_callback_route: Option<Route>,
}

impl Channel {
    /// A channel before initialization: no handshake session and no keys.
    pub fn new(
        key_exchange_factory_address: Address,
        is_initiator: bool,
        route: Route,
        channel_id: String,
        key_exchange_completed_callback_route: Option<Route>,
    ) -> (r: Self)
        ensures
            r.key_exchange_factory_address == key_exchange_factory_address,
            r.is_initiator == is_initiator,
            r.sent_first_msg == false,
            r.received_first_msg == false,
            r.route == route,
            r.channel_id == channel_id,
            r.kex is None,
            r.keys is None,
            r.key_exchange_completed_callback_route == key_exchange_completed_callback_route,
    {
        Channel {
            key_exchange_factory_address,
            is_initiator,
            sent_first_msg: false,
            received_first_msg: false,
            route,
            channel_id,
            kex: None,
            keys: None,
            key_exchange_completed_callback_route,
        }
    }

    /// Relies on `format!` and `String::into_bytes`: the address
    /// `channel/<id>`, a pure function of the identifier.
    #[verifier::external_body]
    pub fn get_address(channel_id: String) -> (a: Address)
        ensures
            a@ == spec_channel_address(channel_id@),
    {
        Address { bytes: format!("channel/{}", channel_id).into_bytes() }
    }

    /// Ask the substrate to start an initiator channel toward `route` under
    /// the session identifier's derived address. The caller's own address is
    /// registered as the completion-notification route.
    pub fn start_initiator_channel(ctx: &mut Context, channel_id: String, route: Route) -> (r:
        Result<(), ChannelError>)
        ensures
            r is Ok,
            final(ctx).address == old(ctx).address,
            final(ctx).actions@.len() == old(ctx).actions@.len() + 1,
            old(ctx).actions@.is_prefix_of(final(ctx).actions@),
            final(ctx).actions@.last() matches Action::StartChannel { address, channel }
                && address@ == spec_channel_address(channel_id@) && channel.is_initiator == true
                && channel.sent_first_msg == false && channel.received_first_msg == false
                && channel.route@ == route@ && channel.channel_id@ == channel_id@
                && channel.kex is None && channel.keys is None
                && (channel.key_exchange_completed_callback_route matches Some(cb) && cb@ == seq![
                old(ctx).address@,
            ]),
    {
        let address = Self::get_address(channel_id.clone());
        let callback = Route::new().append(ctx.address.clone());
        proof {
            assert(callback@ =~= seq![old(ctx).address@]);
        }
        let channel = Channel::new(
            Address::from_bytes(Vec::new()),
            true,
            route,
            channel_id,
            Some(callback),
        );
        ctx.actions.push(Action::StartChannel { address, channel });
        proof {
            assert(old(ctx).actions@.is_prefix_of(ctx.actions@));
        }
        Ok(())
    }

    /// Build the two-byte big-endian form of the counter and the 96-bit
    /// nonce that zero-pads it.
    fn convert_nonce_u16(nonce: u16) -> (r: (Vec<u8>, Vec<u8>))
        ensures
            r.0@ == spec_u16_be(nonce as int),
            r.1@ == spec_nonce12(nonce as int),
    {
        let b0: u8 = (nonce / 256) as u8;
        let b1: u8 = (nonce % 256) as u8;
        let mut small: Vec<u8> = Vec::new();
        small.push(b0);
        small.push(b1);
        let mut n: Vec<u8> = Vec::new();
        let mut i: usize = 0;
        while i < 10
            invariant
                i <= 10,
                n@.len() == i,
                forall|j: int| 0 <= j < i ==> n@[j] == 0u8,
            decreases 10 - i,
        {
            n.push(0u8);
            i = i + 1;
        }
        n.push(b0);
        n.push(b1);
        proof {
            assert(small@ =~= spec_u16_be(nonce as int));
            assert(n@ =~= spec_nonce12(nonce as int));
        }
        (small, n)
    }

    /// Rebuild the 96-bit nonce from a received two-byte counter prefix.
    fn convert_nonce_small(b: &[u8]) -> (r: Result<Vec<u8>, ChannelError>)
        ensures
            b@.len() == 2 ==> (r matches Ok(n) && n@ == spec_nonce12(spec_u16_of(b@[0], b@[1]))),
            b@.len() != 2 ==> r == Err::<Vec<u8>, ChannelError>(ChannelError::InvalidNonce),
    {
        if b.len() != 2 {
            return Err(ChannelError::InvalidNonce);
        }
        let b0 = *vstd::slice::slice_index_get(b, 0);
        let b1 = *vstd::slice::slice_index_get(b, 1);
        let mut n: Vec<u8> = Vec::new();
        let mut i: usize = 0;
        while i < 10
            invariant
                i <= 10,
                n@.len() == i,
                forall|j: int| 0 <= j < i ==> n@[j] == 0u8,
            decreases 10 - i,
        {
            n.push(0u8);
            i = i + 1;
        }
        n.push(b0);
        n.push(b1);
        proof {
            crate::codec::lemma_u16_of_be(b0, b1);
            assert(n@ =~= spec_nonce12(spec_u16_of(b@[0], b@[1])));
        }
        Ok(n)
    }

    /// Create the nested handshake session and, as initiator, produce and
    /// dispatch the first handshake message.
    pub fn initialize(&mut self, ctx: &mut Context) -> (r: Result<(), ChannelError>)
        requires
            old(self).sent_first_msg == false,
        ensures
            final(ctx).address == old(ctx).address,
            old(ctx).actions@.is_prefix_of(final(ctx).actions@),
            final(self).is_initiator == old(self).is_initiator,
            final(self).channel_id == old(self).channel_id,
            r is Ok ==> final(self).kex is Some && (old(self).is_initiator
                <==> final(self).kex matches Some(KexWorker::Initiator(_))),
            r is Ok ==> final(self).keys == old(self).keys,
            r is Ok && !old(self).is_initiator ==> *final(ctx) == *old(ctx) && final(self).route
                == old(self).route && final(self).sent_first_msg == old(self).sent_first_msg,
            r is Ok && old(self).is_initiator ==> final(self).sent_first_msg == true && final(self).route == old(self).route && final(ctx).actions@.len() == old(ctx).actions@.len() + 1
                && (final(ctx).actions@.last() matches Action::Send { route, message } && route@
                == old(self).route@ && (message matches OutboundMessage::Listener(
                ChannelListenerMessage::CreateResponderChannel { channel_id, payload },
            ) && channel_id@ == old(self).channel_id@)),
    {
        if self.is_initiator {
            let kex = match kex_initiator_new() {
                Ok(k) => k,
                Err(e) => {
                    return Err(e);
                },
            };
            let mut session = XInitiator::new(kex);
            let reply = match session.handle_message(
                KeyExchangeRequestMessage::InitiatorFirstMessage,
            ) {
                Ok(rep) => rep,
                Err(e) => {
                    self.kex = Some(KexWorker::Initiator(session));
                    return Err(e);
                },
            };
            self.kex = Some(KexWorker::Initiator(session));
            self.handle_key_exchange_local(ctx, reply)
        } else {
            let kex = match kex_responder_new() {
                Ok(k) => k,
                Err(e) => {
                    return Err(e);
                },
            };
            self.kex = Some(KexWorker::Responder(XResponder::new(kex)));
            Ok(())
        }
    }

    /// Handle one delivered channel message, in three shapes. `KeyExchange`
    /// feeds peer handshake bytes into the nested session, learning the
    /// peer's location from the reply route. `Encrypt` seals an envelope
    /// built from the caller's routes and payload under the next nonce and
    /// dispatches it; it is refused before the handshake completes
    /// (`KeyExchangeNotComplete`) and once the nonce counter is exhausted
    /// (`InvalidNonce`). `Decrypt` opens a received ciphertext, prepends this
    /// channel's own address to the envelope's return route and forwards it;
    /// a forged or altered ciphertext is refused (`CryptoAuthFailure`) and
    /// nothing is forwarded.
    pub fn handle_message(
        &mut self,
        ctx: &mut Context,
        msg: ChannelMessage,
        onward_route: Route,
        reply: Route,
    ) -> (r: Result<(), ChannelError>)
        requires
            msg matches ChannelMessage::Encrypt { m } ==> onward_route@.len() >= 1,
        ensures
            final(ctx).address == old(ctx).address,
            old(ctx).actions@.is_prefix_of(final(ctx).actions@),
            final(self).is_initiator == old(self).is_initiator,
            final(self).channel_id == old(self).channel_id,
            // --- handshake bytes from the peer ---
            msg matches ChannelMessage::KeyExchange { payload } ==> ({
                &&& old(self).kex is None ==> r == Err::<(), ChannelError>(
                    ChannelError::InvalidInternalState,
                ) && *final(self) == *old(self) && *final(ctx) == *old(ctx)
                &&& old(self).kex is Some ==> final(self).received_first_msg == true && final(self).route@ == (if old(self).is_initiator || old(self).received_first_msg {
                    reply@
                } else {
                    old(self).route@
                })
                &&& r is Ok ==> (final(self).keys == old(self).keys || (old(self).keys is None
                    && (final(self).keys matches Some(ck) && ck.nonce == 1 && vault_has_aead_key(
                    ck.vault,
                    ck.encrypt_key,
                ) && vault_has_aead_key(ck.vault, ck.decrypt_key))))
                &&& r is Ok ==> final(ctx).actions@.len() <= old(ctx).actions@.len() + 2
                    && (forall|i: int|
                    old(ctx).actions@.len() <= i < final(ctx).actions@.len()
                        ==> (match #[trigger] final(ctx).actions@[i] {
                        Action::Send { route, .. } => route@ == final(self).route@ || (old(
                            self,
                        ).key_exchange_completed_callback_route matches Some(cb) && route@ == cb@),
                        _ => false,
                    }))
            }),
            // --- encrypt and dispatch an application payload ---
            msg matches ChannelMessage::Encrypt { m } ==> ({
                let env = spec_encrypt_envelope(onward_route@, reply@, m@);
                let enc = spec_envelope_enc(env);
                &&& final(self).route == old(self).route
                &&& final(self).kex == old(self).kex
                &&& final(self).sent_first_msg == old(self).sent_first_msg
                &&& final(self).received_first_msg == old(self).received_first_msg
                &&& !env.wf() ==> r == Err::<(), ChannelError>(ChannelError::CodecError)
                    && *final(self) == *old(self) && *final(ctx) == *old(ctx)
                &&& env.wf() && enc.len() > 0xFFFF_FFFF ==> r == Err::<(), ChannelError>(
                    ChannelError::CodecError,
                ) && *final(self) == *old(self) && *final(ctx) == *old(ctx)
                &&& env.wf() && enc.len() <= 0xFFFF_FFFF && old(self).keys is None ==> r == Err::<
                    (),
                    ChannelError,
                >(ChannelError::KeyExchangeNotComplete) && *final(self) == *old(self) && *final(ctx) == *old(ctx)
                &&& env.wf() && enc.len() <= 0xFFFF_FFFF ==> (old(self).keys matches Some(ck)
                    ==> ({
                    &&& ck.nonce == 0xFFFF ==> r == Err::<(), ChannelError>(
                        ChannelError::InvalidNonce,
                    ) && *final(self) == *old(self) && *final(ctx) == *old(ctx)
                    &&& ck.nonce < 0xFFFF ==> ({
                        &&& final(self).keys matches Some(ck2) && ck2.nonce == ck.nonce + 1
                            && ck2.vault == ck.vault && ck2.encrypt_key == ck.encrypt_key
                            && ck2.decrypt_key == ck.decrypt_key && ck2.h == ck.h
                        &&& vault_has_aead_key(ck.vault, ck.encrypt_key) ==> r is Ok && final(ctx).actions@.len() == old(ctx).actions@.len() + 1 && (final(ctx).actions@.last() matches Action::Send { route, message } && route@ == old(self).route@ && (message matches OutboundMessage::Channel(
                            ChannelMessage::Decrypt { payload },
                        ) && payload@ == spec_u16_be(ck.nonce as int) + aead_enc(
                            vault_key(ck.vault, ck.encrypt_key),
                            spec_nonce12(ck.nonce as int),
                            enc,
                        ) && payload@.take(2) == spec_u16_be(ck.nonce as int) && aead_dec(
                            vault_key(ck.vault, ck.encrypt_key),
                            spec_nonce12(ck.nonce as int),
                            payload@.skip(2),
                        ) == Some(enc)))
                        &&& !vault_has_aead_key(ck.vault, ck.encrypt_key) ==> r == Err::<
                            (),
                            ChannelError,
                        >(ChannelError::InvalidInternalState) && *final(ctx) == *old(ctx)
                    })
                }))
            }),
            // --- open and forward a received ciphertext ---
            msg matches ChannelMessage::Decrypt { payload } ==> ({
                &&& *final(self) == *old(self)
                &&& old(self).keys is None ==> r == Err::<(), ChannelError>(
                    ChannelError::KeyExchangeNotComplete,
                ) && *final(ctx) == *old(ctx)
                &&& old(self).keys matches Some(ck) ==> ({
                    &&& payload@.len() < 2 ==> r == Err::<(), ChannelError>(
                        ChannelError::InvalidNonce,
                    ) && *final(ctx) == *old(ctx)
                    &&& payload@.len() >= 2 && vault_has_aead_key(ck.vault, ck.decrypt_key)
                        ==> (match aead_dec(
                        vault_key(ck.vault, ck.decrypt_key),
                        spec_nonce12(spec_u16_of(payload@[0], payload@[1])),
                        payload@.skip(2),
                    ) {
                        None => r == Err::<(), ChannelError>(ChannelError::CryptoAuthFailure)
                            && *final(ctx) == *old(ctx),
                        Some(pt) => match spec_envelope_dec(pt) {
                            None => r == Err::<(), ChannelError>(ChannelError::CodecError)
                                && *final(ctx) == *old(ctx),
                            Some(env) => r is Ok && final(ctx).actions@.len() == old(ctx).actions@.len() + 1 && (final(ctx).actions@.last()
                                matches Action::Forward { envelope } && envelope@.version
                                == env.version && envelope@.onward == env.onward
                                && envelope@.payload == env.payload && envelope@.return_ == seq![
                                spec_channel_address(old(self).channel_id@),
                            ] + env.return_),
                        },
                    })
                })
            }),
    {
        match msg {
            ChannelMessage::KeyExchange { payload } => {
                if self.kex.is_none() {
                    return Err(ChannelError::InvalidInternalState);
                }
                if self.is_initiator || self.received_first_msg {
                    self.route = reply;
                }
                self.received_first_msg = true;
                let rep = match &mut self.kex {
                    Some(KexWorker::Initiator(session)) => {
                        match session.handle_message(KeyExchangeRequestMessage::Payload(payload)) {
                            Ok(rp) => rp,
                            Err(e) => {
                                return Err(e);
                            },
                        }
                    },
                    Some(KexWorker::Responder(session)) => {
                        match session.handle_message(KeyExchangeRequestMessage::Payload(payload)) {
                            Ok(rp) => rp,
                            Err(e) => {
                                return Err(e);
                            },
                        }
                    },
                    None => {
                        return Err(ChannelError::InvalidInternalState);
                    },
                };
                let ghost rep_view = rep;
                let ghost pre = ctx.actions@;
                let ghost cb_pre = self.key_exchange_completed_callback_route;
                let out = self.handle_key_exchange_local(ctx, rep);
                proof {
                    if out is Ok {
                        assert forall|i: int| pre.len() <= i < ctx.actions@.len() implies (
                        match #[trigger] ctx.actions@[i] {
                            Action::Send { route, .. } => route@ == self.route@ || (
                            cb_pre matches Some(cb) && route@ == cb@),
                            _ => false,
                        }) by {
                            if rep_view.response.payload is Some && i == pre.len() {
                            } else {
                                assert(rep_view.response.keys is Some);
                                assert(i == ctx.actions@.len() - 1);
                            }
                        }
                    }
                }
                out
            },
            ChannelMessage::Encrypt { m } => {
                let ghost env0 = spec_encrypt_envelope(onward_route@, reply@, m@);
                let onward = onward_route.without_first_hop();
                let envelope = Envelope { version: 1, onward, return_: reply, payload: m };
                proof {
                    assert(envelope@ == env0);
                }
                let bytes = match envelope.encode() {
                    Ok(b) => b,
                    Err(e) => {
                        return Err(e);
                    },
                };
                if bytes.len() > 0xFFFF_FFFF {
                    return Err(ChannelError::CodecError);
                }
                match &mut self.keys {
                    None => Err(ChannelError::KeyExchangeNotComplete),
                    Some(ck) => {
                        if ck.nonce == u16::MAX {
                            return Err(ChannelError::InvalidNonce);
                        }
                        let nonce_val = ck.nonce;
                        ck.nonce = nonce_val + 1;
                        let pair = Self::convert_nonce_u16(nonce_val);
                        let ct = match aead_encrypt(
                            &ck.vault,
                            ck.encrypt_key,
                            bytes.as_slice(),
                            pair.1.as_slice(),
                        ) {
                            Ok(c) => c,
                            Err(e) => {
                                return Err(e);
                            },
                        };
                        let mut res = pair.0;
                        crate::codec::append_bytes(&mut res, ct.as_slice());
                        proof {
                            assert(res@.take(2) =~= spec_u16_be(nonce_val as int));
                            assert(res@.skip(2) =~= ct@);
                        }
                        let message = OutboundMessage::Channel(
                            ChannelMessage::Decrypt { payload: res },
                        );
                        ctx.actions.push(Action::Send { route: self.route.clone(), message });
                        proof {
                            assert(old(ctx).actions@.is_prefix_of(ctx.actions@));
                        }
                        Ok(())
                    },
                }
            },
            ChannelMessage::Decrypt { payload } => {
                let ck = match &self.keys {
                    Some(k) => k,
                    None => {
                        return Err(ChannelError::KeyExchangeNotComplete);
                    },
                };
                if payload.len() < 2 {
                    return Err(ChannelError::InvalidNonce);
                }
                let prefix = vstd::slice::slice_subrange(payload.as_slice(), 0, 2);
                let nonce12 = match Self::convert_nonce_small(prefix) {
                    Ok(n) => n,
                    Err(e) => {
                        return Err(e);
                    },
                };
                proof {
                    assert(prefix@[0] == payload@[0]);
                    assert(prefix@[1] == payload@[1]);
                }
                let ctail = vstd::slice::slice_subrange(payload.as_slice(), 2, payload.len());
                proof {
                    assert(ctail@ =~= payload@.skip(2));
                }
                let pt = match aead_decrypt(&ck.vault, ck.decrypt_key, ctail, nonce12.as_slice()) {
                    Ok(p) => p,
                    Err(e) => {
                        return Err(e);
                    },
                };
                let mut envelope = match Envelope::decode(pt.as_slice()) {
                    Ok(e) => e,
                    Err(e2) => {
                        return Err(e2);
                    },
                };
                envelope.return_.prepend(Self::get_address(self.channel_id.clone()));
                ctx.actions.push(Action::Forward { envelope });
                proof {
                    assert(old(ctx).actions@.is_prefix_of(ctx.actions@));
                }
                Ok(())
            },
        }
    }

    /// Process one response from the nested handshake session, as spelled
    /// out by the protocol: an outgoing payload is wrapped and dispatched
    /// (as a session-initiation request for the initiator's first message,
    /// as an ordinary `KeyExchange` otherwise), and completed keys are
    /// stored exactly once, with the nonce counter starting at 1 and a
    /// one-shot completion notification to the registered route.
    pub fn handle_key_exchange_local(&mut self, ctx: &mut Context, reply_msg: KexReply) -> (r:
        Result<(), ChannelError>)
        ensures
            final(ctx).address == old(ctx).address,
            old(ctx).actions@.is_prefix_of(final(ctx).actions@),
            final(self).is_initiator == old(self).is_initiator,
            final(self).received_first_msg == old(self).received_first_msg,
            final(self).route == old(self).route,
            final(self).channel_id == old(self).channel_id,
            final(self).kex == old(self).kex,
            // what is sent for an outgoing handshake payload
            reply_msg.response.payload matches Some(p) ==> final(self).sent_first_msg == true
                && final(ctx).actions@.len() > old(ctx).actions@.len() && (final(ctx).actions@[old(ctx).actions@.len() as int] matches Action::Send { route, message }
                && route@ == old(self).route@ && (if old(self).is_initiator && !old(self).sent_first_msg {
                message matches OutboundMessage::Listener(
                    ChannelListenerMessage::CreateResponderChannel { channel_id, payload },
                ) && channel_id@ == old(self).channel_id@ && payload@ == p@
            } else {
                message matches OutboundMessage::Channel(ChannelMessage::KeyExchange { payload })
                    && payload@ == p@
            })),
            reply_msg.response.payload is None ==> final(self).sent_first_msg == old(self).sent_first_msg,
            // keys are stored exactly once
            reply_msg.response.keys is Some && old(self).keys is Some ==> r == Err::<
                (),
                ChannelError,
            >(ChannelError::InvalidInternalState) && final(self).keys == old(self).keys,
            reply_msg.response.keys matches Some(k) ==> (old(self).keys is None ==> (
            reply_msg.vault matches Some(v) ==> r is Ok && (final(self).keys matches Some(ck)
                && ck.h == k.h && ck.encrypt_key == k.encrypt_key && ck.decrypt_key
                == k.decrypt_key && ck.nonce == 1 && ck.vault == v) && final(self).key_exchange_completed_callback_route is None)),
            reply_msg.response.keys is Some && old(self).keys is None && reply_msg.vault is None
                ==> r == Err::<(), ChannelError>(ChannelError::InvalidInternalState),
            reply_msg.response.keys is Some && old(self).keys is None && r is Ok ==> (old(self).key_exchange_completed_callback_route matches Some(cb) ==> final(ctx).actions@.len() > 0 && (final(ctx).actions@.last() matches Action::Send {
                route,
                message,
            } && route == cb && (message matches OutboundMessage::Completed(done)
                && done.channel_id@ == old(self).channel_id@))),
            reply_msg.response.keys is None ==> r is Ok && final(self).keys == old(self).keys
                && final(self).key_exchange_completed_callback_route == old(self).key_exchange_completed_callback_route,
            r is Ok ==> final(ctx).actions@.len() == old(ctx).actions@.len() + (
            if reply_msg.response.payload is Some {
                1int
            } else {
                0int
            }) + (
            if reply_msg.response.keys is Some
                && old(self).key_exchange_completed_callback_route is Some {
                1int
            } else {
                0int
            }),
    {
        let KexReply { response, vault } = reply_msg;
        if let Some(payload) = response.payload {
            if self.is_initiator && !self.sent_first_msg {
                let message = OutboundMessage::Listener(
                    ChannelListenerMessage::CreateResponderChannel {
                        channel_id: self.channel_id.clone(),
                        payload,
                    },
                );
                ctx.actions.push(Action::Send { route: self.route.clone(), message });
            } else {
                let message = OutboundMessage::Channel(ChannelMessage::KeyExchange { payload });
                ctx.actions.push(Action::Send { route: self.route.clone(), message });
            }
            self.sent_first_msg = true;
        }
        if let Some(keys) = response.keys {
            if self.keys.is_some() {
                return Err(ChannelError::InvalidInternalState);
            }
            let vault = match vault {
                Some(v) => v,
                None => {
                    return Err(ChannelError::InvalidInternalState);
                },
            };
            self.keys = Some(
                ChannelKeys {
                    h: keys.h,
                    encrypt_key: keys.encrypt_key,
                    decrypt_key: keys.decrypt_key,
                    nonce: 1,
                    vault,
                },
            );
            if let Some(r) = self.key_exchange_completed_callback_route.take() {
                let message = OutboundMessage::Completed(
                    KeyExchangeCompleted { channel_id: self.channel_id.clone() },
                );
                ctx.actions.push(Action::Send { route: r, message });
            }
        }
        Ok(())
    }
}

} // verus!
