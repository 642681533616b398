use vstd::prelude::*;

use ockam_key_exchange_core::{KeyExchanger, NewKeyExchanger};
use ockam_key_exchange_xx::{Initiator, Responder, XXNewKeyExchanger};
use ockam_vault::SoftwareVault;
use ockam_vault_core::{Secret, SymmetricVault};
use ockam_vault_sync_core::VaultMutex;

use crate::error::ChannelError;
use crate::Keys;

verus! {

/// A private store of cryptographic key material. Key bytes never leave the
/// store; the channel refers to them through plain `usize` handles.
#[verifier::external_body]
pub struct VaultBox {
    inner: VaultMutex<SoftwareVault>,
}

/// The key material held by the store under a handle.
pub uninterp spec fn vault_key(v: VaultBox, handle: usize) -> Seq<u8>;

/// Whether the store holds an AES key fit for AEAD under a handle.
pub uninterp spec fn vault_has_aead_key(v: VaultBox, handle: usize) -> bool;

/// AES-256-GCM encryption with empty associated data: a pure function of the
/// key material, the 96-bit nonce and the plaintext.
pub uninterp spec fn aead_enc(key: Seq<u8>, nonce: Seq<u8>, plaintext: Seq<u8>) -> Seq<u8>;

/// AES-256-GCM decryption with empty associated data; `None` when the
/// authentication tag does not verify.
pub uninterp spec fn aead_dec(key: Seq<u8>, nonce: Seq<u8>, ciphertext: Seq<u8>) -> Option<
    Seq<u8>,
>;

/// Relies on `SoftwareVault::aead_aes_gcm_encrypt` (AES-GCM, empty aad,
/// behind `VaultMutex`): with an AES key under the handle it succeeds, is
/// deterministic in key material, nonce and plaintext, appends a 16-byte tag,
/// and its output decrypts back to the plaintext under the same key and
/// nonce. The store itself is not changed by encrypting.
#[verifier::external_body]
pub(crate) fn aead_encrypt(
    v: &VaultBox,
    key: usize,
    plaintext: &[u8],
    nonce: &[u8],
) -> (r: Result<Vec<u8>, ChannelError>)
    requires
        nonce@.len() == 12,
        plaintext@.len() <= 0xFFFF_FFFF,
    ensures
        vault_has_aead_key(*v, key) ==> (match r {
            Ok(ct) => ct@ == aead_enc(vault_key(*v, key), nonce@, plaintext@) && ct@.len()
                == plaintext@.len() + 16 && aead_dec(vault_key(*v, key), nonce@, ct@) == Some(
                plaintext@,
            ),
            Err(_) => false,
        }),
        !vault_has_aead_key(*v, key) ==> r is Err,
        r matches Err(e) ==> e == ChannelError::InvalidInternalState,
{
    let mut store = v.inner.clone();
    store.aead_aes_gcm_encrypt(&Secret::new(key), plaintext, nonce, &[]).map_err(
        |_| ChannelError::InvalidInternalState,
    )
}

/// Relies on `SoftwareVault::aead_aes_gcm_decrypt` (AES-GCM, empty aad,
/// behind `VaultMutex`): with an AES key under the handle it returns exactly
/// the plaintext whose authenticated encryption the input is, and fails
/// exactly when tag verification fails. The store itself is not changed.
#[verifier::external_body]
pub(crate) fn aead_decrypt(
    v: &VaultBox,
    key: usize,
    ciphertext: &[u8],
    nonce: &[u8],
) -> (r: Result<Vec<u8>, ChannelError>)
    requires
        nonce@.len() == 12,
    ensures
        vault_has_aead_key(*v, key) ==> (match aead_dec(vault_key(*v, key), nonce@, ciphertext@) {
            Some(pt) => r matches Ok(p) && p@ == pt,
            None => r is Err,
        }),
        !vault_has_aead_key(*v, key) ==> r is Err,
        r matches Err(e) ==> e == ChannelError::CryptoAuthFailure,
{
    let mut store = v.inner.clone();
    store.aead_aes_gcm_decrypt(&Secret::new(key), ciphertext, nonce, &[]).map_err(
        |_| ChannelError::CryptoAuthFailure,
    )
}

/// One initiator-side handshake in progress, together with the key store
/// that backs it. The two are created together and share one store, so the
/// handles that the handshake derives are meaningful for the store that
/// `finalize` hands back.
#[verifier::external_body]
pub struct KexInitiator {
    vault: VaultMutex<SoftwareVault>,
    initiator: Initiator<VaultMutex<SoftwareVault>>,
}

/// One responder-side handshake in progress, with its key store.
#[verifier::external_body]
pub struct KexResponder {
    vault: VaultMutex<SoftwareVault>,
    responder: Responder<VaultMutex<SoftwareVault>>,
}

/// Relies on `XXNewKeyExchanger::initiator` over a fresh `SoftwareVault`:
/// builds one single-use initiator handshake.
#[verifier::external_body]
pub(crate) fn kex_initiator_new() -> (r: Result<KexInitiator, ChannelError>) {
    let vault = VaultMutex::create(SoftwareVault::default());
    let exchanger = XXNewKeyExchanger::new(vault.clone());
    match exchanger.initiator() {
        Ok(initiator) => Ok(KexInitiator { vault, initiator }),
        Err(_) => Err(ChannelError::InvalidInternalState),
    }
}

/// Relies on `XXNewKeyExchanger::responder` over a fresh `SoftwareVault`:
/// builds one single-use responder handshake.
#[verifier::external_body]
pub(crate) fn kex_responder_new() -> (r: Result<KexResponder, ChannelError>) {
    let vault = VaultMutex::create(SoftwareVault::default());
    let exchanger = XXNewKeyExchanger::new(vault.clone());
    match exchanger.responder() {
        Ok(responder) => Ok(KexResponder { vault, responder }),
        Err(_) => Err(ChannelError::InvalidInternalState),
    }
}

/// Relies on `Initiator::generate_request`: produces the next outgoing
/// handshake message. Its bytes depend on freshly drawn ephemeral keys, so
/// nothing is promised of them.
#[verifier::external_body]
pub(crate) fn kex_initiator_generate(k: &mut KexInitiator, payload: &[u8]) -> (r: Result<
    Vec<u8>,
    ChannelError,
>) {
    k.initiator.generate_request(payload).map_err(|_| ChannelError::CodecError)
}

/// Relies on `Initiator::handle_response`: feeds one peer handshake message
/// into the exchange; fails on malformed or out-of-order bytes.
#[verifier::external_body]
pub(crate) fn kex_initiator_handle(k: &mut KexInitiator, response: &[u8]) -> (r: Result<
    Vec<u8>,
    ChannelError,
>) {
    k.initiator.handle_response(response).map_err(|_| ChannelError::CodecError)
}

/// Relies on `Initiator::is_complete`: whether the handshake needs no
/// further messages.
#[verifier::external_body]
pub(crate) fn kex_initiator_is_complete(k: &KexInitiator) -> (r: bool) {
    k.initiator.is_complete()
}

/// Relies on `Initiator::finalize` and the `CompletedKeyExchange` getters:
/// on success the derived encrypt and decrypt handles name AES keys imported
/// into the store that is handed back, and the transcript hash is 32 bytes.
#[verifier::external_body]
pub(crate) fn kex_initiator_finalize(k: KexInitiator) -> (r: Result<
    (VaultBox, Keys),
    ChannelError,
>)
    ensures
        r matches Ok(p) ==> vault_has_aead_key(p.0, p.1.encrypt_key) && vault_has_aead_key(
            p.0,
            p.1.decrypt_key,
        ),
{
    let KexInitiator { vault, initiator } = k;
    match initiator.finalize() {
        Ok(ck) => {
            let keys = Keys::new(*ck.h(), ck.encrypt_key().index(), ck.decrypt_key().index());
            Ok((VaultBox { inner: vault }, keys))
        },
        Err(_) => Err(ChannelError::InvalidInternalState),
    }
}

/// Relies on `Responder::generate_request`; see the initiator counterpart.
#[verifier::external_body]
pub(crate) fn kex_responder_generate(k: &mut KexResponder, payload: &[u8]) -> (r: Result<
    Vec<u8>,
    ChannelError,
>) {
    k.responder.generate_request(payload).map_err(|_| ChannelError::CodecError)
}

/// Relies on `Responder::handle_response`; see the initiator counterpart.
#[verifier::external_body]
pub(crate) fn kex_responder_handle(k: &mut KexResponder, response: &[u8]) -> (r: Result<
    Vec<u8>,
    ChannelError,
>) {
    k.responder.handle_response(response).map_err(|_| ChannelError::CodecError)
}

/// Relies on `Responder::is_complete`; see the initiator counterpart.
#[verifier::external_body]
pub(crate) fn kex_responder_is_complete(k: &KexResponder) -> (r: bool) {
    k.responder.is_complete()
}

/// Relies on `Responder::finalize` and the `CompletedKeyExchange` getters;
/// see the initiator counterpart.
#[verifier::external_body]
pub(crate) fn kex_responder_finalize(k: KexResponder) -> (r: Result<
    (VaultBox, Keys),
    ChannelError,
>)
    ensures
        r matches Ok(p) ==> vault_has_aead_key(p.0, p.1.encrypt_key) && vault_has_aead_key(
            p.0,
            p.1.decrypt_key,
        ),
{
    let KexResponder { vault, responder } = k;
    match responder.finalize() {
        Ok(ck) => {
            let keys = Keys::new(*ck.h(), ck.encrypt_key().index(), ck.decrypt_key().index());
            Ok((VaultBox { inner: vault }, keys))
        },
        Err(_) => Err(ChannelError::InvalidInternalState),
    }
}

} // verus!
