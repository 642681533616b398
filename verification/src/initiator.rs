use vstd::prelude::*;

use crate::crypto::{
    kex_initiator_generate, kex_initiator_handle, kex_initiator_is_complete,
    kex_initiator_finalize, vault_has_aead_key, KexInitiator, VaultBox,
};
use crate::error::ChannelError;
use crate::{KeyExchangeRequestMessage, KeyExchangeResponseMessage};

verus! {

/// What a handshake session hands back for one request: the response message
/// for the channel, and, exactly when the response carries completed keys,
/// the key store in which those keys live.
pub struct KexReply {
    pub response: KeyExchangeResponseMessage,
    pub vault: Option<VaultBox>,
}

/// The initiator-side handshake session. It wraps one single-use exchanger;
/// once the handshake finalizes the exchanger is consumed, and any further
/// request is answered with `InvalidInternalState`.
pub struct XInitiator {
    pub initiator: Option<KexInitiator>,
}

impl XInitiator {
    /// Wrap a fresh initiator-side exchanger.
    pub fn new(initiator: KexInitiator) -> (r: Self)
        ensures
            r.initiator is Some,
    {
        XInitiator { initiator: Some(initiator) }
    }

    /// Drive the handshake one step. The response carries completed keys
    /// exactly when the exchange finished, and then the exchanger is
    /// consumed irreversibly.
    pub fn handle_message(&mut self, msg: KeyExchangeRequestMessage) -> (r: Result<
        KexReply,
        ChannelError,
    >)
        ensures
            old(self).initiator is None ==> r == Err::<KexReply, ChannelError>(
                ChannelError::InvalidInternalState,
            ) && *final(self) == *old(self),
            r matches Ok(rep) ==> old(self).initiator is Some,
            r matches Ok(rep) ==> (rep.response.keys is Some <==> final(self).initiator is None),
            r matches Ok(rep) ==> (rep.vault is Some <==> rep.response.keys is Some),
            r matches Ok(rep) ==> (rep.response.keys matches Some(k) ==> (rep.vault matches Some(
                v,
            ) && vault_has_aead_key(v, k.encrypt_key) && vault_has_aead_key(v, k.decrypt_key))),
            msg matches KeyExchangeRequestMessage::InitiatorFirstMessage ==> (r matches Ok(rep)
                ==> rep.response.payload is Some && rep.response.keys is None),
    {
        match msg {
            KeyExchangeRequestMessage::InitiatorFirstMessage => {
                let kex = match &mut self.initiator {
                    Some(k) => k,
                    None => {
                        return Err(ChannelError::InvalidInternalState);
                    },
                };
                let empty: Vec<u8> = Vec::new();
                let payload = match kex_initiator_generate(kex, empty.as_slice()) {
                    Ok(p) => p,
                    Err(e) => {
                        return Err(e);
                    },
                };
                Ok(
                    KexReply {
                        response: KeyExchangeResponseMessage::new(Some(payload), None),
                        vault: None,
                    },
                )
            },
            KeyExchangeRequestMessage::Payload(payload) => {
                match &mut self.initiator {
                    Some(kex) => {
                        match kex_initiator_handle(kex, payload.as_slice()) {
                            Ok(_) => (),
                            Err(e) => {
                                return Err(e);
                            },
                        }
                    },
                    None => {
                        return Err(ChannelError::InvalidInternalState);
                    },
                }
                let complete = match &self.initiator {
                    Some(kex) => kex_initiator_is_complete(kex),
                    None => {
                        return Err(ChannelError::InvalidInternalState);
                    },
                };
                let new_payload: Option<Vec<u8>> = if !complete {
                    let p = match &mut self.initiator {
                        Some(kex) => {
                            let empty: Vec<u8> = Vec::new();
                            match kex_initiator_generate(kex, empty.as_slice()) {
                                Ok(p) => p,
                                Err(e) => {
                                    return Err(e);
                                },
                            }
                        },
                        None => {
                            return Err(ChannelError::InvalidInternalState);
                        },
                    };
                    Some(p)
                } else {
                    None
                };
                // Producing the last outgoing message may itself have
                // finished the exchange, so completeness is checked anew.
                let finished = match &self.initiator {
                    Some(kex) => kex_initiator_is_complete(kex),
                    None => {
                        return Err(ChannelError::InvalidInternalState);
                    },
                };
                if finished {
                    let taken = match self.initiator.take() {
                        Some(k) => k,
                        None => {
                            return Err(ChannelError::InvalidInternalState);
                        },
                    };
                    match kex_initiator_finalize(taken) {
                        Ok(p) => Ok(
                            KexReply {
                                response: KeyExchangeResponseMessage::new(
                                    new_payload,
                                    Some(p.1),
                                ),
                                vault: Some(p.0),
                            },
                        ),
                        Err(e) => Err(e),
                    }
                } else {
                    Ok(
                        KexReply {
                            response: KeyExchangeResponseMessage::new(new_payload, None),
                            vault: None,
                        },
                    )
                }
            },
        }
    }
}

} // verus!
