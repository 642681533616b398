use vstd::prelude::*;

use crate::crypto::{
    kex_responder_generate, kex_responder_handle, kex_responder_is_complete,
    kex_responder_finalize, vault_has_aead_key, KexResponder,
};
use crate::error::ChannelError;
use crate::initiator::KexReply;
use crate::{KeyExchangeRequestMessage, KeyExchangeResponseMessage};

verus! {

/// The responder-side handshake session. It wraps one single-use exchanger;
/// once the handshake finalizes the exchanger is consumed, and any further
/// request is answered with `InvalidInternalState`.
pub struct XResponder {
    pub responder: Option<KexResponder>,
}

impl XResponder {
    /// Wrap a fresh responder-side exchanger.
    pub fn new(responder: KexResponder) -> (r: Self)
        ensures
            r.responder is Some,
    {
        XResponder { responder: Some(responder) }
    }

    /// Drive the handshake one step; the mirror image of
    /// [`crate::initiator::XInitiator::handle_message`]. A responder never
    /// starts the exchange, so `InitiatorFirstMessage` is refused.
    pub fn handle_message(&mut self, msg: KeyExchangeRequestMessage) -> (r: Result<
        KexReply,
        ChannelError,
    >)
        ensures
            old(self).responder is None ==> r == Err::<KexReply, ChannelError>(
                ChannelError::InvalidInternalState,
            ) && *final(self) == *old(self),
            r matches Ok(rep) ==> old(self).responder is Some,
            r matches Ok(rep) ==> (rep.response.keys is Some <==> final(self).responder is None),
            r matches Ok(rep) ==> (rep.vault is Some <==> rep.response.keys is Some),
            r matches Ok(rep) ==> (rep.response.keys matches Some(k) ==> (rep.vault matches Some(
                v,
            ) && vault_has_aead_key(v, k.encrypt_key) && vault_has_aead_key(v, k.decrypt_key))),
            msg matches KeyExchangeRequestMessage::InitiatorFirstMessage ==> r is Err
                && *final(self) == *old(self),
    {
        match msg {
            KeyExchangeRequestMessage::InitiatorFirstMessage => {
                Err(ChannelError::InvalidInternalState)
            },
            KeyExchangeRequestMessage::Payload(payload) => {
                match &mut self.responder {
                    Some(kex) => {
                        match kex_responder_handle(kex, payload.as_slice()) {
                            Ok(_) => (),
                            Err(e) => {
                                return Err(e);
                            },
                        }
                    },
                    None => {
                        return Err(ChannelError::InvalidInternalState);
                    },
                }
                let complete = match &self.responder {
                    Some(kex) => kex_responder_is_complete(kex),
                    None => {
                        return Err(ChannelError::InvalidInternalState);
                    },
                };
                let new_payload: Option<Vec<u8>> = if !complete {
                    let p = match &mut self.responder {
                        Some(kex) => {
                            let empty: Vec<u8> = Vec::new();
                            match kex_responder_generate(kex, empty.as_slice()) {
                                Ok(p) => p,
                                Err(e) => {
                                    return Err(e);
                                },
                            }
                        },
                        None => {
                            return Err(ChannelError::InvalidInternalState);
                        },
                    };
                    Some(p)
                } else {
                    None
                };
                // Producing the last outgoing message may itself have
                // finished the exchange, so completeness is checked anew.
                let finished = match &self.responder {
                    Some(kex) => kex_responder_is_complete(kex),
                    None => {
                        return Err(ChannelError::InvalidInternalState);
                    },
                };
                if finished {
                    let taken = match self.responder.take() {
                        Some(k) => k,
                        None => {
                            return Err(ChannelError::InvalidInternalState);
                        },
                    };
                    match kex_responder_finalize(taken) {
                        Ok(p) => Ok(
                            KexReply {
                                response: KeyExchangeResponseMessage::new(
                                    new_payload,
                                    Some(p.1),
                                ),
                                vault: Some(p.0),
                            },
                        ),
                        Err(e) => Err(e),
                    }
                } else {
                    Ok(
                        KexReply {
                            response: KeyExchangeResponseMessage::new(new_payload, None),
                            vault: None,
                        },
                    )
                }
            },
        }
    }
}

} // verus!
