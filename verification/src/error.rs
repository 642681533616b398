use vstd::prelude::*;

verus! {

/// Errors raised by the secure-channel layer.
///
/// Every error is terminal for the operation that raised it: nothing in this
/// crate retries. A channel that hits one of these keeps existing but cannot
/// make progress on the failed operation.
#[derive(Clone, Copy, Debug, PartialEq, Eq, Structural)]
pub enum ChannelError {
    /// The two-byte nonce prefix was malformed, or the outgoing nonce
    /// counter is exhausted.
    InvalidNonce,
    /// Encrypt or decrypt was attempted before the handshake finished.
    KeyExchangeNotComplete,
    /// Handshake keys delivered twice, or a handshake session was used
    /// after it finalized.
    InvalidInternalState,
    /// AEAD tag verification failed on decrypt.
    CryptoAuthFailure,
    /// Malformed envelope or handshake payload bytes.
    CodecError,
    /// The routing substrate could not deliver a message.
    RoutingError,
}

impl ChannelError {
    /// A short human-readable description of the error.
    pub fn message(&self) -> (r: &'static str)
        ensures
            r@.len() > 0,
    {
        proof {
            reveal_strlit("invalid nonce");
            reveal_strlit("key exchange is not complete");
            reveal_strlit("invalid internal state");
            reveal_strlit("authenticated decryption failed");
            reveal_strlit("malformed message bytes");
            reveal_strlit("routing failure");
        }
        match self {
            ChannelError::InvalidNonce => "invalid nonce",
            ChannelError::KeyExchangeNotComplete => "key exchange is not complete",
            ChannelError::InvalidInternalState => "invalid internal state",
            ChannelError::CryptoAuthFailure => "authenticated decryption failed",
            ChannelError::CodecError => "malformed message bytes",
            ChannelError::RoutingError => "routing failure",
        }
    }
}

} // verus!
