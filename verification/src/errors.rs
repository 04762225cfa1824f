//! The failure classes of the handshake, told apart so that the wait loop can
//! distinguish transient failures (worth another poll) from fatal and terminal
//! ones.

use vstd::prelude::*;

verus! {

/// One error kind per failure class of the handshake.
///
/// `RateLimited`, `Pending`, `ProtocolError`, `DecodeError` and `DecryptError`
/// are transient: the wait loop absorbs them and polls again.  `KeyNotFound`
/// is fatal: the local keypair for the attempt is gone, so no further poll can
/// ever succeed.  `Cancelled` and `TimedOut` are the wait loop's own terminal
/// outcomes.
#[derive(Debug, Clone, PartialEq, Eq)]
pub enum ArgoError {
    /// The server asked the client to slow down (HTTP 429).
    RateLimited,
    /// The out-of-band user action has not completed yet (HTTP 204).
    Pending,
    /// A malformed or unexpected server response; carries a short description.
    ProtocolError(String),
    /// Binary decoding of the server key or the payload failed.
    DecodeError,
    /// Authenticated decryption failed; deliberately undifferentiated so the
    /// reason (key mismatch, tag mismatch, ...) is not leaked.
    DecryptError,
    /// No keypair is registered for the request id: the attempt's state was
    /// lost and the flow must be restarted.
    KeyNotFound,
    /// The caller asked the wait loop to stop.
    Cancelled,
    /// The wait loop exhausted its attempt budget.
    TimedOut,
}

impl ArgoError {
    /// Whether the wait loop may absorb this error and poll again.
    pub open spec fn spec_is_transient(&self) -> bool {
        match self {
            ArgoError::RateLimited => true,
            ArgoError::Pending => true,
            ArgoError::ProtocolError(_) => true,
            ArgoError::DecodeError => true,
            ArgoError::DecryptError => true,
            ArgoError::KeyNotFound => false,
            ArgoError::Cancelled => false,
            ArgoError::TimedOut => false,
        }
    }

    /// Executable twin of [`Self::spec_is_transient`].
    pub fn is_transient(&self) -> (r: bool)
        ensures
            r == self.spec_is_transient(),
    {
        match self {
            ArgoError::RateLimited => true,
            ArgoError::Pending => true,
            ArgoError::ProtocolError(_) => true,
            ArgoError::DecodeError => true,
            ArgoError::DecryptError => true,
            ArgoError::KeyNotFound => false,
            ArgoError::Cancelled => false,
            ArgoError::TimedOut => false,
        }
    }
}

} // verus!
