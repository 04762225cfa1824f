//! Out-of-band authorization handshake: a client obtains a bearer credential
//! from a remote identity service without sending a long-lived secret in the
//! clear.  The client generates a single-use X25519 keypair, hands the service
//! the public half, waits for an out-of-band user action, and retrieves the
//! credential as an encrypted blob that only the matching private key opens.
//!
//! The crate holds the pure logic of that handshake: the tolerant base64
//! decoder, the pending-request registry and cancellation set, the
//! interpretation of the two service endpoints, the authenticated decryption
//! step, and the retry/timeout/cancel state machine of the wait loop.  The
//! HTTP transport itself is left to the surrounding application, which hands
//! each response to this crate as plain values.

pub mod codec;
pub mod config;
pub mod digits;
pub mod errors;
pub mod keys;
pub mod login;
pub mod sealed;
pub mod session;
pub mod update;
pub mod wait;
