//! Ephemeral X25519 key material: one single-use keypair per login attempt,
//! generated from the operating system's secure random source.

use vstd::prelude::*;
use vstd::slice::slice_to_vec;

verus! {

/// The X25519 public key derived from the secret key `sk`, as
/// `x25519_dalek::PublicKey::from(&sk)` computes it: a function of the
/// secret key alone.
pub uninterp spec fn x25519_pub_of(sk: Seq<u8>) -> Seq<u8>;

/// A single-use asymmetric keypair, generated fresh per login attempt and
/// owned by the pending-request registry from creation until removal.
pub struct EphemeralKeyPair {
    pub private_key: Vec<u8>,
    pub public_key: Vec<u8>,
}

impl EphemeralKeyPair {
    /// Both halves are 32 bytes.
    pub open spec fn wf(&self) -> bool {
        &&& self.private_key@.len() == 32
        &&& self.public_key@.len() == 32
    }

    /// An explicit copy; the registry hands copies out so that a caller can
    /// keep using the keypair while the registry keeps owning its entry.
    pub fn duplicate(&self) -> (r: EphemeralKeyPair)
        ensures
            r.private_key@ == self.private_key@,
            r.public_key@ == self.public_key@,
    {
        EphemeralKeyPair {
            private_key: slice_to_vec(self.private_key.as_slice()),
            public_key: slice_to_vec(self.public_key.as_slice()),
        }
    }
}

/// Relies on `x25519_dalek::StaticSecret::random_from_rng` with
/// `rand_core::OsRng` and
/// `x25519_dalek::PublicKey::from`: the secret key is 32 random bytes from
/// the operating system's secure source, and the public key is the X25519
/// public half derived from it.  Nothing is promised about the secret bytes
/// themselves: they come from a random source.
#[verifier::external_body]
pub(crate) fn generate_keypair() -> (r: EphemeralKeyPair)
    ensures
        r.wf(),
        r.public_key@ == x25519_pub_of(r.private_key@),
{
    let sk = x25519_dalek::StaticSecret::random_from_rng(rand_core::OsRng);
    let pk = x25519_dalek::PublicKey::from(&sk);
    EphemeralKeyPair {
        private_key: sk.to_bytes().to_vec(),
        public_key: pk.to_bytes().to_vec(),
    }
}

} // verus!
