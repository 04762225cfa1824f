//! Authenticated public-key decryption of the credential payload.
//!
//! The service delivers the credential as `[nonce: 24 bytes][ciphertext and
//! authentication tag]`, sealed in a NaCl box: the sender derives a shared
//! secret from its own secret key and the recipient's public key via X25519,
//! then encrypts with XSalsa20-Poly1305 under that secret.  The recipient
//! opens the box with its own secret key and the sender's public key.
//! Decryption failure is deliberately undifferentiated, so that the error
//! does not leak which validation step failed.

use crate::errors::ArgoError;
use crate::keys::x25519_pub_of;
use crypto_box::aead::Aead;
use vstd::prelude::*;
use vstd::slice::slice_subrange;

verus! {

/// The NaCl box sealing of message `m` under `nonce`, produced with the
/// sender's secret key and the recipient's public key, as
/// `crypto_box::SalsaBox::new(&recipient_pk, &sender_sk).encrypt(nonce, m)`
/// computes it: a function of its four arguments alone.
pub uninterp spec fn box_seal_of(
    sender_sk: Seq<u8>,
    recipient_pk: Seq<u8>,
    nonce: Seq<u8>,
    m: Seq<u8>,
) -> Seq<u8>;

/// The bytes that opening a NaCl box yields on success, as
/// `crypto_box::SalsaBox::new(&sender_pk, &recipient_sk).decrypt(nonce, c)`
/// computes them: a function of its four arguments alone.
pub uninterp spec fn box_open_of(
    recipient_sk: Seq<u8>,
    sender_pk: Seq<u8>,
    nonce: Seq<u8>,
    c: Seq<u8>,
) -> Seq<u8>;

/// The text that `String::from_utf8_lossy` renders for the bytes `b`: the
/// bytes read as UTF-8, with each invalid sequence replaced by the
/// replacement character.
pub uninterp spec fn utf8_lossy_of(b: Seq<u8>) -> Seq<char>;

/// Relies on `crypto_box::SalsaBox`: `new` performs X25519 key agreement and
/// `decrypt` opens an XSalsa20-Poly1305 box.  The X25519 shared secret is
/// symmetric in the two keypairs, so a box sealed with the sender's secret
/// key for the recipient's public key opens under the recipient's secret key
/// and the sender's public key, yielding the sealed message; that is the
/// second clause.  Nothing is promised of other ciphertexts beyond the first
/// clause: the result on success is a function of the arguments.
#[verifier::external_body]
fn box_open(sk: &[u8], sender_pk: &[u8], nonce: &[u8], cipher: &[u8]) -> (r: Option<Vec<u8>>)
    requires
        sk@.len() == 32,
        sender_pk@.len() == 32,
        nonce@.len() == 24,
    ensures
        r is Some ==> r->Some_0@ == box_open_of(sk@, sender_pk@, nonce@, cipher@),
        forall|sender_sk: Seq<u8>, m: Seq<u8>|
            sender_sk.len() == 32 && sender_pk@ == x25519_pub_of(sender_sk) && cipher@
                == box_seal_of(sender_sk, x25519_pub_of(sk@), nonce@, m) ==> r is Some
                && r->Some_0@ == m,
{
    let mut sk_arr = [0u8; 32];
    sk_arr.copy_from_slice(sk);
    let mut pk_arr = [0u8; 32];
    pk_arr.copy_from_slice(sender_pk);
    let sbox = crypto_box::SalsaBox::new(
        &crypto_box::PublicKey::from(pk_arr),
        &crypto_box::SecretKey::from(sk_arr),
    );
    sbox.decrypt(crypto_box::Nonce::from_slice(nonce), cipher).ok()
}

/// Relies on `String::from_utf8_lossy`: the rendered text is a function of
/// the bytes alone.
#[verifier::external_body]
fn utf8_lossy(b: &[u8]) -> (r: String)
    ensures
        r@ == utf8_lossy_of(b@),
{
    String::from_utf8_lossy(b).into_owned()
}

/// Splits an encrypted payload into its 24-byte nonce and its ciphertext,
/// opens the box with the attempt's own secret key and the server's public
/// key, and renders the plaintext as text.
///
/// The last clause is the handshake's central recovery law: a payload whose
/// ciphertext was honestly sealed by some sender for this secret key's
/// public half, under the payload's own nonce, opens successfully and yields
/// exactly the sealed message.
pub fn open_credential(sk: &Vec<u8>, server_pk: &Vec<u8>, payload: &Vec<u8>) -> (r: Result<
    String,
    ArgoError,
>)
    requires
        sk@.len() == 32,
        server_pk@.len() == 32,
        payload@.len() >= 24,
    ensures
        r is Ok ==> r->Ok_0@ == utf8_lossy_of(
            box_open_of(sk@, server_pk@, payload@.subrange(0, 24), payload@.skip(24)),
        ),
        r is Err ==> r->Err_0 is DecryptError,
        forall|sender_sk: Seq<u8>, m: Seq<u8>|
            sender_sk.len() == 32 && server_pk@ == x25519_pub_of(sender_sk) && payload@.skip(24)
                == box_seal_of(sender_sk, x25519_pub_of(sk@), payload@.subrange(0, 24), m) ==> r
                is Ok && r->Ok_0@ == utf8_lossy_of(m),
{
    let n: usize = payload.len();
    let nonce = slice_subrange(payload.as_slice(), 0, 24);
    let cipher = slice_subrange(payload.as_slice(), 24, n);
    match box_open(sk.as_slice(), server_pk.as_slice(), nonce, cipher) {
        Some(plain) => Ok(utf8_lossy(plain.as_slice())),
        None => Err(ArgoError::DecryptError),
    }
}

} // verus!
