//! The two halves of the handshake's service dialogue: starting a login flow
//! and interpreting one poll response.
//!
//! The surrounding application performs the HTTP calls; this module holds
//! everything around them.  [`request_login_prepare`] produces the keypair
//! and the encoded public key that the begin-login request carries, and
//! [`request_login_finish`] interprets the begin-login response and registers
//! the keypair.  [`poll_login`] interprets one poll response end to end:
//! status dispatch, envelope checks, tolerant decoding of the server key and
//! the payload, authenticated decryption, and removal of the registry entry
//! on success.

use crate::codec::{b64_decode_any, b64_url_pad_of, b64_urlsafe_padded, is_b64_form_of};
use crate::digits::{spec_dec, u16_to_dec};
use crate::errors::ArgoError;
use crate::keys::{generate_keypair, x25519_pub_of, EphemeralKeyPair};
use crate::sealed::{box_seal_of, open_credential, utf8_lossy_of};
use crate::session::{KeyPairView, Session};
use vstd::prelude::*;

verus! {

/// The begin-login response envelope.
#[derive(Debug)]
pub struct RequestLoginResp {
    pub code: i32,
    pub msg: String,
    pub data: Option<RequestLoginData>,
}

/// The payload of a successful begin-login response.
#[derive(Debug)]
pub struct RequestLoginData {
    pub authorization_url: String,
    pub request_uuid: String,
}

/// The poll response envelope.
#[derive(Debug)]
pub struct PollLoginResp {
    pub code: i32,
    pub msg: String,
    pub data: Option<PollLoginData>,
}

/// The payload of a successful poll response.
#[derive(Debug)]
pub struct PollLoginData {
    pub authorization_data: String,
    pub request_uuid: String,
}

/// One poll response, reduced to plain values: the HTTP status, the
/// server-key header if present, and the parsed envelope if the body parsed.
#[derive(Debug)]
pub struct PollHttpResponse {
    pub status: u16,
    pub server_key_header: Option<String>,
    pub body: Option<PollLoginResp>,
}

/// Generates a keypair for diagnostic inspection and returns the URL-safe
/// padded encoding of its public half; registers nothing.
pub fn argo_generate_public_key() -> (r: Result<String, String>)
    ensures
        r is Ok,
        exists|sk: Seq<u8>|
            sk.len() == 32 && x25519_pub_of(sk).len() == 32 && r->Ok_0@ == b64_url_pad_of(
                x25519_pub_of(sk),
            ),
{
    let kp = generate_keypair();
    let s = b64_urlsafe_padded(kp.public_key.as_slice());
    proof {
        assert(kp.private_key@.len() == 32 && x25519_pub_of(kp.private_key@).len() == 32 && s@
            == b64_url_pad_of(x25519_pub_of(kp.private_key@)));
    }
    Ok(s)
}

/// Generates the attempt's single-use keypair together with the URL-safe
/// padded encoding of its public half, ready to be carried to the
/// begin-login endpoint.
pub fn request_login_prepare() -> (r: (EphemeralKeyPair, String))
    ensures
        r.0.wf(),
        r.0.public_key@ == x25519_pub_of(r.0.private_key@),
        r.1@ == b64_url_pad_of(r.0.public_key@),
{
    let kp = generate_keypair();
    let s = b64_urlsafe_padded(kp.public_key.as_slice());
    (kp, s)
}

/// Interprets the begin-login response: a rate-limit status fails with
/// [`ArgoError::RateLimited`], a non-success envelope code with
/// [`ArgoError::ProtocolError`] carrying the envelope's message, a missing
/// payload with [`ArgoError::ProtocolError`]; on success the keypair is
/// registered under the returned request id and the payload handed back for
/// out-of-band display.  The registry changes exactly on success.
pub fn request_login_finish(
    session: &mut Session,
    kp: EphemeralKeyPair,
    status: u16,
    body: RequestLoginResp,
) -> (r: Result<RequestLoginData, ArgoError>)
    requires
        old(session).wf(),
        kp.wf(),
    ensures
        final(session).wf(),
        final(session).cancel_set() == old(session).cancel_set(),
        status == 429 ==> (r matches Err(e) && e is RateLimited),
        status != 429 && body.code != 200 ==> (r matches Err(ArgoError::ProtocolError(m)) && m@
            == body.msg@),
        status != 429 && body.code == 200 && body.data is None ==> (r matches Err(
            ArgoError::ProtocolError(m),
        ) && m@ == "missing data"@),
        status != 429 && body.code == 200 && body.data is Some ==> (r matches Ok(d) && d
            == body.data->Some_0 && final(session).registry_map() == old(
            session,
        ).registry_map().insert(d.request_uuid@, (kp.private_key@, kp.public_key@))),
        r is Err ==> final(session).registry_map() == old(session).registry_map(),
{
    if status == 429 {
        return Err(ArgoError::RateLimited);
    }
    if body.code != 200 {
        return Err(ArgoError::ProtocolError(body.msg));
    }
    match body.data {
        None => Err(ArgoError::ProtocolError(String::from_str("missing data"))),
        Some(data) => {
            session.register(data.request_uuid.clone(), kp);
            Ok(data)
        },
    }
}

/// The poll response's envelope is complete: success status, a parsed body
/// with a success code and a payload, and a server-key header.
pub open spec fn envelope_ok(resp: PollHttpResponse) -> bool {
    &&& resp.status == 200
    &&& resp.body is Some
    &&& resp.body->Some_0.code == 200
    &&& resp.body->Some_0.data is Some
    &&& resp.server_key_header is Some
}

/// The server-key header of a complete response, as text.
pub open spec fn header_text(resp: PollHttpResponse) -> Seq<char> {
    resp.server_key_header->Some_0@
}

/// The encrypted-data field of a complete response, as text.
pub open spec fn auth_text(resp: PollHttpResponse) -> Seq<char> {
    resp.body->Some_0.data->Some_0.authorization_data@
}

/// The poll response is an honest delivery for the recipient secret key
/// `sk`: its envelope is complete, its header encodes the sender's 32-byte
/// public key, and its encrypted data encodes a payload whose ciphertext
/// part some sender sealed for `sk`'s public half, under the payload's own
/// 24-byte nonce, containing the message `m`.
pub open spec fn resp_seals(
    resp: PollHttpResponse,
    sk: Seq<u8>,
    sender_sk: Seq<u8>,
    p: Seq<u8>,
    m: Seq<u8>,
) -> bool {
    &&& envelope_ok(resp)
    &&& sender_sk.len() == 32
    &&& x25519_pub_of(sender_sk).len() == 32
    &&& is_b64_form_of(header_text(resp), x25519_pub_of(sender_sk))
    &&& is_b64_form_of(auth_text(resp), p)
    &&& p.len() >= 24
    &&& p.skip(24) == box_seal_of(sender_sk, x25519_pub_of(sk), p.subrange(0, 24), m)
}

/// Pre-flight check of one poll attempt: succeeds exactly when a keypair is
/// registered for `request_uuid`.  The application calls this before issuing
/// the network request, so that a lost attempt fails fast with
/// [`ArgoError::KeyNotFound`] and no network call is attempted.
pub fn poll_begin(session: &Session, request_uuid: &String) -> (r: Result<(), ArgoError>)
    requires
        session.wf(),
    ensures
        r is Ok <==> session.registry_map().contains_key(request_uuid@),
        r is Err ==> r->Err_0 is KeyNotFound,
{
    match session.lookup(request_uuid) {
        Some(_) => Ok(()),
        None => Err(ArgoError::KeyNotFound),
    }
}

/// Interprets one poll response for `request_uuid` and, on success, recovers
/// the plaintext credential and removes the attempt from the registry.
///
/// The contract walks the specified dispatch: an unregistered id fails with
/// `KeyNotFound` whatever the response holds; status 429 is `RateLimited`,
/// 204 is `Pending`, any other non-200 status is a `ProtocolError` carrying
/// the decimal status; a missing or non-success envelope is a
/// `ProtocolError`; a server key that is not exactly 32 bytes, or a payload
/// shorter than its 24-byte nonce, is a `DecodeError`.  An honest delivery
/// (see [`resp_seals`]) is owed success and yields exactly the sealed
/// message.  The registry entry is consumed exactly on success.
pub fn poll_login(session: &mut Session, request_uuid: &String, resp: &PollHttpResponse) -> (r:
    Result<String, ArgoError>)
    requires
        old(session).wf(),
    ensures
        final(session).wf(),
        final(session).cancel_set() == old(session).cancel_set(),
        !old(session).registry_map().contains_key(request_uuid@) ==> (r matches Err(e) && e
            is KeyNotFound),
        old(session).registry_map().contains_key(request_uuid@) && r is Err ==> !(r->Err_0
            is KeyNotFound),
        r is Err ==> final(session).registry_map() == old(session).registry_map(),
        r is Ok ==> final(session).registry_map() == old(session).registry_map().remove(
            request_uuid@,
        ),
        r is Err ==> (r->Err_0.spec_is_transient() || r->Err_0 is KeyNotFound),
        old(session).registry_map().contains_key(request_uuid@) ==> {
            &&& resp.status == 429 ==> (r matches Err(e) && e is RateLimited)
            &&& resp.status == 204 ==> (r matches Err(e) && e is Pending)
            &&& resp.status != 200 && resp.status != 204 && resp.status != 429 ==> (r matches Err(
                ArgoError::ProtocolError(m),
            ) && m@ == "HTTP "@ + spec_dec(resp.status as nat))
            &&& resp.status == 200 && resp.body is None ==> (r matches Err(
                ArgoError::ProtocolError(m),
            ) && m@ == "invalid body"@)
            &&& resp.status == 200 && resp.body is Some && resp.body->Some_0.code != 200 ==> (r
                matches Err(ArgoError::ProtocolError(m)) && m@ == resp.body->Some_0.msg@)
            &&& resp.status == 200 && resp.body is Some && resp.body->Some_0.code == 200
                && resp.body->Some_0.data is None ==> (r matches Err(ArgoError::ProtocolError(m))
                && m@ == "missing data"@)
            &&& resp.status == 200 && resp.body is Some && resp.body->Some_0.code == 200
                && resp.body->Some_0.data is Some && resp.server_key_header is None ==> (r matches
                Err(ArgoError::ProtocolError(m)) && m@ == "missing server key"@)
        },
        old(session).registry_map().contains_key(request_uuid@) ==> forall|b: Seq<u8>|
            envelope_ok(*resp) && #[trigger] is_b64_form_of(header_text(*resp), b) && b.len() != 32
                ==> (r matches Err(e) && e is DecodeError),
        old(session).registry_map().contains_key(request_uuid@) ==> forall|k: Seq<u8>, p: Seq<u8>|
            envelope_ok(*resp) && #[trigger] is_b64_form_of(header_text(*resp), k) && k.len() == 32
                && #[trigger] is_b64_form_of(auth_text(*resp), p) && p.len() < 24 ==> (r matches Err(
                e,
            ) && e is DecodeError),
        old(session).registry_map().contains_key(request_uuid@) ==> forall|k: Seq<u8>, p: Seq<u8>|
            envelope_ok(*resp) && #[trigger] is_b64_form_of(header_text(*resp), k) && k.len() == 32
                && #[trigger] is_b64_form_of(auth_text(*resp), p) && p.len() >= 24 ==> (r is Ok || (
            r matches Err(e) && e is DecryptError)),
        old(session).registry_map().contains_key(request_uuid@) ==> forall|
            sender_sk: Seq<u8>,
            p: Seq<u8>,
            m: Seq<u8>,
        |
            #[trigger] resp_seals(
                *resp,
                old(session).registry_map()[request_uuid@].0,
                sender_sk,
                p,
                m,
            ) ==> (r matches Ok(c) && c@ == utf8_lossy_of(m)),
{
    let kp = match session.lookup(request_uuid) {
        None => { return Err(ArgoError::KeyNotFound) },
        Some(kp) => kp,
    };
    if resp.status == 429 {
        return Err(ArgoError::RateLimited);
    }
    if resp.status == 204 {
        return Err(ArgoError::Pending);
    }
    if resp.status != 200 {
        let mut m = String::from_str("HTTP ");
        let d = u16_to_dec(resp.status);
        m.append(d.as_str());
        return Err(ArgoError::ProtocolError(m));
    }
    let body = match &resp.body {
        None => { return Err(ArgoError::ProtocolError(String::from_str("invalid body"))) },
        Some(b) => b,
    };
    if body.code != 200 {
        return Err(ArgoError::ProtocolError(body.msg.clone()));
    }
    let data = match &body.data {
        None => { return Err(ArgoError::ProtocolError(String::from_str("missing data"))) },
        Some(d) => d,
    };
    let header = match &resp.server_key_header {
        None => { return Err(ArgoError::ProtocolError(String::from_str("missing server key"))) },
        Some(h) => h,
    };
    let server_pk = match b64_decode_any(header.as_str()) {
        Err(_) => { return Err(ArgoError::DecodeError) },
        Ok(v) => v,
    };
    if server_pk.len() != 32 {
        return Err(ArgoError::DecodeError);
    }
    let payload = match b64_decode_any(data.authorization_data.as_str()) {
        Err(_) => { return Err(ArgoError::DecodeError) },
        Ok(v) => v,
    };
    if payload.len() < 24 {
        return Err(ArgoError::DecodeError);
    }
    match open_credential(&kp.private_key, &server_pk, &payload) {
        Ok(cred) => {
            session.remove(request_uuid);
            Ok(cred)
        },
        Err(e) => Err(e),
    }
}

/// A successful poll consumes its registry entry, so afterwards the registry
/// no longer contains the attempt's id; by [`poll_login`]'s contract, a
/// second poll for the same id must then fail with
/// [`ArgoError::KeyNotFound`].
pub proof fn lemma_poll_consumes_entry(m: Map<Seq<char>, KeyPairView>, id: Seq<char>)
    ensures
        !m.remove(id).contains_key(id),
{
}

} // verus!
