//! The login initiator and the single-shot poller, driven with real
//! cryptography: a test keypair plays the server's side and seals a
//! credential that the poller must recover.

use argo_access::errors::ArgoError;
use argo_access::login::{
    poll_begin, poll_login, request_login_finish, request_login_prepare, PollHttpResponse,
    PollLoginData, PollLoginResp, RequestLoginData, RequestLoginResp,
};
use argo_access::session::Session;
use base64::engine::general_purpose::{STANDARD, URL_SAFE, URL_SAFE_NO_PAD};
use base64::Engine;
use crypto_box::aead::Aead;
use crypto_box::{PublicKey, SalsaBox, SecretKey};

fn ok_request_body(uuid: &str) -> RequestLoginResp {
    RequestLoginResp {
        code: 200,
        msg: String::from("success"),
        data: Some(RequestLoginData {
            authorization_url: String::from("https://example.invalid/authorize"),
            request_uuid: String::from(uuid),
        }),
    }
}

/// Registers a fresh keypair under `uuid` and returns its public half.
fn start_attempt(session: &mut Session, uuid: &str) -> [u8; 32] {
    let (kp, encoded) = request_login_prepare();
    let pk: [u8; 32] = kp.public_key.clone().try_into().unwrap();
    // The encoded public half is the URL-safe padded form of the key.
    assert_eq!(URL_SAFE.decode(&encoded).unwrap(), kp.public_key);
    let data = request_login_finish(session, kp, 200, ok_request_body(uuid)).unwrap();
    assert_eq!(data.request_uuid, uuid);
    pk
}

/// A poll response sealing `msg` for the client public key `client_pk`.
fn sealed_response(client_pk: [u8; 32], msg: &[u8], uuid: &str) -> PollHttpResponse {
    let server_sk = SecretKey::from([7u8; 32]);
    let server_pk = server_sk.public_key();
    let nonce = [9u8; 24];
    let sbox = SalsaBox::new(&PublicKey::from(client_pk), &server_sk);
    let cipher = sbox.encrypt(&nonce.into(), msg).unwrap();
    let mut payload = nonce.to_vec();
    payload.extend_from_slice(&cipher);
    PollHttpResponse {
        status: 200,
        server_key_header: Some(STANDARD.encode(server_pk.as_bytes())),
        body: Some(PollLoginResp {
            code: 200,
            msg: String::from("success"),
            data: Some(PollLoginData {
                authorization_data: URL_SAFE_NO_PAD.encode(&payload),
                request_uuid: String::from(uuid),
            }),
        }),
    }
}

fn pending_response() -> PollHttpResponse {
    PollHttpResponse { status: 204, server_key_header: None, body: None }
}

#[test]
fn generate_public_key_is_padded_urlsafe_of_32_bytes() {
    let s = argo_access::login::argo_generate_public_key().unwrap();
    let bytes = URL_SAFE.decode(&s).unwrap();
    assert_eq!(bytes.len(), 32);
    // Diagnostic only: a second call generates fresh material.
    let s2 = argo_access::login::argo_generate_public_key().unwrap();
    assert_ne!(s, s2);
}

#[test]
fn prepare_derives_public_from_private() {
    let (kp, _) = request_login_prepare();
    let sk_arr: [u8; 32] = kp.private_key.clone().try_into().unwrap();
    let derived = x25519_dalek::PublicKey::from(&x25519_dalek::StaticSecret::from(sk_arr));
    assert_eq!(derived.as_bytes().as_slice(), kp.public_key.as_slice());
}

#[test]
fn request_login_finish_rate_limited() {
    let mut session = Session::new();
    let (kp, _) = request_login_prepare();
    let r = request_login_finish(&mut session, kp, 429, ok_request_body("u1"));
    assert_eq!(r.unwrap_err(), ArgoError::RateLimited);
    // Nothing was registered.
    assert!(poll_begin(&session, &String::from("u1")).is_err());
}

#[test]
fn request_login_finish_protocol_error_carries_message() {
    let mut session = Session::new();
    let (kp, _) = request_login_prepare();
    let body = RequestLoginResp { code: 500, msg: String::from("boom"), data: None };
    let r = request_login_finish(&mut session, kp, 200, body);
    assert_eq!(r.unwrap_err(), ArgoError::ProtocolError(String::from("boom")));
}

#[test]
fn request_login_finish_missing_data() {
    let mut session = Session::new();
    let (kp, _) = request_login_prepare();
    let body = RequestLoginResp { code: 200, msg: String::from("success"), data: None };
    let r = request_login_finish(&mut session, kp, 200, body);
    assert_eq!(r.unwrap_err(), ArgoError::ProtocolError(String::from("missing data")));
}

#[test]
fn poll_unregistered_id_is_key_not_found() {
    let mut session = Session::new();
    let id = String::from("nobody");
    assert_eq!(poll_begin(&session, &id).unwrap_err(), ArgoError::KeyNotFound);
    let r = poll_login(&mut session, &id, &pending_response());
    assert_eq!(r.unwrap_err(), ArgoError::KeyNotFound);
}

#[test]
fn poll_status_dispatch() {
    let mut session = Session::new();
    let id = String::from("abc123");
    start_attempt(&mut session, "abc123");
    let resp429 = PollHttpResponse { status: 429, server_key_header: None, body: None };
    assert_eq!(poll_login(&mut session, &id, &resp429).unwrap_err(), ArgoError::RateLimited);
    assert_eq!(poll_login(&mut session, &id, &pending_response()).unwrap_err(), ArgoError::Pending);
    let resp503 = PollHttpResponse { status: 503, server_key_header: None, body: None };
    assert_eq!(
        poll_login(&mut session, &id, &resp503).unwrap_err(),
        ArgoError::ProtocolError(String::from("HTTP 503"))
    );
    let no_body = PollHttpResponse { status: 200, server_key_header: None, body: None };
    assert_eq!(
        poll_login(&mut session, &id, &no_body).unwrap_err(),
        ArgoError::ProtocolError(String::from("invalid body"))
    );
    let bad_code = PollHttpResponse {
        status: 200,
        server_key_header: None,
        body: Some(PollLoginResp { code: 403, msg: String::from("denied"), data: None }),
    };
    assert_eq!(
        poll_login(&mut session, &id, &bad_code).unwrap_err(),
        ArgoError::ProtocolError(String::from("denied"))
    );
    let no_key = PollHttpResponse {
        status: 200,
        server_key_header: None,
        body: Some(PollLoginResp {
            code: 200,
            msg: String::from("success"),
            data: Some(PollLoginData {
                authorization_data: String::from("AAAA"),
                request_uuid: String::from("abc123"),
            }),
        }),
    };
    assert_eq!(
        poll_login(&mut session, &id, &no_key).unwrap_err(),
        ArgoError::ProtocolError(String::from("missing server key"))
    );
}

#[test]
fn poll_full_flow_decrypts_and_consumes_entry() {
    let mut session = Session::new();
    let id = String::from("abc123");
    let client_pk = start_attempt(&mut session, "abc123");

    // First poll: not yet authorized.
    let r = poll_login(&mut session, &id, &pending_response());
    assert_eq!(r.unwrap_err(), ArgoError::Pending);

    // Second poll: the server sealed the credential for our public key.
    let resp = sealed_response(client_pk, b"Bearer eyJhbGciOi...", "abc123");
    let cred = poll_login(&mut session, &id, &resp).unwrap();
    assert_eq!(cred, "Bearer eyJhbGciOi...");

    // The entry is consumed: a third poll fails with KeyNotFound.
    let resp2 = sealed_response(client_pk, b"Bearer eyJhbGciOi...", "abc123");
    assert_eq!(poll_login(&mut session, &id, &resp2).unwrap_err(), ArgoError::KeyNotFound);
    assert_eq!(poll_begin(&session, &id).unwrap_err(), ArgoError::KeyNotFound);
}

#[test]
fn poll_short_server_key_is_decode_error() {
    let mut session = Session::new();
    let id = String::from("short");
    let client_pk = start_attempt(&mut session, "short");
    let mut resp = sealed_response(client_pk, b"hello", "short");
    // A header that decodes to 31 bytes is rejected before any decryption.
    resp.server_key_header = Some(URL_SAFE.encode([5u8; 31]));
    assert_eq!(poll_login(&mut session, &id, &resp).unwrap_err(), ArgoError::DecodeError);
    // The attempt is still alive: the loop may retry.
    assert!(poll_begin(&session, &id).is_ok());
}

#[test]
fn poll_bad_base64_and_short_payload_are_decode_errors() {
    let mut session = Session::new();
    let id = String::from("bad");
    let client_pk = start_attempt(&mut session, "bad");
    let mut resp = sealed_response(client_pk, b"hello", "bad");
    resp.server_key_header = Some(String::from("@@@@"));
    assert_eq!(poll_login(&mut session, &id, &resp).unwrap_err(), ArgoError::DecodeError);
    let mut resp = sealed_response(client_pk, b"hello", "bad");
    resp.body.as_mut().unwrap().data.as_mut().unwrap().authorization_data =
        URL_SAFE.encode([3u8; 23]);
    assert_eq!(poll_login(&mut session, &id, &resp).unwrap_err(), ArgoError::DecodeError);
}

#[test]
fn poll_tampered_ciphertext_is_decrypt_error() {
    let mut session = Session::new();
    let id = String::from("tamper");
    let client_pk = start_attempt(&mut session, "tamper");
    let resp = sealed_response(client_pk, b"hello", "tamper");
    let mut payload =
        URL_SAFE_NO_PAD
            .decode(&resp.body.as_ref().unwrap().data.as_ref().unwrap().authorization_data)
            .unwrap();
    let last = payload.len() - 1;
    payload[last] ^= 0x01;
    let mut tampered = resp;
    tampered.body.as_mut().unwrap().data.as_mut().unwrap().authorization_data =
        URL_SAFE.encode(&payload);
    assert_eq!(poll_login(&mut session, &id, &tampered).unwrap_err(), ArgoError::DecryptError);
    // Undifferentiated failure keeps the attempt alive.
    assert!(poll_begin(&session, &id).is_ok());
}

#[test]
fn session_operations() {
    let mut session = Session::new();
    let id = String::from("s1");
    let (kp1, _) = request_login_prepare();
    let sk1 = kp1.private_key.clone();
    session.register(id.clone(), kp1);
    assert_eq!(session.lookup(&id).unwrap().private_key, sk1);
    // Overwrite keeps one live keypair per id.
    let (kp2, _) = request_login_prepare();
    let sk2 = kp2.private_key.clone();
    session.register(id.clone(), kp2);
    assert_eq!(session.lookup(&id).unwrap().private_key, sk2);
    // Removal is observable and idempotent.
    session.remove(&id);
    assert!(session.lookup(&id).is_none());
    session.remove(&id);
    assert!(session.lookup(&id).is_none());
    // Cancellation marks are idempotent too.
    assert!(!session.is_marked(&id));
    session.mark(id.clone());
    session.mark(id.clone());
    assert!(session.is_marked(&id));
    session.clear(&id);
    assert!(!session.is_marked(&id));
    session.clear(&id);
    assert!(!session.is_marked(&id));
}
