//! The wait loop's terminal behaviour: timeout after the attempt budget,
//! cooperative cancellation, fatal stop on a lost keypair, and success.

use argo_access::errors::ArgoError;
use argo_access::login::{
    poll_login, request_login_finish, request_login_prepare, PollHttpResponse, PollLoginData,
    PollLoginResp, RequestLoginData, RequestLoginResp,
};
use argo_access::session::Session;
use argo_access::wait::{argo_cancel_wait, wait_authorization, wait_step, WaitStep, MAX_ATTEMPTS};
use base64::engine::general_purpose::URL_SAFE;
use base64::Engine;
use crypto_box::aead::Aead;
use crypto_box::{PublicKey, SalsaBox, SecretKey};

fn start_attempt(session: &mut Session, uuid: &str) -> [u8; 32] {
    let (kp, _) = request_login_prepare();
    let pk: [u8; 32] = kp.public_key.clone().try_into().unwrap();
    let body = RequestLoginResp {
        code: 200,
        msg: String::from("success"),
        data: Some(RequestLoginData {
            authorization_url: String::from("https://example.invalid/authorize"),
            request_uuid: String::from(uuid),
        }),
    };
    request_login_finish(session, kp, 200, body).unwrap();
    pk
}

fn pending_response() -> PollHttpResponse {
    PollHttpResponse { status: 204, server_key_header: None, body: None }
}

fn pending_responses(n: usize) -> Vec<PollHttpResponse> {
    let mut v = Vec::new();
    for _ in 0..n {
        v.push(pending_response());
    }
    v
}

fn sealed_response(client_pk: [u8; 32], msg: &[u8], uuid: &str) -> PollHttpResponse {
    let server_sk = SecretKey::from([11u8; 32]);
    let server_pk = server_sk.public_key();
    let nonce = [4u8; 24];
    let sbox = SalsaBox::new(&PublicKey::from(client_pk), &server_sk);
    let cipher = sbox.encrypt(&nonce.into(), msg).unwrap();
    let mut payload = nonce.to_vec();
    payload.extend_from_slice(&cipher);
    PollHttpResponse {
        status: 200,
        server_key_header: Some(URL_SAFE.encode(server_pk.as_bytes())),
        body: Some(PollLoginResp {
            code: 200,
            msg: String::from("success"),
            data: Some(PollLoginData {
                authorization_data: URL_SAFE.encode(&payload),
                request_uuid: String::from(uuid),
            }),
        }),
    }
}

#[test]
fn sixty_pending_polls_time_out() {
    let mut session = Session::new();
    let id = String::from("slow");
    start_attempt(&mut session, "slow");
    let responses = pending_responses(MAX_ATTEMPTS as usize);
    let r = wait_authorization(&mut session, &id, &responses);
    assert_eq!(r.unwrap_err(), ArgoError::TimedOut);
}

#[test]
fn cancel_before_wait_returns_cancelled() {
    let mut session = Session::new();
    let id = String::from("bye");
    start_attempt(&mut session, "bye");
    argo_cancel_wait(&mut session, id.clone()).unwrap();
    let responses = pending_responses(MAX_ATTEMPTS as usize);
    let r = wait_authorization(&mut session, &id, &responses);
    assert_eq!(r.unwrap_err(), ArgoError::Cancelled);
    // The mark and the registry entry are consumed.
    assert!(!session.is_marked(&id));
    assert!(session.lookup(&id).is_none());
}

#[test]
fn cancel_during_wait_stops_at_next_iteration() {
    let mut session = Session::new();
    let id = String::from("midway");
    start_attempt(&mut session, "midway");
    // A few polls happen, then the caller cancels between two iterations.
    let step = wait_step(&mut session, &id, 0, &pending_response());
    let attempts = match step {
        WaitStep::Continue(a) => a,
        WaitStep::Finished(_) => panic!("loop should continue after one pending poll"),
    };
    argo_cancel_wait(&mut session, id.clone()).unwrap();
    let step = wait_step(&mut session, &id, attempts, &pending_response());
    match step {
        WaitStep::Finished(r) => assert_eq!(r.unwrap_err(), ArgoError::Cancelled),
        WaitStep::Continue(_) => panic!("cancellation mark must stop the loop"),
    }
    assert!(!session.is_marked(&id));
    assert!(session.lookup(&id).is_none());
}

#[test]
fn lost_keypair_is_fatal_immediately() {
    let mut session = Session::new();
    let id = String::from("lost");
    let responses = pending_responses(MAX_ATTEMPTS as usize);
    let r = wait_authorization(&mut session, &id, &responses);
    assert_eq!(r.unwrap_err(), ArgoError::KeyNotFound);
}

#[test]
fn wait_succeeds_once_authorized() {
    let mut session = Session::new();
    let id = String::from("happy");
    let client_pk = start_attempt(&mut session, "happy");
    let mut responses = pending_responses(MAX_ATTEMPTS as usize);
    responses[2] = sealed_response(client_pk, b"Bearer eyJhbGciOi...", "happy");
    let r = wait_authorization(&mut session, &id, &responses);
    assert_eq!(r.unwrap(), "Bearer eyJhbGciOi...");
    assert!(session.lookup(&id).is_none());
}

#[test]
fn short_server_key_retries_instead_of_aborting() {
    let mut session = Session::new();
    let id = String::from("retry");
    let client_pk = start_attempt(&mut session, "retry");
    // The first response's server key decodes to 31 bytes; the loop must
    // absorb the decode error and succeed on the following round trip.
    let mut bad = sealed_response(client_pk, b"ignored", "retry");
    bad.server_key_header = Some(URL_SAFE.encode([5u8; 31]));
    assert_eq!(
        poll_login(&mut session, &id, &bad).unwrap_err(),
        ArgoError::DecodeError
    );
    let step = wait_step(&mut session, &id, 0, &bad);
    match step {
        WaitStep::Continue(a) => assert_eq!(a, 1),
        WaitStep::Finished(_) => panic!("a decode error is transient"),
    }
    let mut responses = pending_responses(MAX_ATTEMPTS as usize);
    responses[0] = bad;
    responses[1] = sealed_response(client_pk, b"Bearer ok", "retry");
    let r = wait_authorization(&mut session, &id, &responses);
    assert_eq!(r.unwrap(), "Bearer ok");
}

#[test]
fn cancel_wait_is_idempotent_and_always_succeeds() {
    let mut session = Session::new();
    let id = String::from("again");
    assert!(argo_cancel_wait(&mut session, id.clone()).is_ok());
    assert!(argo_cancel_wait(&mut session, id.clone()).is_ok());
    assert!(session.is_marked(&id));
}
