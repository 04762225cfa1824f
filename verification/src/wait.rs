//! The wait loop: a cancellable, time-bounded polling state machine.
//!
//! Each iteration first honours a cancellation mark, then interprets one poll
//! response.  Transient failures — rate limiting, a pending authorization, a
//! protocol, decode or decryption error — are absorbed and polling continues
//! under a bounded attempt count; `KeyNotFound` is fatal and stops at once;
//! the budget running out ends in `TimedOut`.  Only `Cancelled`, `TimedOut`,
//! `KeyNotFound` or success ever reach the caller.
//!
//! [`wait_step`] is one iteration, for a driver that performs a real network
//! call and a real delay between steps; [`wait_authorization`] drives the
//! whole loop over an already-materialised sequence of responses, one per
//! round trip, so the machine's end-to-end behaviour is provable and testable
//! without a clock.

use crate::codec::is_b64_form_of;
use crate::errors::ArgoError;
use crate::login::{auth_text, envelope_ok, header_text, poll_login, resp_seals, PollHttpResponse};
use crate::sealed::utf8_lossy_of;
use crate::session::Session;
use vstd::prelude::*;

verus! {

/// The attempt budget of one wait loop: 60 polls.
pub const MAX_ATTEMPTS: u32 = 60;

/// The fixed pause between two polls, in seconds; with [`MAX_ATTEMPTS`] this
/// bounds the total wait to five minutes.  The pause itself is the driver's
/// business.
pub const POLL_INTERVAL_SECS: u64 = 5;

/// The outcome of one wait-loop iteration: either the loop is over with a
/// terminal result, or it continues with the new attempt count.
pub enum WaitStep {
    Finished(Result<String, ArgoError>),
    Continue(u32),
}

/// One iteration of the wait loop, `attempts` polls already spent, `resp`
/// being the poll response of this round trip.
///
/// A cancellation mark set before the iteration wins over everything: the
/// attempt's registry entry and the mark itself are consumed and the loop
/// finishes with `Cancelled`.  Otherwise the response is interpreted; success
/// and `KeyNotFound` finish the loop, any transient failure either continues
/// with `attempts + 1` or, once that reaches the budget, finishes with
/// `TimedOut`.
pub fn wait_step(
    session: &mut Session,
    request_uuid: &String,
    attempts: u32,
    resp: &PollHttpResponse,
) -> (r: WaitStep)
    requires
        old(session).wf(),
        attempts < MAX_ATTEMPTS,
    ensures
        final(session).wf(),
        old(session).cancel_set().contains(request_uuid@) ==> (r matches WaitStep::Finished(res)
            && res matches Err(e) && e is Cancelled)
            && final(session).registry_map() == old(session).registry_map().remove(request_uuid@)
            && final(session).cancel_set() == old(session).cancel_set().remove(request_uuid@),
        !old(session).cancel_set().contains(request_uuid@)
            ==> final(session).cancel_set() == old(session).cancel_set(),
        !old(session).cancel_set().contains(request_uuid@)
            && !old(session).registry_map().contains_key(request_uuid@)
            ==> (r matches WaitStep::Finished(res) && res matches Err(e) && e is KeyNotFound),
        r matches WaitStep::Continue(a) ==> a == attempts + 1 && attempts + 1 < MAX_ATTEMPTS
            && final(session).registry_map() == old(session).registry_map()
            && final(session).cancel_set() == old(session).cancel_set(),
        r matches WaitStep::Finished(res) ==> (res is Err ==> (res->Err_0 is Cancelled
            || res->Err_0 is TimedOut || res->Err_0 is KeyNotFound)),
        !old(session).cancel_set().contains(request_uuid@) ==> (r matches WaitStep::Finished(res)
            ==> (res is Err ==> !(res->Err_0 is Cancelled))),
        !old(session).cancel_set().contains(request_uuid@) && old(
            session,
        ).registry_map().contains_key(request_uuid@) ==> (r matches WaitStep::Finished(res) ==> (
        res is Ok || (res matches Err(e) && e is TimedOut))),
        r matches WaitStep::Finished(res) ==> ((res matches Err(e) && e is TimedOut) ==> attempts
            + 1 == MAX_ATTEMPTS && final(session).registry_map() == old(session).registry_map()),
        r matches WaitStep::Finished(res) ==> (res is Ok ==> final(session).registry_map() == old(
            session,
        ).registry_map().remove(request_uuid@)),
        !old(session).cancel_set().contains(request_uuid@)
            && old(session).registry_map().contains_key(request_uuid@) && !envelope_ok(*resp) ==> (
        attempts + 1 < MAX_ATTEMPTS ==> (r matches WaitStep::Continue(a) && a == attempts + 1))
            && (attempts + 1 == MAX_ATTEMPTS ==> (r matches WaitStep::Finished(res) && res matches
        Err(e) && e is TimedOut)),
        !old(session).cancel_set().contains(request_uuid@)
            && old(session).registry_map().contains_key(request_uuid@) ==> forall|b: Seq<u8>|
            envelope_ok(*resp) && #[trigger] is_b64_form_of(header_text(*resp), b) && b.len() != 32
                && attempts + 1 < MAX_ATTEMPTS ==> (r matches WaitStep::Continue(a) && a == attempts
                + 1),
        !old(session).cancel_set().contains(request_uuid@)
            && old(session).registry_map().contains_key(request_uuid@) ==> forall|
            k: Seq<u8>,
            p: Seq<u8>,
        |
            envelope_ok(*resp) && #[trigger] is_b64_form_of(header_text(*resp), k) && k.len() == 32
                && #[trigger] is_b64_form_of(auth_text(*resp), p) && p.len() < 24 && attempts + 1
                < MAX_ATTEMPTS ==> (r matches WaitStep::Continue(a) && a == attempts + 1),
        !old(session).cancel_set().contains(request_uuid@)
            && old(session).registry_map().contains_key(request_uuid@) ==> forall|
            k: Seq<u8>,
            p: Seq<u8>,
        |
            envelope_ok(*resp) && #[trigger] is_b64_form_of(header_text(*resp), k) && k.len() == 32
                && #[trigger] is_b64_form_of(auth_text(*resp), p) && p.len() >= 24 ==> ((attempts
                + 1 < MAX_ATTEMPTS ==> ((r matches WaitStep::Finished(res) && res is Ok) || (r
            matches WaitStep::Continue(a) && a == attempts + 1))) && (attempts + 1 == MAX_ATTEMPTS
                ==> (r matches WaitStep::Finished(res) && (res is Ok || (res matches Err(e) && e
            is TimedOut))))),
        !old(session).cancel_set().contains(request_uuid@)
            && old(session).registry_map().contains_key(request_uuid@) ==> forall|
            sender_sk: Seq<u8>,
            p: Seq<u8>,
            m: Seq<u8>,
        |
            #[trigger] resp_seals(
                *resp,
                old(session).registry_map()[request_uuid@].0,
                sender_sk,
                p,
                m,
            ) ==> (r matches WaitStep::Finished(res) && res matches Ok(c) && c@ == utf8_lossy_of(
                m,
            )),
{
    if session.is_marked(request_uuid) {
        session.remove(request_uuid);
        session.clear(request_uuid);
        return WaitStep::Finished(Err(ArgoError::Cancelled));
    }
    match poll_login(session, request_uuid, resp) {
        Ok(cred) => WaitStep::Finished(Ok(cred)),
        Err(e) => match e {
            ArgoError::KeyNotFound => WaitStep::Finished(Err(ArgoError::KeyNotFound)),
            _ => {
                let next = attempts + 1;
                if next == MAX_ATTEMPTS {
                    WaitStep::Finished(Err(ArgoError::TimedOut))
                } else {
                    WaitStep::Continue(next)
                }
            },
        },
    }
}

/// Drives the wait loop to completion over a sequence of poll responses, one
/// per round trip; at least [`MAX_ATTEMPTS`] must be supplied so the loop
/// always reaches a terminal state.
///
/// The contract carries the loop's terminal guarantees: only `Cancelled`,
/// `TimedOut` or `KeyNotFound` ever surface as errors, a cancellation mark
/// set beforehand ends the loop in `Cancelled` with the attempt's state
/// consumed, a lost registry entry ends it in `KeyNotFound` at once, a full
/// budget of incomplete responses ends it in `TimedOut`, and success leaves
/// no registry entry behind.  Success is also owed: when some response within
/// the budget is an honest sealed delivery for the attempt's stored secret
/// key and every response before it has an incomplete envelope — the
/// authorization completing after any number of pending rounds — the loop
/// returns exactly the sealed message's text.
pub fn wait_authorization(
    session: &mut Session,
    request_uuid: &String,
    responses: &Vec<PollHttpResponse>,
) -> (r: Result<String, ArgoError>)
    requires
        old(session).wf(),
        responses@.len() >= MAX_ATTEMPTS,
    ensures
        final(session).wf(),
        r is Err ==> (r->Err_0 is Cancelled || r->Err_0 is TimedOut || r->Err_0 is KeyNotFound),
        old(session).cancel_set().contains(request_uuid@) ==> (r matches Err(e) && e is Cancelled)
            && final(session).registry_map() == old(session).registry_map().remove(request_uuid@)
            && final(session).cancel_set() == old(session).cancel_set().remove(request_uuid@),
        !old(session).cancel_set().contains(request_uuid@) && !old(
            session,
        ).registry_map().contains_key(request_uuid@) ==> (r matches Err(e) && e is KeyNotFound),
        !old(session).cancel_set().contains(request_uuid@) && old(
            session,
        ).registry_map().contains_key(request_uuid@) && (forall|i: int|
            0 <= i < MAX_ATTEMPTS ==> !envelope_ok(responses@[i])) ==> (r matches Err(e) && e
            is TimedOut),
        !old(session).cancel_set().contains(request_uuid@) && old(
            session,
        ).registry_map().contains_key(request_uuid@) ==> (r is Ok || (r matches Err(e) && e
            is TimedOut)),
        !old(session).cancel_set().contains(request_uuid@) && old(
            session,
        ).registry_map().contains_key(request_uuid@) ==> forall|
            k: int,
            sender_sk: Seq<u8>,
            p: Seq<u8>,
            m: Seq<u8>,
        |
            0 <= k < MAX_ATTEMPTS && #[trigger] resp_seals(
                responses@[k],
                old(session).registry_map()[request_uuid@].0,
                sender_sk,
                p,
                m,
            ) && (forall|j: int| 0 <= j < k ==> !envelope_ok(responses@[j])) ==> (r matches Ok(c)
                && c@ == utf8_lossy_of(m)),
        r is Ok ==> !final(session).registry_map().contains_key(request_uuid@),
{
    let mut attempts: u32 = 0;
    loop
        invariant
            session.wf(),
            attempts < MAX_ATTEMPTS,
            responses@.len() >= MAX_ATTEMPTS,
            session.registry_map() == old(session).registry_map(),
            session.cancel_set() == old(session).cancel_set(),
            forall|k: int, sender_sk: Seq<u8>, p: Seq<u8>, m: Seq<u8>|
                0 <= k < MAX_ATTEMPTS && !old(session).cancel_set().contains(request_uuid@) && old(
                    session,
                ).registry_map().contains_key(request_uuid@) && #[trigger] resp_seals(
                    responses@[k],
                    old(session).registry_map()[request_uuid@].0,
                    sender_sk,
                    p,
                    m,
                ) && (forall|j: int| 0 <= j < k ==> !envelope_ok(responses@[j])) ==> attempts <= k,
        decreases MAX_ATTEMPTS - attempts,
    {
        let idx = attempts as usize;
        let ghost pre = *session;
        let step = wait_step(session, request_uuid, attempts, &responses[idx]);
        match step {
            WaitStep::Finished(res) => {
                proof {
                    if !old(session).cancel_set().contains(request_uuid@) && old(
                        session,
                    ).registry_map().contains_key(request_uuid@) {
                        assert forall|k: int, sender_sk: Seq<u8>, p: Seq<u8>, m: Seq<u8>|
                            0 <= k < MAX_ATTEMPTS && #[trigger] resp_seals(
                                responses@[k],
                                old(session).registry_map()[request_uuid@].0,
                                sender_sk,
                                p,
                                m,
                            ) && (forall|j: int| 0 <= j < k ==> !envelope_ok(responses@[j]))
                            implies (res matches Ok(c) && c@ == utf8_lossy_of(m)) by {
                            // the loop never runs past such a k, and at any earlier
                            // index the incomplete response would have continued, so
                            // this iteration is k itself and the step's honest-delivery
                            // clause applies
                            if (attempts as int) < k {
                                assert(!envelope_ok(responses@[attempts as int]));
                                assert(false);
                            } else {
                                assert(resp_seals(
                                    responses@[attempts as int],
                                    pre.registry_map()[request_uuid@].0,
                                    sender_sk,
                                    p,
                                    m,
                                ));
                            }
                        }
                    }
                }
                return res;
            },
            WaitStep::Continue(a) => {
                proof {
                    if !old(session).cancel_set().contains(request_uuid@) && old(
                        session,
                    ).registry_map().contains_key(request_uuid@) {
                        assert forall|k: int, sender_sk: Seq<u8>, p: Seq<u8>, m: Seq<u8>|
                            0 <= k < MAX_ATTEMPTS && #[trigger] resp_seals(
                                responses@[k],
                                old(session).registry_map()[request_uuid@].0,
                                sender_sk,
                                p,
                                m,
                            ) && (forall|j: int| 0 <= j < k ==> !envelope_ok(responses@[j]))
                            implies a <= k by {
                            if (attempts as int) == k {
                                assert(resp_seals(
                                    responses@[attempts as int],
                                    pre.registry_map()[request_uuid@].0,
                                    sender_sk,
                                    p,
                                    m,
                                ));
                                assert(false);
                            }
                        }
                    }
                }
                attempts = a;
            },
        }
    }
}

/// Marks `request_uuid` for cancellation, so that the wait loop for it stops
/// at its next iteration; always succeeds, and is idempotent.
pub fn argo_cancel_wait(session: &mut Session, request_uuid: String) -> (r: Result<(), String>)
    requires
        old(session).wf(),
    ensures
        final(session).wf(),
        r is Ok,
        final(session).cancel_set() == old(session).cancel_set().insert(request_uuid@),
        final(session).registry_map() == old(session).registry_map(),
{
    session.mark(request_uuid);
    Ok(())
}

} // verus!
