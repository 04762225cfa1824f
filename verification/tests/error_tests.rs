//! The error taxonomy: which failure classes the wait loop may absorb.

use argo_access::errors::ArgoError;

#[test]
fn transient_errors_are_retryable() {
    assert!(ArgoError::RateLimited.is_transient());
    assert!(ArgoError::Pending.is_transient());
    assert!(ArgoError::ProtocolError(String::from("HTTP 500")).is_transient());
    assert!(ArgoError::DecodeError.is_transient());
    assert!(ArgoError::DecryptError.is_transient());
}

#[test]
fn fatal_and_terminal_errors_are_not_retryable() {
    assert!(!ArgoError::KeyNotFound.is_transient());
    assert!(!ArgoError::Cancelled.is_transient());
    assert!(!ArgoError::TimedOut.is_transient());
}
