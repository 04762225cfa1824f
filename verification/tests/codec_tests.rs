//! The tolerant binary decoder against real `base64` encodings.

use argo_access::codec::b64_decode_any;
use argo_access::errors::ArgoError;
use base64::engine::general_purpose::{STANDARD, STANDARD_NO_PAD, URL_SAFE, URL_SAFE_NO_PAD};
use base64::Engine;

fn sample_inputs() -> Vec<Vec<u8>> {
    vec![
        vec![],
        vec![0],
        vec![0xff, 0xee],
        vec![1, 2, 3],
        vec![250, 251, 252, 253],
        (0u8..=255).collect(),
        b"fb\xfb\xef\xbe\xff\xfe".to_vec(),
    ]
}

#[test]
fn roundtrip_url_safe_padded() {
    for b in sample_inputs() {
        let s = URL_SAFE.encode(&b);
        assert_eq!(b64_decode_any(&s).unwrap(), b);
    }
}

#[test]
fn roundtrip_standard_padded() {
    for b in sample_inputs() {
        let s = STANDARD.encode(&b);
        assert_eq!(b64_decode_any(&s).unwrap(), b);
    }
}

#[test]
fn roundtrip_url_safe_unpadded() {
    for b in sample_inputs() {
        let s = URL_SAFE_NO_PAD.encode(&b);
        assert_eq!(b64_decode_any(&s).unwrap(), b);
    }
}

#[test]
fn roundtrip_standard_unpadded() {
    for b in sample_inputs() {
        let s = STANDARD_NO_PAD.encode(&b);
        assert_eq!(b64_decode_any(&s).unwrap(), b);
    }
}

#[test]
fn decode_rejects_garbage() {
    assert_eq!(b64_decode_any("!!!not base64!!!"), Err(ArgoError::DecodeError));
    assert_eq!(b64_decode_any("a%$#d"), Err(ArgoError::DecodeError));
}

#[test]
fn decode_distinguishes_alphabets() {
    // A token that only one alphabet accepts still decodes.
    let with_plus = STANDARD.encode([0xfb, 0xef, 0xbe]);
    assert!(with_plus.contains('+') || with_plus.contains('/'));
    assert_eq!(b64_decode_any(&with_plus).unwrap(), vec![0xfb, 0xef, 0xbe]);
    let with_dash = URL_SAFE.encode([0xfb, 0xef, 0xbe]);
    assert!(with_dash.contains('-') || with_dash.contains('_'));
    assert_eq!(b64_decode_any(&with_dash).unwrap(), vec![0xfb, 0xef, 0xbe]);
}

#[test]
fn decode_repairs_partially_padded_tokens() {
    // A padded encoding handed over with part of its padding missing still
    // decodes after the manual repair.
    let full = URL_SAFE.encode([7u8]);
    assert!(full.ends_with("=="));
    let partial = &full[..full.len() - 1];
    assert_eq!(b64_decode_any(partial).unwrap(), vec![7u8]);
    let std_full = STANDARD.encode([1u8, 2u8, 3u8, 4u8]);
    assert!(std_full.ends_with("=="));
    let std_partial = &std_full[..std_full.len() - 1];
    assert_eq!(b64_decode_any(std_partial).unwrap(), vec![1u8, 2u8, 3u8, 4u8]);
}
