//! Tolerant binary decoder.
//!
//! The identity service historically emitted binary tokens in several base64
//! variants, so the decoder accepts four: URL-safe padded, standard padded,
//! URL-safe with the padding repaired by hand, and standard with the padding
//! repaired by hand, tried in that fixed order so that a given input always
//! resolves through the same variant.
//!
//! The encodings themselves come from the `base64` crate and are named, not
//! restated: `b64_url_pad_of(b)` stands for the URL-safe padded encoding of
//! `b`, and so on.  The trusted wrappers below state how decoding relates to
//! those names; everything else is proved.

use crate::errors::ArgoError;
use base64::Engine;
use vstd::prelude::*;

verus! {

/// The URL-safe, padded base64 encoding of `b`, as `base64`'s `URL_SAFE`
/// engine produces it.
pub uninterp spec fn b64_url_pad_of(b: Seq<u8>) -> Seq<char>;

/// The standard, padded base64 encoding of `b`, as `base64`'s `STANDARD`
/// engine produces it.
pub uninterp spec fn b64_std_pad_of(b: Seq<u8>) -> Seq<char>;

/// The URL-safe, unpadded base64 encoding of `b`, as `base64`'s
/// `URL_SAFE_NO_PAD` engine produces it.
pub uninterp spec fn b64_url_nopad_of(b: Seq<u8>) -> Seq<char>;

/// The standard, unpadded base64 encoding of `b`, as `base64`'s
/// `STANDARD_NO_PAD` engine produces it.
pub uninterp spec fn b64_std_nopad_of(b: Seq<u8>) -> Seq<char>;

/// `s` completed with `'='` up to the next multiple of four characters; the
/// manual padding repair that the tolerant decoder applies.
pub open spec fn pad_fix(s: Seq<char>) -> Seq<char> {
    s + Seq::new(((4 - s.len() % 4) % 4) as nat, |i: int| '=')
}

/// `s` is the encoding of `b` in one of the four supported variants.
pub open spec fn is_b64_encoding_of(s: Seq<char>, b: Seq<u8>) -> bool {
    ||| s == b64_url_pad_of(b)
    ||| s == b64_std_pad_of(b)
    ||| s == b64_url_nopad_of(b)
    ||| s == b64_std_nopad_of(b)
}

/// `s` is a form from which the tolerant decoder can recover `b`: one of the
/// four encodings of `b`, or an unpadded encoding of `b` already completed
/// with `'='`.
pub open spec fn is_b64_form_of(s: Seq<char>, b: Seq<u8>) -> bool {
    ||| is_b64_encoding_of(s, b)
    ||| s == pad_fix(b64_url_nopad_of(b))
    ||| s == pad_fix(b64_std_nopad_of(b))
}

/// The token, as given or once `'='`-completed, is a padded encoding of `b`:
/// exactly the domain on which the tolerant decoder succeeds.  It covers a
/// padded encoding handed over with part of its padding missing, which no
/// variant of [`is_b64_form_of`] names.
pub open spec fn is_b64_decodable_to(s: Seq<char>, b: Seq<u8>) -> bool {
    ||| s == b64_url_pad_of(b)
    ||| s == b64_std_pad_of(b)
    ||| pad_fix(s) == b64_url_pad_of(b)
    ||| pad_fix(s) == b64_std_pad_of(b)
}

/// Relies on `base64::engine::general_purpose::URL_SAFE.encode`: it returns
/// the URL-safe padded encoding of its input, and panics only when the
/// encoded length would overflow `usize`.
#[verifier::external_body]
pub(crate) fn b64_urlsafe_padded(data: &[u8]) -> (r: String)
    requires
        data@.len() + 3 <= usize::MAX / 4 * 3,
    ensures
        r@ == b64_url_pad_of(data@),
{
    base64::engine::general_purpose::URL_SAFE.encode(data)
}

/// Relies on `base64::engine::general_purpose::URL_SAFE.decode`, whose
/// configuration demands canonical padding and canonical trailing bits:
/// decoding inverts encoding, so it succeeds on every URL-safe padded
/// encoding and on every URL-safe unpadded encoding completed with `'='` —
/// and on nothing else, so a success means the input was exactly the padded
/// URL-safe encoding of the result — in particular a complete sequence of
/// four-character blocks (the third clause).  The last clause
/// holds because the URL-safe and standard alphabets agree except at the two
/// symbols `-_` versus `+/`: an input that is some supported form of `b` and
/// that this engine accepts decodes to `b` itself.
#[verifier::external_body]
fn b64_try_decode_url_pad(s: &str) -> (r: Option<Vec<u8>>)
    ensures
        forall|b: Seq<u8>| s@ == b64_url_pad_of(b) ==> r is Some && r->Some_0@ == b,
        forall|b: Seq<u8>| s@ == pad_fix(b64_url_nopad_of(b)) ==> r is Some && r->Some_0@ == b,
        r is Some ==> s@ == b64_url_pad_of(r->Some_0@) && s@.len() % 4 == 0,
        forall|b: Seq<u8>| r is Some && is_b64_form_of(s@, b) ==> r->Some_0@ == b,
{
    base64::engine::general_purpose::URL_SAFE.decode(s).ok()
}

/// Relies on `base64::engine::general_purpose::STANDARD.decode`, whose
/// configuration demands canonical padding and canonical trailing bits:
/// decoding inverts encoding, so it succeeds on every standard padded
/// encoding and on every standard unpadded encoding completed with `'='` —
/// and on nothing else, so a success means the input was exactly the padded
/// standard encoding of the result — in particular a complete sequence of
/// four-character blocks (the third clause).  The last clause
/// holds because the standard and URL-safe alphabets agree except at the two
/// symbols `+/` versus `-_`: an input that is some supported form of `b` and
/// that this engine accepts decodes to `b` itself.
#[verifier::external_body]
fn b64_try_decode_std_pad(s: &str) -> (r: Option<Vec<u8>>)
    ensures
        forall|b: Seq<u8>| s@ == b64_std_pad_of(b) ==> r is Some && r->Some_0@ == b,
        forall|b: Seq<u8>| s@ == pad_fix(b64_std_nopad_of(b)) ==> r is Some && r->Some_0@ == b,
        r is Some ==> s@ == b64_std_pad_of(r->Some_0@) && s@.len() % 4 == 0,
        forall|b: Seq<u8>| r is Some && is_b64_form_of(s@, b) ==> r->Some_0@ == b,
{
    base64::engine::general_purpose::STANDARD.decode(s).ok()
}

/// Appends `'='` to a copy of `s` until its length is a multiple of four:
/// the manual padding repair.
fn with_padding(s: &str) -> (r: String)
    ensures
        r@ == pad_fix(s@),
{
    let mut t = String::from_str(s);
    loop
        invariant
            pad_fix(t@) == pad_fix(s@),
        decreases (4 - t@.len() % 4) % 4,
    {
        let n: usize = t.as_str().unicode_len();
        if n % 4 == 0 {
            proof {
                assert(pad_fix(t@) =~= t@);
            }
            return t;
        }
        proof {
            reveal_strlit("=");
            let ghost u = t@;
            assert("="@.len() == 1);
            assert("="@[0] == '=');
            assert(pad_fix(u + "="@) =~= pad_fix(u));
        }
        t.append("=");
    }
}

/// Decodes a text token, accepting the four historically compatible
/// variants in a fixed priority order: URL-safe padded, standard padded,
/// URL-safe with the padding repaired, standard with the padding repaired.
/// Fails with [`ArgoError::DecodeError`] only if every variant fails.
///
/// The contract states the decoder's behaviour in both directions: a token
/// that is a supported form of `b` — encoded from `b` in any of the four
/// variants, padded, unpadded or with its padding partly missing — decodes
/// back to `b` exactly; and a decode succeeds only when the token, as given
/// or once `'='`-completed, is a padded encoding of the result.  Together:
/// the decoder succeeds exactly when some variant decodes the token, and
/// then returns that variant's output.
pub fn b64_decode_any(s: &str) -> (r: Result<Vec<u8>, ArgoError>)
    ensures
        forall|b: Seq<u8>| is_b64_form_of(s@, b) ==> r is Ok && r->Ok_0@ == b,
        forall|b: Seq<u8>| is_b64_decodable_to(s@, b) ==> r is Ok && r->Ok_0@ == b,
        r is Ok ==> is_b64_decodable_to(s@, r->Ok_0@),
        r is Err ==> r->Err_0 is DecodeError,
{
    if let Some(v) = b64_try_decode_url_pad(s) {
        proof {
            assert(pad_fix(s@) =~= s@);
            assert forall|b: Seq<u8>| is_b64_decodable_to(s@, b) implies v@ == b by {
                if s@ == b64_std_pad_of(b) {
                    assert(is_b64_form_of(s@, b));
                }
                // the URL-safe cases follow from the decoder's own round trip
            }
        }
        return Ok(v);
    }
    if let Some(v) = b64_try_decode_std_pad(s) {
        proof {
            assert(pad_fix(s@) =~= s@);
            assert forall|b: Seq<u8>| is_b64_decodable_to(s@, b) implies v@ == b by {
                // a URL-safe padded token would have made the first attempt
                // succeed; the standard cases follow from this decoder's own
                // round trip
            }
        }
        return Ok(v);
    }
    let p = with_padding(s);
    if let Some(v) = b64_try_decode_url_pad(p.as_str()) {
        proof {
            assert forall|b: Seq<u8>| is_b64_form_of(s@, b) implies v@ == b by {
                if s@ == b64_url_nopad_of(b) || s@ == b64_std_nopad_of(b) {
                    assert(is_b64_form_of(p@, b));
                }
                // every other supported form of b would have made one of the
                // two earlier attempts succeed
            }
            assert forall|b: Seq<u8>| is_b64_decodable_to(s@, b) implies v@ == b by {
                if pad_fix(s@) == b64_std_pad_of(b) {
                    assert(is_b64_form_of(p@, b));
                }
                // plain padded tokens would have decoded earlier; the
                // repaired URL-safe case is this attempt's own round trip
            }
            assert(is_b64_decodable_to(s@, v@));
        }
        return Ok(v);
    }
    if let Some(v) = b64_try_decode_std_pad(p.as_str()) {
        proof {
            assert forall|b: Seq<u8>| is_b64_form_of(s@, b) implies v@ == b by {
                if s@ == b64_url_nopad_of(b) {
                    assert(p@ == pad_fix(b64_url_nopad_of(b)));
                    assert(false);
                } else if s@ == b64_std_nopad_of(b) {
                    assert(is_b64_form_of(p@, b));
                }
            }
            assert forall|b: Seq<u8>| is_b64_decodable_to(s@, b) implies v@ == b by {
                // plain padded tokens and URL-safe repairs contradict the
                // three failed attempts; the repaired standard case is this
                // attempt's own round trip
            }
            assert(is_b64_decodable_to(s@, v@));
        }
        return Ok(v);
    }
    proof {
        assert forall|b: Seq<u8>| !is_b64_form_of(s@, b) by {
            if is_b64_form_of(s@, b) {
                if s@ == b64_url_nopad_of(b) {
                    assert(p@ == pad_fix(b64_url_nopad_of(b)));
                } else if s@ == b64_std_nopad_of(b) {
                    assert(p@ == pad_fix(b64_std_nopad_of(b)));
                }
                assert(false);
            }
        }
        assert forall|b: Seq<u8>| !is_b64_decodable_to(s@, b) by {
            if is_b64_decodable_to(s@, b) {
                assert(false);
            }
        }
    }
    Err(ArgoError::DecodeError)
}

} // verus!
