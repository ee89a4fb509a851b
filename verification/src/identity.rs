//! The identity token of a package: text that stands for the key of its
//! signer. It serves to compare a wrapper with the package inside it, and
//! nothing is trusted on its account: no signature is checked.
//!
//! A token may be unavailable, and that is no fault of the package. The
//! empty text stands for it.

use vstd::prelude::*;
use vstd::slice::slice_subrange;

use crate::error::FormatError;
use crate::header::{FormatVersion, HeaderDescriptor};

verus! {

/// The text that base64 with the standard alphabet and `=` padding gives
/// for `bytes`.
pub uninterp spec fn base64_standard(bytes: Seq<u8>) -> Seq<char>;

/// Calls `base64::Engine::encode` on the engine
/// `base64::engine::general_purpose::STANDARD`.
///
/// Taken on trust: the text depends on the bytes alone, so it has a name,
/// [`base64_standard`]. The encoder gives up where the length of the text
/// does not fit a `usize`; the bound on the input keeps clear of that.
#[verifier::external_body]
fn base64_encode(bytes: &[u8]) -> (text: String)
    requires
        (bytes@.len() / 3 + 1) * 4 <= usize::MAX,
    ensures
        text@ == base64_standard(bytes@),
{
    base64::Engine::encode(&base64::engine::general_purpose::STANDARD, bytes)
}

/// The token of the package that `bytes` open with.
///
/// In version 2 the key begins at index 16, behind the fixed fields. Only
/// its first four bytes are taken, a known limitation: two keys that agree
/// in them get one token. The four bytes at indices 16 to 19 are taken
/// whatever length the key is declared to have, and an input that ends
/// before index 20 has no token.
///
/// In version 3 the key lies inside the signed header, which is not
/// decoded: such a package has no token.
pub open spec fn identity_of(bytes: Seq<u8>, version: FormatVersion) -> Seq<char> {
    match version {
        FormatVersion::V2 => if bytes.len() >= 20 {
            base64_standard(bytes.subrange(16, 20))
        } else {
            Seq::empty()
        },
        FormatVersion::V3 => Seq::empty(),
    }
}

/// The token of a package, where one is expected of it.
pub open spec fn expected_token(expected: Option<String>) -> Option<Seq<char>> {
    match expected {
        Some(token) => Some(token@),
        None => None,
    }
}

/// Whether a token was expected, one was found, and the two are not the
/// same text. An unavailable token on either side differs from nothing.
pub open spec fn tokens_differ(expected: Option<Seq<char>>, found: Seq<char>) -> bool {
    expected matches Some(token) && token.len() > 0 && found.len() > 0 && token != found
}

/// The key of a version 3 package, as base64 text, from its signed header,
/// which takes the bytes of `crx` from index `start` up to `end_seek`.
///
/// The signed header is not decoded. Every package is answered with the
/// unavailable token, and never with a fault: a package is unpacked
/// whether or not its key can be told.
#[allow(unused_variables)]
pub fn public_key_protobuf(crx: &[u8], start: u64, end_seek: u64) -> (key: Result<
    String,
    FormatError,
>)
    ensures
        key matches Ok(token) && token@ == Seq::<char>::empty(),
{
    Ok(String::new())
}

/// Recovers the token of the package in `crx`, whose fixed fields gave
/// `header`.
pub fn identity_token(crx: &[u8], header: &HeaderDescriptor) -> (token: String)
    ensures
        token@ == identity_of(crx@, header.format_version),
{
    match header.format_version {
        FormatVersion::V2 => {
            if crx.len() >= 20 {
                base64_encode(slice_subrange(crx, 16, 20))
            } else {
                String::new()
            }
        },
        FormatVersion::V3 => {
            match public_key_protobuf(crx, 12, header.zip_payload_offset) {
                Ok(token) => token,
                Err(_) => String::new(),
            }
        },
    }
}

/// Compares the token found in a package with the one expected of it.
/// A difference is worth a warning and no more.
pub fn identity_mismatch(expected: &Option<String>, found: &String) -> (differ: bool)
    ensures
        differ == tokens_differ(expected_token(*expected), found@),
{
    match expected {
        Some(token) => !token.as_str().is_empty() && !found.as_str().is_empty() && !(*token
            == *found),
        None => false,
    }
}

} // verus!
