//! From a package to the ZIP archive inside it.
//!
//! A package is its header followed by the archive, so unpacking is cutting
//! the header off. One store wraps a whole package into a version 3 header:
//! there the magic stands a second time directly behind the twelve fixed
//! bytes of the wrapper, and the archive is that of the package inside.

use vstd::prelude::*;
use vstd::slice::{slice_subrange, slice_to_vec};

use crate::error::FormatError;
use crate::header::{has_magic_at, header_of, magic_at, parse_header, FormatVersion, HeaderDescriptor};
use crate::identity::{
    expected_token,
    identity_mismatch,
    identity_of,
    identity_token,
    tokens_differ,
};

verus! {

/// How many wrappers are taken off one package. An input that is wrapped
/// more often is refused, so that crafted input cannot keep the unpacking
/// going.
pub const MAX_NESTING_DEPTH: u32 = 8;

/// Whether the package that `bytes` open with, whose fixed fields gave
/// `header`, is a wrapper around another package, which then begins at
/// index 12.
pub open spec fn is_nested(bytes: Seq<u8>, header: HeaderDescriptor) -> bool {
    header.format_version == FormatVersion::V3 && has_magic_at(bytes, 12)
}

/// The archive inside the package `bytes`, with at most `layers` wrappers
/// taken off, or the reason why there is none.
///
/// A fault of the header comes first. A wrapper gives what the package
/// inside it gives, faults included, and where it points with its own
/// header is not looked at. Any other package gives all bytes from its
/// payload's first index on, and is truncated where it has no such index.
pub open spec fn zip_of(bytes: Seq<u8>, layers: nat) -> Result<Seq<u8>, FormatError>
    decreases layers,
{
    match header_of(bytes) {
        Err(fault) => Err(fault),
        Ok(header) => if is_nested(bytes, header) {
            if layers == 0 {
                Err(FormatError::NestingTooDeep)
            } else {
                zip_of(bytes.skip(12), (layers - 1) as nat)
            }
        } else if !header.fits(bytes.len()) {
            Err(FormatError::TruncatedContainer)
        } else {
            Ok(bytes.skip(header.zip_payload_offset as int))
        },
    }
}

/// What unpacking a package gives.
#[derive(Debug)]
pub struct Conversion {
    /// The ZIP archive.
    pub payload: Vec<u8>,
    /// The identity token of the outermost package; empty where it has none.
    pub identity: String,
    /// Whether the token that was expected of a package and the one found
    /// in it are two different texts. This is worth a warning to the user
    /// and is no fault: the archive is the same either way.
    pub identity_mismatch: bool,
}

/// Whether `found` is what unpacking `bytes` gives, with `expected` the
/// token expected of the outermost package and at most `layers` wrappers
/// taken off.
///
/// Only the outermost package can disagree with what is expected of it:
/// a wrapper has no token, so it expects nothing of the package inside.
pub open spec fn converts_to(
    bytes: Seq<u8>,
    expected: Option<Seq<char>>,
    layers: nat,
    found: Result<Conversion, FormatError>,
) -> bool {
    match found {
        Ok(conversion) => {
            &&& zip_of(bytes, layers) == Ok::<Seq<u8>, FormatError>(conversion.payload@)
            &&& header_of(bytes) matches Ok(header)
            &&& conversion.identity@ == identity_of(bytes, header.format_version)
            &&& conversion.identity_mismatch == tokens_differ(expected, conversion.identity@)
        },
        Err(fault) => zip_of(bytes, layers) == Err::<Seq<u8>, FormatError>(fault),
    }
}

/// Unpacks with a budget of wrappers, which goes down by one with each
/// wrapper taken off.
fn convert_within(crx: &[u8], expected_identity: &Option<String>, layers: u32) -> (found: Result<
    Conversion,
    FormatError,
>)
    ensures
        converts_to(crx@, expected_token(*expected_identity), layers as nat, found),
    decreases layers,
{
    let header = match parse_header(crx) {
        Ok(header) => header,
        Err(fault) => {
            return Err(fault);
        },
    };
    let identity = identity_token(crx, &header);
    let own_mismatch = identity_mismatch(expected_identity, &identity);
    let wrapper = match header.format_version {
        FormatVersion::V2 => false,
        FormatVersion::V3 => magic_at(crx, 12),
    };
    if wrapper {
        if layers == 0 {
            return Err(FormatError::NestingTooDeep);
        }
        let inner = slice_subrange(crx, 12, crx.len());
        let expected_inside = Some(identity.clone());
        return match convert_within(inner, &expected_inside, layers - 1) {
            Ok(inside) => Ok(
                Conversion {
                    payload: inside.payload,
                    identity,
                    identity_mismatch: own_mismatch || inside.identity_mismatch,
                },
            ),
            Err(fault) => Err(fault),
        };
    }
    if header.zip_payload_offset > crx.len() as u64 {
        return Err(FormatError::TruncatedContainer);
    }
    let payload = slice_to_vec(slice_subrange(crx, header.zip_payload_offset as usize, crx.len()));
    Ok(Conversion { payload, identity, identity_mismatch: own_mismatch })
}

/// Unpacks a package: validates the magic, reads the header fields of its
/// version, and gives the archive that follows the header together with
/// the package's identity token.
///
/// `expected_identity` is the token that the caller expects of the
/// package, where there is one to expect; the answer says whether the
/// package disagrees with it.
pub fn convert(crx: &[u8], expected_identity: &Option<String>) -> (found: Result<
    Conversion,
    FormatError,
>)
    ensures
        converts_to(crx@, expected_token(*expected_identity), MAX_NESTING_DEPTH as nat, found),
{
    convert_within(crx, expected_identity, MAX_NESTING_DEPTH)
}

/// Converts a package to the ZIP archive inside it.
///
/// `previous_public_key` is the token of the wrapper that the package was
/// taken out of; pass `None` for a package that came by itself. It has no
/// part in what is returned: see [`convert`] for the comparison.
pub fn crx_to_zip(crx: Vec<u8>, previous_public_key: Option<String>) -> (zip: Result<
    Vec<u8>,
    FormatError,
>)
    ensures
        match zip {
            Ok(payload) => zip_of(crx@, MAX_NESTING_DEPTH as nat) == Ok::<Seq<u8>, FormatError>(
                payload@,
            ),
            Err(fault) => zip_of(crx@, MAX_NESTING_DEPTH as nat) == Err::<Seq<u8>, FormatError>(
                fault,
            ),
        },
{
    match convert(crx.as_slice(), &previous_public_key) {
        Ok(conversion) => Ok(conversion.payload),
        Err(fault) => Err(fault),
    }
}

} // verus!
