//! What holds of unpacking for every input, proved from the definitions
//! that the contracts of [`crate::convert`] and [`crate::header`] use.

use vstd::prelude::*;

use crate::convert::{is_nested, zip_of};
use crate::error::FormatError;
use crate::header::{has_magic_at, header_of, le_u32_at, FormatVersion, HeaderDescriptor};

verus! {

/// The four bytes `Cr24`.
pub open spec fn magic_bytes() -> Seq<u8> {
    seq![0x43u8, 0x72u8, 0x32u8, 0x34u8]
}

/// The four bytes that spell `value`, least significant byte first.
pub open spec fn le_bytes_of(value: u32) -> Seq<u8> {
    seq![
        (value % 0x100) as u8,
        (value / 0x100 % 0x100) as u8,
        (value / 0x1_0000 % 0x100) as u8,
        (value / 0x100_0000) as u8,
    ]
}

/// A version 2 package made of a key, a signature and an archive: the
/// fixed fields, which declare the lengths of the first two, and then the
/// three parts.
pub open spec fn version2_package(key: Seq<u8>, signature: Seq<u8>, zip: Seq<u8>) -> Seq<u8> {
    magic_bytes() + le_bytes_of(2) + le_bytes_of(key.len() as u32) + le_bytes_of(
        signature.len() as u32,
    ) + key + signature + zip
}

/// The twelve fixed bytes of a version 3 package whose signed header is
/// declared `declared` bytes long.
pub open spec fn version3_fields(declared: u32) -> Seq<u8> {
    magic_bytes() + le_bytes_of(3) + le_bytes_of(declared)
}

/// Reading four bytes back gives the number that they were made from.
pub proof fn lemma_le_bytes_read_back(value: u32, before: Seq<u8>, after: Seq<u8>)
    ensures
        le_u32_at(before + le_bytes_of(value) + after, before.len() as int) == value,
{
}

/// An input that does not open with `Cr24` is no package, however long it
/// is and whatever follows.
pub proof fn lemma_magic_is_required(bytes: Seq<u8>, layers: nat)
    requires
        !has_magic_at(bytes, 0),
    ensures
        header_of(bytes) == Err::<HeaderDescriptor, FormatError>(FormatError::NotACrxContainer),
        zip_of(bytes, layers) == Err::<Seq<u8>, FormatError>(FormatError::NotACrxContainer),
{
}

/// In a version 2 package that declares a key of `k` bytes and a signature
/// of `s` bytes and is at least `16 + k + s` bytes long, the payload begins
/// at index `16 + k + s`, and the archive is every byte from there on.
pub proof fn lemma_version2_payload(bytes: Seq<u8>, layers: nat)
    requires
        has_magic_at(bytes, 0),
        bytes.len() >= 16,
        le_u32_at(bytes, 4) == 2,
        16 + le_u32_at(bytes, 8) + le_u32_at(bytes, 12) <= bytes.len(),
    ensures
        header_of(bytes) matches Ok(header) && header.format_version == FormatVersion::V2
            && header.declared_section_length == le_u32_at(bytes, 8)
            && header.zip_payload_offset == 16 + le_u32_at(bytes, 8) + le_u32_at(bytes, 12),
        zip_of(bytes, layers) == Ok::<Seq<u8>, FormatError>(
            bytes.skip(16 + le_u32_at(bytes, 8) + le_u32_at(bytes, 12)),
        ),
{
}

/// In a version 3 package that declares a signed header of `h` bytes, is
/// at least `12 + h` bytes long, and is no wrapper, the payload begins at
/// index `12 + h`, and the archive is every byte from there on.
pub proof fn lemma_version3_payload(bytes: Seq<u8>, layers: nat)
    requires
        has_magic_at(bytes, 0),
        bytes.len() >= 12,
        le_u32_at(bytes, 4) == 3,
        12 + le_u32_at(bytes, 8) <= bytes.len(),
        !has_magic_at(bytes, 12),
    ensures
        header_of(bytes) matches Ok(header) && header.format_version == FormatVersion::V3
            && header.declared_section_length == le_u32_at(bytes, 8)
            && header.zip_payload_offset == 12 + le_u32_at(bytes, 8),
        zip_of(bytes, layers) == Ok::<Seq<u8>, FormatError>(bytes.skip(12 + le_u32_at(bytes, 8))),
{
}

/// Wrapping an archive into a version 2 package and unpacking that package
/// gives the archive back, byte for byte, whatever the key and the
/// signature are and however long they are.
pub proof fn lemma_version2_round_trip(
    key: Seq<u8>,
    signature: Seq<u8>,
    zip: Seq<u8>,
    layers: nat,
)
    requires
        key.len() <= u32::MAX,
        signature.len() <= u32::MAX,
    ensures
        zip_of(version2_package(key, signature, zip), layers) == Ok::<Seq<u8>, FormatError>(zip),
{
    let k = key.len() as u32;
    let s = signature.len() as u32;
    let bytes = version2_package(key, signature, zip);
    let rest = key + signature + zip;
    assert(bytes == magic_bytes() + le_bytes_of(2) + (le_bytes_of(k) + le_bytes_of(s) + rest));
    assert(bytes == (magic_bytes() + le_bytes_of(2)) + le_bytes_of(k) + (le_bytes_of(s) + rest));
    assert(bytes == (magic_bytes() + le_bytes_of(2) + le_bytes_of(k)) + le_bytes_of(s) + rest);
    lemma_le_bytes_read_back(2, magic_bytes(), le_bytes_of(k) + le_bytes_of(s) + rest);
    lemma_le_bytes_read_back(k, magic_bytes() + le_bytes_of(2), le_bytes_of(s) + rest);
    lemma_le_bytes_read_back(s, magic_bytes() + le_bytes_of(2) + le_bytes_of(k), rest);
    assert(bytes.skip(16 + k + s) == zip);
}

/// A package that ends inside its fixed fields has a malformed header, and
/// one that ends before the index at which its payload begins is
/// truncated. Either way it is refused.
pub proof fn lemma_short_input_is_refused(bytes: Seq<u8>, layers: nat)
    requires
        has_magic_at(bytes, 0),
    ensures
        bytes.len() < 8 ==> zip_of(bytes, layers) == Err::<Seq<u8>, FormatError>(
            FormatError::MalformedHeader,
        ),
        bytes.len() >= 8 && le_u32_at(bytes, 4) == 3 && bytes.len() < 12 ==> zip_of(bytes, layers)
            == Err::<Seq<u8>, FormatError>(FormatError::MalformedHeader),
        bytes.len() >= 8 && le_u32_at(bytes, 4) == 2 && bytes.len() < 16 ==> zip_of(bytes, layers)
            == Err::<Seq<u8>, FormatError>(FormatError::MalformedHeader),
        header_of(bytes) matches Ok(header) && !is_nested(bytes, header) && bytes.len()
            < header.zip_payload_offset ==> zip_of(bytes, layers) == Err::<Seq<u8>, FormatError>(
            FormatError::TruncatedContainer,
        ),
{
}

/// A package of eight bytes or more whose version is neither 2 nor 3 is
/// refused for its version, which the fault carries.
pub proof fn lemma_version_is_checked(bytes: Seq<u8>, layers: nat)
    requires
        has_magic_at(bytes, 0),
        bytes.len() >= 8,
        le_u32_at(bytes, 4) != 2,
        le_u32_at(bytes, 4) != 3,
    ensures
        zip_of(bytes, layers) == Err::<Seq<u8>, FormatError>(
            FormatError::UnsupportedVersion(le_u32_at(bytes, 4) as u32),
        ),
{
}

/// The fixed fields of a version 3 package, directly followed by a whole
/// package, give what that package gives and cost one layer. Where the
/// wrapper declares its payload to begin does not matter.
pub proof fn lemma_wrapper_gives_inner(declared: u32, inner: Seq<u8>, layers: nat)
    requires
        has_magic_at(inner, 0),
    ensures
        zip_of(version3_fields(declared) + inner, layers + 1) == zip_of(inner, layers),
        zip_of(version3_fields(declared) + inner, 0) == Err::<Seq<u8>, FormatError>(
            FormatError::NestingTooDeep,
        ),
{
    let bytes = version3_fields(declared) + inner;
    assert(bytes.skip(12) == inner);
}

/// An archive is a tail of the package that it came out of: unpacking
/// makes no byte up and leaves none out behind the index `from`, which
/// lies inside the package or at its end.
pub proof fn lemma_archive_is_a_tail(bytes: Seq<u8>, layers: nat) -> (from: int)
    requires
        zip_of(bytes, layers) is Ok,
    ensures
        0 <= from <= bytes.len(),
        zip_of(bytes, layers) == Ok::<Seq<u8>, FormatError>(bytes.skip(from)),
    decreases layers,
{
    let header = header_of(bytes)->Ok_0;
    if is_nested(bytes, header) {
        let inside = lemma_archive_is_a_tail(bytes.skip(12), (layers - 1) as nat);
        assert(bytes.skip(12).skip(inside) == bytes.skip(12 + inside));
        12 + inside
    } else {
        header.zip_payload_offset as int
    }
}

/// The limit on wrappers does nothing but refuse: an answer other than
/// "nested too deep" stays the same when more wrappers are allowed.
pub proof fn lemma_limit_only_refuses(bytes: Seq<u8>, fewer: nat, more: nat)
    requires
        fewer <= more,
        zip_of(bytes, fewer) != Err::<Seq<u8>, FormatError>(FormatError::NestingTooDeep),
    ensures
        zip_of(bytes, more) == zip_of(bytes, fewer),
    decreases fewer,
{
    if let Ok(header) = header_of(bytes) {
        if is_nested(bytes, header) {
            lemma_limit_only_refuses(bytes.skip(12), (fewer - 1) as nat, (more - 1) as nat);
        }
    }
}

} // verus!
