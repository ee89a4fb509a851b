//! The fixed-size fields that open a package, and where they say the ZIP
//! payload begins.
//!
//! Every field takes four bytes, and every number is little-endian.
//!
//! | index | version 2            | version 3                   |
//! |-------|----------------------|-----------------------------|
//! | 0     | `Cr24`               | `Cr24`                      |
//! | 4     | 2                    | 3                           |
//! | 8     | length of the key    | length of the signed header |
//! | 12    | length of signature  | the signed header           |
//! | 16    | the key, signature   |                             |
//!
//! The payload follows the last of these parts.

use vstd::prelude::*;

use crate::error::FormatError;

verus! {

/// Whether the four bytes `Cr24` stand in `bytes` at index `at`.
pub open spec fn has_magic_at(bytes: Seq<u8>, at: int) -> bool {
    &&& 0 <= at
    &&& at + 4 <= bytes.len()
    &&& bytes[at] == 0x43
    &&& bytes[at + 1] == 0x72
    &&& bytes[at + 2] == 0x32
    &&& bytes[at + 3] == 0x34
}

/// The number that the four bytes from index `at` on spell, least
/// significant byte first.
pub open spec fn le_u32_at(bytes: Seq<u8>, at: int) -> int {
    bytes[at] + 0x100 * bytes[at + 1] + 0x1_0000 * bytes[at + 2] + 0x100_0000 * bytes[at + 3]
}

/// Tests for the four bytes `Cr24` at index `at`; an input that ends
/// before `at + 4` does not have them.
pub fn magic_at(bytes: &[u8], at: usize) -> (found: bool)
    ensures
        found == has_magic_at(bytes@, at as int),
{
    if bytes.len() < 4 || at > bytes.len() - 4 {
        return false;
    }
    bytes[at] == 0x43 && bytes[at + 1] == 0x72 && bytes[at + 2] == 0x32 && bytes[at + 3] == 0x34
}

/// Reads four bytes from index `at` on as a little-endian number, or
/// nothing where the input ends before `at + 4`.
pub fn read_u32_le(bytes: &[u8], at: usize) -> (value: Option<u32>)
    ensures
        value is Some <==> at + 4 <= bytes@.len(),
        value matches Some(v) ==> v == le_u32_at(bytes@, at as int),
{
    if bytes.len() < 4 || at > bytes.len() - 4 {
        return None;
    }
    let b0: u32 = bytes[at] as u32;
    let b1: u32 = bytes[at + 1] as u32;
    let b2: u32 = bytes[at + 2] as u32;
    let b3: u32 = bytes[at + 3] as u32;
    Some(b0 + 0x100 * b1 + 0x1_0000 * b2 + 0x100_0000 * b3)
}

/// The two header layouts that are understood.
#[derive(Debug, Clone, Copy, PartialEq, Eq, Structural)]
pub enum FormatVersion {
    /// Magic, version, key length, signature length, key, signature, ZIP.
    V2,
    /// Magic, version, length of the signed header, signed header, ZIP.
    V3,
}

/// What the fixed-size fields of a package say.
#[derive(Debug, Clone, Copy, PartialEq, Eq, Structural)]
pub struct HeaderDescriptor {
    pub format_version: FormatVersion,
    /// The third field: the length of the public key in version 2, of the
    /// signed header in version 3.
    pub declared_section_length: u32,
    /// The index at which the ZIP payload begins. It is wide enough for the
    /// sum of any two declared lengths, so it never wraps.
    pub zip_payload_offset: u64,
}

impl HeaderDescriptor {
    /// The payload begins behind the fixed fields and the declared section,
    /// and in version 3 directly behind them.
    pub open spec fn wf(self) -> bool {
        match self.format_version {
            FormatVersion::V2 => {
                &&& 16 + self.declared_section_length <= self.zip_payload_offset
                &&& self.zip_payload_offset <= 16 + self.declared_section_length + u32::MAX
            },
            FormatVersion::V3 => self.zip_payload_offset == 12 + self.declared_section_length,
        }
    }

    /// Whether an input of `len` bytes reaches as far as the payload's
    /// first index. A package whose header does not fit its own length is
    /// truncated.
    pub open spec fn fits(self, len: nat) -> bool {
        self.zip_payload_offset <= len
    }
}

/// The header that `bytes` open with, or the reason why they have none.
///
/// The faults are looked for in the order of the fields: the magic first,
/// then the version, which needs eight bytes, then the lengths, which need
/// twelve bytes in version 3 and sixteen in version 2.
pub open spec fn header_of(bytes: Seq<u8>) -> Result<HeaderDescriptor, FormatError> {
    if !has_magic_at(bytes, 0) {
        Err(FormatError::NotACrxContainer)
    } else if bytes.len() < 8 {
        Err(FormatError::MalformedHeader)
    } else if le_u32_at(bytes, 4) == 2 {
        if bytes.len() < 16 {
            Err(FormatError::MalformedHeader)
        } else {
            Ok(
                HeaderDescriptor {
                    format_version: FormatVersion::V2,
                    declared_section_length: le_u32_at(bytes, 8) as u32,
                    zip_payload_offset: (16 + le_u32_at(bytes, 8) + le_u32_at(bytes, 12)) as u64,
                },
            )
        }
    } else if le_u32_at(bytes, 4) == 3 {
        if bytes.len() < 12 {
            Err(FormatError::MalformedHeader)
        } else {
            Ok(
                HeaderDescriptor {
                    format_version: FormatVersion::V3,
                    declared_section_length: le_u32_at(bytes, 8) as u32,
                    zip_payload_offset: (12 + le_u32_at(bytes, 8)) as u64,
                },
            )
        }
    } else {
        Err(FormatError::UnsupportedVersion(le_u32_at(bytes, 4) as u32))
    }
}

/// Reads the fixed-size fields of a package and computes where its payload
/// begins. Whether the input is long enough to hold that index is not
/// looked at here: see [`HeaderDescriptor::fits`].
pub fn parse_header(crx: &[u8]) -> (parsed: Result<HeaderDescriptor, FormatError>)
    ensures
        parsed == header_of(crx@),
        parsed matches Ok(header) ==> header.wf(),
{
    if !magic_at(crx, 0) {
        return Err(FormatError::NotACrxContainer);
    }
    let version = match read_u32_le(crx, 4) {
        Some(v) => v,
        None => {
            return Err(FormatError::MalformedHeader);
        },
    };
    if version != 2 && version != 3 {
        return Err(FormatError::UnsupportedVersion(version));
    }
    let header_extra = match read_u32_le(crx, 8) {
        Some(v) => v,
        None => {
            return Err(FormatError::MalformedHeader);
        },
    };
    if version == 3 {
        return Ok(
            HeaderDescriptor {
                format_version: FormatVersion::V3,
                declared_section_length: header_extra,
                zip_payload_offset: 12 + header_extra as u64,
            },
        );
    }
    let signature_length = match read_u32_le(crx, 12) {
        Some(v) => v,
        None => {
            return Err(FormatError::MalformedHeader);
        },
    };
    Ok(
        HeaderDescriptor {
            format_version: FormatVersion::V2,
            declared_section_length: header_extra,
            zip_payload_offset: 16 + header_extra as u64 + signature_length as u64,
        },
    )
}

} // verus!
