//! Why a byte sequence is refused as a package.

use vstd::prelude::*;

verus! {

/// A structural fault of a package. None of them is transient: the whole
/// input is in memory when it is looked at, so the same bytes fail the
/// same way each time.
#[derive(Debug, Clone, Copy, PartialEq, Eq, Structural)]
pub enum FormatError {
    /// The input does not open with the four bytes `Cr24`.
    NotACrxContainer,
    /// The format version, carried here, is neither 2 nor 3.
    UnsupportedVersion(u32),
    /// The header points at a payload that starts behind the end of the input.
    TruncatedContainer,
    /// The input ends inside the fixed-size fields of the header.
    MalformedHeader,
    /// More packages are wrapped into one another than are unwrapped.
    NestingTooDeep,
}

impl FormatError {
    /// What [`FormatError::message`] says of each fault.
    pub open spec fn message_text(self) -> Seq<char> {
        match self {
            FormatError::NotACrxContainer => "input is not a crx file"@,
            FormatError::UnsupportedVersion(_) => "invalid crx version"@,
            FormatError::TruncatedContainer => "crx file ends before its zip data"@,
            FormatError::MalformedHeader => "crx file ends inside its header"@,
            FormatError::NestingTooDeep => "too many nested crx files"@,
        }
    }

    /// The fault in words, for a message to the user.
    pub fn message(&self) -> (text: &'static str)
        ensures
            text@ == self.message_text(),
    {
        match self {
            FormatError::NotACrxContainer => "input is not a crx file",
            FormatError::UnsupportedVersion(_) => "invalid crx version",
            FormatError::TruncatedContainer => "crx file ends before its zip data",
            FormatError::MalformedHeader => "crx file ends inside its header",
            FormatError::NestingTooDeep => "too many nested crx files",
        }
    }
}

} // verus!
