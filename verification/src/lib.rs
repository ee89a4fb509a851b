//! Turns Chrome and Chromium extension packages (CRX, format versions 2 and 3)
//! into the ZIP archives they carry, and builds the query that asks the
//! extension store for such a package.
//!
//! Every function here is verified: each states in its contract what it
//! returns for every input, and none of them panics.

pub mod convert;
pub mod error;
pub mod header;
pub mod identity;
pub mod laws;
pub mod query;

pub use error::FormatError;

pub use header::{parse_header, FormatVersion, HeaderDescriptor};
pub use identity::{identity_mismatch, identity_token, public_key_protobuf};
pub use convert::{convert, crx_to_zip, Conversion, MAX_NESTING_DEPTH};
pub use query::{Architecture, ChromeCRXQuery, OperatingSystem, ProductId, UPDATE_SERVICE_URL};
