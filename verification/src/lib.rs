use vstd::prelude::*;

pub mod document;
pub mod errors;
pub mod manifest;
pub mod upgrade;

pub use document::edit_version;
pub use document::parse_document;
pub use document::serialize_document;
pub use errors::Error;
pub use manifest::Manifest;

verus! {

/// Marker type naming the command-line tool built around this library.
pub struct CargoUpgrade;

} // verus!
