//! Failures that reading a file can report.
use vstd::prelude::*;

verus! {

/// Why a read failed.
#[derive(Clone, Copy, Debug, PartialEq, Eq, Structural)]
pub enum EdbError {
    /// The marker, magic or version at the start of the file is not one this reader knows.
    CorruptHeader,
    /// No pixel codec exists for the platform tag.
    UnsupportedPlatform,
    /// An index or an address points outside the array or the file.
    InvalidReference,
    /// The platform's codec does not handle the texture's pixel format.
    UnsupportedTextureFormat,
    /// Pixel data is shorter than its format requires.
    DecodeError,
    /// A zone's reference leads to an entity that is not a map zone.
    InvalidZoneReference,
}

} // verus!
