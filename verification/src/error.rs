use vstd::prelude::*;

verus! {

/// A decoding error.
///
/// Every table decoder reports its failures through this shared, flat
/// taxonomy: callers can tell an unsupported table version from corrupt
/// data, but no variant carries a nested cause or a byte position.
#[derive(Clone, Copy, Debug, PartialEq, Eq, Structural)]
pub enum Error {
    /// Not enough bytes remained for a required field, or the region is
    /// structurally invalid.
    Malformed,
    /// The table directory has no entry for the requested tag.
    MissingTable,
    /// The leading version field of the `hhea` table does not match the
    /// recognized sentinel.
    HHEAVersionIsNotSupported,
    /// The leading version field of the `head` table does not match the
    /// recognized sentinel.
    HEADVersionIsNotSupported,
    /// The stored index-to-location discriminant is neither 0 nor 1.
    UnknownLocationFormat,
}

impl Error {
    /// The description that `description` returns for each variant.
    pub open spec fn spec_description(self) -> Seq<char> {
        match self {
            Error::Malformed => "malformed data"@,
            Error::MissingTable => "missing table"@,
            Error::HHEAVersionIsNotSupported => "hhea version is not supported"@,
            Error::HEADVersionIsNotSupported => "head version is not supported"@,
            Error::UnknownLocationFormat => "unknown location format"@,
        }
    }

    /// Returns a short, stable, human-readable description of the error.
    pub fn description(&self) -> (r: &'static str)
        ensures
            r@ == self.spec_description(),
    {
        match *self {
            Error::Malformed => "malformed data",
            Error::MissingTable => "missing table",
            Error::HHEAVersionIsNotSupported => "hhea version is not supported",
            Error::HEADVersionIsNotSupported => "head version is not supported",
            Error::UnknownLocationFormat => "unknown location format",
        }
    }
}

} // verus!
