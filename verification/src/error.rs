//! Why a request for a manifest is turned down.

use vstd::prelude::*;

verus! {

/// One of the four parameters that a manifest is made from.
#[derive(Debug, Clone, Copy, PartialEq, Eq, Structural)]
pub enum Param {
    BundleId,
    Name,
    Version,
    FetchUrl,
}

impl Param {
    /// The key under which the parameter stands in a query string.
    pub open spec fn key(self) -> Seq<char> {
        match self {
            Param::BundleId => "bundleid"@,
            Param::Name => "name"@,
            Param::Version => "version"@,
            Param::FetchUrl => "fetchurl"@,
        }
    }

    /// The key under which the parameter stands in a query string.
    pub fn name(self) -> (key: &'static str)
        ensures
            key@ == self.key(),
    {
        match self {
            Param::BundleId => "bundleid",
            Param::Name => "name",
            Param::Version => "version",
            Param::FetchUrl => "fetchurl",
        }
    }
}

/// The ways in which a request for a manifest fails.
#[derive(Debug, Clone, Copy, PartialEq, Eq, Structural)]
pub enum RequestError {
    /// The query string could not be decoded into key/value pairs.
    MalformedQuery,
    /// A required parameter does not occur in the query string.
    MissingParameter(Param),
    /// A required parameter occurs more than once in the query string.
    RepeatedParameter(Param),
    /// The manifest could not be encoded as a property list.
    SerializationFailure,
}

} // verus!
