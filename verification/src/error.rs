use vstd::prelude::*;

verus! {

/// The pipeline's error taxonomy. Every failure of a publish attempt is one
/// of these variants, each carrying a human-readable description.
#[derive(Debug)]
pub enum Error {
    /// A required input was missing or malformed (bad command-line flags).
    InvalidInput(String),
    /// The inbound request body was not valid JSON, or lacked the required
    /// `message` field.
    SerializationFailure(String),
    /// The remote publish call could not reach the provider at all.
    TransportFailure(String),
    /// The provider responded, but declined the publish.
    ProviderRejected(String),
    /// The client could not be constructed at startup.
    ConfigurationFailure(String),
}

impl Error {
    /// The description carried by the error, whatever its variant.
    pub open spec fn spec_text(self) -> Seq<char> {
        match self {
            Error::InvalidInput(s) => s@,
            Error::SerializationFailure(s) => s@,
            Error::TransportFailure(s) => s@,
            Error::ProviderRejected(s) => s@,
            Error::ConfigurationFailure(s) => s@,
        }
    }

    /// Returns the error's description.
    pub fn text(&self) -> (r: &str)
        ensures
            r@ == self.spec_text(),
    {
        match self {
            Error::InvalidInput(s) => s.as_str(),
            Error::SerializationFailure(s) => s.as_str(),
            Error::TransportFailure(s) => s.as_str(),
            Error::ProviderRejected(s) => s.as_str(),
            Error::ConfigurationFailure(s) => s.as_str(),
        }
    }
}

} // verus!
