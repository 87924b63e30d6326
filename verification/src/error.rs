//! Error values of the library.

use vstd::prelude::*;

verus! {

/// Why a digest could not be computed, read or confirmed.
#[derive(Clone, Copy, Debug, PartialEq, Eq, Structural)]
pub enum DigestError {
    /// The digest string has no `:` between algorithm and encoded hash.
    Malformed,
    /// The algorithm is neither `sha256` nor `sha512`.
    UnrecognizedAlgorithm,
    /// The content does not hash to the encoded value.
    Mismatch,
}

impl DigestError {
    /// A one-line description for diagnostics.
    pub fn message(&self) -> (text: &'static str)
        ensures
            text@ == match *self {
                DigestError::Malformed => "digest does not have ALG:ENCODED format"@,
                DigestError::UnrecognizedAlgorithm => "unrecognized hashing algorithm"@,
                DigestError::Mismatch => "content does not match its digest"@,
            },
    {
        match self {
            DigestError::Malformed => "digest does not have ALG:ENCODED format",
            DigestError::UnrecognizedAlgorithm => "unrecognized hashing algorithm",
            DigestError::Mismatch => "content does not match its digest",
        }
    }
}

/// Why a request to the registry gave no usable answer.
#[derive(Clone, Copy, Debug, PartialEq, Eq, Structural)]
pub enum RegistryError {
    /// No response was received.
    Transport,
    /// The registry answered with status 404.
    NotFound,
    /// The registry answered with a status outside 200 to 299, other than 404.
    Http { status: u16 },
    /// The body is not a JSON document of the expected shape; a wrong schema
    /// version and a wrong media type count as such.
    Decode,
}

impl RegistryError {
    /// A one-line description for diagnostics.
    pub fn message(&self) -> (text: &'static str)
        ensures
            text@ == match *self {
                RegistryError::Transport => "no response from the registry"@,
                RegistryError::NotFound => "not found in the registry"@,
                RegistryError::Http { status } => "http error in request"@,
                RegistryError::Decode => "unexpected response body"@,
            },
    {
        match self {
            RegistryError::Transport => "no response from the registry",
            RegistryError::NotFound => "not found in the registry",
            RegistryError::Http { status } => "http error in request",
            RegistryError::Decode => "unexpected response body",
        }
    }
}

/// Why a pull ended without a complete layout. Every failure is final: nothing
/// is retried and nothing is replaced by a default.
#[derive(Clone, Copy, Debug, PartialEq, Eq, Structural)]
pub enum PullError {
    /// The token exchange failed: no response, a status outside 200 to 299, or
    /// a body without a token.
    Auth,
    /// The image index could not be fetched or read.
    Index(RegistryError),
    /// The index lists no manifest for the host's architecture and operating
    /// system.
    NoMatchingPlatform,
    /// The manifest could not be fetched.
    ManifestFetch(RegistryError),
    /// The manifest is not a JSON document of the expected shape.
    ManifestDecode,
    /// The configuration blob could not be fetched.
    ConfigFetch(RegistryError),
    /// The configuration is not a JSON document of the expected shape.
    ConfigDecode,
    /// A blob's digest is malformed, names an unknown algorithm, or is not the
    /// hash of the blob.
    Digest(DigestError),
    /// A directory or file could not be created or written.
    Io,
    /// An event arrived that does not answer the action last handed out.
    OutOfTurn,
}

impl PullError {
    /// The stage at which the pull ended, in a few words, for diagnostics.
    pub fn message(&self) -> (text: &'static str)
        ensures
            text@ == match *self {
                PullError::Auth => "logging in"@,
                PullError::Index(e) => "fetching index"@,
                PullError::NoMatchingPlatform =>
                    "no image with matching architecture and operating system found"@,
                PullError::ManifestFetch(e) => "fetching manifest body"@,
                PullError::ManifestDecode => "invalid manifest"@,
                PullError::ConfigFetch(e) => "fetching blob body"@,
                PullError::ConfigDecode => "parsing image config"@,
                PullError::Digest(e) => "checking blob digest"@,
                PullError::Io => "creating image storage"@,
                PullError::OutOfTurn => "event out of turn"@,
            },
    {
        match self {
            PullError::Auth => "logging in",
            PullError::Index(e) => "fetching index",
            PullError::NoMatchingPlatform =>
                "no image with matching architecture and operating system found",
            PullError::ManifestFetch(e) => "fetching manifest body",
            PullError::ManifestDecode => "invalid manifest",
            PullError::ConfigFetch(e) => "fetching blob body",
            PullError::ConfigDecode => "parsing image config",
            PullError::Digest(e) => "checking blob digest",
            PullError::Io => "creating image storage",
            PullError::OutOfTurn => "event out of turn",
        }
    }
}

} // verus!
