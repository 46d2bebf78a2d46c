//! The message catalog: one request and one response shape per operation.
use vstd::prelude::*;

verus! {

#[verifier::external_type_specification]
#[verifier::external_body]
pub struct ExPathBuf(std::path::PathBuf);

/// Relies on PathBuf's Clone, which copies the path; nothing is stated of
/// the copy, whose allocation may differ.
pub assume_specification[ <std::path::PathBuf as Clone>::clone ](
    p: &std::path::PathBuf,
) -> std::path::PathBuf;

/// Identifier of a piece of shared content, computed by the storage side.
#[derive(Debug, Clone, Copy, PartialEq, Eq)]
pub struct ContentHash {
    pub bytes: [u8; 32],
}

impl ContentHash {
    pub fn from_bytes(bytes: [u8; 32]) -> (h: ContentHash)
        ensures
            h.bytes == bytes,
    {
        ContentHash { bytes }
    }

    pub fn as_bytes(&self) -> (b: &[u8; 32])
        ensures
            *b == self.bytes,
    {
        &self.bytes
    }
}

/// Share the content found at `path`.
#[derive(Debug, Clone, PartialEq, Eq)]
pub struct ProvideRequest {
    pub path: std::path::PathBuf,
}

/// The hash under which provided content is now shared.
#[derive(Debug, Clone, Copy, PartialEq, Eq)]
pub struct ProvideResponse {
    pub hash: ContentHash,
}

/// Enumerate everything currently shared.
#[derive(Debug, Clone, Copy, PartialEq, Eq)]
pub struct ListRequest;

/// One shared item, as produced by a `List` stream.
#[derive(Debug, Clone, PartialEq, Eq)]
pub struct ListResponse {
    pub path: std::path::PathBuf,
    pub hash: ContentHash,
    pub size: u64,
}

/// Subscribe to changes of the service's version.
#[derive(Debug, Clone, Copy, PartialEq, Eq)]
pub struct WatchRequest;

/// Ask for the service's version once.
#[derive(Debug, Clone, Copy, PartialEq, Eq)]
pub struct VersionRequest;

/// A new version observed by a `Watch` stream.
#[derive(Debug, Clone, PartialEq, Eq)]
pub struct WatchResponse {
    pub version: String,
}

/// The version the service is configured with.
#[derive(Debug, Clone, PartialEq, Eq)]
pub struct VersionResponse {
    pub version: String,
}

} // verus!
