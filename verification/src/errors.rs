//! The closed set of failures that registry and installer operations report.

use vstd::prelude::*;
use vstd::string::StringExecFns;

verus! {

/// Why a registry or installer operation failed.
///
/// Several untrusted network responses are chained while a package is
/// resolved, so each missing piece is named by its own variant: the caller
/// learns which link broke without parsing a message.
#[derive(Debug, Clone, PartialEq, Eq)]
pub enum RegistryError {
    /// A network request failed or returned a non-success status.
    Transport(String),
    /// A response body or an on-disk file did not have the expected shape;
    /// the payload names what was being decoded.
    Decode(String),
    /// The named package advertises no version tagged "latest".
    NoLatestTag(String),
    /// The package metadata holds no record for the named version.
    NoVersionRecord(String),
    /// The selected version record carries no archive download address.
    NoTarballUrl,
    /// The named package's archive holds no manifest entry.
    NoManifest(String),
    /// The archive holds no entry at the named bundle path.
    NoBundle(String),
    /// The named package name fails the plugin naming convention.
    Validation(String),
    /// A directory or file operation failed; the payload describes it.
    Io(String),
    /// A refresh failed and no cached snapshot exists to fall back on;
    /// the payload carries the underlying network failure.
    NoNetworkNoCache(String),
}

/// The text [`RegistryError::message`] renders each failure as.
pub open spec fn spec_message(e: RegistryError) -> Seq<char> {
    match e {
        RegistryError::Transport(d) => "network request failed: "@ + d@,
        RegistryError::Decode(d) => "unexpected response shape: "@ + d@,
        RegistryError::NoLatestTag(p) => "package "@ + p@ + " has no latest version"@,
        RegistryError::NoVersionRecord(v) => "no record for version "@ + v@,
        RegistryError::NoTarballUrl => "no tarball address in the version record"@,
        RegistryError::NoManifest(p) => "no plugin manifest in package "@ + p@,
        RegistryError::NoBundle(p) => "no bundle entry at "@ + p@,
        RegistryError::Validation(n) => "package name "@ + n@
            + " does not follow the plugin naming convention"@,
        RegistryError::Io(d) => "file operation failed: "@ + d@,
        RegistryError::NoNetworkNoCache(d) => "cannot fetch the plugin registry and no cache exists: "@
            + d@,
    }
}

impl RegistryError {
    /// The human-readable description that the application surfaces.
    pub fn message(&self) -> (r: String)
        ensures
            r@ == spec_message(*self),
    {
        match self {
            RegistryError::Transport(d) => {
                let mut s = String::from_str("network request failed: ");
                s.append(d.as_str());
                s
            },
            RegistryError::Decode(d) => {
                let mut s = String::from_str("unexpected response shape: ");
                s.append(d.as_str());
                s
            },
            RegistryError::NoLatestTag(p) => {
                let mut s = String::from_str("package ");
                s.append(p.as_str());
                s.append(" has no latest version");
                s
            },
            RegistryError::NoVersionRecord(v) => {
                let mut s = String::from_str("no record for version ");
                s.append(v.as_str());
                s
            },
            RegistryError::NoTarballUrl => String::from_str(
                "no tarball address in the version record",
            ),
            RegistryError::NoManifest(p) => {
                let mut s = String::from_str("no plugin manifest in package ");
                s.append(p.as_str());
                s
            },
            RegistryError::NoBundle(p) => {
                let mut s = String::from_str("no bundle entry at ");
                s.append(p.as_str());
                s
            },
            RegistryError::Validation(n) => {
                let mut s = String::from_str("package name ");
                s.append(n.as_str());
                s.append(" does not follow the plugin naming convention");
                s
            },
            RegistryError::Io(d) => {
                let mut s = String::from_str("file operation failed: ");
                s.append(d.as_str());
                s
            },
            RegistryError::NoNetworkNoCache(d) => {
                let mut s = String::from_str("cannot fetch the plugin registry and no cache exists: ");
                s.append(d.as_str());
                s
            },
        }
    }
}

} // verus!
