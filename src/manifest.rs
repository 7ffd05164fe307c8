//! The version manifest: a newest-first list of versions, each with its kind.

use vstd::prelude::*;

verus! {

/// The release channel of a version.
#[derive(Clone, Copy, Debug, PartialEq, Eq, Structural)]
pub enum VersionType {
    Release,
    Snapshot,
    OldBeta,
    OldAlpha,
}

/// One entry of the manifest.
#[derive(Debug)]
pub struct Version {
    /// The version identifier, such as `1.18.1` or `22w03a`.
    pub id: String,
    pub version_type: VersionType,
}

/// The manifest, its versions ordered newest first.
#[derive(Debug)]
pub struct VersionManifestV2 {
    pub versions: Vec<Version>,
}

} // verus!
