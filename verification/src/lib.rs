//! Verified core of an interactive installer for prebuilt binaries.
//!
//! The library holds the logic that decides what to install: detecting the
//! host platform from identity strings, selecting releases from a paginated
//! feed by tag prefix, resolving the platform-specific asset inside a
//! release, and the permission arithmetic of the final install step. All
//! input and output (reading system files, talking to the release feed,
//! writing the binary) is left to the surrounding program, which hands this
//! library plain values.

use vstd::prelude::*;

pub mod install;
pub mod installer_cli;
pub mod release;
pub mod strutil;
pub mod system;
pub mod version;
pub mod zbcli;

verus! {

/// Error kinds that the installer logic can report.
#[derive(Debug, PartialEq, Eq, Structural, Clone, Copy)]
pub enum InstallError {
    /// Platform detection failed and no override was given.
    UnsupportedPlatform,
    /// A requested version or tag is absent from the feed.
    NotFound,
    /// The platform/signing combination is not published for the release.
    AssetNotFound,
    /// Transport failure while talking to the feed.
    NetworkError,
    /// Local filesystem failure.
    IOError,
}

} // verus!
