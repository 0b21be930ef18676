//! Discovery, caching and installation of plugin packages.
//!
//! The crate models a plugin registry client: it filters candidate package
//! names, resolves a package's downloadable archive from registry metadata,
//! extracts manifest and bundle entries from compressed archives, keeps a
//! time-limited on-disk catalog snapshot with stale fallback, and derives the
//! set of installed plugins from a scan of the installation directory.
//! All decisions are made here over plain values; the surrounding
//! application performs network and file input/output.

use vstd::prelude::*;

pub mod archive;
pub mod cache;
pub mod clock;
pub mod config;
pub mod errors;
pub mod install;
pub mod json;
pub mod manifest;
pub mod registry;
pub mod meta;
pub mod text;

verus! {

/// Lifetime of a cached registry snapshot, in milliseconds (one hour).
pub const DEFAULT_TTL_MS: u64 = 3600000;

} // verus!

