//! Errors raised while building a resource.

use vstd::prelude::*;

verus! {

/// An error raised while a resource is built.
///
/// Each variant carries the input that provoked it, so a caller can tell
/// exactly which lookup failed and for which identifier.
#[derive(Debug, PartialEq, Eq)]
pub enum NwgError {
    /// The builder was asked to build, but none of its sources was set.
    NoIconSource,
    /// The embedded resource table holds no icon under this integer id.
    EmbedIconMissingById(usize),
    /// The embedded resource table holds no icon under this name.
    EmbedIconMissingByName(String),
}

} // verus!
