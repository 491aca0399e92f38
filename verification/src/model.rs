//! Data model: packages, installed releases, and the values the
//! installation decision engine consumes and produces.

use vstd::prelude::*;

verus! {

/// A named, installable unit. `version` is the version the caller asks
/// for; `None` means "latest". The catalog may store a default version,
/// which the engine overrides with the caller's request.
pub struct Package {
    pub name: String,
    pub version: Option<String>,
}

/// The installed-state record for a package: which version is currently
/// present.
#[derive(Debug, PartialEq, Eq)]
pub struct Release {
    pub name: String,
    pub version: String,
}

/// One installation request, constructed at the boundary: the package
/// name, an optional explicit version, and whether a refresh to the
/// latest version is wanted.
pub struct InstallRequest {
    pub name: String,
    pub version: Option<String>,
    pub refresh: bool,
}

/// The action the engine decides on.
#[derive(Debug, PartialEq, Eq)]
pub enum Action {
    /// Nothing is installed yet: create a fresh release.
    Install,
    /// A release exists and a different explicit version was requested.
    UpgradeToVersion(String),
    /// A release exists and a refresh to the latest version was requested.
    RefreshToLatest,
}

/// Why the engine rejects a request.
#[derive(Debug, PartialEq, Eq)]
pub enum DecisionError {
    /// The package name is unknown to the catalog; carries the name.
    NotFound(String),
    /// The installed release already matches the requested state, or no
    /// forcing option was given; carries the installed release.
    AlreadySatisfied(Release),
}

/// The before/after narrative of a successful run.
#[derive(Debug, PartialEq, Eq)]
pub enum Outcome {
    /// A release was created where none existed.
    Installed(Release),
    /// An existing release (first field) was updated (second field).
    Updated(Release, Release),
}

/// The abstract value of an optional version string.
pub open spec fn version_view(v: Option<String>) -> Option<Seq<char>> {
    match v {
        Some(s) => Some(s@),
        None => None,
    }
}

/// The version a create/update call resolves to: the explicitly requested
/// one if any, otherwise the latest resolvable version.
pub open spec fn resolved_version(requested: Option<Seq<char>>, latest: Seq<char>) -> Seq<char> {
    match requested {
        Some(v) => v,
        None => latest,
    }
}

/// Clones an optional version string, keeping its abstract value.
pub fn clone_version(v: &Option<String>) -> (r: Option<String>)
    ensures
        version_view(r) == version_view(*v),
{
    match v {
        Some(s) => Some(s.clone()),
        None => None,
    }
}

} // verus!
