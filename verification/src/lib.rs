//! Decision core of a package-manager `install` command.
//!
//! Given a package name, an optional explicit version and a refresh flag,
//! the engine consults a package catalog and the record of installed
//! releases, and decides whether to install the package for the first time,
//! upgrade it to the requested version, refresh it to the latest version,
//! or reject the request because it is already satisfied.

pub mod catalog;
pub mod engine;
pub mod keymap;
pub mod model;
pub mod releases;

pub use crate::catalog::PackageLookup;
pub use crate::engine::InstallCmd;
pub use crate::releases::ReleaseLookup;

pub use crate::model::Package;
pub use crate::model::Release;
pub use crate::model::InstallRequest;
pub use crate::model::Action;
pub use crate::model::DecisionError;
pub use crate::model::Outcome;
