//! The installation decision engine: given one request and the current
//! catalog and release state, decide whether to install, upgrade,
//! refresh, or reject the request as already satisfied.

use vstd::prelude::*;

use crate::catalog::PackageLookup;
use crate::model::clone_version;
use crate::model::resolved_version;
use crate::model::version_view;
use crate::model::Action;
use crate::model::DecisionError;
use crate::model::Outcome;
use crate::model::InstallRequest;
use crate::releases::ReleaseLookup;

verus! {

/// The abstract decision, free of payloads.
pub enum DecisionV {
    NotFound,
    Install,
    AlreadySatisfied,
    UpgradeToVersion(Seq<char>),
    RefreshToLatest,
}

/// The decision table. `known` says whether the catalog has the package,
/// `current` the installed version if a release exists, `requested` the
/// explicitly requested version if any, `refresh` the refresh flag.
///
/// When nothing is installed the outcome is an install, whatever the
/// flags. Otherwise an explicit version is handled first: it either
/// matches the installed one (already satisfied) or forces an upgrade.
/// Only then the refresh flag counts; with neither, nothing is to do.
pub open spec fn decide_spec(
    known: bool,
    current: Option<Seq<char>>,
    requested: Option<Seq<char>>,
    refresh: bool,
) -> DecisionV {
    if !known {
        DecisionV::NotFound
    } else if current is None {
        DecisionV::Install
    } else if requested is Some {
        if current->0 == requested->0 {
            DecisionV::AlreadySatisfied
        } else {
            DecisionV::UpgradeToVersion(requested->0)
        }
    } else if refresh {
        DecisionV::RefreshToLatest
    } else {
        DecisionV::AlreadySatisfied
    }
}

/// The installed version recorded for `name`, if a release exists.
pub open spec fn current_of(rels: Map<Seq<char>, Seq<char>>, name: Seq<char>) -> Option<
    Seq<char>,
> {
    if rels.dom().contains(name) {
        Some(rels[name])
    } else {
        None
    }
}

/// The abstract decision a concrete engine result stands for.
pub open spec fn decision_view(r: Result<Action, DecisionError>) -> DecisionV {
    match r {
        Ok(Action::Install) => DecisionV::Install,
        Ok(Action::UpgradeToVersion(v)) => DecisionV::UpgradeToVersion(v@),
        Ok(Action::RefreshToLatest) => DecisionV::RefreshToLatest,
        Err(DecisionError::NotFound(_)) => DecisionV::NotFound,
        Err(DecisionError::AlreadySatisfied(_)) => DecisionV::AlreadySatisfied,
    }
}

/// A package the catalog does not know is never acted on: the decision
/// is `NotFound`, whatever the request carries.
pub proof fn lemma_unknown_package_not_found(
    current: Option<Seq<char>>,
    requested: Option<Seq<char>>,
    refresh: bool,
)
    ensures
        decide_spec(false, current, requested, refresh) == DecisionV::NotFound,
{
}

/// A known package with no current release is always installed,
/// regardless of the requested version and the refresh flag.
pub proof fn lemma_nothing_installed_installs(requested: Option<Seq<char>>, refresh: bool)
    ensures
        decide_spec(true, None, requested, refresh) == DecisionV::Install,
{
}

/// Requesting exactly the installed version is already satisfied; any
/// other explicit version forces an upgrade to it.
pub proof fn lemma_explicit_version(installed: Seq<char>, requested: Seq<char>, refresh: bool)
    ensures
        installed == requested ==> decide_spec(true, Some(installed), Some(requested), refresh)
            == DecisionV::AlreadySatisfied,
        installed != requested ==> decide_spec(true, Some(installed), Some(requested), refresh)
            == DecisionV::UpgradeToVersion(requested),
{
}

/// With no explicit version and the refresh flag set, an installed
/// package is refreshed to the latest version, unconditionally: the
/// decision does not compare the installed version with anything.
pub proof fn lemma_refresh_is_unconditional(installed: Seq<char>)
    ensures
        decide_spec(true, Some(installed), None, true) == DecisionV::RefreshToLatest,
{
}

/// With neither an explicit version nor the refresh flag, an installed
/// package is already satisfied: nothing forces an update.
pub proof fn lemma_no_forcing_flag(installed: Seq<char>)
    ensures
        decide_spec(true, Some(installed), None, false) == DecisionV::AlreadySatisfied,
{
}

/// When an explicit version is requested, version handling takes
/// priority: the refresh flag has no effect on the decision.
pub proof fn lemma_version_precedence(
    known: bool,
    current: Option<Seq<char>>,
    requested: Seq<char>,
    refresh: bool,
)
    ensures
        decide_spec(known, current, Some(requested), refresh) == decide_spec(
            known,
            current,
            Some(requested),
            false,
        ),
{
}

/// The `install` command: decides what a request means for the package
/// it names, and carries the decision out on the release record.
pub struct InstallCmd;

impl InstallCmd {
    /// A fresh command; it holds no state of its own.
    pub fn new() -> (r: Self) {
        InstallCmd {  }
    }

    /// Decides, without acting: which action the request calls for, or
    /// why it is rejected. Rejections carry the package name (when it is
    /// unknown) or the installed release (when it already satisfies the
    /// request).
    pub fn decide(
        &self,
        pkgs: &PackageLookup,
        rels: &ReleaseLookup,
        req: &InstallRequest,
    ) -> (r: Result<Action, DecisionError>)
        ensures
            decision_view(r) == decide_spec(
                pkgs@.dom().contains(req.name@),
                current_of(rels@, req.name@),
                version_view(req.version),
                req.refresh,
            ),
            r matches Err(DecisionError::NotFound(n)) ==> n@ == req.name@,
            r matches Err(DecisionError::AlreadySatisfied(rel)) ==> rel.name@ == req.name@
                && rels@.dom().contains(req.name@) && rel.version@ == rels@[req.name@],
            r matches Ok(Action::UpgradeToVersion(v)) ==> Some(v@) == version_view(req.version),
    {
        if !pkgs.has(&req.name) {
            return Err(DecisionError::NotFound(req.name.clone()));
        }
        let mut pkg = match pkgs.get(&req.name) {
            Some(p) => p,
            None => {
                return Err(DecisionError::NotFound(req.name.clone()));
            },
        };
        pkg.version = clone_version(&req.version);
        if !rels.has(&req.name) {
            return Ok(Action::Install);
        }
        let release = match rels.current(&pkg) {
            Some(rel) => rel,
            None => {
                return Err(DecisionError::NotFound(req.name.clone()));
            },
        };
        match &pkg.version {
            Some(v) => {
                if release.version == *v {
                    Err(DecisionError::AlreadySatisfied(release))
                } else {
                    Ok(Action::UpgradeToVersion(v.clone()))
                }
            },
            None => {
                if req.refresh {
                    Ok(Action::RefreshToLatest)
                } else {
                    Err(DecisionError::AlreadySatisfied(release))
                }
            },
        }
    }

    /// Runs the command: decides, and carries the decision out on the
    /// release record. `latest` is the latest resolvable version of the
    /// package, supplied by the out-of-scope release resolver; it is used
    /// exactly when no explicit version is requested. On success the
    /// result reports the release as installed, or the old and the new
    /// release of an update; on rejection the record is untouched.
    ///
    /// A refresh is unconditional: even when `latest` equals the
    /// installed version, the release is updated rather than rejected.
    pub fn run(
        &self,
        pkgs: &PackageLookup,
        rels: &mut ReleaseLookup,
        req: &InstallRequest,
        latest: &String,
    ) -> (r: Result<Outcome, DecisionError>)
        ensures
            !pkgs@.dom().contains(req.name@) ==> {
                &&& r matches Err(DecisionError::NotFound(n)) && n@ == req.name@
                &&& final(rels)@ == old(rels)@
            },
            pkgs@.dom().contains(req.name@) && !old(rels)@.dom().contains(req.name@) ==> {
                &&& r matches Ok(Outcome::Installed(rel)) && rel.name@ == req.name@
                    && rel.version@ == resolved_version(version_view(req.version), latest@)
                &&& final(rels)@ == old(rels)@.insert(
                    req.name@,
                    resolved_version(version_view(req.version), latest@),
                )
            },
            pkgs@.dom().contains(req.name@) && old(rels)@.dom().contains(req.name@)
                && version_view(req.version) is Some && old(rels)@[req.name@] == version_view(
                req.version,
            )->0 ==> {
                &&& r matches Err(DecisionError::AlreadySatisfied(rel)) && rel.name@ == req.name@
                    && rel.version@ == old(rels)@[req.name@]
                &&& final(rels)@ == old(rels)@
            },
            pkgs@.dom().contains(req.name@) && old(rels)@.dom().contains(req.name@)
                && version_view(req.version) is Some && old(rels)@[req.name@] != version_view(
                req.version,
            )->0 ==> {
                &&& r matches Ok(Outcome::Updated(from, to)) && from.name@ == req.name@
                    && from.version@ == old(rels)@[req.name@] && to.name@ == req.name@
                    && to.version@ == version_view(req.version)->0
                &&& final(rels)@ == old(rels)@.insert(req.name@, version_view(req.version)->0)
            },
            pkgs@.dom().contains(req.name@) && old(rels)@.dom().contains(req.name@)
                && version_view(req.version) is None && req.refresh ==> {
                &&& r matches Ok(Outcome::Updated(from, to)) && from.name@ == req.name@
                    && from.version@ == old(rels)@[req.name@] && to.name@ == req.name@
                    && to.version@ == latest@
                &&& final(rels)@ == old(rels)@.insert(req.name@, latest@)
            },
            pkgs@.dom().contains(req.name@) && old(rels)@.dom().contains(req.name@)
                && version_view(req.version) is None && !req.refresh ==> {
                &&& r matches Err(DecisionError::AlreadySatisfied(rel)) && rel.name@ == req.name@
                    && rel.version@ == old(rels)@[req.name@]
                &&& final(rels)@ == old(rels)@
            },
    {
        if !pkgs.has(&req.name) {
            return Err(DecisionError::NotFound(req.name.clone()));
        }
        let mut pkg = match pkgs.get(&req.name) {
            Some(p) => p,
            None => {
                return Err(DecisionError::NotFound(req.name.clone()));
            },
        };
        pkg.version = clone_version(&req.version);
        if rels.has(&req.name) {
            let release = match rels.current(&pkg) {
                Some(rel) => rel,
                None => {
                    return Err(DecisionError::NotFound(req.name.clone()));
                },
            };
            match &pkg.version {
                Some(v) => {
                    if release.version == *v {
                        Err(DecisionError::AlreadySatisfied(release))
                    } else {
                        let updated = rels.update(&pkg, latest);
                        Ok(Outcome::Updated(release, updated))
                    }
                },
                None => {
                    if req.refresh {
                        let updated = rels.update(&pkg, latest);
                        Ok(Outcome::Updated(release, updated))
                    } else {
                        Err(DecisionError::AlreadySatisfied(release))
                    }
                },
            }
        } else {
            let created = rels.create(&pkg, latest);
            Ok(Outcome::Installed(created))
        }
    }
}

} // verus!

