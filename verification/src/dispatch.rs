//! Which package manager a parsed package-manager command runs against:
//! whether it creates a missing project, requires one, or falls back to
//! npm outside a project.

use vstd::prelude::*;

verus! {

/// The `vp pm stage` subcommands.
#[derive(Debug, Clone, Copy, PartialEq, Eq, Structural)]
pub enum StageCommand {
    Publish,
    List,
}

/// The `vp pm` subcommands.
#[derive(Debug, Clone, Copy, PartialEq, Eq, Structural)]
pub enum PmCommand {
    Ci,
    ApproveBuilds,
    Prune,
    Patch,
    PatchCommit,
    Pack,
    List,
    Version,
    Publish,
    Rebuild,
    Fund,
    Audit,
    Stage(StageCommand),
    View,
    Owner,
    Cache,
    Config,
    Login,
    Logout,
    Whoami,
    Token,
    DistTag,
    Deprecate,
    Search,
    Ping,
}

/// The package-manager commands.
#[derive(Debug, Clone, Copy, PartialEq, Eq, Structural)]
pub enum PackageManagerCommand {
    Install,
    Add,
    Remove,
    Update,
    Dedupe,
    Outdated,
    Why,
    Link,
    Unlink,
    Info,
    Dlx,
    Pm(PmCommand),
}

/// How a command obtains its package manager.
#[derive(Debug, Clone, Copy, PartialEq, Eq, Structural)]
pub enum ManagerPolicy {
    /// Create a `package.json` when missing, then detect the manager.
    CreateIfMissing,
    /// The command acts on a project and needs one.
    RequireProject,
    /// Registry commands run through npm outside a project.
    AllowNpmFallback,
}

/// The policy of a `vp pm` subcommand: the project-bound ones (and
/// `stage publish`) require a project, the registry ones fall back to npm.
pub open spec fn pm_policy(command: PmCommand) -> ManagerPolicy {
    match command {
        PmCommand::Ci | PmCommand::ApproveBuilds | PmCommand::Prune | PmCommand::Patch
        | PmCommand::PatchCommit | PmCommand::Pack | PmCommand::List | PmCommand::Version
        | PmCommand::Publish | PmCommand::Rebuild | PmCommand::Fund | PmCommand::Audit
        | PmCommand::Stage(StageCommand::Publish) => ManagerPolicy::RequireProject,
        _ => ManagerPolicy::AllowNpmFallback,
    }
}

/// The policy of a package-manager command other than `dlx`, which is
/// dispatched before policy selection.
pub open spec fn policy(command: PackageManagerCommand) -> ManagerPolicy {
    match command {
        PackageManagerCommand::Install | PackageManagerCommand::Add => ManagerPolicy::CreateIfMissing,
        PackageManagerCommand::Info => ManagerPolicy::AllowNpmFallback,
        PackageManagerCommand::Pm(pm) => pm_policy(pm),
        _ => ManagerPolicy::RequireProject,
    }
}

/// The manager policy of a `vp pm` subcommand.
pub fn pm_manager_policy(command: &PmCommand) -> (r: ManagerPolicy)
    ensures
        r == pm_policy(*command),
{
    match command {
        PmCommand::Ci
        | PmCommand::ApproveBuilds
        | PmCommand::Prune
        | PmCommand::Patch
        | PmCommand::PatchCommit
        | PmCommand::Pack
        | PmCommand::List
        | PmCommand::Version
        | PmCommand::Publish
        | PmCommand::Rebuild
        | PmCommand::Fund
        | PmCommand::Audit
        | PmCommand::Stage(StageCommand::Publish) => ManagerPolicy::RequireProject,
        PmCommand::View
        | PmCommand::Stage(_)
        | PmCommand::Owner
        | PmCommand::Cache
        | PmCommand::Config
        | PmCommand::Login
        | PmCommand::Logout
        | PmCommand::Whoami
        | PmCommand::Token
        | PmCommand::DistTag
        | PmCommand::Deprecate
        | PmCommand::Search
        | PmCommand::Ping => ManagerPolicy::AllowNpmFallback,
    }
}

/// The manager policy of a package-manager command.
pub fn manager_policy(command: &PackageManagerCommand) -> (r: ManagerPolicy)
    requires
        *command != PackageManagerCommand::Dlx,
    ensures
        r == policy(*command),
{
    match command {
        PackageManagerCommand::Install | PackageManagerCommand::Add => {
            ManagerPolicy::CreateIfMissing
        },
        PackageManagerCommand::Remove
        | PackageManagerCommand::Update
        | PackageManagerCommand::Dedupe
        | PackageManagerCommand::Outdated
        | PackageManagerCommand::Why
        | PackageManagerCommand::Link
        | PackageManagerCommand::Unlink => ManagerPolicy::RequireProject,
        PackageManagerCommand::Info => ManagerPolicy::AllowNpmFallback,
        PackageManagerCommand::Dlx => ManagerPolicy::AllowNpmFallback,
        PackageManagerCommand::Pm(command) => pm_manager_policy(command),
    }
}

/// Where a package-manager command is dispatched.
#[derive(Debug, Clone, Copy, PartialEq, Eq, Structural)]
pub enum DispatchRoute {
    /// `vp install` through the embedded install engine.
    EngineInstall,
    /// `dlx`, which runs with or without a project.
    Dlx,
    /// Resolve a package manager under this policy, then run the command.
    Manager(ManagerPolicy),
}

pub open spec fn route(command: PackageManagerCommand, engine_requested: bool) -> DispatchRoute {
    if command == PackageManagerCommand::Install && engine_requested {
        DispatchRoute::EngineInstall
    } else if command == PackageManagerCommand::Dlx {
        DispatchRoute::Dlx
    } else {
        DispatchRoute::Manager(policy(command))
    }
}

/// The dispatch route of a command; `engine_requested` says whether the
/// environment selects the embedded install engine.
pub fn dispatch_route(command: &PackageManagerCommand, engine_requested: bool) -> (r: DispatchRoute)
    ensures
        r == route(*command, engine_requested),
{
    if matches!(command, PackageManagerCommand::Install) && engine_requested {
        return DispatchRoute::EngineInstall;
    }
    if matches!(command, PackageManagerCommand::Dlx) {
        return DispatchRoute::Dlx;
    }
    DispatchRoute::Manager(manager_policy(command))
}

/// How building the package manager for `dlx` ended.
#[derive(Debug, Clone, Copy, PartialEq, Eq, Structural)]
pub enum ManagerLookup {
    Found,
    /// No `package.json` was found from the invocation directory upward.
    PackageJsonNotFound,
    Failed,
}

/// What `dlx` does after the lookup.
#[derive(Debug, Clone, Copy, PartialEq, Eq, Structural)]
pub enum DlxRoute {
    /// Run through the detected manager.
    Manager,
    /// Outside a project, run through `npx`.
    NpxFallback,
    /// Report the lookup's error.
    Fail,
}

pub open spec fn dlx_route_spec(lookup: ManagerLookup) -> DlxRoute {
    match lookup {
        ManagerLookup::Found => DlxRoute::Manager,
        ManagerLookup::PackageJsonNotFound => DlxRoute::NpxFallback,
        ManagerLookup::Failed => DlxRoute::Fail,
    }
}

/// `dlx` runs outside a project: a missing `package.json` falls back to
/// `npx`, any other lookup failure is an install error.
pub fn dlx_route(lookup: ManagerLookup) -> (r: DlxRoute)
    ensures
        r == dlx_route_spec(lookup),
{
    match lookup {
        ManagerLookup::Found => DlxRoute::Manager,
        ManagerLookup::PackageJsonNotFound => DlxRoute::NpxFallback,
        ManagerLookup::Failed => DlxRoute::Fail,
    }
}

} // verus!
