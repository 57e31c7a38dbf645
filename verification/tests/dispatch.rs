use vp_doc_cli::dispatch::{
    DispatchRoute, DlxRoute, ManagerLookup, ManagerPolicy, PackageManagerCommand, PmCommand,
    StageCommand, dispatch_route, dlx_route, manager_policy, pm_manager_policy,
};

#[test]
fn manager_policy_covers_project_creation_and_requirement() {
    assert_eq!(manager_policy(&PackageManagerCommand::Install), ManagerPolicy::CreateIfMissing);
    assert_eq!(manager_policy(&PackageManagerCommand::Remove), ManagerPolicy::RequireProject);
}

#[test]
fn manager_policy_covers_npm_fallbacks() {
    assert_eq!(manager_policy(&PackageManagerCommand::Info), ManagerPolicy::AllowNpmFallback);
}

#[test]
fn only_stage_publish_requires_a_project() {
    assert_eq!(
        manager_policy(&PackageManagerCommand::Pm(PmCommand::Stage(StageCommand::Publish))),
        ManagerPolicy::RequireProject
    );
    assert_eq!(
        manager_policy(&PackageManagerCommand::Pm(PmCommand::Stage(StageCommand::List))),
        ManagerPolicy::AllowNpmFallback
    );
}

#[test]
fn registry_commands_fall_back_to_npm() {
    for command in [PmCommand::View, PmCommand::Whoami, PmCommand::Search, PmCommand::DistTag] {
        assert_eq!(pm_manager_policy(&command), ManagerPolicy::AllowNpmFallback);
    }
    for command in [PmCommand::Ci, PmCommand::Publish, PmCommand::List, PmCommand::Audit] {
        assert_eq!(pm_manager_policy(&command), ManagerPolicy::RequireProject);
    }
    assert_eq!(manager_policy(&PackageManagerCommand::Add), ManagerPolicy::CreateIfMissing);
}

#[test]
fn dispatch_routes_dlx_and_the_install_engine_first() {
    assert_eq!(dispatch_route(&PackageManagerCommand::Install, true), DispatchRoute::EngineInstall);
    assert_eq!(
        dispatch_route(&PackageManagerCommand::Install, false),
        DispatchRoute::Manager(ManagerPolicy::CreateIfMissing)
    );
    assert_eq!(dispatch_route(&PackageManagerCommand::Add, true), DispatchRoute::Manager(ManagerPolicy::CreateIfMissing));
    assert_eq!(dispatch_route(&PackageManagerCommand::Dlx, true), DispatchRoute::Dlx);
}

#[test]
fn dlx_falls_back_to_npx_outside_a_project() {
    assert_eq!(dlx_route(ManagerLookup::Found), DlxRoute::Manager);
    assert_eq!(dlx_route(ManagerLookup::PackageJsonNotFound), DlxRoute::NpxFallback);
    assert_eq!(dlx_route(ManagerLookup::Failed), DlxRoute::Fail);
}
