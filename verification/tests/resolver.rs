use std::path::PathBuf;

use vp_doc_cli::cli::DocAction;
use vp_doc_cli::resolve::DocResolution;
use vp_doc_cli::resolver::{
    CacheInput, CachePolicy, EnvPlan, InputBase, ResolveStep, ToolConfig, ToolKind,
    check_cache_inputs, doc_plan, resolve_step, tool_plan,
};
use vp_doc_cli::target::SynthesizableSubcommand;

fn owned(args: &[&str]) -> Vec<String> {
    args.iter().map(|arg| (*arg).to_string()).collect()
}

fn package_bin(args: &[&str]) -> DocResolution {
    DocResolution::PackageBin {
        package_root: PathBuf::from("node_modules/vitepress"),
        bin_relative: "bin/vitepress.js".to_string(),
        args: owned(args),
    }
}

#[test]
fn doc_build_is_cached_and_the_servers_are_not() {
    let build = doc_plan(DocAction::Build, &package_bin(&["build"]), "node_modules/vitepress/bin/vitepress.js");
    assert!(matches!(build.cache, CachePolicy::Enabled { env: None, input: None }));
    assert_eq!(build.program, "node");
    assert!(build.args[0].ends_with("vitepress.js"), "{:?}", build.args);
    assert_eq!(build.args[1], "build");
    assert!(matches!(&build.env, EnvPlan::Entries(entries) if entries == &[("NODE_PACKAGE_MANAGER", "vite-plus")]));

    let dev = doc_plan(DocAction::Dev, &package_bin(&["dev"]), "bin.js");
    assert!(matches!(dev.cache, CachePolicy::Disabled));
    let preview = doc_plan(DocAction::Preview, &package_bin(&["preview"]), "bin.js");
    assert!(matches!(preview.cache, CachePolicy::Disabled));
}

#[test]
fn the_builtin_vite_target_runs_through_the_vite_entry() {
    let plan = doc_plan(
        DocAction::Dev,
        &DocResolution::BuiltinVite { args: owned(&["dev", "--open"]) },
        "vite.js",
    );
    assert_eq!(plan.args, ["vite.js", "dev", "--open"]);
    assert!(matches!(plan.env, EnvPlan::ToolEnvs { with_version: true }));
}

#[test]
fn the_first_step_names_the_tool() {
    let step = |sub: SynthesizableSubcommand| resolve_step(&sub);
    assert!(matches!(step(SynthesizableSubcommand::Lint { args: vec![] }), Ok(ResolveStep::Tool(ToolKind::Lint))));
    assert!(matches!(step(SynthesizableSubcommand::Preview { args: vec![] }), Ok(ResolveStep::Tool(ToolKind::Vite))));
    assert!(matches!(step(SynthesizableSubcommand::Pack { args: vec![] }), Ok(ResolveStep::Tool(ToolKind::Pack))));
    let Ok(ResolveStep::Doc(request)) = step(SynthesizableSubcommand::Doc { args: owned(&["build", "--x"]) })
    else {
        panic!("expected a doc step");
    };
    assert_eq!(request.action, DocAction::Build);
    assert_eq!(request.args, ["--x"]);
    assert_eq!(
        step(SynthesizableSubcommand::Doc { args: owned(&["init"]) }).unwrap_err(),
        "`vp doc init` runs directly, not inside `vp run`"
    );
    assert_eq!(
        step(SynthesizableSubcommand::Doc { args: owned(&["info", "--json"]) }).unwrap_err(),
        "`vp doc info` runs directly, not inside `vp run`"
    );
    assert!(step(SynthesizableSubcommand::Doc { args: owned(&["serve"]) })
        .unwrap_err()
        .contains("unrecognized doc command `serve`"));
    assert_eq!(
        step(SynthesizableSubcommand::Check { args: vec![] }).unwrap_err(),
        "Check is a composite command and cannot be resolved to a single subcommand"
    );
    assert_eq!(ToolKind::Vite.as_str(), "vite");
}

#[test]
fn lint_passes_the_config_file_when_its_block_is_declared() {
    let lint = SynthesizableSubcommand::Lint { args: owned(&["src"]) };
    let config = ToolConfig { lint: true, fmt: false, config_file: Some("vite.config.ts".to_string()) };
    let plan = tool_plan(&lint, "oxlint.js", Some(&config), false);
    assert_eq!(plan.args, [
        "--disable-warning=MODULE_TYPELESS_PACKAGE_JSON",
        "oxlint.js",
        "-c",
        "vite.config.ts",
        "src"
    ]);
    assert!(matches!(&plan.cache, CachePolicy::Enabled { env: Some(env), input: None } if env == &["OXLINT_TSGOLINT_PATH"]));

    let fmt = SynthesizableSubcommand::Fmt { args: owned(&["--check"]) };
    let plan = tool_plan(&fmt, "oxfmt.js", Some(&config), false);
    assert_eq!(plan.args, ["oxfmt.js", "--check"]);
}

#[test]
fn test_and_pack_track_their_inputs() {
    let test = SynthesizableSubcommand::Test { args: owned(&["src/a.test.ts"]) };
    let plan = tool_plan(&test, "vitest.js", None, true);
    assert_eq!(plan.args, ["vitest.js", "run", "src/a.test.ts"]);
    let CachePolicy::Enabled { input: Some(inputs), .. } = &plan.cache else {
        panic!("expected tracked inputs");
    };
    assert!(matches!(inputs[0], CacheInput::Auto));
    assert!(matches!(
        inputs[1],
        CacheInput::Exclude { pattern: "!node_modules/.vite/vitest/**/results.json", base: InputBase::Package }
    ));

    let pack = SynthesizableSubcommand::Pack { args: vec![] };
    let plan = tool_plan(&pack, "tsdown.js", None, false);
    assert!(matches!(plan.env, EnvPlan::ToolEnvs { with_version: false }));
    let CachePolicy::Enabled { input: Some(inputs), .. } = &plan.cache else {
        panic!("expected tracked inputs");
    };
    assert!(matches!(inputs[1], CacheInput::Exclude { pattern: "!dist/**", base: InputBase::Package }));

    let inputs = check_cache_inputs();
    assert_eq!(inputs.len(), 3);
    assert!(matches!(inputs[1], CacheInput::Exclude { base: InputBase::Workspace, .. }));
}

#[test]
fn the_servers_run_uncached() {
    let dev = tool_plan(&SynthesizableSubcommand::Dev { args: owned(&["--port", "3000"]) }, "vite.js", None, false);
    assert_eq!(dev.args, ["vite.js", "dev", "--port", "3000"]);
    assert!(matches!(dev.cache, CachePolicy::Disabled));
    let build = tool_plan(&SynthesizableSubcommand::Build { args: vec![] }, "vite.js", None, false);
    assert_eq!(build.args, ["vite.js", "build"]);
    assert!(matches!(build.cache, CachePolicy::Enabled { .. }));
}
