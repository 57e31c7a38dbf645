use vp_doc_cli::json::{JsonValue, parse_json};
use vp_doc_cli::target::{
    AppFacts, ArgTarget, Classification, DefaultPackageOutcome, Elicitation, FieldValue, MemberFacts,
    RootFacts, SynthesizableSubcommand, WorkspaceShape, app_command_parts, classify, classify_args,
    default_package_directory, default_package_for_command, directory_positional, is_bare,
    member_looks_runnable, needs_elicitation, positional_note, resolve_default_package,
    root_looks_runnable,
};

fn to_args(args: &[&str]) -> Vec<String> {
    args.iter().map(|s| (*s).to_string()).collect()
}

#[test]
fn bare_means_no_positional_target_and_no_help() {
    assert!(is_bare("dev", &to_args(&[])));
    assert!(is_bare("dev", &to_args(&["--watch"])));
    assert!(is_bare("build", &to_args(&["-w", "--minify"])));
    assert!(!is_bare("dev", &to_args(&["apps/web"])));
    assert!(is_bare("dev", &to_args(&["--port", "3000"])));
    assert!(is_bare("dev", &to_args(&["--host", "0.0.0.0"])));
    assert!(is_bare("dev", &to_args(&["--open", "/foo"])));
    assert!(is_bare("build", &to_args(&["--mode", "production", "--minify"])));
    assert!(is_bare("build", &to_args(&["--port=3000"])));
    assert!(is_bare("pack", &to_args(&["--env-file", ".env"])));
    assert!(is_bare("pack", &to_args(&["--env.FOO=bar", "--minify"])));
    assert!(!is_bare("build", &to_args(&["--watch", "apps/web"])));
    assert!(!is_bare("pack", &to_args(&["--minify", "src/index.ts"])));
    assert!(!is_bare("pack", &to_args(&["--env.FOO", "bar", "src/cli.ts"])));
    assert!(is_bare("build", &to_args(&["--minify", "esbuild"])));
    assert!(!is_bare("pack", &to_args(&["-W"])));
    assert!(!is_bare("pack", &to_args(&["--workspace", "packages/a"])));
    assert!(!is_bare("pack", &to_args(&["-F", "ui"])));
    assert!(!is_bare("pack", &to_args(&["--filter=ui"])));
    assert!(!is_bare("pack", &to_args(&["--workspace=packages/a"])));
    assert!(!is_bare("pack", &to_args(&["--root", "packages/lib"])));
    assert!(!is_bare("pack", &to_args(&["--root=packages/lib"])));
    assert!(!is_bare("build", &to_args(&["-c", "apps/web/vite.config.ts"])));
    assert!(!is_bare("build", &to_args(&["--config", "apps/web/vite.config.ts"])));
    assert!(!is_bare("build", &to_args(&["--config=apps/web/vite.config.ts"])));
    assert!(!is_bare("preview", &to_args(&["-c", "x.ts"])));
    assert!(!is_bare("pack", &to_args(&["-c", "tsdown.config.ts"])));
    assert!(!is_bare("build", &to_args(&["--", "apps/web"])));
    assert!(!is_bare("pack", &to_args(&["--minify", "--", "src/index.ts"])));
    assert!(is_bare("build", &to_args(&["--"])));
    assert!(!is_bare("dev", &to_args(&["--help"])));
    assert!(!is_bare("dev", &to_args(&["-h"])));
    assert!(!is_bare("build", &to_args(&["--watch", "--version"])));
    assert!(!is_bare("build", &to_args(&["-v"])));
}

#[test]
fn classify_args_reports_the_positional_token() {
    let positional = |command: &str, args: &[&str]| match classify_args(command, &to_args(args)) {
        ArgTarget::Positional(token) => Some(token.to_string()),
        _ => None,
    };
    assert_eq!(positional("dev", &["apps/web"]), Some("apps/web".to_string()));
    assert_eq!(positional("build", &["--watch", "apps/web"]), Some("apps/web".to_string()));
    assert_eq!(positional("build", &["--", "apps/web"]), Some("apps/web".to_string()));
    assert_eq!(positional("dev", &["--port", "3000"]), None);
    assert!(matches!(classify_args("dev", &to_args(&["--help"])), ArgTarget::Explicit));
    assert!(matches!(classify_args("build", &to_args(&["-c", "x.ts"])), ArgTarget::Explicit));
}

#[test]
fn only_app_commands_elicit() {
    for (subcommand, expected) in [
        (SynthesizableSubcommand::Dev { args: vec![] }, Some("dev")),
        (SynthesizableSubcommand::Build { args: vec![] }, Some("build")),
        (SynthesizableSubcommand::Preview { args: vec![] }, Some("preview")),
        (SynthesizableSubcommand::Pack { args: vec![] }, Some("pack")),
        (SynthesizableSubcommand::Lint { args: vec![] }, None),
        (SynthesizableSubcommand::Test { args: vec![] }, None),
    ] {
        assert_eq!(app_command_parts(&subcommand).map(|(name, _)| name), expected);
    }
}

fn json(text: &str) -> FieldValue {
    FieldValue::Json(parse_json(text).unwrap())
}

#[test]
fn an_object_default_package_maps_commands_individually() {
    let value = || json(r#"{ "dev": "./apps/web", "pack": "./packages/ui" }"#);
    let Some(FieldValue::Json(JsonValue::String(dir))) = default_package_for_command("dev", value())
    else {
        panic!("expected the dev entry");
    };
    assert_eq!(dir, "./apps/web");
    assert!(default_package_for_command("build", value()).is_none());
    // Every other shape applies as declared.
    assert!(matches!(
        default_package_for_command("build", json(r#""./apps/web""#)),
        Some(FieldValue::Json(JsonValue::String(_)))
    ));
    assert!(matches!(default_package_for_command("dev", FieldValue::NonStatic), Some(FieldValue::NonStatic)));
}

#[test]
fn default_package_resolution_reports_every_failure() {
    let dir = json(r#""packages/docs""#);
    assert_eq!(default_package_directory(&dir), Some("packages/docs"));
    let DefaultPackageOutcome::Dir { dir: target, note } = resolve_default_package("doc", &dir, true, "")
    else {
        panic!("expected a redirect");
    };
    assert_eq!(target, "packages/docs");
    assert_eq!(note, "vp doc: using packages/docs (defaultPackage in vite.config.ts)");
    assert!(matches!(
        resolve_default_package("doc", &dir, false, ""),
        DefaultPackageOutcome::Fail(message) if message == "defaultPackage points to a missing directory: packages/docs"
    ));
    let number = json("42");
    assert_eq!(default_package_directory(&number), None);
    assert!(matches!(
        resolve_default_package("doc", &number, false, "42"),
        DefaultPackageOutcome::Fail(message) if message == "defaultPackage must be a string of a directory, got: 42"
    ));
    assert!(matches!(
        resolve_default_package("dev", &FieldValue::NonStatic, false, ""),
        DefaultPackageOutcome::Fail(message) if message.contains("must be a static string literal")
    ));
}

fn root(index_html: bool) -> RootFacts {
    RootFacts { index_html, src_index_ts: false, declares_pack: false, declares_build: false }
}

fn at_root(is_workspace: bool) -> Option<WorkspaceShape> {
    Some(WorkspaceShape { at_root: true, is_workspace })
}

#[test]
fn a_bare_command_at_a_workspace_root_elicits() {
    let dev = SynthesizableSubcommand::Dev { args: vec![] };
    let facts = AppFacts { workspace: at_root(true), default_package: None, root: root(false) };
    assert!(matches!(
        classify(&dev, facts),
        Classification::Elicit { command: "dev", elicitation: Elicitation::WorkspaceRoot }
    ));
    // A runnable root runs in place.
    let facts = AppFacts { workspace: at_root(true), default_package: None, root: root(true) };
    assert!(matches!(classify(&dev, facts), Classification::RunInPlace { found_root: true }));
    // A lone package is its own target.
    let facts = AppFacts { workspace: at_root(false), default_package: None, root: root(false) };
    assert!(matches!(classify(&dev, facts), Classification::RunInPlace { found_root: true }));
    // A positional target never elicits.
    let targeted = SynthesizableSubcommand::Dev { args: to_args(&["apps/web"]) };
    let facts = AppFacts { workspace: at_root(true), default_package: None, root: root(false) };
    assert!(matches!(classify(&targeted, facts), Classification::RunInPlace { found_root: false }));
}

#[test]
fn default_package_is_a_root_pointer() {
    let build = SynthesizableSubcommand::Build { args: vec![] };
    let facts = AppFacts {
        workspace: at_root(true),
        default_package: Some(json(r#""./apps/web""#)),
        root: root(true),
    };
    let classification = classify(&build, facts);
    assert!(classification.elicits());
    assert!(matches!(
        classification,
        Classification::Elicit { command: "build", elicitation: Elicitation::DefaultPackage(_) }
    ));
    // Below the root a member's own config never redirects.
    let facts = AppFacts {
        workspace: Some(WorkspaceShape { at_root: false, is_workspace: true }),
        default_package: Some(json(r#""./apps/web""#)),
        root: root(false),
    };
    assert!(matches!(classify(&build, facts), Classification::RunInPlace { found_root: true }));
    // Without workspace metadata, a standalone directory still redirects.
    let facts = AppFacts { workspace: None, default_package: Some(json(r#""./apps/web""#)), root: root(false) };
    assert!(matches!(classify(&build, facts), Classification::Elicit { .. }));
}

#[test]
fn the_runnable_heuristics_follow_the_command() {
    let declared_build = RootFacts { index_html: false, src_index_ts: false, declares_pack: false, declares_build: true };
    assert!(root_looks_runnable(&declared_build, "build"));
    assert!(!root_looks_runnable(&declared_build, "dev"));
    let entry = RootFacts { index_html: false, src_index_ts: true, declares_pack: false, declares_build: false };
    assert!(root_looks_runnable(&entry, "pack"));
    assert!(!root_looks_runnable(&entry, "preview"));
    let member = MemberFacts { src_index_ts: false, declares_pack: false, has_config_file: true, index_html: false };
    assert!(member_looks_runnable(&member, "dev"));
    assert!(!member_looks_runnable(&member, "pack"));
}

#[test]
fn doc_scripts_spawn_unless_an_action_runs_in_place() {
    let doc = |args: &[&str]| SynthesizableSubcommand::Doc { args: to_args(args) };
    assert!(needs_elicitation(&doc(&["build"]), true));
    assert!(needs_elicitation(&doc(&["init", "vitepress"]), false));
    assert!(needs_elicitation(&doc(&["info"]), false));
    // A leading option selects `dev`, so it synthesizes like an action.
    assert!(!needs_elicitation(&doc(&["--open"]), false));
    assert!(needs_elicitation(&doc(&["serve"]), false));
    assert!(!needs_elicitation(&doc(&["build"]), false));
    assert!(!needs_elicitation(&SynthesizableSubcommand::Dev { args: vec![] }, false));
}

#[test]
fn a_directory_positional_teaches_the_cwd_form() {
    let dev = SynthesizableSubcommand::Dev { args: to_args(&["--port", "3000", "apps/web"]) };
    assert_eq!(directory_positional(&dev), Some(("dev", "apps/web")));
    let pack = SynthesizableSubcommand::Pack { args: to_args(&["src/index.ts"]) };
    assert_eq!(directory_positional(&pack), None);
    assert_eq!(
        positional_note("dev", "apps/web"),
        "`vp dev apps/web` sets Vite's root without changing the working directory. To run as if started there, use `vp -C apps/web dev`."
    );
}
