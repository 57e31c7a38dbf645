use std::path::PathBuf;

use vp_doc_cli::cli::{DocAction, DocRequest};
use vp_doc_cli::config::{DocConfig, DocConfigContext};
use vp_doc_cli::detect::{InstalledPackage, parse_manifest};
use vp_doc_cli::json::{JsonValue, parse_json};
use vp_doc_cli::providers::{ProviderDefinition, ProviderTarget, doc_providers};
use vp_doc_cli::resolve::{
    DocExecution, DocResolution, NativeConfigFacts, ProviderSelection, ResolveFacts,
    SelectionSource, ensure_capability, no_provider_message, resolve, select_provider,
};
use vp_doc_cli::resolver::selection_notice;
use vp_doc_cli::semver::version_satisfies;
use vp_doc_cli::Error;

fn context(provider: Option<&str>) -> DocConfigContext {
    DocConfigContext {
        config: DocConfig { provider: provider.map(str::to_string) },
        config_dir: PathBuf::from("."),
    }
}

fn manifest(text: &str) -> Result<Option<JsonValue>, Error> {
    parse_manifest("package.json", text).map(Some)
}

fn installed(root: &str, manifest: &str) -> InstalledPackage {
    InstalledPackage { root: PathBuf::from(root), package_json: parse_json(manifest).unwrap() }
}

fn vocs() -> InstalledPackage {
    installed("node_modules/vocs", r#"{ "name": "vocs", "version": "2.0.5", "bin": { "vocs": "bin.js" } }"#)
}

fn no_native() -> NativeConfigFacts {
    NativeConfigFacts { present_files: Vec::new(), vite_config: None }
}

fn build_request() -> DocRequest {
    DocRequest { action: DocAction::Build, args: Vec::new() }
}

/// Select and resolve as the caller does: `doc.provider` from `config`,
/// the nearest manifest `text`, and what is installed.
fn run(
    request: &DocRequest,
    config: Option<&str>,
    text: &str,
    marker: Option<InstalledPackage>,
    execution: Option<InstalledPackage>,
    native: NativeConfigFacts,
) -> Result<DocExecution, Error> {
    let context = config.map(|id| context(Some(id)));
    let selection = select_provider(context.as_ref(), manifest(text));
    resolve(
        request,
        selection,
        ResolveFacts { marker_package: marker, execution_package: execution, native_config: native },
    )
}

fn user_message(result: Result<DocExecution, Error>) -> String {
    match result {
        Err(Error::UserMessage(message)) => message,
        other => panic!("expected a user message, got {other:?}"),
    }
}

fn bin_path(execution: &DocExecution) -> PathBuf {
    match &execution.resolution {
        DocResolution::PackageBin { package_root, bin_relative, .. } => {
            package_root.join(bin_relative)
        }
        other => panic!("expected a package-bin execution, got {other:?}"),
    }
}

#[test]
fn config_provider_beats_markers() {
    let execution = run(
        &build_request(),
        Some("vocs"),
        r#"{ "devDependencies": { "vitepress": "^2.0.0", "vocs": "^2.0.0" } }"#,
        Some(vocs()),
        None,
        no_native(),
    )
    .unwrap();
    assert!(bin_path(&execution).ends_with("node_modules/vocs/bin.js"));
    let DocResolution::PackageBin { args, .. } = execution.resolution else {
        panic!("expected a package-bin execution");
    };
    assert_eq!(args, ["build"]);
    assert_eq!(execution.source, SelectionSource::Config);
}

#[test]
fn markers_are_detected_from_the_dependencies_field() {
    let request =
        DocRequest { action: DocAction::Preview, args: vec!["--port".into(), "4173".into()] };
    let execution =
        run(&request, None, r#"{ "dependencies": { "vocs": "^2.0.0" } }"#, Some(vocs()), None, no_native())
            .unwrap();
    let DocResolution::PackageBin { args, .. } = execution.resolution else {
        panic!("expected a package-bin execution");
    };
    assert_eq!(args, ["preview", "--port", "4173"]);
}

#[test]
fn a_malformed_nearest_manifest_is_an_error() {
    let selection = select_provider(None, manifest("{ not json"));
    let Err(Error::UserMessage(message)) = selection else {
        panic!("expected a user message");
    };
    assert!(message.contains("cannot parse"), "{message}");
    assert!(message.contains("package.json"), "{message}");
}

#[test]
fn peer_only_markers_are_not_detected() {
    let message = user_message(run(
        &build_request(),
        None,
        r#"{ "peerDependencies": { "vitepress": "^2.0.0-0" } }"#,
        None,
        None,
        no_native(),
    ));
    assert!(message.contains("no documentation provider is configured"), "{message}");
}

#[test]
fn multiple_markers_are_a_misconfiguration() {
    let message = user_message(run(
        &build_request(),
        None,
        r#"{ "devDependencies": { "vitepress": "^2.0.0", "vocs": "^2.0.0" } }"#,
        None,
        None,
        no_native(),
    ));
    assert!(message.contains("multiple documentation providers"), "{message}");
    assert!(message.contains("Remove the markers you do not use"), "{message}");
    assert_eq!(
        message,
        "multiple documentation providers are declared: vitepress, vocs\n\nRemove the markers you do not use, or set `doc.provider` in vite.config.ts\nduring a migration."
    );
}

#[test]
fn unknown_config_provider_is_a_user_error() {
    let message = user_message(run(&build_request(), Some("typedoc"), "{}", None, None, no_native()));
    assert!(message.contains("`doc.provider`"), "{message}");
    assert!(message.contains("typedoc"), "{message}");
    assert_eq!(
        message,
        "`doc.provider` selects unknown documentation provider `typedoc`\n\nSupported providers: vitepress, vocs, starlight, ox-content"
    );
}

#[test]
fn config_provider_requires_a_declaration() {
    let message = user_message(run(&build_request(), Some("vocs"), "{}", None, None, no_native()));
    assert_eq!(message, "`doc.provider` selects `vocs`, but `vocs` is not declared in package.json");
}

#[test]
fn config_provider_not_installed() {
    let message = user_message(run(
        &build_request(),
        Some("vocs"),
        r#"{ "devDependencies": { "vocs": "^2.0.0" } }"#,
        None,
        None,
        no_native(),
    ));
    assert_eq!(message, "`doc.provider` selects `vocs`, but package `vocs` is not installed");
}

#[test]
fn a_detected_marker_that_is_not_installed_names_vp_doc() {
    let message = user_message(run(
        &build_request(),
        None,
        r#"{ "devDependencies": { "vocs": "^2.0.0" } }"#,
        None,
        None,
        no_native(),
    ));
    assert_eq!(message, "`vp doc` selects `vocs`, but package `vocs` is not installed");
}

#[test]
fn config_provider_accepts_a_peer_declaration() {
    let execution = run(
        &build_request(),
        Some("vocs"),
        r#"{ "peerDependencies": { "vocs": "^2.0.0" } }"#,
        Some(vocs()),
        None,
        no_native(),
    )
    .unwrap();
    assert!(matches!(execution.resolution, DocResolution::PackageBin { .. }));
}

#[test]
fn unsupported_action_fails_before_process_creation() {
    let limited = ProviderDefinition {
        id: "limited",
        display_name: "Limited",
        marker: "limited",
        marker_hint: None,
        version_range: None,
        version_floor: None,
        native_config: None,
        vite_requirement: ">=8.0.0",
        capabilities: vec![DocAction::Dev, DocAction::Build],
        target: ProviderTarget::PackageBin { package_name: "limited", bin_name: "limited" },
        init: None,
    };
    assert!(ensure_capability(&limited, DocAction::Build).is_ok());
    let Error::UserMessage(message) =
        ensure_capability(&limited, DocAction::Preview).expect_err("preview is not a capability")
    else {
        panic!("expected a user message");
    };
    assert_eq!(
        message,
        "the `limited` provider does not support `vp doc preview`\n\nSupported commands: dev, build"
    );
}

#[test]
fn every_builtin_provider_declares_all_actions() {
    for provider in doc_providers() {
        for action in [DocAction::Dev, DocAction::Build, DocAction::Preview] {
            assert!(provider.capabilities.contains(&action), "{} lacks {action:?}", provider.id);
        }
    }
}

#[test]
fn vitepress_1_is_rejected_before_process_creation() {
    let message = user_message(run(
        &build_request(),
        None,
        r#"{ "devDependencies": { "vitepress": "^1.0.0" } }"#,
        Some(installed(
            "node_modules/vitepress",
            r#"{ "name": "vitepress", "version": "1.6.4", "bin": { "vitepress": "bin/vitepress.js" } }"#,
        )),
        None,
        no_native(),
    ));
    assert_eq!(
        message,
        "`vp doc` supports VitePress, but found vitepress@1.6.4\n\nInstall a VitePress release (`>=2.0.0-alpha.18 <3.0.0`)."
    );
}

#[test]
fn ox_content_resolves_the_builtin_vite_target() {
    let request = DocRequest { action: DocAction::Dev, args: vec!["--open".to_string()] };
    let execution = run(
        &request,
        None,
        r#"{ "devDependencies": { "@ox-content/vite-plugin": "^1.1.0" } }"#,
        Some(installed(
            "node_modules/@ox-content/vite-plugin",
            r#"{ "name": "@ox-content/vite-plugin", "version": "1.1.0" }"#,
        )),
        None,
        NativeConfigFacts {
            present_files: Vec::new(),
            vite_config: Some(
                "import { oxContent } from '@ox-content/vite-plugin';\nexport default { plugins: [oxContent()] };\n"
                    .to_string(),
            ),
        },
    )
    .unwrap();
    let DocResolution::BuiltinVite { args } = execution.resolution else {
        panic!("expected the built-in Vite target");
    };
    assert_eq!(args, ["dev", "--open"]);
}

#[test]
fn ox_content_requires_the_plugin_registered() {
    let message = user_message(run(
        &build_request(),
        None,
        r#"{ "devDependencies": { "@ox-content/vite-plugin": "^1.1.0" } }"#,
        Some(installed(
            "node_modules/@ox-content/vite-plugin",
            r#"{ "name": "@ox-content/vite-plugin", "version": "1.1.0" }"#,
        )),
        None,
        NativeConfigFacts { present_files: Vec::new(), vite_config: Some("export default {};\n".to_string()) },
    ));
    assert!(message.contains("requires `@ox-content/vite-plugin` registered"), "{message}");
}

fn starlight_marker() -> InstalledPackage {
    installed(
        "node_modules/@astrojs/starlight",
        r#"{ "name": "@astrojs/starlight", "version": "0.41.7" }"#,
    )
}

fn astro() -> InstalledPackage {
    installed("node_modules/astro", r#"{ "name": "astro", "version": "7.2.2", "bin": { "astro": "astro.js" } }"#)
}

const STARLIGHT_MANIFEST: &str = r#"{ "devDependencies": { "@astrojs/starlight": "^0.41.0" } }"#;

#[test]
fn starlight_without_an_astro_config_fails_validation() {
    let message = user_message(run(
        &build_request(),
        None,
        STARLIGHT_MANIFEST,
        Some(starlight_marker()),
        Some(astro()),
        NativeConfigFacts { present_files: vec![false, false, false, false], vite_config: None },
    ));
    assert!(message.contains("requires an Astro config file"), "{message}");
    assert_eq!(
        message,
        "provider `starlight` requires an Astro config file (astro.config.mjs) in the effective root\n\nRun `vp doc init starlight` to set one up."
    );
}

#[test]
fn a_version_above_the_range_warns_and_runs() {
    let execution = run(
        &build_request(),
        None,
        r#"{ "devDependencies": { "vitepress": "^3.0.0" } }"#,
        Some(installed(
            "node_modules/vitepress",
            r#"{ "name": "vitepress", "version": "3.0.0", "bin": { "vitepress": "bin/vitepress.js" } }"#,
        )),
        None,
        no_native(),
    )
    .unwrap();
    let warning = execution.warning.clone().expect("an above-range version warns");
    assert!(warning.contains("vitepress@3.0.0"), "{warning}");
    assert!(warning.contains("above the supported range"), "{warning}");
    assert!(matches!(execution.resolution, DocResolution::PackageBin { .. }));
}

#[test]
fn a_version_inside_the_range_runs_silently() {
    let execution = run(
        &build_request(),
        None,
        r#"{ "devDependencies": { "vitepress": "^2.0.0-0" } }"#,
        Some(installed(
            "node_modules/vitepress",
            r#"{ "name": "vitepress", "version": "2.0.0-alpha.19", "bin": { "vitepress": "bin/vitepress.js" } }"#,
        )),
        None,
        no_native(),
    )
    .unwrap();
    assert!(execution.warning.is_none());
    assert!(bin_path(&execution).ends_with("node_modules/vitepress/bin/vitepress.js"));
    assert_eq!(execution.source, SelectionSource::Marker);
}

#[test]
fn no_provider_message_renders_from_the_definitions() {
    let message = no_provider_message();
    assert!(message.contains("Run `vp doc init vitepress` to set up VitePress (recommended)"));
    assert!(message.contains("`vp doc init starlight`, `vp doc init ox-content`"));
    assert!(message.contains("  vitepress (major version 2)\n  vocs\n"));
    assert!(message.contains("  @astrojs/starlight"));
    assert!(message.contains("  @ox-content/vite-plugin"));
    assert!(message.contains("`defaultPackage.doc`"));
}

#[test]
fn vitepress_floor_excludes_pre_vite8_alphas() {
    let range = ">=2.0.0-alpha.18 <3.0.0";
    assert!(!version_satisfies("2.0.0-alpha.17", range));
    assert!(version_satisfies("2.0.0-alpha.18", range));
    assert!(version_satisfies("2.0.0-alpha.19", range));
    assert!(version_satisfies("2.0.0", range));
    assert!(!version_satisfies("1.6.4", range));
}

#[test]
fn every_provider_requirement_admits_the_bundled_vite_line() {
    for provider in doc_providers() {
        assert!(
            version_satisfies("8.2.1", provider.vite_requirement),
            "{} declares `{}`",
            provider.id,
            provider.vite_requirement
        );
    }
}

#[test]
fn starlight_resolves_the_astro_bin() {
    let execution = run(
        &build_request(),
        None,
        STARLIGHT_MANIFEST,
        Some(starlight_marker()),
        Some(astro()),
        NativeConfigFacts { present_files: vec![true, false, false, false], vite_config: None },
    )
    .unwrap();
    assert!(bin_path(&execution).ends_with("node_modules/astro/astro.js"));
}

#[test]
fn starlight_missing_executable_package() {
    let message = user_message(run(
        &build_request(),
        None,
        STARLIGHT_MANIFEST,
        Some(starlight_marker()),
        None,
        NativeConfigFacts { present_files: vec![true, false, false, false], vite_config: None },
    ));
    assert_eq!(message, "provider `starlight` executes `astro`, but that package is not installed");
}

#[test]
fn a_package_without_the_bin_is_reported() {
    let message = user_message(run(
        &build_request(),
        None,
        r#"{ "devDependencies": { "vocs": "^2.0.0" } }"#,
        Some(installed("node_modules/vocs", r#"{ "name": "vocs", "version": "2.0.5" }"#)),
        None,
        no_native(),
    ));
    assert_eq!(message, "package `vocs` does not declare a `vocs` bin");
}

#[test]
fn detection_stays_at_the_invocation_directory() {
    // The root manifest declares nothing: the member's marker is not seen.
    let message = user_message(run(&build_request(), None, "{}", None, None, no_native()));
    assert!(message.contains("no documentation provider is configured"), "{message}");
    assert!(message.contains("`defaultPackage.doc`"), "{message}");

    // From the member (an implicit `-C`), its own manifest selects.
    let execution = run(
        &build_request(),
        None,
        r#"{ "devDependencies": { "vocs": "^2.0.0" } }"#,
        Some(installed(
            "packages/docs/node_modules/vocs",
            r#"{ "name": "vocs", "version": "2.0.5", "bin": { "vocs": "bin.js" } }"#,
        )),
        None,
        no_native(),
    )
    .unwrap();
    assert!(bin_path(&execution).starts_with("packages/docs"));
}

#[test]
fn a_missing_manifest_selects_no_provider() {
    let selection = select_provider(None, Ok(None)).unwrap();
    assert!(matches!(selection, ProviderSelection::NoProvider));
}

#[test]
fn only_a_detected_marker_is_announced() {
    let marker = run(
        &build_request(),
        None,
        r#"{ "devDependencies": { "vocs": "^2.0.0" } }"#,
        Some(vocs()),
        None,
        no_native(),
    )
    .unwrap();
    assert_eq!(
        selection_notice(&marker).as_deref(),
        Some("Using provider `vocs` (dependency marker `vocs` in package.json)")
    );
    let configured = run(
        &build_request(),
        Some("vocs"),
        r#"{ "devDependencies": { "vocs": "^2.0.0" } }"#,
        Some(vocs()),
        None,
        no_native(),
    )
    .unwrap();
    assert_eq!(selection_notice(&configured), None);
}
