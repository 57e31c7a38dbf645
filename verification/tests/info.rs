use std::path::PathBuf;

use vp_doc_cli::detect::{InstalledPackage, parse_manifest};
use vp_doc_cli::info::{DocInfoReport, info_report};
use vp_doc_cli::json::{JsonValue, parse_json};
use vp_doc_cli::resolve::select_provider;
use vp_doc_cli::Error;

fn installed_package(root: &str, manifest: &str) -> InstalledPackage {
    InstalledPackage { root: PathBuf::from(root), package_json: parse_json(manifest).unwrap() }
}

fn report_for(
    text: &str,
    marker: Option<InstalledPackage>,
    execution: Option<InstalledPackage>,
) -> Result<DocInfoReport, Error> {
    let selection = select_provider(None, parse_manifest("package.json", text).map(Some));
    info_report(selection, &marker, &execution)
}

fn at<'a>(value: &'a JsonValue, path: &[&str]) -> &'a JsonValue {
    path.iter().fold(value, |current, key| current.get(key).unwrap_or_else(|| panic!("missing `{key}`")))
}

fn text<'a>(value: &'a JsonValue, path: &[&str]) -> &'a str {
    at(value, path).as_str().unwrap_or_else(|| panic!("`{path:?}` is not a string"))
}

#[test]
fn split_provider_reports_marker_and_execution_separately() {
    let report = report_for(
        r#"{ "devDependencies": { "@astrojs/starlight": "^0.41.0" } }"#,
        Some(installed_package(
            "node_modules/@astrojs/starlight",
            r#"{ "name": "@astrojs/starlight", "version": "0.41.7" }"#,
        )),
        Some(installed_package(
            "node_modules/astro",
            r#"{ "name": "astro", "version": "7.2.2", "bin": { "astro": "astro.js" } }"#,
        )),
    )
    .unwrap();
    let DocInfoReport::Resolved(info) = &report else {
        panic!("expected a resolved report");
    };
    assert_eq!(info.provider.id, "starlight");
    assert_eq!(info.marker_version.as_deref(), Some("0.41.7"));
    assert_eq!(info.execution_package(), "astro");
    assert_eq!(info.execution_version.as_deref(), Some("7.2.2"));
    assert!(info.supported);
    let json = report.to_json();
    assert!(matches!(at(&json, &["schemaVersion"]), JsonValue::Number(n) if n == "1"));
    assert_eq!(text(&json, &["status"]), "ready");
    assert_eq!(text(&json, &["source", "kind"]), "dependency-marker");
    assert_eq!(text(&json, &["marker", "package"]), "@astrojs/starlight");
    assert_eq!(text(&json, &["marker", "version"]), "0.41.7");
    assert_eq!(text(&json, &["execution", "kind"]), "package-bin");
    assert_eq!(text(&json, &["execution", "package"]), "astro");
    assert_eq!(text(&json, &["execution", "bin"]), "astro");
    assert_eq!(text(&json, &["compatibility", "subject"]), "@astrojs/starlight");
    assert!(matches!(at(&json, &["compatibility", "supported"]), JsonValue::Bool(true)));
    let JsonValue::Array(commands) = at(&json, &["commands"]) else {
        panic!("commands is an array");
    };
    assert_eq!(commands[0].as_str(), Some("dev"));
    assert!(report.resolved());
}

#[test]
fn multiple_markers_report_their_status_and_candidates() {
    let report =
        report_for(r#"{ "devDependencies": { "vitepress": "^2.0.0-0", "vocs": "^2.0.0" } }"#, None, None)
            .unwrap();
    let DocInfoReport::MultipleProviders { candidates } = &report else {
        panic!("expected the multiple-providers state");
    };
    assert_eq!(candidates, &["vitepress", "vocs"]);
    let json = report.to_json();
    assert_eq!(text(&json, &["status"]), "multiple-providers");
    let JsonValue::Array(listed) = at(&json, &["candidates"]) else {
        panic!("candidates is an array");
    };
    assert_eq!(listed[1].as_str(), Some("vocs"));
    assert!(!report.resolved());
}

#[test]
fn a_malformed_manifest_is_an_error_not_a_state() {
    let error = report_for("{ not json", None, None).unwrap_err();
    let Error::UserMessage(message) = error else {
        panic!("expected a user message");
    };
    assert!(message.contains("cannot parse"), "{message}");
    assert!(message.contains("package.json"), "{message}");
}

#[test]
fn no_provider_reports_an_empty_candidate_list() {
    let report = report_for("{}", None, None).unwrap();
    assert!(matches!(report, DocInfoReport::NoProvider));
    let json = report.to_json();
    assert_eq!(text(&json, &["status"]), "no-provider");
    assert!(matches!(at(&json, &["candidates"]), JsonValue::Array(items) if items.is_empty()));
}

#[test]
fn an_uninstalled_marker_reports_unsupported_without_versions() {
    let report = report_for(r#"{ "devDependencies": { "vitepress": "^2.0.0-0" } }"#, None, None).unwrap();
    let DocInfoReport::Resolved(info) = &report else {
        panic!("expected a resolved report");
    };
    assert_eq!(info.marker_version, None);
    assert_eq!(info.execution_version, None);
    assert!(!info.supported);
    let json = report.to_json();
    assert!(matches!(at(&json, &["marker", "version"]), JsonValue::Null));
    assert_eq!(text(&json, &["compatibility", "supportedRange"]), ">=2.0.0-alpha.18 <3.0.0");
}
