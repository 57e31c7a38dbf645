use std::path::PathBuf;

use vp_doc_cli::elicit::{
    DocClassification, DocMember, DocRootFacts, PackageMember, announcement, classify_doc_members,
    classify_doc_root, doc_listing, doc_picker_prompt, package_listing, package_picker_prompt,
    package_rows, picker_label, single_runnable,
};
use vp_doc_cli::json::parse_json;
use vp_doc_cli::target::{FieldValue, MemberFacts, WorkspaceShape};

fn names(list: &[&str]) -> Vec<String> {
    list.iter().map(|d| (*d).to_string()).collect()
}

fn member(name: &str, path: &str, dev_dependencies: &[&str]) -> DocMember {
    DocMember {
        name: name.to_string(),
        path: path.to_string(),
        absolute: PathBuf::from("/repo").join(path),
        dependencies: Vec::new(),
        dev_dependencies: names(dev_dependencies),
    }
}

fn doc_workspace() -> Vec<DocMember> {
    vec![
        member("root", "", &[]),
        member("handbook", "packages/handbook", &["vitepress"]),
        member("app", "packages/app", &["react"]),
        member("docs", "packages/docs", &["@astrojs/starlight"]),
    ]
}

fn root_facts(at_root: bool, default_package: Option<FieldValue>, root_declares_marker: bool) -> DocRootFacts {
    DocRootFacts {
        workspace: Some(WorkspaceShape { at_root, is_workspace: true }),
        default_package,
        root_declares_marker,
    }
}

#[test]
fn doc_classification_elicits_marker_members_at_a_workspace_root() {
    assert!(classify_doc_root(root_facts(true, None, false)).is_none());
    let DocClassification::Elicit(rows) = classify_doc_members(doc_workspace()) else {
        panic!("expected candidates");
    };
    assert_eq!(rows.iter().map(|row| row.path.as_str()).collect::<Vec<_>>(), [
        "packages/docs",
        "packages/handbook"
    ]);
    assert_eq!(rows[0].providers, "starlight");
    assert_eq!(rows[1].providers, "vitepress");
    assert_eq!(rows[0].absolute, PathBuf::from("/repo/packages/docs"));

    // A member directory never elicits: detection stays local.
    assert!(matches!(classify_doc_root(root_facts(false, None, false)), Some(DocClassification::RunInPlace)));

    // A root that declares its own marker is its own documentation site.
    assert!(matches!(classify_doc_root(root_facts(true, None, true)), Some(DocClassification::RunInPlace)));
}

#[test]
fn a_member_with_several_markers_lists_them_all() {
    let DocClassification::Elicit(rows) =
        classify_doc_members(vec![member("site", "site", &["vocs", "vitepress"])])
    else {
        panic!("expected candidates");
    };
    assert_eq!(rows[0].providers, "vitepress, vocs");
    assert!(matches!(classify_doc_members(vec![member("app", "app", &[])]), DocClassification::RunInPlace));
}

#[test]
fn members_declare_markers_in_either_dependency_field() {
    let site = DocMember {
        name: "site".to_string(),
        path: "site".to_string(),
        absolute: PathBuf::from("/repo/site"),
        dependencies: names(&["vocs"]),
        dev_dependencies: names(&["@ox-content/vite-plugin"]),
    };
    let DocClassification::Elicit(rows) = classify_doc_members(vec![site]) else {
        panic!("expected candidates");
    };
    assert_eq!(rows[0].providers, "vocs, ox-content");
}

#[test]
fn doc_redirect_applies_the_object_entry_to_every_subcommand() {
    let value = FieldValue::Json(parse_json(r#"{ "doc": "packages/docs" }"#).unwrap());
    let Some(DocClassification::Redirect(FieldValue::Json(target))) =
        classify_doc_root(root_facts(true, Some(value), false))
    else {
        panic!("expected a redirect");
    };
    assert_eq!(target.as_str(), Some("packages/docs"));
}

#[test]
fn doc_redirect_ignores_the_string_form() {
    let value = FieldValue::Json(parse_json(r#""./apps/web""#).unwrap());
    assert!(classify_doc_root(root_facts(true, Some(value), false)).is_none());
    let value = FieldValue::Json(parse_json(r#"{ "dev": "apps/web" }"#).unwrap());
    assert!(classify_doc_root(root_facts(true, Some(value), false)).is_none());
}

#[test]
fn doc_redirect_reports_invalid_and_non_static_values() {
    let value = FieldValue::Json(parse_json("42").unwrap());
    assert!(matches!(
        classify_doc_root(root_facts(true, Some(value), false)),
        Some(DocClassification::Redirect(FieldValue::Json(_)))
    ));
    assert!(matches!(
        classify_doc_root(root_facts(true, Some(FieldValue::NonStatic), false)),
        Some(DocClassification::Redirect(FieldValue::NonStatic))
    ));
}

#[test]
fn the_doc_listing_aligns_ready_to_run_commands() {
    let DocClassification::Elicit(rows) = classify_doc_members(doc_workspace()) else {
        panic!("expected candidates");
    };
    let listing = doc_listing(&rows, "doc build");
    assert_eq!(listing.error, "several workspace packages declare a documentation provider");
    assert_eq!(listing.lines, [
        "",
        "  vp -C packages/docs doc build      (starlight)",
        "  vp -C packages/handbook doc build  (vitepress)",
    ]);
    let single = doc_listing(&vec![rows_first(&rows)], "doc");
    assert_eq!(single.lines, ["", "  vp -C packages/docs doc  (starlight)"]);
    assert_eq!(single.error, "a workspace package declares a documentation provider");
}

fn rows_first(rows: &[vp_doc_cli::elicit::DocCandidateRow]) -> vp_doc_cli::elicit::DocCandidateRow {
    vp_doc_cli::elicit::DocCandidateRow {
        name: rows[0].name.clone(),
        path: rows[0].path.clone(),
        absolute: rows[0].absolute.clone(),
        providers: rows[0].providers.clone(),
    }
}

fn package(name: &str, path: &str, runnable: bool) -> PackageMember {
    PackageMember {
        name: name.to_string(),
        path: path.to_string(),
        absolute: PathBuf::from("/repo").join(path),
        facts: MemberFacts { src_index_ts: false, declares_pack: false, has_config_file: runnable, index_html: false },
    }
}

#[test]
fn package_rows_put_runnable_packages_first() {
    let rows = package_rows(
        vec![
            package("root", "", true),
            package("ui", "packages/ui", false),
            package("web", "apps/web", true),
            package("admin", "apps/admin", false),
        ],
        "dev",
    );
    assert_eq!(rows.iter().map(|row| row.path.as_str()).collect::<Vec<_>>(), [
        "apps/web",
        "apps/admin",
        "packages/ui"
    ]);
    assert!(single_runnable(&rows));
    let listing = package_listing(&rows, "dev");
    assert_eq!(listing.error, "`vp dev` at the workspace root needs a target package.");
    assert_eq!(listing.lines, [
        "",
        "  Packages in this workspace:",
        "    web    apps/web",
        "    admin  apps/admin",
        "    ui     packages/ui",
        "",
        "  Pass a directory:  vp -C apps/web dev",
        "  Or run every package's dev script:  vp run -r dev",
    ]);
}

#[test]
fn two_runnable_packages_need_the_picker() {
    let rows = package_rows(vec![package("b", "b", true), package("a", "a", true)], "build");
    assert_eq!(rows[0].path, "a");
    assert!(!single_runnable(&rows));
}

#[test]
fn padding_counts_characters_up_to_the_widest_byte_length() {
    let rows = package_rows(vec![package("é", "x", false), package("ab", "y", false)], "dev");
    let listing = package_listing(&rows, "dev");
    // `é` is two bytes, so the column is two characters wide.
    assert_eq!(listing.lines[2], "    é   x");
    assert_eq!(listing.lines[3], "    ab  y");
}

#[test]
fn picker_texts() {
    assert_eq!(doc_picker_prompt(), "Select a documentation package (\u{2191}/\u{2193}, Enter to run, type to search):");
    assert_eq!(package_picker_prompt("dev"), "Select a package to dev (\u{2191}/\u{2193}, Enter to run, type to search):");
    assert_eq!(picker_label("docs", "packages/docs"), "docs packages/docs");
    let (selected, tip) = announcement("docs", "packages/docs", "doc");
    assert_eq!(selected, "Selected package: docs (packages/docs)");
    assert_eq!(tip, "Tip: run this directly with `vp -C packages/docs doc`");
}
