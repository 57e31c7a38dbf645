use std::path::PathBuf;

use vp_doc_cli::config::{DocConfig, DocConfigContext, DocContextStep, StaticDocConfig, doc_context_step};
use vp_doc_cli::elicit::{DocClassification, DocCandidateRow};
use vp_doc_cli::milestone::{milestone_name, milestone_title, title_sequence};

#[test]
fn milestones_name_the_picker_state() {
    assert_eq!(milestone_name("doc-package-select", "", 0), "doc-package-select::0");
    assert_eq!(milestone_name("package-select", "web", 12), "package-select:web:12");
    assert_eq!(milestone_name("p", "q", 1905), "p:q:1905");
}

#[test]
fn the_title_carries_a_fresh_id_and_the_encoded_name() {
    assert_eq!(title_sequence("abc", "ZG9j"), "\x1b]2;pty-terminal-test:abc:ZG9j\x1b\\");
    let title = milestone_title("doc-package-select::0");
    let body = title
        .strip_prefix("\x1b]2;pty-terminal-test:")
        .and_then(|rest| rest.strip_suffix("\x1b\\"))
        .expect("an OSC 2 title update");
    let (id, encoded) = body.split_once(':').expect("id and name");
    assert_eq!(id.len(), 32);
    assert!(id.chars().all(|c| c.is_ascii_digit() || ('a'..='f').contains(&c)));
    assert_eq!(encoded, "ZG9jLXBhY2thZ2Utc2VsZWN0Ojow");
    // Unpadded URL-safe alphabet over the UTF-8 bytes.
    assert!(milestone_title("a?é").ends_with(":YT_DqQ\x1b\\"));
    // Each emission gets its own id.
    assert_ne!(milestone_title("x"), milestone_title("x"));
}

#[test]
fn a_non_static_doc_field_needs_the_javascript_resolver() {
    let dir = PathBuf::from("/repo/docs");
    let step = doc_context_step(StaticDocConfig::NonStatic { config_dir: dir.clone() }, true);
    assert!(matches!(step, DocContextStep::ResolveWithJs(ref d) if d == &dir));
    let step = doc_context_step(StaticDocConfig::NonStatic { config_dir: dir.clone() }, false);
    assert!(matches!(step, DocContextStep::Ready(None)));
    assert!(matches!(doc_context_step(StaticDocConfig::Missing, true), DocContextStep::Ready(None)));
    let context = DocConfigContext { config: DocConfig { provider: Some("vocs".to_string()) }, config_dir: dir };
    let DocContextStep::Ready(Some(context)) = doc_context_step(StaticDocConfig::Resolved(context), true) else {
        panic!("expected the static context");
    };
    assert_eq!(context.config.provider.as_deref(), Some("vocs"));
    assert!(DocConfig::default().provider.is_none());
}

#[test]
fn init_and_info_never_elicit() {
    let row = || DocCandidateRow {
        name: "docs".to_string(),
        path: "packages/docs".to_string(),
        absolute: PathBuf::from("/repo/packages/docs"),
        providers: "vitepress".to_string(),
    };
    assert!(matches!(DocClassification::Elicit(vec![row()]).for_subcommand(false), DocClassification::RunInPlace));
    assert!(matches!(DocClassification::Elicit(vec![row()]).for_subcommand(true), DocClassification::Elicit(_)));
    assert!(DocClassification::Elicit(vec![row()]).elicits());
    assert!(!DocClassification::RunInPlace.elicits());
}
