use vp_doc_cli::detect::parse_manifest;
use vp_doc_cli::init::{
    ConfigWritePlan, DocInitOutcome, ExistingConfig, config_write_plan, init_plan,
    select_init_provider,
};
use vp_doc_cli::json::JsonValue;
use vp_doc_cli::providers::{ProviderDefinition, doc_providers, init_providers};
use vp_doc_cli::Error;

fn provider(id: &str) -> ProviderDefinition {
    doc_providers().into_iter().find(|provider| provider.id == id).unwrap()
}

fn nearest_manifest(text: &str) -> Result<Option<JsonValue>, Error> {
    parse_manifest("package.json", text).map(Some)
}

const TWO_MARKERS: &str = r#"{ "devDependencies": { "vitepress": "^2.0.0-0", "vocs": "^2.0.0" } }"#;

fn existing(file: &str, contents: &str, has_doc_key: Option<bool>) -> Option<ExistingConfig> {
    Some(ExistingConfig { file: file.to_string(), contents: contents.to_string(), has_doc_key })
}

#[test]
fn init_requires_an_explicit_provider_id() {
    let Error::UserMessage(message) = select_init_provider(None).unwrap_err() else {
        panic!("expected a user message");
    };
    assert!(message.contains("requires a provider ID"), "{message}");
    assert!(message.contains("vp doc init <vitepress|starlight|ox-content>"), "{message}");
}

#[test]
fn init_rejects_an_unknown_provider() {
    let Error::UserMessage(message) = select_init_provider(Some("typedoc")).unwrap_err() else {
        panic!("expected a user message");
    };
    assert!(message.contains("unknown documentation provider `typedoc`"), "{message}");
}

#[test]
fn init_offers_only_init_capable_providers() {
    let ids: Vec<&str> = init_providers().iter().map(|provider| provider.id).collect();
    assert_eq!(ids, ["vitepress", "starlight", "ox-content"]);
    assert!(select_init_provider(Some("vocs")).is_err());
    assert_eq!(select_init_provider(Some("starlight")).unwrap().id, "starlight");
}

#[test]
fn scaffold_creates_missing_files_and_never_overwrites() {
    let starlight = provider("starlight");
    let init = starlight.init.as_ref().unwrap();
    let existing: Vec<bool> = init.starter_files.iter().map(|file| file.path == "astro.config.mjs").collect();
    let DocInitOutcome::Scaffolded { provider, files, dependencies } =
        init_plan(starlight, nearest_manifest("{}"), false, false, &existing).unwrap()
    else {
        panic!("expected a scaffold");
    };
    assert_eq!(provider.id, "starlight");
    assert_eq!(dependencies, &["astro", "@astrojs/starlight"]);
    let kept = files.iter().find(|file| file.path == "astro.config.mjs").unwrap();
    assert!(!kept.created);
    let page = files.iter().find(|file| file.path == "src/content/docs/index.md").unwrap();
    assert!(page.created);
}

#[test]
fn second_init_reports_the_existing_setup_only_when_runnable() {
    let text = r#"{ "devDependencies": { "vitepress": "^2.0.0-0" } }"#;
    let files = provider("vitepress").init.as_ref().unwrap().starter_files.len();
    // Declared but not installed: the residue of a failed install.
    let outcome = init_plan(provider("vitepress"), nearest_manifest(text), false, false, &vec![false; files]).unwrap();
    assert!(matches!(outcome, DocInitOutcome::Scaffolded { .. }));
    let outcome = init_plan(provider("vitepress"), nearest_manifest(text), true, false, &vec![false; files]).unwrap();
    assert!(matches!(
        outcome,
        DocInitOutcome::AlreadyConfigured { provider } if provider.id == "vitepress"
    ));
}

#[test]
fn config_write_is_not_needed_for_a_unique_marker() {
    let plan = config_write_plan(
        &provider("vitepress"),
        nearest_manifest(r#"{ "devDependencies": { "vitepress": "^2.0.0-0" } }"#),
        None,
    )
    .unwrap();
    assert!(matches!(plan, ConfigWritePlan::NotNeeded));
}

#[test]
fn config_write_creates_a_missing_config() {
    let plan = config_write_plan(&provider("vocs"), nearest_manifest(TWO_MARKERS), None).unwrap();
    let ConfigWritePlan::Create { contents } = plan else {
        panic!("expected a new config");
    };
    assert!(contents.contains("provider: 'vocs'"), "{contents}");
    assert_eq!(
        contents,
        "import { defineConfig } from 'vite-plus';\n\nexport default defineConfig({\n  doc: {\n    provider: 'vocs',\n  },\n});\n"
    );
}

#[test]
fn config_write_inserts_into_define_config() {
    let plan = config_write_plan(
        &provider("vocs"),
        nearest_manifest(TWO_MARKERS),
        existing(
            "vite.config.ts",
            "import { defineConfig } from 'vite-plus';\n\nexport default defineConfig({\n  run: {},\n});\n",
            Some(false),
        ),
    )
    .unwrap();
    let ConfigWritePlan::Update { file, contents } = plan else {
        panic!("expected an update");
    };
    assert_eq!(file, "vite.config.ts");
    assert!(
        contents.contains(
            "export default defineConfig({\n  doc: {\n    provider: 'vocs',\n  },\n  run: {},\n});"
        ),
        "{contents}"
    );
}

#[test]
fn config_write_targets_the_file_resolution_reads() {
    // The caller hands over the file resolution reads (vite.config.js
    // before vite.config.ts); the update names it.
    let plan = config_write_plan(
        &provider("vocs"),
        nearest_manifest(TWO_MARKERS),
        existing("vite.config.js", "export default {\n};\n", Some(false)),
    )
    .unwrap();
    let ConfigWritePlan::Update { file, contents } = plan else {
        panic!("expected an update");
    };
    assert_eq!(file, "vite.config.js");
    assert!(contents.contains("provider: 'vocs'"), "{contents}");
}

#[test]
fn config_write_ignores_a_doc_substring_outside_the_config_object() {
    let plan = config_write_plan(
        &provider("vocs"),
        nearest_manifest(TWO_MARKERS),
        existing(
            "vite.config.ts",
            "// doc: not a config key\nexport default {\n  run: { tasks: { doc: { command: 'x' } } },\n};\n",
            Some(false),
        ),
    )
    .unwrap();
    assert!(matches!(plan, ConfigWritePlan::Update { ref file, .. } if file == "vite.config.ts"));
}

#[test]
fn config_write_never_touches_an_existing_doc_block() {
    let original = "export default {\n  doc: {\n    provider: 'vitepress',\n  },\n};\n";
    let plan = config_write_plan(
        &provider("vocs"),
        nearest_manifest(TWO_MARKERS),
        existing("vite.config.ts", original, Some(true)),
    )
    .unwrap();
    assert!(matches!(plan, ConfigWritePlan::Manual { ref file } if file == "vite.config.ts"));
}

#[test]
fn config_write_falls_back_to_manual_for_an_unrecognized_shape() {
    let plan = config_write_plan(
        &provider("vocs"),
        nearest_manifest(TWO_MARKERS),
        existing("vite.config.mts", "export default makeConfig();\n", Some(false)),
    )
    .unwrap();
    assert!(matches!(plan, ConfigWritePlan::Manual { ref file } if file == "vite.config.mts"));
}

#[test]
fn an_unanalyzable_config_is_left_alone() {
    let plan = config_write_plan(
        &provider("vocs"),
        nearest_manifest(TWO_MARKERS),
        existing("vite.config.ts", "export default {\n};\n", None),
    )
    .unwrap();
    assert!(matches!(plan, ConfigWritePlan::Manual { .. }));
}
