use vp_doc_cli::framework::{
    Framework, contains_word, detect, frameworks, guarded_command, has_explicit_config, refusal,
    run_hint,
};
use vp_doc_cli::json::{JsonValue, parse_json};
use vp_doc_cli::target::SynthesizableSubcommand;

fn framework(name: &str) -> Framework {
    frameworks().into_iter().find(|framework| framework.name == name).expect("known framework")
}

fn scripts_manifest(text: &str) -> JsonValue {
    parse_json(text).unwrap()
}

fn plain(text: &str) -> String {
    text.replace("\x1b[94m", "").replace("\x1b[39m", "")
}

#[test]
fn detects_nuxt_before_astro_across_extensions() {
    let all = frameworks();
    let present = ["astro.config.mjs", "nuxt.config.mts"];
    let (found, config_file) =
        detect(&all, |name: &str| present.contains(&name)).expect("framework detected");
    assert_eq!(found.name, "Nuxt");
    assert_eq!(config_file, "nuxt.config.mts");
}

#[test]
fn ignores_directories_and_unrelated_files() {
    let all = frameworks();
    // `nuxt.config.ts` is a directory here: not a file.
    let files = ["vite.config.ts"];
    assert!(detect(&all, |name: &str| files.contains(&name)).is_none());
}

#[test]
fn ignores_config_names_astro_does_not_load() {
    let all = frameworks();
    let files = ["astro.config.cjs", "astro.config.cts"];
    assert!(detect(&all, |name: &str| files.contains(&name)).is_none());
}

#[test]
fn hint_prefers_the_script_with_the_command_name() {
    let hint = run_hint(&scripts_manifest(r#"{ "scripts": { "dev": "nuxt dev" } }"#), &framework("Nuxt"), "dev");
    assert!(hint.contains("vp run dev"), "hint was: {hint}");
    assert_eq!(plain(&hint), "did you mean `vp run dev`?");
}

#[test]
fn hint_finds_a_renamed_script_that_runs_the_framework_command() {
    let hint = run_hint(
        &scripts_manifest(
            r#"{ "scripts": { "devtools": "nuxt devtools enable", "start": "NODE_OPTIONS=--inspect nuxi dev --host" } }"#,
        ),
        &framework("Nuxt"),
        "dev",
    );
    assert!(hint.contains("vp run start"), "hint was: {hint}");
    assert!(hint.contains("nuxi dev"), "hint was: {hint}");
    assert_eq!(plain(&hint), "did you mean `vp run start`? The start script runs `nuxi dev`.");
}

#[test]
fn hint_falls_back_to_vp_exec_without_a_matching_script() {
    let hint = run_hint(&scripts_manifest("{}"), &framework("Nuxt"), "dev");
    assert!(hint.contains("vp exec nuxt dev"), "hint was: {hint}");

    let hint = run_hint(&scripts_manifest(r#"{ "scripts": { "lint": "oxlint ." } }"#), &framework("Astro"), "build");
    assert!(hint.contains("vp exec astro build"), "hint was: {hint}");
    assert_eq!(plain(&hint), "run the Astro CLI with `vp exec astro build`.");
}

#[test]
fn contains_word_needs_whitespace_boundaries() {
    assert!(contains_word("nuxt dev", "nuxt dev"));
    assert!(contains_word("NODE_OPTIONS=--inspect nuxt dev --host", "nuxt dev"));
    assert!(!contains_word("nuxt devtools enable", "nuxt dev"));
    assert!(!contains_word("pnpm-nuxt dev", "nuxt dev"));
}

#[test]
fn explicit_config_flags_skip_the_refusal() {
    let owned = |args: &[&str]| args.iter().map(|arg| (*arg).to_string()).collect::<Vec<_>>();
    assert!(has_explicit_config(&owned(&["--config", "vite.config.ts"])));
    assert!(has_explicit_config(&owned(&["--config=vite.config.ts"])));
    assert!(has_explicit_config(&owned(&["-c", "vite.config.ts"])));
    assert!(!has_explicit_config(&owned(&["--port", "5000"])));
    assert!(!has_explicit_config(&owned(&["-C", "apps/web"])));
}

#[test]
fn only_dev_and_build_without_a_config_are_guarded() {
    let owned = |args: &[&str]| args.iter().map(|arg| (*arg).to_string()).collect::<Vec<_>>();
    assert_eq!(guarded_command(&SynthesizableSubcommand::Dev { args: vec![] }), Some("dev"));
    assert_eq!(guarded_command(&SynthesizableSubcommand::Build { args: owned(&["--watch"]) }), Some("build"));
    assert_eq!(guarded_command(&SynthesizableSubcommand::Dev { args: owned(&["-c", "vite.config.ts"]) }), None);
    assert_eq!(guarded_command(&SynthesizableSubcommand::Preview { args: vec![] }), None);
}

#[test]
fn the_refusal_names_the_framework_and_its_config() {
    let nuxt = framework("Nuxt");
    let dev = refusal("dev", &nuxt, "nuxt.config.ts", Some(r#"{ "scripts": { "dev": "nuxt dev" } }"#));
    assert_eq!(
        plain(&dev.error),
        "this project uses Nuxt (nuxt.config.ts). `vp dev` runs the bundled Vite CLI, not the Nuxt CLI."
    );
    assert_eq!(plain(&dev.hint), "hint: did you mean `vp run dev`?");
    assert!(dev.error.contains("\x1b[94m`vp dev`\x1b[39m"));
    // An unreadable manifest falls back to the framework CLI.
    let build = refusal("build", &nuxt, "nuxt.config.ts", Some("{ not json"));
    assert_eq!(plain(&build.hint), "hint: run the Nuxt CLI with `vp exec nuxt build`.");
}
