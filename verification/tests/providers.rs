use vp_doc_cli::providers::{ProviderTarget, doc_providers, init_providers};

#[test]
fn the_builtin_providers_in_detection_order() {
    let ids: Vec<&str> = doc_providers().iter().map(|provider| provider.id).collect();
    assert_eq!(ids, ["vitepress", "vocs", "starlight", "ox-content"]);
    let markers: Vec<&str> = doc_providers().iter().map(|provider| provider.marker).collect();
    assert_eq!(markers, ["vitepress", "vocs", "@astrojs/starlight", "@ox-content/vite-plugin"]);
    assert_eq!(init_providers().len(), 3);
}

#[test]
fn only_starlight_runs_a_separate_execution_package() {
    let separate: Vec<Option<&str>> =
        doc_providers().iter().map(|provider| provider.separate_execution_package()).collect();
    assert_eq!(separate, [None, None, Some("astro"), None]);
}

#[test]
fn targets_name_their_kind() {
    assert_eq!(ProviderTarget::BuiltinVite.as_str(), "builtin-vite");
    assert_eq!(
        ProviderTarget::PackageBin { package_name: "astro", bin_name: "astro" }.as_str(),
        "package-bin"
    );
    let ox = &doc_providers()[3];
    assert_eq!(ox.target, ProviderTarget::BuiltinVite);
}
