//! Data-only definitions of the built-in documentation providers:
//! VitePress 2, Vocs, Starlight, and Ox Content, with their Vite 8 floors.
//! Detection and resolution stay generic over these definitions.

use vstd::prelude::*;

use crate::cli::DocAction;

verus! {

/// How a provider executes its tool.
#[derive(Debug, Clone, Copy, PartialEq, Eq)]
pub enum ProviderTarget {
    PackageBin { package_name: &'static str, bin_name: &'static str },
    BuiltinVite,
}

/// The abstract value of a [`ProviderTarget`].
pub enum TargetView {
    PackageBin { package_name: Seq<char>, bin_name: Seq<char> },
    BuiltinVite,
}

impl View for ProviderTarget {
    type V = TargetView;

    open spec fn view(&self) -> TargetView {
        match self {
            ProviderTarget::PackageBin { package_name, bin_name } => TargetView::PackageBin {
                package_name: package_name@,
                bin_name: bin_name@,
            },
            ProviderTarget::BuiltinVite => TargetView::BuiltinVite,
        }
    }
}

/// The `kind` name of a target in reports.
pub open spec fn target_kind(target: TargetView) -> Seq<char> {
    match target {
        TargetView::PackageBin { .. } => "package-bin"@,
        TargetView::BuiltinVite => "builtin-vite"@,
    }
}

impl ProviderTarget {
    pub fn as_str(self) -> (r: &'static str)
        ensures
            r@ == target_kind(self@),
    {
        match self {
            ProviderTarget::PackageBin { .. } => "package-bin",
            ProviderTarget::BuiltinVite => "builtin-vite",
        }
    }
}

/// A file written by `vp doc init` only when missing.
#[derive(Debug)]
pub struct StarterFile {
    pub path: &'static str,
    pub content: &'static str,
}

impl View for StarterFile {
    type V = (Seq<char>, Seq<char>);

    open spec fn view(&self) -> (Seq<char>, Seq<char>) {
        (self.path@, self.content@)
    }
}

/// A provider-specific native-config validation that runs before
/// execution: a dependency marker cannot prove that an integration is
/// active.
#[derive(Debug)]
pub enum NativeConfigCheck {
    /// The effective root's Vite config file must mention this package.
    ViteConfigMentions(&'static str),
    /// One of these files must exist in the effective root.
    FileExists(Vec<&'static str>),
}

/// The abstract value of a [`NativeConfigCheck`].
pub enum NativeConfigView {
    ViteConfigMentions(Seq<char>),
    FileExists(Seq<Seq<char>>),
}

impl View for NativeConfigCheck {
    type V = NativeConfigView;

    open spec fn view(&self) -> NativeConfigView {
        match self {
            NativeConfigCheck::ViteConfigMentions(package) => NativeConfigView::ViteConfigMentions(
                package@,
            ),
            NativeConfigCheck::FileExists(names) => NativeConfigView::FileExists(
                names@.map_values(|name: &str| name@),
            ),
        }
    }
}

/// One-command setup support for `vp doc init`.
#[derive(Debug)]
pub struct ProviderInit {
    /// Dependency specs added through the project's package manager.
    pub dependencies: Vec<&'static str>,
    /// Files written only when missing, relative to the effective root.
    pub starter_files: Vec<StarterFile>,
    /// Shown next to the provider in the init select prompt.
    pub prompt_hint: &'static str,
}

/// The abstract value of a [`ProviderInit`].
pub struct InitView {
    pub dependencies: Seq<Seq<char>>,
    pub starter_files: Seq<(Seq<char>, Seq<char>)>,
    pub prompt_hint: Seq<char>,
}

impl View for ProviderInit {
    type V = InitView;

    open spec fn view(&self) -> InitView {
        InitView {
            dependencies: self.dependencies@.map_values(|d: &str| d@),
            starter_files: self.starter_files@.map_values(|f: StarterFile| f@),
            prompt_hint: self.prompt_hint@,
        }
    }
}

#[derive(Debug)]
pub struct ProviderDefinition {
    pub id: &'static str,
    /// Human name used in diagnostics.
    pub display_name: &'static str,
    /// Declared dependency that selects this provider.
    pub marker: &'static str,
    /// Extra hint rendered next to the marker in the no-provider error.
    pub marker_hint: Option<&'static str>,
    /// Supported npm semver range for the marker package; `None` means
    /// every published release satisfies it.
    pub version_range: Option<&'static str>,
    /// The known-incompatible boundary: a version below this floor fails
    /// hard, while a version above `version_range` only warns.
    pub version_floor: Option<&'static str>,
    /// Native-config validation before execution.
    pub native_config: Option<NativeConfigCheck>,
    /// The Vite range the tool's supported releases run on.
    pub vite_requirement: &'static str,
    /// The actions this provider supports.
    pub capabilities: Vec<DocAction>,
    pub target: ProviderTarget,
    /// One-command setup support for `vp doc init`.
    pub init: Option<ProviderInit>,
}

/// The abstract value of a [`ProviderDefinition`].
pub struct ProviderView {
    pub id: Seq<char>,
    pub display_name: Seq<char>,
    pub marker: Seq<char>,
    pub marker_hint: Option<Seq<char>>,
    pub version_range: Option<Seq<char>>,
    pub version_floor: Option<Seq<char>>,
    pub native_config: Option<NativeConfigView>,
    pub vite_requirement: Seq<char>,
    pub capabilities: Seq<DocAction>,
    pub target: TargetView,
    pub init: Option<InitView>,
}

pub open spec fn opt_str_view(o: Option<&'static str>) -> Option<Seq<char>> {
    match o {
        Some(s) => Some(s@),
        None => None,
    }
}

impl View for ProviderDefinition {
    type V = ProviderView;

    open spec fn view(&self) -> ProviderView {
        ProviderView {
            id: self.id@,
            display_name: self.display_name@,
            marker: self.marker@,
            marker_hint: opt_str_view(self.marker_hint),
            version_range: opt_str_view(self.version_range),
            version_floor: opt_str_view(self.version_floor),
            native_config: match self.native_config {
                Some(check) => Some(check@),
                None => None,
            },
            vite_requirement: self.vite_requirement@,
            capabilities: self.capabilities@,
            target: self.target@,
            init: match self.init {
                Some(init) => Some(init@),
                None => None,
            },
        }
    }
}

/// The package whose bin runs the tool: the bin package for a package-bin
/// target, the marker itself for the built-in Vite target.
pub open spec fn execution_package_of(p: ProviderView) -> Seq<char> {
    match p.target {
        TargetView::PackageBin { package_name, .. } => package_name,
        TargetView::BuiltinVite => p.marker,
    }
}

impl ProviderDefinition {
    /// The execution package to locate besides the marker: the bin package
    /// of a package-bin target when it is not the marker itself.
    pub fn separate_execution_package(&self) -> (r: Option<&'static str>)
        ensures
            match r {
                Some(package) => package@ == execution_package_of(self@) && package@ != self@.marker,
                None => execution_package_of(self@) == self@.marker,
            },
    {
        match self.target {
            ProviderTarget::PackageBin { package_name, .. } => {
                if crate::text::str_eq(package_name, self.marker) {
                    None
                } else {
                    Some(package_name)
                }
            },
            ProviderTarget::BuiltinVite => None,
        }
    }
}

pub const VITEPRESS_RANGE: &'static str = ">=2.0.0-alpha.18 <3.0.0";

pub const VITEPRESS_DEPENDENCY: &'static str = "vitepress@>=2.0.0-alpha.18 <3.0.0";

pub const VITEPRESS_INDEX: &'static str = "# Documentation\n\nThis site runs on [VitePress](https://vitepress.dev) through `vp doc`.\n\n## Commands\n\n- `vp doc` starts the dev server.\n- `vp doc build` builds the site for production.\n- `vp doc preview` serves the production build.\n\n## Next steps\n\n- Add pages as Markdown files next to this one; every `.md` file becomes a route.\n- Configure the site title, theme, and sidebar in `.vitepress/config.ts`; see the [VitePress guide](https://vitepress.dev/guide/what-is-vitepress).\n- Read how `vp doc` selects and runs the tool in the [Vite+ doc guide](https://viteplus.dev/guide/doc).\n";

pub const STARLIGHT_ASTRO_CONFIG: &'static str = "import { defineConfig } from 'astro/config';\nimport starlight from '@astrojs/starlight';\n\nexport default defineConfig({\n  integrations: [starlight({ title: 'Docs' })],\n});\n";

pub const STARLIGHT_CONTENT_CONFIG: &'static str = "import { defineCollection } from 'astro:content';\nimport { docsLoader } from '@astrojs/starlight/loaders';\nimport { docsSchema } from '@astrojs/starlight/schema';\n\nexport const collections = {\n  docs: defineCollection({ loader: docsLoader(), schema: docsSchema() }),\n};\n";

pub const STARLIGHT_INDEX: &'static str = "---\ntitle: Documentation\n---\n\nThis site runs on [Starlight](https://starlight.astro.build) through `vp doc`.\n\n## Commands\n\n- `vp doc` starts the dev server.\n- `vp doc build` builds the site for production.\n- `vp doc preview` serves the production build.\n\n## Next steps\n\n- Add pages as `.md` or `.mdx` files under `src/content/docs/`.\n- Configure the site title and sidebar in `astro.config.mjs`; see the [Starlight guide](https://starlight.astro.build/getting-started/).\n- Read how `vp doc` selects and runs the tool in the [Vite+ doc guide](https://viteplus.dev/guide/doc).\n";

pub const OX_CONTENT_VITE_CONFIG: &'static str = "import { oxContent } from '@ox-content/vite-plugin';\n\nexport default {\n  plugins: [oxContent({ srcDir: 'docs' })],\n};\n";

pub const OX_CONTENT_INDEX: &'static str = "# Documentation\n\nThis site runs on [Ox Content](https://github.com/ubugeeei-prod/ox-content) through `vp doc`.\n\n## Commands\n\n- `vp doc` starts the dev server.\n- `vp doc build` builds the site for production.\n- `vp doc preview` serves the production build.\n\n## Next steps\n\n- Add pages as Markdown files under `docs/`.\n- Configure the plugin (for example `srcDir`) in `vite.config.ts`; see the [Ox Content readme](https://github.com/ubugeeei-prod/ox-content).\n- Read how `vp doc` selects and runs the tool in the [Vite+ doc guide](https://viteplus.dev/guide/doc).\n";

pub const OX_CONTENT_HTML: &'static str = "<!doctype html>\n<html>\n  <head>\n    <meta charset=\"utf-8\" />\n    <title>Docs</title>\n  </head>\n  <body>\n    <div id=\"app\"></div>\n  </body>\n</html>\n";

pub open spec fn all_actions() -> Seq<DocAction> {
    seq![DocAction::Dev, DocAction::Build, DocAction::Preview]
}

/// VitePress: `2.0.0-alpha.18` is its first release on Vite 8.
pub open spec fn vitepress_view() -> ProviderView {
    ProviderView {
        id: "vitepress"@,
        display_name: "VitePress"@,
        marker: "vitepress"@,
        marker_hint: Some("major version 2"@),
        version_range: Some(VITEPRESS_RANGE@),
        version_floor: Some("2.0.0-alpha.18"@),
        native_config: None,
        vite_requirement: ">=8.0.0"@,
        capabilities: all_actions(),
        target: TargetView::PackageBin { package_name: "vitepress"@, bin_name: "vitepress"@ },
        init: Some(
            InitView {
                dependencies: seq![VITEPRESS_DEPENDENCY@],
                starter_files: seq![("index.md"@, VITEPRESS_INDEX@)],
                prompt_hint: "Vue"@,
            },
        ),
    }
}

/// Vocs: version 2 is the first line on Vite 8; no init support.
pub open spec fn vocs_view() -> ProviderView {
    ProviderView {
        id: "vocs"@,
        display_name: "Vocs"@,
        marker: "vocs"@,
        marker_hint: None,
        version_range: Some(">=2.0.0"@),
        version_floor: Some("2.0.0"@),
        native_config: None,
        vite_requirement: ">=8.0.0"@,
        capabilities: all_actions(),
        target: TargetView::PackageBin { package_name: "vocs"@, bin_name: "vocs"@ },
        init: None,
    }
}

/// Starlight: detected through `@astrojs/starlight`, executed through
/// `astro`; `0.41.0` is the first release on Astro 7 and Vite 8.
pub open spec fn starlight_view() -> ProviderView {
    ProviderView {
        id: "starlight"@,
        display_name: "Starlight"@,
        marker: "@astrojs/starlight"@,
        marker_hint: None,
        version_range: Some(">=0.41.0"@),
        version_floor: Some("0.41.0"@),
        native_config: Some(
            NativeConfigView::FileExists(
                seq![
                    "astro.config.mjs"@,
                    "astro.config.mts"@,
                    "astro.config.js"@,
                    "astro.config.ts"@,
                ],
            ),
        ),
        vite_requirement: ">=8.0.0"@,
        capabilities: all_actions(),
        target: TargetView::PackageBin { package_name: "astro"@, bin_name: "astro"@ },
        init: Some(
            InitView {
                dependencies: seq!["astro"@, "@astrojs/starlight"@],
                starter_files: seq![
                    ("astro.config.mjs"@, STARLIGHT_ASTRO_CONFIG@),
                    ("src/content.config.ts"@, STARLIGHT_CONTENT_CONFIG@),
                    ("src/content/docs/index.md"@, STARLIGHT_INDEX@),
                ],
                prompt_hint: "Astro"@,
            },
        ),
    }
}

/// Ox Content: a Vite plugin run through the built-in Vite target; every
/// published release targets Vite 8.
pub open spec fn ox_content_view() -> ProviderView {
    ProviderView {
        id: "ox-content"@,
        display_name: "Ox Content"@,
        marker: "@ox-content/vite-plugin"@,
        marker_hint: None,
        version_range: None,
        version_floor: None,
        native_config: Some(NativeConfigView::ViteConfigMentions("@ox-content/vite-plugin"@)),
        vite_requirement: ">=8.0.0"@,
        capabilities: all_actions(),
        target: TargetView::BuiltinVite,
        init: Some(
            InitView {
                dependencies: seq!["@ox-content/vite-plugin"@],
                starter_files: seq![
                    ("vite.config.ts"@, OX_CONTENT_VITE_CONFIG@),
                    ("docs/index.md"@, OX_CONTENT_INDEX@),
                    ("index.html"@, OX_CONTENT_HTML@),
                ],
                prompt_hint: "framework-agnostic"@,
            },
        ),
    }
}

/// The built-in providers, in detection and prompt order.
pub open spec fn builtin_providers() -> Seq<ProviderView> {
    seq![vitepress_view(), vocs_view(), starlight_view(), ox_content_view()]
}

/// The views of a sequence of definitions.
pub open spec fn provider_views(ps: Seq<ProviderDefinition>) -> Seq<ProviderView> {
    ps.map_values(|p: ProviderDefinition| p@)
}

/// The number of built-in providers.
pub const PROVIDER_COUNT: usize = 4;

/// The built-in provider at `index`.
pub fn builtin_provider(index: usize) -> (p: ProviderDefinition)
    requires
        index < PROVIDER_COUNT,
    ensures
        p@ == builtin_providers()[index as int],
{
    let p = if index == 0 {
        ProviderDefinition {
            id: "vitepress",
            display_name: "VitePress",
            marker: "vitepress",
            marker_hint: Some("major version 2"),
            version_range: Some(VITEPRESS_RANGE),
            version_floor: Some("2.0.0-alpha.18"),
            native_config: None,
            vite_requirement: ">=8.0.0",
            capabilities: vec![DocAction::Dev, DocAction::Build, DocAction::Preview],
            target: ProviderTarget::PackageBin { package_name: "vitepress", bin_name: "vitepress" },
            init: Some(
                ProviderInit {
                    dependencies: vec![VITEPRESS_DEPENDENCY],
                    starter_files: vec![StarterFile { path: "index.md", content: VITEPRESS_INDEX }],
                    prompt_hint: "Vue",
                },
            ),
        }
    } else if index == 1 {
        ProviderDefinition {
            id: "vocs",
            display_name: "Vocs",
            marker: "vocs",
            marker_hint: None,
            version_range: Some(">=2.0.0"),
            version_floor: Some("2.0.0"),
            native_config: None,
            vite_requirement: ">=8.0.0",
            capabilities: vec![DocAction::Dev, DocAction::Build, DocAction::Preview],
            target: ProviderTarget::PackageBin { package_name: "vocs", bin_name: "vocs" },
            init: None,
        }
    } else if index == 2 {
        ProviderDefinition {
            id: "starlight",
            display_name: "Starlight",
            marker: "@astrojs/starlight",
            marker_hint: None,
            version_range: Some(">=0.41.0"),
            version_floor: Some("0.41.0"),
            native_config: Some(
                NativeConfigCheck::FileExists(
                    vec!["astro.config.mjs", "astro.config.mts", "astro.config.js", "astro.config.ts"],
                ),
            ),
            vite_requirement: ">=8.0.0",
            capabilities: vec![DocAction::Dev, DocAction::Build, DocAction::Preview],
            target: ProviderTarget::PackageBin { package_name: "astro", bin_name: "astro" },
            init: Some(
                ProviderInit {
                    dependencies: vec!["astro", "@astrojs/starlight"],
                    starter_files: vec![
                        StarterFile { path: "astro.config.mjs", content: STARLIGHT_ASTRO_CONFIG },
                        StarterFile {
                            path: "src/content.config.ts",
                            content: STARLIGHT_CONTENT_CONFIG,
                        },
                        StarterFile { path: "src/content/docs/index.md", content: STARLIGHT_INDEX },
                    ],
                    prompt_hint: "Astro",
                },
            ),
        }
    } else {
        ProviderDefinition {
            id: "ox-content",
            display_name: "Ox Content",
            marker: "@ox-content/vite-plugin",
            marker_hint: None,
            version_range: None,
            version_floor: None,
            native_config: Some(NativeConfigCheck::ViteConfigMentions("@ox-content/vite-plugin")),
            vite_requirement: ">=8.0.0",
            capabilities: vec![DocAction::Dev, DocAction::Build, DocAction::Preview],
            target: ProviderTarget::BuiltinVite,
            init: Some(
                ProviderInit {
                    dependencies: vec!["@ox-content/vite-plugin"],
                    starter_files: vec![
                        StarterFile { path: "vite.config.ts", content: OX_CONTENT_VITE_CONFIG },
                        StarterFile { path: "docs/index.md", content: OX_CONTENT_INDEX },
                        StarterFile { path: "index.html", content: OX_CONTENT_HTML },
                    ],
                    prompt_hint: "framework-agnostic",
                },
            ),
        }
    };
    proof {
        assert(p@.capabilities =~= all_actions());
        assert(p@ == builtin_providers()[index as int]) by {
            match p.init {
                Some(init) => {
                    assert(init@.dependencies =~= builtin_providers()[index as int].init->0.dependencies);
                    assert(init@.starter_files =~= builtin_providers()[index as int].init->0.starter_files);
                },
                None => {},
            }
            match p.native_config {
                Some(NativeConfigCheck::FileExists(names)) => {
                    assert(names@.map_values(|name: &str| name@) =~= seq![
                        "astro.config.mjs"@,
                        "astro.config.mts"@,
                        "astro.config.js"@,
                        "astro.config.ts"@,
                    ]);
                },
                _ => {},
            }
        }
    }
    p
}

/// The built-in provider definitions, in detection order.
pub fn doc_providers() -> (ps: Vec<ProviderDefinition>)
    ensures
        provider_views(ps@) == builtin_providers(),
{
    let ps = vec![builtin_provider(0), builtin_provider(1), builtin_provider(2), builtin_provider(3)];
    proof {
        assert(provider_views(ps@) =~= builtin_providers());
    }
    ps
}

/// The built-in providers that support `vp doc init`, in prompt order.
pub open spec fn init_provider_views() -> Seq<ProviderView> {
    builtin_providers().filter(|p: ProviderView| p.init is Some)
}

/// Providers that declare init support, in prompt order (VitePress first).
pub fn init_providers() -> (ps: Vec<ProviderDefinition>)
    ensures
        provider_views(ps@) == init_provider_views(),
{
    let ps = vec![builtin_provider(0), builtin_provider(2), builtin_provider(3)];
    proof {
        reveal_with_fuel(Seq::filter, 5);
        assert(builtin_providers().filter(|p: ProviderView| p.init is Some) =~= seq![
            vitepress_view(),
            starlight_view(),
            ox_content_view(),
        ]);
        assert(provider_views(ps@) =~= init_provider_views());
    }
    ps
}

} // verus!
