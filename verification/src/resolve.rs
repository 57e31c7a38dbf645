//! Provider selection and the execution of an action by its tool.

use vstd::prelude::*;
use vstd::string::*;

use crate::cli::{DocAction, DocRequest, action_name};
use crate::config::{DocConfigContext, configured_provider};
use crate::detect::{
    InstalledPackage, declared_any_field, detect_providers, detected_providers,
    manifest_version, marker_declared_any_field,
};
use crate::error::{Error, user_err, user_message};
use crate::json::JsonValue;
use crate::providers::{
    NativeConfigCheck, NativeConfigView, PROVIDER_COUNT, ProviderDefinition, ProviderTarget,
    ProviderView, TargetView, builtin_provider, builtin_providers, init_provider_views,
    init_providers, provider_views,
};
use crate::semver::{semver_at_least, semver_satisfies, version_at_least, version_satisfies};
use crate::text::{contains_str, join_strings, seq_contains, seq_join, str_eq, strings_view};

verus! {

/// How the provider was selected.
#[derive(Debug, Clone, Copy, PartialEq, Eq, Structural)]
pub enum SelectionSource {
    /// `doc.provider` in the selected `vite.config.*`.
    Config,
    /// A unique dependency marker in the nearest package manifest.
    Marker,
}

/// The subject for the not-installed diagnostic.
pub open spec fn source_subject(source: SelectionSource) -> Seq<char> {
    match source {
        SelectionSource::Config => "`doc.provider`"@,
        SelectionSource::Marker => "`vp doc`"@,
    }
}

impl SelectionSource {
    fn subject(self) -> (r: &'static str)
        ensures
            r@ == source_subject(self),
    {
        match self {
            SelectionSource::Config => "`doc.provider`",
            SelectionSource::Marker => "`vp doc`",
        }
    }
}

/// The ids of a sequence of providers.
pub open spec fn ids_of(ps: Seq<ProviderView>) -> Seq<Seq<char>> {
    ps.map_values(|p: ProviderView| p.id)
}

/// One marker line of the no-provider diagnostic.
pub open spec fn marker_line(p: ProviderView) -> Seq<char> {
    match p.marker_hint {
        Some(hint) => "  "@ + p.marker + " ("@ + hint + ")"@,
        None => "  "@ + p.marker,
    }
}

/// The marker lines of every built-in provider.
pub open spec fn marker_list_text() -> Seq<char> {
    seq_join(builtin_providers().map_values(|p: ProviderView| marker_line(p)), "\n"@)
}

fn marker_list() -> (r: String)
    ensures
        r@ == marker_list_text(),
{
    let mut lines: Vec<String> = Vec::new();
    let mut i: usize = 0;
    while i < PROVIDER_COUNT
        invariant
            i <= PROVIDER_COUNT,
            strings_view(lines@) == builtin_providers().take(i as int).map_values(
                |p: ProviderView| marker_line(p),
            ),
        decreases PROVIDER_COUNT - i,
    {
        let provider = builtin_provider(i);
        let mut line = String::from_str("  ");
        line.append(provider.marker);
        match provider.marker_hint {
            Some(hint) => {
                line.append(" (");
                line.append(hint);
                line.append(")");
            },
            None => {},
        }
        let ghost prev = lines@;
        proof {
            assert(line@ == marker_line(builtin_providers()[i as int]));
        }
        lines.push(line);
        proof {
            assert(strings_view(lines@) =~= strings_view(prev).push(
                marker_line(builtin_providers()[i as int]),
            ));
            assert(builtin_providers().take(i + 1).map_values(|p: ProviderView| marker_line(p))
                =~= builtin_providers().take(i as int).map_values(
                |p: ProviderView| marker_line(p),
            ).push(marker_line(builtin_providers()[i as int])));
        }
        i += 1;
    }
    proof {
        assert(builtin_providers().take(PROVIDER_COUNT as int) =~= builtin_providers());
    }
    join_strings(&lines, "\n")
}

/// The first provider of `ps` with this id.
pub open spec fn find_by_id(ps: Seq<ProviderView>, id: Seq<char>) -> Option<ProviderView>
    decreases ps.len(),
{
    if ps.len() == 0 {
        None
    } else if ps[0].id == id {
        Some(ps[0])
    } else {
        find_by_id(ps.drop_first(), id)
    }
}

pub open spec fn supported_providers_text() -> Seq<char> {
    seq_join(ids_of(builtin_providers()), ", "@)
}

pub open spec fn unknown_provider_message(id: Seq<char>) -> Seq<char> {
    "`doc.provider` selects unknown documentation provider `"@ + id
        + "`\n\nSupported providers: "@ + supported_providers_text()
}

/// The ids of the built-in providers joined with `sep`.
pub(crate) fn provider_ids(ps: &Vec<ProviderDefinition>, sep: &str) -> (r: String)
    ensures
        r@ == seq_join(ids_of(provider_views(ps@)), sep@),
{
    let mut ids: Vec<String> = Vec::new();
    let mut i: usize = 0;
    while i < ps.len()
        invariant
            i <= ps@.len(),
            strings_view(ids@) == ids_of(provider_views(ps@.take(i as int))),
        decreases ps@.len() - i,
    {
        let ghost prev = ids@;
        ids.push(String::from_str(ps[i].id));
        proof {
            assert(strings_view(ids@) =~= strings_view(prev).push(ps@[i as int]@.id));
            assert(ids_of(provider_views(ps@.take(i + 1))) =~= ids_of(
                provider_views(ps@.take(i as int)),
            ).push(ps@[i as int]@.id));
        }
        i += 1;
    }
    proof {
        assert(ps@.take(ps@.len() as int) =~= ps@);
    }
    join_strings(&ids, sep)
}

/// Resolve a configured provider id to its definition.
fn lookup_provider(id: &str) -> (r: Result<ProviderDefinition, Error>)
    ensures
        match (r, find_by_id(builtin_providers(), id@)) {
            (Ok(p), Some(v)) => p@ == v,
            (Err(e), None) => e.user_text() == Some(unknown_provider_message(id@)),
            _ => false,
        },
{
    let mut i: usize = 0;
    proof {
        assert(builtin_providers().skip(0) =~= builtin_providers());
    }
    while i < PROVIDER_COUNT
        invariant
            i <= PROVIDER_COUNT,
            find_by_id(builtin_providers(), id@) == find_by_id(
                builtin_providers().skip(i as int),
                id@,
            ),
        decreases PROVIDER_COUNT - i,
    {
        let provider = builtin_provider(i);
        proof {
            assert(builtin_providers().skip(i as int)[0] == builtin_providers()[i as int]);
            assert(builtin_providers().skip(i as int).drop_first() =~= builtin_providers().skip(
                i + 1,
            ));
        }
        if str_eq(provider.id, id) {
            return Ok(provider);
        }
        i += 1;
    }
    let supported = provider_ids(&crate::providers::doc_providers(), ", ");
    let mut message = String::from_str("`doc.provider` selects unknown documentation provider `");
    message.append(id);
    message.append("`\n\nSupported providers: ");
    message.append(supported.as_str());
    Err(user_message(message))
}

/// The outcome of provider selection when no rule failed.
#[derive(Debug)]
pub enum ProviderSelection {
    Selected { provider: ProviderDefinition, source: SelectionSource },
    /// No `doc.provider` and no dependency marker.
    NoProvider,
    /// More than one marker in the nearest manifest.
    Multiple(Vec<ProviderDefinition>),
}

/// The abstract value of a [`ProviderSelection`].
pub enum SelectionView {
    Selected(ProviderView, SelectionSource),
    NoProvider,
    Multiple(Seq<ProviderView>),
}

impl View for ProviderSelection {
    type V = SelectionView;

    open spec fn view(&self) -> SelectionView {
        match self {
            ProviderSelection::Selected { provider, source } => SelectionView::Selected(
                provider@,
                *source,
            ),
            ProviderSelection::NoProvider => SelectionView::NoProvider,
            ProviderSelection::Multiple(ps) => SelectionView::Multiple(provider_views(ps@)),
        }
    }
}

pub open spec fn multiple_markers_text(detected: Seq<ProviderView>) -> Seq<char> {
    "multiple documentation providers are declared: "@ + seq_join(ids_of(detected), ", "@)
        + "\n\nRemove the markers you do not use, or set `doc.provider` in vite.config.ts\nduring a migration."@
}

/// The misconfiguration diagnostic for more than one declared marker.
pub fn multiple_markers_message(detected: &Vec<ProviderDefinition>) -> (r: String)
    ensures
        r@ == multiple_markers_text(provider_views(detected@)),
{
    let ids = provider_ids(detected, ", ");
    let mut message = String::from_str("multiple documentation providers are declared: ");
    message.append(ids.as_str());
    message.append(
        "\n\nRemove the markers you do not use, or set `doc.provider` in vite.config.ts\nduring a migration.",
    );
    message
}

/// The `vp doc init <id>` suggestions for the init-capable providers other
/// than VitePress.
pub open spec fn other_init_text() -> Seq<char> {
    seq_join(
        init_provider_views().filter(|p: ProviderView| p.id != "vitepress"@).map_values(
            |p: ProviderView| "`vp doc init "@ + p.id + "`"@,
        ),
        ", "@,
    )
}

pub open spec fn no_provider_text() -> Seq<char> {
    "no documentation provider is configured\n\nRun `vp doc init vitepress` to set up VitePress (recommended), or\n"@
        + other_init_text()
        + ".\n\nOr add one of these project dependencies yourself:\n"@ + marker_list_text()
        + "\n\nIn a workspace, set `defaultPackage.doc` or run `vp -C <dir> doc` from the\ndocumentation package."@
}

/// The non-interactive no-provider diagnostic, rendered from the
/// definitions.
pub fn no_provider_message() -> (r: String)
    ensures
        r@ == no_provider_text(),
{
    let inits = init_providers();
    let ghost views = provider_views(inits@);
    let mut suggestions: Vec<String> = Vec::new();
    let mut i: usize = 0;
    while i < inits.len()
        invariant
            i <= inits@.len(),
            views == provider_views(inits@),
            strings_view(suggestions@) == views.take(i as int).filter(
                |p: ProviderView| p.id != "vitepress"@,
            ).map_values(|p: ProviderView| "`vp doc init "@ + p.id + "`"@),
        decreases inits@.len() - i,
    {
        let ghost prev = suggestions@;
        proof {
            assert(views.take(i + 1).drop_last() =~= views.take(i as int));
            reveal_with_fuel(Seq::filter, 1);
        }
        if !str_eq(inits[i].id, "vitepress") {
            let mut line = String::from_str("`vp doc init ");
            line.append(inits[i].id);
            line.append("`");
            suggestions.push(line);
            proof {
                assert(views[i as int].id != "vitepress"@);
                assert(strings_view(suggestions@) =~= strings_view(prev).push(
                    "`vp doc init "@ + views[i as int].id + "`"@,
                ));
            }
        }
        i += 1;
    }
    proof {
        assert(views.take(inits@.len() as int) =~= views);
    }
    let other_init = join_strings(&suggestions, ", ");
    let markers = marker_list();
    let mut message = String::from_str(
        "no documentation provider is configured\n\nRun `vp doc init vitepress` to set up VitePress (recommended), or\n",
    );
    message.append(other_init.as_str());
    message.append(".\n\nOr add one of these project dependencies yourself:\n");
    message.append(markers.as_str());
    message.append(
        "\n\nIn a workspace, set `defaultPackage.doc` or run `vp -C <dir> doc` from the\ndocumentation package.",
    );
    message
}

/// A manifest lookup seen through its user message.
pub open spec fn manifest_input_view(manifest: Result<Option<JsonValue>, Error>) -> Result<
    Option<JsonValue>,
    Option<Seq<char>>,
> {
    match manifest {
        Ok(m) => Ok(m),
        Err(e) => Err(e.user_text()),
    }
}

pub open spec fn not_declared_text(p: ProviderView) -> Seq<char> {
    "`doc.provider` selects `"@ + p.id + "`, but `"@ + p.marker
        + "` is not declared in package.json"@
}

/// The selection order: `doc.provider`, then a unique dependency marker in
/// the nearest manifest. Explicit selection still requires a declaration in
/// any dependency field; detection reads only `dependencies` and
/// `devDependencies`.
pub open spec fn selection_outcome(
    config_provider: Option<Seq<char>>,
    manifest: Result<Option<JsonValue>, Option<Seq<char>>>,
) -> Result<SelectionView, Option<Seq<char>>> {
    match config_provider {
        Some(id) => match find_by_id(builtin_providers(), id) {
            None => user_err(unknown_provider_message(id)),
            Some(p) => match manifest {
                Err(e) => Err(e),
                Ok(m) => if m is Some && declared_any_field(m->0, p.marker) {
                    Ok(SelectionView::Selected(p, SelectionSource::Config))
                } else {
                    user_err(not_declared_text(p))
                },
            },
        },
        None => match manifest {
            Err(e) => Err(e),
            Ok(None) => Ok(SelectionView::NoProvider),
            Ok(Some(m)) => {
                let detected = detected_providers(m);
                if detected.len() == 0 {
                    Ok(SelectionView::NoProvider)
                } else if detected.len() == 1 {
                    Ok(SelectionView::Selected(detected[0], SelectionSource::Marker))
                } else {
                    Ok(SelectionView::Multiple(detected))
                }
            },
        },
    }
}

/// The selection of a view-level result.
pub open spec fn selection_result_view(r: Result<ProviderSelection, Error>) -> Result<
    SelectionView,
    Option<Seq<char>>,
> {
    match r {
        Ok(s) => Ok(s@),
        Err(e) => Err(e.user_text()),
    }
}

/// Apply the selection order: `doc.provider`, then a unique dependency
/// marker in the nearest manifest (`manifest` is the lookup of the nearest
/// `package.json` from the effective root). A package selects exactly one
/// provider.
pub fn select_provider(
    context: Option<&DocConfigContext>,
    manifest: Result<Option<JsonValue>, Error>,
) -> (r: Result<ProviderSelection, Error>)
    ensures
        selection_result_view(r) == selection_outcome(
            configured_provider(context),
            manifest_input_view(manifest),
        ),
{
    let configured: Option<&str> = match context {
        Some(c) => match &c.config.provider {
            Some(p) => Some(p.as_str()),
            None => None,
        },
        None => None,
    };
    if let Some(id) = configured {
        let provider = lookup_provider(id)?;
        let declared = match manifest {
            Err(e) => return Err(e),
            Ok(Some(m)) => marker_declared_any_field(&m, provider.marker),
            Ok(None) => false,
        };
        if !declared {
            let mut message = String::from_str("`doc.provider` selects `");
            message.append(provider.id);
            message.append("`, but `");
            message.append(provider.marker);
            message.append("` is not declared in package.json");
            return Err(user_message(message));
        }
        return Ok(ProviderSelection::Selected { provider, source: SelectionSource::Config });
    }
    let mut detected = match manifest {
        Err(e) => return Err(e),
        Ok(Some(m)) => detect_providers(&m),
        Ok(None) => return Ok(ProviderSelection::NoProvider),
    };
    if detected.len() == 0 {
        Ok(ProviderSelection::NoProvider)
    } else if detected.len() == 1 {
        let provider = detected.remove(0);
        Ok(ProviderSelection::Selected { provider, source: SelectionSource::Marker })
    } else {
        Ok(ProviderSelection::Multiple(detected))
    }
}

/// The action names of a capability list.
pub open spec fn action_names(actions: Seq<DocAction>) -> Seq<Seq<char>> {
    actions.map_values(|a: DocAction| action_name(a))
}

pub open spec fn unsupported_action_text(p: ProviderView, action: DocAction) -> Seq<char> {
    "the `"@ + p.id + "` provider does not support `vp doc "@ + action_name(action)
        + "`\n\nSupported commands: "@ + seq_join(action_names(p.capabilities), ", "@)
}

/// The capability gate: an unsupported action fails before any process
/// starts.
pub open spec fn capability_outcome(p: ProviderView, action: DocAction) -> Result<
    (),
    Option<Seq<char>>,
> {
    if p.capabilities.contains(action) {
        Ok(())
    } else {
        user_err(unsupported_action_text(p, action))
    }
}

/// A unit result seen through its user message.
pub open spec fn unit_result_view(r: Result<(), Error>) -> Result<(), Option<Seq<char>>> {
    match r {
        Ok(_) => Ok(()),
        Err(e) => Err(e.user_text()),
    }
}

/// The capability gate. Every built-in provider declares all three
/// actions; the field exists so a provider without a native `dev` or
/// `preview` can join without a contract change.
pub fn ensure_capability(provider: &ProviderDefinition, action: DocAction) -> (r: Result<
    (),
    Error,
>)
    ensures
        unit_result_view(r) == capability_outcome(provider@, action),
{
    let mut i: usize = 0;
    while i < provider.capabilities.len()
        invariant
            i <= provider.capabilities@.len(),
            forall|j: int| 0 <= j < i ==> provider.capabilities@[j] != action,
        decreases provider.capabilities@.len() - i,
    {
        if provider.capabilities[i] == action {
            proof {
                assert(provider@.capabilities[i as int] == action);
            }
            return Ok(());
        }
        i += 1;
    }
    let mut names: Vec<&str> = Vec::new();
    let mut k: usize = 0;
    while k < provider.capabilities.len()
        invariant
            k <= provider.capabilities@.len(),
            names@.map_values(|n: &str| n@) == action_names(
                provider.capabilities@.take(k as int),
            ),
        decreases provider.capabilities@.len() - k,
    {
        let ghost prev = names@;
        names.push(provider.capabilities[k].as_str());
        proof {
            assert(names@.map_values(|n: &str| n@) =~= prev.map_values(|n: &str| n@).push(
                action_name(provider.capabilities@[k as int]),
            ));
            assert(action_names(provider.capabilities@.take(k + 1)) =~= action_names(
                provider.capabilities@.take(k as int),
            ).push(action_name(provider.capabilities@[k as int])));
        }
        k += 1;
    }
    proof {
        assert(provider.capabilities@.take(provider.capabilities@.len() as int)
            =~= provider.capabilities@);
    }
    let supported = crate::text::join_strs(&names, ", ");
    let mut message = String::from_str("the `");
    message.append(provider.id);
    message.append("` provider does not support `vp doc ");
    message.append(action.as_str());
    message.append("`\n\nSupported commands: ");
    message.append(supported.as_str());
    Err(user_message(message))
}

/// What the caller observed for a provider's native-config check in the
/// effective root: for a file check, whether each listed file exists, in
/// list order; for a Vite-config check, the contents of the Vite config
/// file that resolution reads (`None` when there is none or it cannot be
/// read).
#[derive(Debug)]
pub struct NativeConfigFacts {
    pub present_files: Vec<bool>,
    pub vite_config: Option<String>,
}

pub open spec fn astro_config_missing_text(p: ProviderView, first: Seq<char>) -> Seq<char> {
    "provider `"@ + p.id + "` requires an Astro config file ("@ + first
        + ") in the effective root\n\nRun `vp doc init "@ + p.id + "` to set one up."@
}

pub open spec fn plugin_missing_text(p: ProviderView, package: Seq<char>) -> Seq<char> {
    "provider `"@ + p.id + "` requires `"@ + package
        + "` registered in vite.config.ts\n\nAdd the plugin to `plugins`, or run `vp doc init "@
        + p.id + "`."@
}

/// A provider's native config has every listed file name available for
/// the diagnostic.
pub open spec fn native_config_well_formed(p: ProviderView) -> bool {
    match p.native_config {
        Some(NativeConfigView::FileExists(names)) => names.len() > 0,
        _ => true,
    }
}

/// Native-config validation: a marker cannot prove that an integration is
/// active, and without it the built-in target would build the application
/// instead of the documentation.
pub open spec fn native_outcome(p: ProviderView, present: Seq<bool>, vite_config: Option<
    Seq<char>,
>) -> Result<(), Option<Seq<char>>> {
    match p.native_config {
        None => Ok(()),
        Some(NativeConfigView::FileExists(names)) => {
            if exists|i: int| 0 <= i < names.len() && i < present.len() && present[i] {
                Ok(())
            } else {
                user_err(astro_config_missing_text(p, names[0]))
            }
        },
        Some(NativeConfigView::ViteConfigMentions(package)) => {
            if vite_config is Some && seq_contains(vite_config->0, package) {
                Ok(())
            } else {
                user_err(plugin_missing_text(p, package))
            }
        },
    }
}

pub open spec fn opt_string_view(o: Option<String>) -> Option<Seq<char>> {
    match o {
        Some(s) => Some(s@),
        None => None,
    }
}

/// Validate a provider's native config against what the caller observed.
pub fn validate_native_config(provider: &ProviderDefinition, facts: &NativeConfigFacts) -> (r:
    Result<(), Error>)
    requires
        native_config_well_formed(provider@),
    ensures
        unit_result_view(r) == native_outcome(
            provider@,
            facts.present_files@,
            opt_string_view(facts.vite_config),
        ),
{
    match &provider.native_config {
        None => Ok(()),
        Some(NativeConfigCheck::FileExists(names)) => {
            let mut i: usize = 0;
            while i < names.len() && i < facts.present_files.len()
                invariant
                    i <= names@.len(),
                    provider@.native_config == Some(
                        NativeConfigView::FileExists(names@.map_values(|name: &str| name@)),
                    ),
                    forall|j: int|
                        0 <= j < i ==> j < facts.present_files@.len() && !facts.present_files@[j],
                decreases names@.len() - i,
            {
                if facts.present_files[i] {
                    proof {
                        assert(facts.present_files@[i as int]);
                        assert(i < names@.map_values(|name: &str| name@).len());
                    }
                    return Ok(());
                }
                i += 1;
            }
            proof {
                assert(!exists|j: int|
                    0 <= j < names@.len() && j < facts.present_files@.len()
                        && facts.present_files@[j]);
            }
            let mut message = String::from_str("provider `");
            message.append(provider.id);
            message.append("` requires an Astro config file (");
            message.append(names[0]);
            message.append(") in the effective root\n\nRun `vp doc init ");
            message.append(provider.id);
            message.append("` to set one up.");
            Err(user_message(message))
        },
        Some(NativeConfigCheck::ViteConfigMentions(package)) => {
            let registered = match &facts.vite_config {
                Some(contents) => contains_str(contents.as_str(), package),
                None => false,
            };
            if registered {
                return Ok(());
            }
            let mut message = String::from_str("provider `");
            message.append(provider.id);
            message.append("` requires `");
            message.append(package);
            message.append("` registered in vite.config.ts\n\nAdd the plugin to `plugins`, or run `vp doc init ");
            message.append(provider.id);
            message.append("`.");
            Err(user_message(message))
        },
    }
}

pub open spec fn shown_version(version: Option<Seq<char>>) -> Seq<char> {
    match version {
        Some(v) => v,
        None => "unknown"@,
    }
}

pub open spec fn unsupported_version_text(p: ProviderView, version: Option<Seq<char>>, range: Seq<
    char,
>) -> Seq<char> {
    "`vp doc` supports "@ + p.display_name + ", but found "@ + p.marker + "@"@ + shown_version(
        version,
    ) + "\n\nInstall a "@ + p.display_name + " release (`"@ + range + "`)."@
}

pub open spec fn above_range_text(p: ProviderView, version: Option<Seq<char>>, range: Seq<char>) -> Seq<
    char,
> {
    p.marker + "@"@ + shown_version(version) + " is above the supported range (`"@ + range
        + "`); running it anyway"@
}

/// The installed marker version is at or above the provider's floor.
pub open spec fn at_or_above_floor(p: ProviderView, version: Option<Seq<char>>) -> bool {
    version is Some && p.version_floor is Some && semver_at_least(version->0, p.version_floor->0)
}

/// The version gate: below the floor is known incompatible and fails;
/// above the range is unknown rather than known-broken, so it warns and
/// runs; a version inside the range runs silently.
pub open spec fn version_gate(p: ProviderView, version: Option<Seq<char>>) -> Result<
    Option<Seq<char>>,
    Option<Seq<char>>,
> {
    match p.version_range {
        None => Ok(None),
        Some(range) => {
            if version is Some && semver_satisfies(version->0, range) {
                Ok(None)
            } else if !at_or_above_floor(p, version) {
                user_err(unsupported_version_text(p, version, range))
            } else {
                Ok(Some(above_range_text(p, version, range)))
            }
        },
    }
}

pub open spec fn opt_str_view(o: Option<&str>) -> Option<Seq<char>> {
    match o {
        Some(s) => Some(s@),
        None => None,
    }
}

/// Apply the version gate to the installed marker version.
fn check_version(provider: &ProviderDefinition, version: Option<&str>) -> (r: Result<
    Option<String>,
    Error,
>)
    ensures
        match (r, version_gate(provider@, opt_str_view(version))) {
            (Ok(w), Ok(v)) => opt_string_view(w) == v,
            (Err(e), Err(m)) => e.user_text() == m,
            _ => false,
        },
{
    let range = match provider.version_range {
        None => return Ok(None),
        Some(range) => range,
    };
    let satisfied = match version {
        Some(v) => version_satisfies(v, range),
        None => false,
    };
    if satisfied {
        return Ok(None);
    }
    let above_range = match (version, provider.version_floor) {
        (Some(v), Some(floor)) => version_at_least(v, floor),
        _ => false,
    };
    let shown = match version {
        Some(v) => v,
        None => "unknown",
    };
    if !above_range {
        let mut message = String::from_str("`vp doc` supports ");
        message.append(provider.display_name);
        message.append(", but found ");
        message.append(provider.marker);
        message.append("@");
        message.append(shown);
        message.append("\n\nInstall a ");
        message.append(provider.display_name);
        message.append(" release (`");
        message.append(range);
        message.append("`).");
        return Err(user_message(message));
    }
    let mut warning = String::from_str(provider.marker);
    warning.append("@");
    warning.append(shown);
    warning.append(" is above the supported range (`");
    warning.append(range);
    warning.append("`); running it anyway");
    Ok(Some(warning))
}

/// The tool execution of an action request.
#[derive(Debug)]
pub enum DocResolution {
    /// Run the bin file `bin_relative` of the package installed at
    /// `package_root` with the managed Node.js runtime.
    PackageBin { package_root: std::path::PathBuf, bin_relative: String, args: Vec<String> },
    /// Run Vite+'s built-in Vite command with these arguments.
    BuiltinVite { args: Vec<String> },
}

/// The abstract value of a [`DocResolution`].
pub enum ResolutionView {
    PackageBin { package_root: std::path::PathBuf, bin_relative: Seq<char>, args: Seq<Seq<char>> },
    BuiltinVite { args: Seq<Seq<char>> },
}

impl View for DocResolution {
    type V = ResolutionView;

    open spec fn view(&self) -> ResolutionView {
        match self {
            DocResolution::PackageBin { package_root, bin_relative, args } =>
                ResolutionView::PackageBin {
                package_root: *package_root,
                bin_relative: bin_relative@,
                args: strings_view(args@),
            },
            DocResolution::BuiltinVite { args } => ResolutionView::BuiltinVite {
                args: strings_view(args@),
            },
        }
    }
}

/// A resolved action: the selection that produced it and the tool
/// execution. The caller renders the selection from the same result that
/// executes, so the two cannot diverge.
#[derive(Debug)]
pub struct DocExecution {
    pub provider: ProviderDefinition,
    pub source: SelectionSource,
    pub resolution: DocResolution,
    /// A version above the supported range warns and runs; the caller
    /// prints this to stderr.
    pub warning: Option<String>,
}

/// The abstract value of a [`DocExecution`].
pub struct ExecutionView {
    pub provider: ProviderView,
    pub source: SelectionSource,
    pub resolution: ResolutionView,
    pub warning: Option<Seq<char>>,
}

impl View for DocExecution {
    type V = ExecutionView;

    open spec fn view(&self) -> ExecutionView {
        ExecutionView {
            provider: self.provider@,
            source: self.source,
            resolution: self.resolution@,
            warning: opt_string_view(self.warning),
        }
    }
}

/// What the caller observed in the effective root for the selected
/// provider: its marker package and its execution package as located
/// through the `node_modules` layout, and its native config.
#[derive(Debug)]
pub struct ResolveFacts {
    pub marker_package: Option<InstalledPackage>,
    pub execution_package: Option<InstalledPackage>,
    pub native_config: NativeConfigFacts,
}

/// The bin file a package declares under `bin_name`: the whole `bin` when
/// it is a string, the named entry when it is an object.
pub open spec fn bin_entry(package_json: JsonValue, bin_name: Seq<char>) -> Option<Seq<char>> {
    match package_json.spec_get("bin"@) {
        Some(JsonValue::String(path)) => Some(path@),
        Some(bins) => match bins {
            JsonValue::Object(_) => match bins.spec_get(bin_name) {
                Some(path) => path.spec_as_str(),
                None => None,
            },
            _ => None,
        },
        None => None,
    }
}

fn find_bin<'a>(package_json: &'a JsonValue, bin_name: &str) -> (r: Option<&'a str>)
    ensures
        opt_str_view(r) == bin_entry(*package_json, bin_name@),
{
    match package_json.get("bin") {
        Some(JsonValue::String(path)) => Some(path.as_str()),
        Some(bins) => match bins {
            JsonValue::Object(_) => match bins.get(bin_name) {
                Some(path) => path.as_str(),
                None => None,
            },
            _ => None,
        },
        None => None,
    }
}

pub open spec fn not_installed_text(source: SelectionSource, p: ProviderView) -> Seq<char> {
    source_subject(source) + " selects `"@ + p.id + "`, but package `"@ + p.marker
        + "` is not installed"@
}

pub open spec fn executable_missing_text(p: ProviderView, package: Seq<char>) -> Seq<char> {
    "provider `"@ + p.id + "` executes `"@ + package + "`, but that package is not installed"@
}

pub open spec fn missing_bin_text(package: Seq<char>, bin: Seq<char>) -> Seq<char> {
    "package `"@ + package + "` does not declare a `"@ + bin + "` bin"@
}

/// The arguments handed to the tool: the action name, then the forwarded
/// arguments verbatim.
pub open spec fn tool_args(action: DocAction, args: Seq<Seq<char>>) -> Seq<Seq<char>> {
    seq![action_name(action)] + args
}

/// The tool execution of a selected provider once its gates have passed.
pub open spec fn target_outcome(
    p: ProviderView,
    source: SelectionSource,
    args: Seq<Seq<char>>,
    warning: Option<Seq<char>>,
    marker: InstalledPackage,
    execution: Option<InstalledPackage>,
) -> Result<ExecutionView, Option<Seq<char>>> {
    match p.target {
        TargetView::BuiltinVite => Ok(
            ExecutionView {
                provider: p,
                source,
                resolution: ResolutionView::BuiltinVite { args },
                warning,
            },
        ),
        TargetView::PackageBin { package_name, bin_name } => {
            let executable = if package_name == p.marker {
                Some(marker)
            } else {
                execution
            };
            match executable {
                None => user_err(executable_missing_text(p, package_name)),
                Some(package) => match bin_entry(package.package_json, bin_name) {
                    None => user_err(missing_bin_text(package_name, bin_name)),
                    Some(bin) => Ok(
                        ExecutionView {
                            provider: p,
                            source,
                            resolution: ResolutionView::PackageBin {
                                package_root: package.root,
                                bin_relative: bin,
                                args,
                            },
                            warning,
                        },
                    ),
                },
            }
        },
    }
}

/// The resolution of an action request: selection failures first, then
/// the capability gate, the marker installation, the version gate, the
/// native-config check, and the tool execution.
pub open spec fn resolve_outcome(
    request: (DocAction, Seq<Seq<char>>),
    selection: Result<SelectionView, Option<Seq<char>>>,
    marker_package: Option<InstalledPackage>,
    execution_package: Option<InstalledPackage>,
    present_files: Seq<bool>,
    vite_config: Option<Seq<char>>,
) -> Result<ExecutionView, Option<Seq<char>>> {
    match selection {
        Err(e) => Err(e),
        Ok(SelectionView::NoProvider) => user_err(no_provider_text()),
        Ok(SelectionView::Multiple(detected)) => user_err(multiple_markers_text(detected)),
        Ok(SelectionView::Selected(p, source)) => match capability_outcome(p, request.0) {
            Err(e) => Err(e),
            Ok(_) => match marker_package {
                None => user_err(not_installed_text(source, p)),
                Some(marker) => match version_gate(p, manifest_version(marker.package_json)) {
                    Err(e) => Err(e),
                    Ok(warning) => match native_outcome(p, present_files, vite_config) {
                        Err(e) => Err(e),
                        Ok(_) => target_outcome(
                            p,
                            source,
                            tool_args(request.0, request.1),
                            warning,
                            marker,
                            execution_package,
                        ),
                    },
                },
            },
        },
    }
}

/// An execution result seen through its view and user message.
pub open spec fn execution_result_view(r: Result<DocExecution, Error>) -> Result<
    ExecutionView,
    Option<Seq<char>>,
> {
    match r {
        Ok(e) => Ok(e@),
        Err(e) => Err(e.user_text()),
    }
}

/// A selection whose selected provider can render its native-config
/// diagnostic.
pub open spec fn selection_well_formed(selection: Result<ProviderSelection, Error>) -> bool {
    match selection {
        Ok(ProviderSelection::Selected { provider, .. }) => native_config_well_formed(provider@),
        _ => true,
    }
}

/// Resolve an action request to a concrete execution, from the selection
/// and what the caller observed for the selected provider. Fails with the
/// user-facing diagnostics before any process is created.
pub fn resolve(
    request: &DocRequest,
    selection: Result<ProviderSelection, Error>,
    facts: ResolveFacts,
) -> (r: Result<DocExecution, Error>)
    requires
        selection_well_formed(selection),
    ensures
        execution_result_view(r) == resolve_outcome(
            request@,
            selection_result_view(selection),
            facts.marker_package,
            facts.execution_package,
            facts.native_config.present_files@,
            opt_string_view(facts.native_config.vite_config),
        ),
{
    let (provider, source) = match selection {
        Err(e) => return Err(e),
        Ok(ProviderSelection::Selected { provider, source }) => (provider, source),
        Ok(ProviderSelection::NoProvider) => return Err(user_message(no_provider_message())),
        Ok(ProviderSelection::Multiple(detected)) => {
            return Err(user_message(multiple_markers_message(&detected)));
        },
    };
    ensure_capability(&provider, request.action)?;
    let ResolveFacts { marker_package, execution_package, native_config } = facts;
    let marker = match marker_package {
        Some(marker) => marker,
        None => {
            let mut message = String::from_str(source.subject());
            message.append(" selects `");
            message.append(provider.id);
            message.append("`, but package `");
            message.append(provider.marker);
            message.append("` is not installed");
            return Err(user_message(message));
        },
    };
    let warning = check_version(&provider, marker.version())?;
    validate_native_config(&provider, &native_config)?;

    let mut args: Vec<String> = Vec::new();
    args.push(String::from_str(request.action.as_str()));
    let mut i: usize = 0;
    while i < request.args.len()
        invariant
            i <= request.args@.len(),
            strings_view(args@) == seq![action_name(request.action)] + strings_view(
                request.args@.take(i as int),
            ),
        decreases request.args@.len() - i,
    {
        let ghost prev = args@;
        args.push(request.args[i].clone());
        proof {
            assert(strings_view(args@) =~= strings_view(prev).push(request.args@[i as int]@));
            assert(strings_view(request.args@.take(i + 1)) =~= strings_view(
                request.args@.take(i as int),
            ).push(request.args@[i as int]@));
        }
        i += 1;
    }
    proof {
        assert(request.args@.take(request.args@.len() as int) =~= request.args@);
    }

    let resolution = match provider.target {
        ProviderTarget::BuiltinVite => DocResolution::BuiltinVite { args },
        ProviderTarget::PackageBin { package_name, bin_name } => {
            let executable = if str_eq(package_name, provider.marker) {
                marker
            } else {
                match execution_package {
                    Some(package) => package,
                    None => {
                        let mut message = String::from_str("provider `");
                        message.append(provider.id);
                        message.append("` executes `");
                        message.append(package_name);
                        message.append("`, but that package is not installed");
                        return Err(user_message(message));
                    },
                }
            };
            let bin_relative = match find_bin(&executable.package_json, bin_name) {
                Some(bin) => String::from_str(bin),
                None => {
                    let mut message = String::from_str("package `");
                    message.append(package_name);
                    message.append("` does not declare a `");
                    message.append(bin_name);
                    message.append("` bin");
                    return Err(user_message(message));
                },
            };
            let InstalledPackage { root, package_json: _ } = executable;
            DocResolution::PackageBin { package_root: root, bin_relative, args }
        },
    };
    Ok(DocExecution { provider, source, resolution, warning })
}

} // verus!
