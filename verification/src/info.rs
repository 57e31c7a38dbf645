//! `vp doc info`: report the resolved provider without starting the tool.

use vstd::prelude::*;
use vstd::string::*;

use crate::detect::{InstalledPackage, manifest_version};
use crate::error::Error;
use crate::json::{JsonValue, JsonView, entries_view, items_view, json_array, json_object, json_str};
use crate::providers::{
    ProviderDefinition, ProviderTarget, ProviderView, TargetView, execution_package_of,
    provider_views, target_kind,
};
use crate::resolve::{
    ProviderSelection, SelectionSource, SelectionView, ids_of, opt_str_view, opt_string_view,
    selection_result_view,
};
use crate::cli::action_name;
use crate::semver::{semver_satisfies, version_satisfies};
use crate::text::str_eq;

verus! {

/// A report that resolved to a usable provider. The marker and the
/// execution target stay separate subjects, so a consumer can tell which
/// package the version gate checked.
#[derive(Debug)]
pub struct DocInfoResolved {
    pub provider: ProviderDefinition,
    pub source: SelectionSource,
    /// The installed version of the marker package, the subject of the
    /// version gate.
    pub marker_version: Option<String>,
    /// The installed version of the execution package (`astro` for
    /// Starlight); equals `marker_version` when the two coincide.
    pub execution_version: Option<String>,
    /// The marker version against the provider's tool version range.
    pub supported: bool,
}

/// The abstract value of a [`DocInfoResolved`].
pub struct ResolvedView {
    pub provider: ProviderView,
    pub source: SelectionSource,
    pub marker_version: Option<Seq<char>>,
    pub execution_version: Option<Seq<char>>,
    pub supported: bool,
}

impl View for DocInfoResolved {
    type V = ResolvedView;

    open spec fn view(&self) -> ResolvedView {
        ResolvedView {
            provider: self.provider@,
            source: self.source,
            marker_version: opt_string_view(self.marker_version),
            execution_version: opt_string_view(self.execution_version),
            supported: self.supported,
        }
    }
}

impl DocInfoResolved {
    /// The executable package: the bin package for a package-bin target,
    /// the marker itself for the built-in Vite target.
    pub fn execution_package(&self) -> (r: &'static str)
        ensures
            r@ == execution_package_of(self.provider@),
    {
        match self.provider.target {
            ProviderTarget::PackageBin { package_name, .. } => package_name,
            ProviderTarget::BuiltinVite => self.provider.marker,
        }
    }
}

/// The `vp doc info` report: `status` names the resolution state.
#[derive(Debug)]
pub enum DocInfoReport {
    Resolved(DocInfoResolved),
    NoProvider,
    MultipleProviders { candidates: Vec<&'static str> },
}

/// The abstract value of a [`DocInfoReport`].
pub enum ReportView {
    Resolved(ResolvedView),
    NoProvider,
    MultipleProviders(Seq<Seq<char>>),
}

impl View for DocInfoReport {
    type V = ReportView;

    open spec fn view(&self) -> ReportView {
        match self {
            DocInfoReport::Resolved(info) => ReportView::Resolved(info@),
            DocInfoReport::NoProvider => ReportView::NoProvider,
            DocInfoReport::MultipleProviders { candidates } => ReportView::MultipleProviders(
                candidates@.map_values(|c: &str| c@),
            ),
        }
    }
}

/// The JSON value of an optional version.
pub open spec fn version_json(version: Option<Seq<char>>) -> JsonView {
    match version {
        Some(v) => JsonView::Str(v),
        None => JsonView::Null,
    }
}

/// The `kind` of a selection source in reports.
pub open spec fn source_kind(source: SelectionSource) -> Seq<char> {
    match source {
        SelectionSource::Config => "config"@,
        SelectionSource::Marker => "dependency-marker"@,
    }
}

/// The `execution` object of a resolved report.
pub open spec fn execution_json(info: ResolvedView) -> JsonView {
    let p = info.provider;
    let base = seq![
        ("kind"@, JsonView::Str(target_kind(p.target))),
        ("package"@, JsonView::Str(execution_package_of(p))),
        ("version"@, version_json(info.execution_version)),
    ];
    match p.target {
        TargetView::PackageBin { bin_name, .. } => JsonView::Object(
            base.push(("bin"@, JsonView::Str(bin_name))),
        ),
        TargetView::BuiltinVite => JsonView::Object(base),
    }
}

/// The `compatibility` object of a resolved report.
pub open spec fn compatibility_json(info: ResolvedView) -> JsonView {
    let p = info.provider;
    let subject = seq![("subject"@, JsonView::Str(p.marker))];
    let with_range = match p.version_range {
        Some(range) => subject.push(("supportedRange"@, JsonView::Str(range))),
        None => subject,
    };
    JsonView::Object(with_range.push(("supported"@, JsonView::Bool(info.supported))))
}

/// The JSON shape of the report, keys in the documented order.
pub open spec fn report_json(report: ReportView) -> JsonView {
    let schema = ("schemaVersion"@, JsonView::Number("1"@));
    match report {
        ReportView::Resolved(info) => JsonView::Object(
            seq![
                schema,
                ("status"@, JsonView::Str("ready"@)),
                ("provider"@, JsonView::Str(info.provider.id)),
                ("displayName"@, JsonView::Str(info.provider.display_name)),
                ("source"@, JsonView::Object(seq![("kind"@, JsonView::Str(source_kind(info.source)))])),
                (
                    "marker"@,
                    JsonView::Object(
                        seq![
                            ("package"@, JsonView::Str(info.provider.marker)),
                            ("version"@, version_json(info.marker_version)),
                        ],
                    ),
                ),
                ("execution"@, execution_json(info)),
                ("compatibility"@, compatibility_json(info)),
                (
                    "commands"@,
                    JsonView::Array(
                        info.provider.capabilities.map_values(
                            |a: crate::cli::DocAction| JsonView::Str(action_name(a)),
                        ),
                    ),
                ),
            ],
        ),
        ReportView::NoProvider => JsonView::Object(
            seq![
                schema,
                ("status"@, JsonView::Str("no-provider"@)),
                ("candidates"@, JsonView::Array(Seq::empty())),
            ],
        ),
        ReportView::MultipleProviders(candidates) => JsonView::Object(
            seq![
                schema,
                ("status"@, JsonView::Str("multiple-providers"@)),
                ("candidates"@, JsonView::Array(candidates.map_values(|c: Seq<char>| JsonView::Str(c)))),
            ],
        ),
    }
}

fn json_version(version: &Option<String>) -> (r: JsonValue)
    ensures
        r.json_view() == version_json(opt_string_view(*version)),
{
    match version {
        Some(v) => json_str(v.as_str()),
        None => JsonValue::Null,
    }
}

fn entry(key: &str, value: JsonValue) -> (r: (String, JsonValue))
    ensures
        r.0@ == key@,
        r.1 == value,
{
    (String::from_str(key), value)
}

impl DocInfoReport {
    /// The report resolves to a usable provider.
    pub fn resolved(&self) -> (r: bool)
        ensures
            r == (self@ is Resolved),
    {
        matches!(self, DocInfoReport::Resolved(_))
    }

    /// The report's JSON shape, keys inserted in the documented order.
    pub fn to_json(&self) -> (r: JsonValue)
        ensures
            r.json_view() == report_json(self@),
    {
        let schema = entry("schemaVersion", JsonValue::Number(String::from_str("1")));
        match self {
            DocInfoReport::Resolved(info) => {
                let provider = &info.provider;
                let source_kind_text = match info.source {
                    SelectionSource::Config => "config",
                    SelectionSource::Marker => "dependency-marker",
                };
                let source = json_object(vec![entry("kind", json_str(source_kind_text))]);
                proof {
                    assert(source.json_view() == JsonView::Object(
                        seq![("kind"@, JsonView::Str(source_kind(info.source)))],
                    )) by {
                        assert(source.json_view()->Object_0 =~= seq![
                            ("kind"@, JsonView::Str(source_kind(info.source))),
                        ]);
                    }
                }
                let marker = json_object(
                    vec![
                        entry("package", json_str(provider.marker)),
                        entry("version", json_version(&info.marker_version)),
                    ],
                );
                proof {
                    assert(marker.json_view()->Object_0 =~= seq![
                        ("package"@, JsonView::Str(provider@.marker)),
                        ("version"@, version_json(opt_string_view(info.marker_version))),
                    ]);
                }
                let mut execution_entries = vec![
                    entry("kind", json_str(provider.target.as_str())),
                    entry("package", json_str(info.execution_package())),
                    entry("version", json_version(&info.execution_version)),
                ];
                let ghost base = entries_view(execution_entries@);
                if let ProviderTarget::PackageBin { bin_name, .. } = provider.target {
                    execution_entries.push(entry("bin", json_str(bin_name)));
                    proof {
                        assert(entries_view(execution_entries@) =~= base.push(
                            ("bin"@, JsonView::Str(bin_name@)),
                        ));
                    }
                }
                let execution = json_object(execution_entries);
                proof {
                    assert(base =~= seq![
                        ("kind"@, JsonView::Str(target_kind(provider@.target))),
                        ("package"@, JsonView::Str(execution_package_of(provider@))),
                        ("version"@, version_json(opt_string_view(info.execution_version))),
                    ]);
                    assert(execution.json_view() == execution_json(info@));
                }
                let mut compatibility_entries = vec![entry("subject", json_str(provider.marker))];
                let ghost subject = entries_view(compatibility_entries@);
                if let Some(range) = provider.version_range {
                    compatibility_entries.push(entry("supportedRange", json_str(range)));
                    proof {
                        assert(entries_view(compatibility_entries@) =~= subject.push(
                            ("supportedRange"@, JsonView::Str(range@)),
                        ));
                    }
                }
                let ghost with_range = entries_view(compatibility_entries@);
                compatibility_entries.push(entry("supported", JsonValue::Bool(info.supported)));
                proof {
                    assert(entries_view(compatibility_entries@) =~= with_range.push(
                        ("supported"@, JsonView::Bool(info.supported)),
                    ));
                }
                let compatibility = json_object(compatibility_entries);
                proof {
                    assert(subject =~= seq![("subject"@, JsonView::Str(provider@.marker))]);
                    assert(compatibility.json_view() == compatibility_json(info@));
                }
                let mut commands: Vec<JsonValue> = Vec::new();
                let mut i: usize = 0;
                while i < provider.capabilities.len()
                    invariant
                        i <= provider.capabilities@.len(),
                        items_view(commands@) == provider.capabilities@.take(i as int).map_values(
                            |a: crate::cli::DocAction| JsonView::Str(action_name(a)),
                        ),
                    decreases provider.capabilities@.len() - i,
                {
                    let ghost prev = commands@;
                    commands.push(json_str(provider.capabilities[i].as_str()));
                    proof {
                        assert(items_view(commands@) =~= items_view(prev).push(
                            JsonView::Str(action_name(provider.capabilities@[i as int])),
                        ));
                        assert(provider.capabilities@.take(i + 1).map_values(
                            |a: crate::cli::DocAction| JsonView::Str(action_name(a)),
                        ) =~= provider.capabilities@.take(i as int).map_values(
                            |a: crate::cli::DocAction| JsonView::Str(action_name(a)),
                        ).push(JsonView::Str(action_name(provider.capabilities@[i as int]))));
                    }
                    i += 1;
                }
                proof {
                    assert(provider.capabilities@.take(provider.capabilities@.len() as int)
                        =~= provider.capabilities@);
                }
                let commands_json = json_array(commands);
                let report = vec![
                    schema,
                    entry("status", json_str("ready")),
                    entry("provider", json_str(provider.id)),
                    entry("displayName", json_str(provider.display_name)),
                    entry("source", source),
                    entry("marker", marker),
                    entry("execution", execution),
                    entry("compatibility", compatibility),
                    entry("commands", commands_json),
                ];
                let r = json_object(report);
                proof {
                    assert(entries_view(report@) =~= report_json(self@)->Object_0);
                }
                r
            },
            DocInfoReport::NoProvider => {
                let report = vec![
                    schema,
                    entry("status", json_str("no-provider")),
                    entry("candidates", json_array(Vec::new())),
                ];
                let r = json_object(report);
                proof {
                    assert(items_view(Seq::<JsonValue>::empty()) =~= Seq::empty());
                    assert(entries_view(report@) =~= report_json(self@)->Object_0);
                }
                r
            },
            DocInfoReport::MultipleProviders { candidates } => {
                let mut items: Vec<JsonValue> = Vec::new();
                let mut i: usize = 0;
                while i < candidates.len()
                    invariant
                        i <= candidates@.len(),
                        items_view(items@) == candidates@.take(i as int).map_values(
                            |c: &str| JsonView::Str(c@),
                        ),
                    decreases candidates@.len() - i,
                {
                    let ghost prev = items@;
                    items.push(json_str(candidates[i]));
                    proof {
                        assert(items_view(items@) =~= items_view(prev).push(
                            JsonView::Str(candidates@[i as int]@),
                        ));
                        assert(candidates@.take(i + 1).map_values(|c: &str| JsonView::Str(c@))
                            =~= candidates@.take(i as int).map_values(
                            |c: &str| JsonView::Str(c@),
                        ).push(JsonView::Str(candidates@[i as int]@)));
                    }
                    i += 1;
                }
                proof {
                    assert(candidates@.take(candidates@.len() as int) =~= candidates@);
                    assert(items_view(items@) =~= candidates@.map_values(|c: &str| c@).map_values(
                        |c: Seq<char>| JsonView::Str(c),
                    ));
                }
                let report = vec![
                    schema,
                    entry("status", json_str("multiple-providers")),
                    entry("candidates", json_array(items)),
                ];
                let r = json_object(report);
                proof {
                    assert(entries_view(report@) =~= report_json(self@)->Object_0);
                }
                r
            },
        }
    }
}

/// The resolved report of a selected provider from its installed marker
/// and execution packages.
pub open spec fn resolved_view(
    p: ProviderView,
    source: SelectionSource,
    marker_package: Option<InstalledPackage>,
    execution_package: Option<InstalledPackage>,
) -> ResolvedView {
    let marker_version = match marker_package {
        Some(m) => manifest_version(m.package_json),
        None => None,
    };
    let supported = marker_version is Some && (p.version_range is None || semver_satisfies(
        marker_version->0,
        p.version_range->0,
    ));
    let execution_version = if execution_package_of(p) == p.marker {
        marker_version
    } else {
        match execution_package {
            Some(e) => manifest_version(e.package_json),
            None => None,
        }
    };
    ResolvedView { provider: p, source, marker_version, execution_version, supported }
}

fn owned(o: Option<&str>) -> (r: Option<String>)
    ensures
        opt_string_view(r) == opt_str_view(o),
{
    match o {
        Some(s) => Some(String::from_str(s)),
        None => None,
    }
}

fn build_resolved(
    provider: ProviderDefinition,
    source: SelectionSource,
    marker_package: &Option<InstalledPackage>,
    execution_package: &Option<InstalledPackage>,
) -> (r: DocInfoResolved)
    ensures
        r@ == resolved_view(provider@, source, *marker_package, *execution_package),
{
    let marker_version = match marker_package {
        Some(m) => owned(m.version()),
        None => None,
    };
    let supported = match &marker_version {
        Some(version) => match provider.version_range {
            None => true,
            Some(range) => version_satisfies(version.as_str(), range),
        },
        None => false,
    };
    let execution = match provider.target {
        ProviderTarget::PackageBin { package_name, .. } => package_name,
        ProviderTarget::BuiltinVite => provider.marker,
    };
    let execution_version = if str_eq(execution, provider.marker) {
        match &marker_version {
            Some(v) => Some(v.clone()),
            None => None,
        }
    } else {
        match execution_package {
            Some(e) => owned(e.version()),
            None => None,
        }
    };
    DocInfoResolved { provider, source, marker_version, execution_version, supported }
}

/// The report of a selection, given the installed marker and execution
/// packages of a selected provider.
pub open spec fn info_outcome(
    selection: Result<SelectionView, Option<Seq<char>>>,
    marker_package: Option<InstalledPackage>,
    execution_package: Option<InstalledPackage>,
) -> Result<ReportView, Option<Seq<char>>> {
    match selection {
        Err(e) => Err(e),
        Ok(SelectionView::Selected(p, source)) => Ok(
            ReportView::Resolved(resolved_view(p, source, marker_package, execution_package)),
        ),
        Ok(SelectionView::NoProvider) => Ok(ReportView::NoProvider),
        Ok(SelectionView::Multiple(detected)) => Ok(
            ReportView::MultipleProviders(ids_of(detected)),
        ),
    }
}

/// A report result seen through its view and user message.
pub open spec fn report_result_view(r: Result<DocInfoReport, Error>) -> Result<
    ReportView,
    Option<Seq<char>>,
> {
    match r {
        Ok(report) => Ok(report@),
        Err(e) => Err(e.user_text()),
    }
}

/// Build the info report from the effective root's selection. An invalid
/// `doc.provider` value or a malformed manifest is a user error, the same
/// as in the actions.
pub fn info_report(
    selection: Result<ProviderSelection, Error>,
    marker_package: &Option<InstalledPackage>,
    execution_package: &Option<InstalledPackage>,
) -> (r: Result<DocInfoReport, Error>)
    ensures
        report_result_view(r) == info_outcome(
            selection_result_view(selection),
            *marker_package,
            *execution_package,
        ),
{
    match selection? {
        ProviderSelection::Selected { provider, source } => Ok(
            DocInfoReport::Resolved(
                build_resolved(provider, source, marker_package, execution_package),
            ),
        ),
        ProviderSelection::NoProvider => Ok(DocInfoReport::NoProvider),
        ProviderSelection::Multiple(detected) => {
            let mut candidates: Vec<&'static str> = Vec::new();
            let mut i: usize = 0;
            while i < detected.len()
                invariant
                    i <= detected@.len(),
                    candidates@.map_values(|c: &str| c@) == ids_of(
                        provider_views(detected@.take(i as int)),
                    ),
                decreases detected@.len() - i,
            {
                let ghost prev = candidates@;
                candidates.push(detected[i].id);
                proof {
                    assert(candidates@.map_values(|c: &str| c@) =~= prev.map_values(
                        |c: &str| c@,
                    ).push(detected@[i as int]@.id));
                    assert(ids_of(provider_views(detected@.take(i + 1))) =~= ids_of(
                        provider_views(detected@.take(i as int)),
                    ).push(detected@[i as int]@.id));
                }
                i += 1;
            }
            proof {
                assert(detected@.take(detected@.len() as int) =~= detected@);
            }
            Ok(DocInfoReport::MultipleProviders { candidates })
        },
    }
}

} // verus!
