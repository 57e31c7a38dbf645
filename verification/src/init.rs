//! `vp doc init` scaffolding decisions. The caller performs the file
//! writes, prints the outcome, and dispatches the dependency install.

use vstd::prelude::*;
use vstd::string::*;

use crate::detect::{detect_providers, detected_providers};
use crate::error::{Error, user_err, user_message};
use crate::json::JsonValue;
use crate::providers::{
    InitView, ProviderDefinition, ProviderTarget, ProviderView, TargetView, init_provider_views,
    init_providers, provider_views,
};
use crate::resolve::{find_by_id, ids_of, manifest_input_view};
use crate::text::{
    chars_of, find_from, join_strings, occurs_at, seq_join, str_eq, strings_view,
};

verus! {

/// A starter file the scaffold visited: created when missing, kept when it
/// already existed.
#[derive(Debug)]
pub struct ScaffoldedFile {
    pub path: &'static str,
    pub created: bool,
}

/// The scaffold result the caller renders and acts on.
#[derive(Debug)]
pub enum DocInitOutcome {
    AlreadyConfigured { provider: ProviderDefinition },
    Scaffolded {
        provider: ProviderDefinition,
        files: Vec<ScaffoldedFile>,
        dependencies: Vec<&'static str>,
    },
}

/// The abstract value of a [`DocInitOutcome`].
pub enum InitOutcomeView {
    AlreadyConfigured(ProviderView),
    Scaffolded(ProviderView, Seq<(Seq<char>, bool)>, Seq<Seq<char>>),
}

impl View for DocInitOutcome {
    type V = InitOutcomeView;

    open spec fn view(&self) -> InitOutcomeView {
        match self {
            DocInitOutcome::AlreadyConfigured { provider } => InitOutcomeView::AlreadyConfigured(
                provider@,
            ),
            DocInitOutcome::Scaffolded { provider, files, dependencies } =>
                InitOutcomeView::Scaffolded(
                provider@,
                files@.map_values(|f: ScaffoldedFile| (f.path@, f.created)),
                dependencies@.map_values(|d: &str| d@),
            ),
        }
    }
}

/// The `init` configuration write: `doc` configuration is written only when
/// detection alone would not select the provider afterward.
#[derive(Debug, PartialEq, Eq)]
pub enum DocConfigWrite {
    /// Detection selects the provider by itself; no config is needed.
    NotNeeded,
    /// A new `vite.config.ts` was created with the `doc.provider` entry.
    Created,
    /// The existing config file gained the `doc.provider` entry.
    Updated { file: String },
    /// The existing config could not be edited safely; the caller prints
    /// the manual instruction.
    Manual { file: String },
}

/// The usage line, rendered from the init-capable definitions.
pub open spec fn init_usage_text() -> Seq<char> {
    "Usage: vp doc init <"@ + seq_join(ids_of(init_provider_views()), "|"@) + ">"@
}

fn init_usage() -> (r: String)
    ensures
        r@ == init_usage_text(),
{
    let providers = init_providers();
    let mut ids: Vec<String> = Vec::new();
    let mut i: usize = 0;
    while i < providers.len()
        invariant
            i <= providers@.len(),
            strings_view(ids@) == ids_of(provider_views(providers@.take(i as int))),
        decreases providers@.len() - i,
    {
        let ghost prev = ids@;
        ids.push(String::from_str(providers[i].id));
        proof {
            assert(strings_view(ids@) =~= strings_view(prev).push(providers@[i as int]@.id));
            assert(ids_of(provider_views(providers@.take(i + 1))) =~= ids_of(
                provider_views(providers@.take(i as int)),
            ).push(providers@[i as int]@.id));
        }
        i += 1;
    }
    proof {
        assert(providers@.take(providers@.len() as int) =~= providers@);
    }
    let joined = join_strings(&ids, "|");
    let mut usage = String::from_str("Usage: vp doc init <");
    usage.append(joined.as_str());
    usage.append(">");
    usage
}

pub open spec fn missing_id_text() -> Seq<char> {
    "`vp doc init` requires a provider ID\n\n"@ + init_usage_text()
}

pub open spec fn unknown_init_provider_text(id: Seq<char>) -> Seq<char> {
    "unknown documentation provider `"@ + id + "`\n\n"@ + init_usage_text()
}

/// The provider `vp doc init` sets up: a non-interactive session must name
/// one, and it must support init.
pub open spec fn init_selection(id: Option<Seq<char>>) -> Result<ProviderView, Option<Seq<char>>> {
    match id {
        None => user_err(missing_id_text()),
        Some(id) => match find_by_id(init_provider_views(), id) {
            None => user_err(unknown_init_provider_text(id)),
            Some(p) => Ok(p),
        },
    }
}

pub open spec fn opt_id_view(o: Option<&str>) -> Option<Seq<char>> {
    match o {
        Some(s) => Some(s@),
        None => None,
    }
}

/// The init-capable provider named by `provider_id`.
pub fn select_init_provider(provider_id: Option<&str>) -> (r: Result<ProviderDefinition, Error>)
    ensures
        match (r, init_selection(opt_id_view(provider_id))) {
            (Ok(p), Ok(v)) => p@ == v,
            (Err(e), Err(m)) => e.user_text() == m,
            _ => false,
        },
{
    let id = match provider_id {
        None => {
            let mut message = String::from_str("`vp doc init` requires a provider ID\n\n");
            message.append(init_usage().as_str());
            return Err(user_message(message));
        },
        Some(id) => id,
    };
    let mut providers = init_providers();
    let ghost views = provider_views(providers@);
    let mut i: usize = 0;
    proof {
        assert(views.skip(0) =~= views);
    }
    while i < providers.len()
        invariant
            i <= providers@.len(),
            views == provider_views(providers@),
            views == init_provider_views(),
            provider_id == Some(id),
            find_by_id(views, id@) == find_by_id(views.skip(i as int), id@),
        decreases providers@.len() - i,
    {
        proof {
            assert(views.skip(i as int)[0] == views[i as int]);
            assert(views.skip(i as int).drop_first() =~= views.skip(i + 1));
        }
        if str_eq(providers[i].id, id) {
            proof {
                assert(views[i as int].id == id@);
            }
            let ghost before = providers@;
            let found = providers.remove(i);
            proof {
                assert(found == before[i as int]);
                assert(found@ == views[i as int]);
                assert(views.skip(i as int)[0].id == id@);
                assert(find_by_id(views.skip(i as int), id@) == Some(views[i as int]));
            }
            return Ok(found);
        }
        i += 1;
    }
    let mut message = String::from_str("unknown documentation provider `");
    message.append(id);
    message.append("`\n\n");
    message.append(init_usage().as_str());
    Err(user_message(message))
}

/// Runnable means the marker package resolves, and a package-bin
/// provider's executable package resolves too. Starter files are not
/// required: a pre-existing project keeps its own content and config.
pub open spec fn runnable(p: ProviderView, marker_installed: bool, execution_installed: bool) -> bool {
    marker_installed && match p.target {
        TargetView::PackageBin { package_name, .. } => package_name == p.marker
            || execution_installed,
        TargetView::BuiltinVite => true,
    }
}

/// Whether the provider runs, given whether its marker package and its
/// execution package are installed.
pub fn provider_runnable(
    provider: &ProviderDefinition,
    marker_installed: bool,
    execution_installed: bool,
) -> (r: bool)
    ensures
        r == runnable(provider@, marker_installed, execution_installed),
{
    if !marker_installed {
        return false;
    }
    match provider.target {
        ProviderTarget::PackageBin { package_name, .. } => str_eq(package_name, provider.marker)
            || execution_installed,
        ProviderTarget::BuiltinVite => true,
    }
}

/// The scaffold visit of each starter file: created exactly when it did
/// not already exist.
pub open spec fn scaffold_files(init: InitView, existing: Seq<bool>) -> Seq<(Seq<char>, bool)> {
    Seq::new(init.starter_files.len(), |i: int| (init.starter_files[i].0, !existing[i]))
}

/// The outcome of `vp doc init` for a chosen provider: already configured
/// when the nearest manifest declares its marker (in a detection field)
/// and it runs; otherwise the scaffold, which never overwrites an existing
/// file. A declared but not runnable provider is the residue of a failed
/// install, so the retry repairs it instead of reporting success.
pub open spec fn scaffold_outcome(
    p: ProviderView,
    manifest: Result<Option<JsonValue>, Option<Seq<char>>>,
    marker_installed: bool,
    execution_installed: bool,
    existing: Seq<bool>,
) -> Result<InitOutcomeView, Option<Seq<char>>> {
    match manifest {
        Err(e) => Err(e),
        Ok(m) => {
            let declared = match m {
                Some(m) => detected_providers(m).map_values(|d: ProviderView| d.id).contains(p.id),
                None => false,
            };
            if declared && runnable(p, marker_installed, execution_installed) {
                Ok(InitOutcomeView::AlreadyConfigured(p))
            } else {
                let init = p.init->0;
                Ok(
                    InitOutcomeView::Scaffolded(
                        p,
                        scaffold_files(init, existing),
                        init.dependencies,
                    ),
                )
            }
        },
    }
}

/// An init outcome result seen through its view and user message.
pub open spec fn init_result_view(r: Result<DocInitOutcome, Error>) -> Result<
    InitOutcomeView,
    Option<Seq<char>>,
> {
    match r {
        Ok(o) => Ok(o@),
        Err(e) => Err(e.user_text()),
    }
}

/// Decide the outcome of `vp doc init` for an init-capable provider from
/// the nearest manifest, whether the provider's marker and execution
/// packages are installed, and whether each starter file already exists
/// (in starter-file order). Never installs packages; the outcome carries
/// the dependency specs for the caller's package-manager dispatch, and the
/// caller writes exactly the files marked created.
pub fn init_plan(
    provider: ProviderDefinition,
    manifest: Result<Option<JsonValue>, Error>,
    marker_installed: bool,
    execution_installed: bool,
    existing: &Vec<bool>,
) -> (r: Result<DocInitOutcome, Error>)
    requires
        provider@.init is Some,
        existing@.len() == provider@.init->0.starter_files.len(),
    ensures
        init_result_view(r) == scaffold_outcome(
            provider@,
            manifest_input_view(manifest),
            marker_installed,
            execution_installed,
            existing@,
        ),
{
    let declared_ids: Vec<String> = match manifest {
        Err(e) => return Err(e),
        Ok(None) => Vec::new(),
        Ok(Some(m)) => {
            let detected = detect_providers(&m);
            let mut ids: Vec<String> = Vec::new();
            let mut i: usize = 0;
            while i < detected.len()
                invariant
                    i <= detected@.len(),
                    strings_view(ids@) == ids_of(provider_views(detected@.take(i as int))),
                decreases detected@.len() - i,
            {
                let ghost prev = ids@;
                ids.push(String::from_str(detected[i].id));
                proof {
                    assert(strings_view(ids@) =~= strings_view(prev).push(
                        detected@[i as int]@.id,
                    ));
                    assert(ids_of(provider_views(detected@.take(i + 1))) =~= ids_of(
                        provider_views(detected@.take(i as int)),
                    ).push(detected@[i as int]@.id));
                }
                i += 1;
            }
            proof {
                assert(detected@.take(detected@.len() as int) =~= detected@);
                assert(ids_of(provider_views(detected@)) =~= detected_providers(m).map_values(
                    |d: ProviderView| d.id,
                ));
            }
            ids
        },
    };
    let ghost declared_view = strings_view(declared_ids@);
    let mut declared = false;
    let mut k: usize = 0;
    while k < declared_ids.len()
        invariant
            k <= declared_ids@.len(),
            declared_view == strings_view(declared_ids@),
            declared == exists|j: int| 0 <= j < k && declared_view[j] == provider@.id,
        decreases declared_ids@.len() - k,
    {
        if str_eq(declared_ids[k].as_str(), provider.id) {
            declared = true;
        }
        proof {
            if declared_view[k as int] == provider@.id {
                assert(0 <= k < k + 1 && declared_view[k as int] == provider@.id);
            }
        }
        k += 1;
    }
    proof {
        assert(declared == declared_view.contains(provider@.id));
    }
    if declared && provider_runnable(&provider, marker_installed, execution_installed) {
        return Ok(DocInitOutcome::AlreadyConfigured { provider });
    }
    let (files, dependencies) = match &provider.init {
        Some(init) => {
            let mut files: Vec<ScaffoldedFile> = Vec::new();
            let mut i: usize = 0;
            while i < init.starter_files.len()
                invariant
                    i <= init.starter_files@.len(),
                    existing@.len() == init.starter_files@.len(),
                    files@.map_values(|f: ScaffoldedFile| (f.path@, f.created)) == scaffold_files(
                        init@,
                        existing@,
                    ).take(i as int),
                decreases init.starter_files@.len() - i,
            {
                let ghost prev = files@;
                files.push(ScaffoldedFile { path: init.starter_files[i].path, created: !existing[i] });
                proof {
                    assert(files@.map_values(|f: ScaffoldedFile| (f.path@, f.created))
                        =~= prev.map_values(|f: ScaffoldedFile| (f.path@, f.created)).push(
                        (init@.starter_files[i as int].0, !existing@[i as int]),
                    ));
                    assert(scaffold_files(init@, existing@).take(i + 1) =~= scaffold_files(
                        init@,
                        existing@,
                    ).take(i as int).push(
                        (init@.starter_files[i as int].0, !existing@[i as int]),
                    ));
                }
                i += 1;
            }
            proof {
                assert(scaffold_files(init@, existing@).take(init.starter_files@.len() as int)
                    =~= scaffold_files(init@, existing@));
            }
            let mut dependencies: Vec<&'static str> = Vec::new();
            let mut j: usize = 0;
            while j < init.dependencies.len()
                invariant
                    j <= init.dependencies@.len(),
                    dependencies@ == init.dependencies@.take(j as int),
                decreases init.dependencies@.len() - j,
            {
                dependencies.push(init.dependencies[j]);
                j += 1;
                proof {
                    assert(dependencies@ =~= init.dependencies@.take(j as int));
                }
            }
            proof {
                assert(init.dependencies@.take(init.dependencies@.len() as int)
                    =~= init.dependencies@);
            }
            (files, dependencies)
        },
        None => (Vec::new(), Vec::new()),
    };
    Ok(DocInitOutcome::Scaffolded { provider, files, dependencies })
}

/// The `doc` entry written into a Vite config.
pub open spec fn doc_entry_text(id: Seq<char>) -> Seq<char> {
    "doc: {\n    provider: '"@ + id + "',\n  },"@
}

/// The Vite config created when none exists.
pub open spec fn new_config_text(id: Seq<char>) -> Seq<char> {
    "import { defineConfig } from 'vite-plus';\n\nexport default defineConfig({\n  "@
        + doc_entry_text(id) + "\n});\n"@
}

/// The first index where `pat` occurs in `text`.
#[verifier::opaque]
pub open spec fn first_occurrence(text: Seq<char>, pat: Seq<char>) -> Option<int> {
    if exists|i: int| occurs_at(text, pat, i) {
        Some(
            choose|i: int|
                occurs_at(text, pat, i) && forall|j: int| 0 <= j < i ==> !occurs_at(text, pat, j),
        )
    } else {
        None
    }
}

/// `contents` with `"\n  " + entry` inserted right after the first
/// occurrence of `opening`.
pub open spec fn insert_after(contents: Seq<char>, opening: Seq<char>, entry: Seq<char>) -> Option<
    Seq<char>,
> {
    match first_occurrence(contents, opening) {
        Some(i) => Some(
            contents.take(i + opening.len()) + "\n  "@ + entry + contents.skip(i + opening.len()),
        ),
        None => None,
    }
}

/// The config text with the `doc` entry inserted into the default export:
/// into `export default defineConfig({` when present, else into
/// `export default {`.
pub open spec fn inserted_config(contents: Seq<char>, id: Seq<char>) -> Option<Seq<char>> {
    match insert_after(contents, "export default defineConfig({"@, doc_entry_text(id)) {
        Some(updated) => Some(updated),
        None => insert_after(contents, "export default {"@, doc_entry_text(id)),
    }
}

/// The effective root's existing Vite config, as the caller found it.
#[derive(Debug)]
pub struct ExistingConfig {
    /// The file name shown to the user.
    pub file: String,
    pub contents: String,
    /// Whether the config's default export has a top-level `doc` key;
    /// `None` when the config could not be analyzed.
    pub has_doc_key: Option<bool>,
}

/// The config write to perform.
#[derive(Debug)]
pub enum ConfigWritePlan {
    NotNeeded,
    /// Create `vite.config.ts` with these contents.
    Create { contents: String },
    /// Replace the existing config's contents.
    Update { file: String, contents: String },
    /// Leave the config alone; the caller prints the manual instruction.
    Manual { file: String },
}

/// The abstract value of a [`ConfigWritePlan`].
pub enum PlanView {
    NotNeeded,
    Create(Seq<char>),
    Update(Seq<char>, Seq<char>),
    Manual(Seq<char>),
}

impl View for ConfigWritePlan {
    type V = PlanView;

    open spec fn view(&self) -> PlanView {
        match self {
            ConfigWritePlan::NotNeeded => PlanView::NotNeeded,
            ConfigWritePlan::Create { contents } => PlanView::Create(contents@),
            ConfigWritePlan::Update { file, contents } => PlanView::Update(file@, contents@),
            ConfigWritePlan::Manual { file } => PlanView::Manual(file@),
        }
    }
}

/// Init step 3: write `doc` configuration only when detection alone would
/// not select the provider, and never over a config that already states a
/// `doc` key or whose shape is not recognized.
pub open spec fn config_write_outcome(
    p: ProviderView,
    manifest: Result<Option<JsonValue>, Option<Seq<char>>>,
    existing: Option<ExistingConfig>,
) -> Result<PlanView, Option<Seq<char>>> {
    match manifest {
        Err(e) => Err(e),
        Ok(m) => {
            let detected = match m {
                Some(m) => detected_providers(m),
                None => Seq::empty(),
            };
            if detected.len() == 1 && detected[0].id == p.id {
                Ok(PlanView::NotNeeded)
            } else {
                match existing {
                    None => Ok(PlanView::Create(new_config_text(p.id))),
                    Some(config) => if config.has_doc_key != Some(false) {
                        Ok(PlanView::Manual(config.file@))
                    } else {
                        match inserted_config(config.contents@, p.id) {
                            Some(updated) => Ok(PlanView::Update(config.file@, updated)),
                            None => Ok(PlanView::Manual(config.file@)),
                        }
                    },
                }
            }
        },
    }
}

/// A plan result seen through its view and user message.
pub open spec fn plan_result_view(r: Result<ConfigWritePlan, Error>) -> Result<
    PlanView,
    Option<Seq<char>>,
> {
    match r {
        Ok(plan) => Ok(plan@),
        Err(e) => Err(e.user_text()),
    }
}

fn doc_entry(id: &str) -> (r: String)
    ensures
        r@ == doc_entry_text(id@),
{
    let mut entry = String::from_str("doc: {\n    provider: '");
    entry.append(id);
    entry.append("',\n  },");
    entry
}

/// The first occurrence of `pat` in `text`.
fn first_index(text: &Vec<char>, pat: &str) -> (r: Option<usize>)
    ensures
        match r {
            Some(i) => first_occurrence(text@, pat@) == Some(i as int) && occurs_at(
                text@,
                pat@,
                i as int,
            ),
            None => first_occurrence(text@, pat@) is None,
        },
{
    reveal(first_occurrence);
    let pattern = chars_of(pat);
    match find_from(text, &pattern, 0) {
        Some(i) => {
            proof {
                let k = choose|k: int|
                    occurs_at(text@, pat@, k) && forall|j: int|
                        0 <= j < k ==> !occurs_at(text@, pat@, j);
                assert(occurs_at(text@, pat@, i as int));
                if k < i {
                    assert(!occurs_at(text@, pat@, k));
                } else if k > i {
                    assert(!occurs_at(text@, pat@, i as int));
                }
            }
            Some(i)
        },
        None => {
            proof {
                assert(!exists|j: int| occurs_at(text@, pat@, j)) by {
                    assert forall|j: int| !occurs_at(text@, pat@, j) by {
                        if j >= 0 {
                        }
                    }
                }
            }
            None
        },
    }
}

/// Insert `"\n  " + entry` after the first occurrence of `opening`.
fn insert_after_exec(contents: &str, chars: &Vec<char>, opening: &str, entry: &str) -> (r: Option<
    String,
>)
    requires
        chars@ == contents@,
    ensures
        match r {
            Some(u) => insert_after(contents@, opening@, entry@) == Some(u@),
            None => insert_after(contents@, opening@, entry@) is None,
        },
{
    match first_index(chars, opening) {
        Some(index) => {
            let opening_chars = chars_of(opening);
            let opening_len = opening_chars.len();
            let total = chars.len();
            assert(index + opening_len <= total);
            let insert_at = index + opening_len;
            let mut updated = String::from_str(contents.substring_char(0, insert_at));
            updated.append("\n  ");
            updated.append(entry);
            updated.append(contents.substring_char(insert_at, total));
            proof {
                assert(contents@.subrange(0, insert_at as int) =~= contents@.take(
                    index + opening@.len(),
                ));
                assert(contents@.subrange(insert_at as int, total as int) =~= contents@.skip(
                    index + opening@.len(),
                ));
            }
            Some(updated)
        },
        None => None,
    }
}

/// Decide init step 3 for `provider` from the nearest manifest (after the
/// dependency install) and the effective root's existing Vite config, the
/// file that later invocations load.
pub fn config_write_plan(
    provider: &ProviderDefinition,
    manifest: Result<Option<JsonValue>, Error>,
    existing: Option<ExistingConfig>,
) -> (r: Result<ConfigWritePlan, Error>)
    ensures
        plan_result_view(r) == config_write_outcome(
            provider@,
            manifest_input_view(manifest),
            existing,
        ),
{
    let detected = match manifest {
        Err(e) => return Err(e),
        Ok(Some(m)) => detect_providers(&m),
        Ok(None) => {
            let none: Vec<ProviderDefinition> = Vec::new();
            proof {
                assert(provider_views(none@) =~= Seq::empty());
            }
            none
        },
    };
    if detected.len() == 1 && str_eq(detected[0].id, provider.id) {
        return Ok(ConfigWritePlan::NotNeeded);
    }
    let entry = doc_entry(provider.id);
    let config = match existing {
        None => {
            let mut contents = String::from_str(
                "import { defineConfig } from 'vite-plus';\n\nexport default defineConfig({\n  ",
            );
            contents.append(entry.as_str());
            contents.append("\n});\n");
            return Ok(ConfigWritePlan::Create { contents });
        },
        Some(config) => config,
    };
    let ExistingConfig { file, contents, has_doc_key } = config;
    match has_doc_key {
        Some(false) => {},
        _ => return Ok(ConfigWritePlan::Manual { file }),
    }
    let chars = chars_of(contents.as_str());
    match insert_after_exec(
        contents.as_str(),
        &chars,
        "export default defineConfig({",
        entry.as_str(),
    ) {
        Some(updated) => return Ok(ConfigWritePlan::Update { file, contents: updated }),
        None => {},
    }
    match insert_after_exec(contents.as_str(), &chars, "export default {", entry.as_str()) {
        Some(updated) => Ok(ConfigWritePlan::Update { file, contents: updated }),
        None => Ok(ConfigWritePlan::Manual { file }),
    }
}

} // verus!
