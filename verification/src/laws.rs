//! Properties of the library as a whole, stated over the specifications
//! of its operations.

use vstd::prelude::*;

use crate::cli::{DocAction, InvocationView, action_name, doc_args_outcome, is_option};
use crate::detect::{declared_any_field, detected_marker, detected_providers, detection_flags,
    select_by};
use crate::elicit::{CandidateView, DocClassView, DocMember, DocRootFacts, PackageMember, RowView,
    by_path, by_rank, candidates, doc_members_outcome, doc_root_outcome, rows_of};
use crate::order::{insertion_sort, lemma_insertion_sort_permutes, lemma_insertion_sort_sorted,
    lemma_text_lt_irreflexive, lemma_text_lt_transitive, sorted_by, strict_order};
use crate::init::{InitOutcomeView, PlanView, config_write_outcome, doc_entry_text,
    first_occurrence, inserted_config, insert_after, scaffold_outcome};
use crate::json::JsonValue;
use crate::providers::{ProviderView, all_actions, builtin_providers};
use crate::resolve::{ResolutionView, SelectionSource, SelectionView,
    capability_outcome, find_by_id, resolve_outcome, selection_outcome, tool_args, version_gate};
use crate::resolver::{doc_plan_view, tool_plan_view};
use crate::target::{AppFacts, ClassView, FieldValue, SynthesizableSubcommand,
    app_command_name, classify_from, classify_outcome, is_help_or_version, subcommand_args,
    root_runnable};
use crate::text::{occurs_at, strings_view};

verus! {

/// Every argument after `dev`, `build` or `preview` forwards to the tool
/// verbatim.
pub proof fn action_arguments_forward_verbatim(args: Seq<Seq<char>>)
    requires
        args.len() > 0,
        args[0] == "dev"@ || args[0] == "build"@ || args[0] == "preview"@,
    ensures
        match doc_args_outcome(args) {
            Ok(InvocationView::Action(action, forwarded)) => action_name(action) == args[0]
                && forwarded == args.drop_first(),
            _ => false,
        },
{
    reveal_strlit("--");
    reveal_strlit("dev");
    reveal_strlit("build");
    reveal_strlit("preview");
    assert(!is_option(args[0]));
}

/// A leading option (other than the `--` terminator) selects `dev` and
/// forwards the complete argument list.
pub proof fn leading_option_selects_dev(args: Seq<Seq<char>>)
    requires
        args.len() > 0,
        is_option(args[0]),
        args[0] != "--"@,
    ensures
        doc_args_outcome(args) == Ok::<InvocationView, Option<Seq<char>>>(
            InvocationView::Action(DocAction::Dev, args),
        ),
{
}

/// Whatever resolves, the tool receives the action name followed by the
/// forwarded arguments, after the executable the host located.
pub proof fn resolved_tool_receives_action_then_arguments(
    request: (DocAction, Seq<Seq<char>>),
    selection: Result<SelectionView, Option<Seq<char>>>,
    marker_package: Option<crate::detect::InstalledPackage>,
    execution_package: Option<crate::detect::InstalledPackage>,
    present_files: Seq<bool>,
    vite_config: Option<Seq<char>>,
    entry: Seq<char>,
)
    requires
        resolve_outcome(
            request,
            selection,
            marker_package,
            execution_package,
            present_files,
            vite_config,
        ) is Ok,
    ensures
        ({
            let e = resolve_outcome(
                request,
                selection,
                marker_package,
                execution_package,
                present_files,
                vite_config,
            )->Ok_0;
            doc_plan_view(request.0, e.resolution, entry).args == seq![
                entry,
                action_name(request.0),
            ] + request.1
        }),
{
    let e = resolve_outcome(
        request,
        selection,
        marker_package,
        execution_package,
        present_files,
        vite_config,
    )->Ok_0;
    assert(tool_args(request.0, request.1) == seq![action_name(request.0)] + request.1);
    match e.resolution {
        ResolutionView::PackageBin { args, .. } => {
            assert(args == tool_args(request.0, request.1));
            assert(seq![entry] + (seq![action_name(request.0)] + request.1) =~= seq![
                entry,
                action_name(request.0),
            ] + request.1);
        },
        ResolutionView::BuiltinVite { args } => {
            assert(args == tool_args(request.0, request.1));
            assert(seq![entry] + (seq![action_name(request.0)] + request.1) =~= seq![
                entry,
                action_name(request.0),
            ] + request.1);
        },
    }
}

/// `doc.provider` beats dependency markers: a configured built-in
/// provider that the manifest declares in any dependency field is
/// selected, whatever markers the manifest also declares.
pub proof fn config_provider_beats_markers(id: Seq<char>, manifest: JsonValue)
    requires
        find_by_id(builtin_providers(), id) is Some,
        declared_any_field(manifest, find_by_id(builtin_providers(), id)->0.marker),
    ensures
        selection_outcome(Some(id), Ok(Some(manifest))) == Ok::<
            SelectionView,
            Option<Seq<char>>,
        >(SelectionView::Selected(find_by_id(builtin_providers(), id)->0, SelectionSource::Config)),
{
}

proof fn lemma_select_none<T>(ps: Seq<T>, keep: Seq<bool>)
    requires
        keep.len() >= ps.len(),
        forall|i: int| 0 <= i < keep.len() ==> !keep[i],
    ensures
        select_by(ps, keep).len() == 0,
    decreases ps.len(),
{
    if ps.len() > 0 {
        lemma_select_none(ps.drop_last(), keep);
    }
}

/// Detection reads `dependencies` and `devDependencies` only: a manifest
/// that names the markers nowhere else (peer dependencies included)
/// selects no provider by detection.
pub proof fn only_dependency_fields_select_providers(manifest: JsonValue)
    requires
        forall|i: int|
            0 <= i < builtin_providers().len() ==> !detected_marker(
                manifest,
                #[trigger] builtin_providers()[i].marker,
            ),
    ensures
        selection_outcome(None, Ok(Some(manifest))) == Ok::<SelectionView, Option<Seq<char>>>(
            SelectionView::NoProvider,
        ),
{
    lemma_select_none(builtin_providers(), detection_flags(manifest));
}

/// A package selects exactly one provider: more than one detected marker
/// without `doc.provider` is a misconfiguration that names them all.
pub proof fn multiple_markers_are_a_misconfiguration(manifest: JsonValue)
    requires
        detected_providers(manifest).len() > 1,
    ensures
        selection_outcome(None, Ok(Some(manifest))) == Ok::<SelectionView, Option<Seq<char>>>(
            SelectionView::Multiple(detected_providers(manifest)),
        ),
{
}

/// A unique detected marker selects its provider when `doc.provider` is
/// unset.
pub proof fn a_unique_marker_selects_its_provider(manifest: JsonValue)
    requires
        detected_providers(manifest).len() == 1,
    ensures
        selection_outcome(None, Ok(Some(manifest))) == Ok::<SelectionView, Option<Seq<char>>>(
            SelectionView::Selected(detected_providers(manifest)[0], SelectionSource::Marker),
        ),
{
}

/// Resolution fails before any process is created: an execution exists
/// only for a selected provider that supports the action, whose marker is
/// installed, passes the version gate and the native-config check; it
/// carries that provider and its selection source.
pub proof fn an_execution_passes_every_gate(
    request: (DocAction, Seq<Seq<char>>),
    selection: Result<SelectionView, Option<Seq<char>>>,
    marker_package: Option<crate::detect::InstalledPackage>,
    execution_package: Option<crate::detect::InstalledPackage>,
    present_files: Seq<bool>,
    vite_config: Option<Seq<char>>,
)
    requires
        resolve_outcome(
            request,
            selection,
            marker_package,
            execution_package,
            present_files,
            vite_config,
        ) is Ok,
    ensures
        selection matches Ok(SelectionView::Selected(p, source)) && {
            let e = resolve_outcome(
                request,
                selection,
                marker_package,
                execution_package,
                present_files,
                vite_config,
            )->Ok_0;
            &&& capability_outcome(p, request.0) is Ok
            &&& marker_package is Some
            &&& version_gate(p, crate::detect::manifest_version(marker_package->0.package_json)) is Ok
            &&& crate::resolve::native_outcome(p, present_files, vite_config) is Ok
            &&& e.provider == p
            &&& e.source == source
        },
{
}

/// Every built-in provider supports every action.
pub proof fn every_builtin_provider_supports_every_action(i: int, action: DocAction)
    requires
        0 <= i < builtin_providers().len(),
    ensures
        capability_outcome(builtin_providers()[i], action) == Ok::<(), Option<Seq<char>>>(()),
{
    assert(all_actions()[0] == DocAction::Dev);
    assert(all_actions()[1] == DocAction::Build);
    assert(all_actions()[2] == DocAction::Preview);
    assert(builtin_providers()[i].capabilities == all_actions());
}

/// The version gate reports an unsupported installed version before the
/// tool runs: inside the range it runs silently, below the floor it
/// fails, and above the range it warns and runs.
pub proof fn version_gate_runs_only_at_or_above_the_floor(p: ProviderView, version: Option<Seq<char>>)
    requires
        p.version_range is Some,
    ensures
        version_gate(p, version) matches Ok(Some(_)) ==> !(version is Some
            && crate::semver::semver_satisfies(version->0, p.version_range->0)),
        version_gate(p, version) is Err ==> !crate::resolve::at_or_above_floor(p, version),
        (version is Some && crate::semver::semver_satisfies(version->0, p.version_range->0))
            ==> version_gate(p, version) == Ok::<Option<Seq<char>>, Option<Seq<char>>>(None),
{
}

/// `vp doc init` never overwrites an existing file: a starter file is
/// created only when it did not exist.
pub proof fn scaffold_never_overwrites(
    p: ProviderView,
    manifest: Result<Option<JsonValue>, Option<Seq<char>>>,
    marker_installed: bool,
    execution_installed: bool,
    existing: Seq<bool>,
)
    requires
        p.init is Some,
        existing.len() == p.init->0.starter_files.len(),
    ensures
        scaffold_outcome(p, manifest, marker_installed, execution_installed, existing) matches Ok(
            InitOutcomeView::Scaffolded(_, files, _),
        ) ==> files.len() == existing.len() && forall|i: int|
            0 <= i < files.len() && (#[trigger] files[i]).1 ==> !existing[i],
{
}

/// The config write never touches a config that already states a `doc`
/// key, nor creates one in its place.
pub proof fn config_write_never_touches_an_existing_doc_key(
    p: ProviderView,
    manifest: Result<Option<JsonValue>, Option<Seq<char>>>,
    config: crate::init::ExistingConfig,
)
    requires
        config.has_doc_key == Some(true),
    ensures
        !(config_write_outcome(p, manifest, Some(config)) matches Ok(PlanView::Update(..))),
        !(config_write_outcome(p, manifest, Some(config)) matches Ok(PlanView::Create(..))),
{
}

/// An updated config is the original text with only the `doc` entry
/// inserted, right after the opening of the default export.
pub proof fn config_update_only_inserts_the_doc_entry(contents: Seq<char>, id: Seq<char>)
    requires
        inserted_config(contents, id) is Some,
    ensures
        exists|k: int|
            0 <= k <= contents.len() && inserted_config(contents, id)->0 == contents.take(k)
                + "\n  "@ + doc_entry_text(id) + contents.skip(k),
{
    reveal(first_occurrence);
    let entry = doc_entry_text(id);
    lemma_first_occurrence_occurs(contents, "export default defineConfig({"@);
    lemma_first_occurrence_occurs(contents, "export default {"@);
    let define = "export default defineConfig({"@;
    let plain = "export default {"@;
    match insert_after(contents, define, entry) {
        Some(updated) => {
            let i = first_occurrence(contents, define)->0;
            assert(occurs_at(contents, define, i));
            let k = i + define.len();
            assert(updated == contents.take(k) + "\n  "@ + entry + contents.skip(k));
        },
        None => {
            let i = first_occurrence(contents, plain)->0;
            assert(occurs_at(contents, plain, i));
            let k = i + plain.len();
            assert(inserted_config(contents, id)->0 == contents.take(k) + "\n  "@ + entry
                + contents.skip(k));
        },
    }
}

proof fn lemma_earliest_occurrence(text: Seq<char>, pat: Seq<char>, w: int)
    requires
        occurs_at(text, pat, w),
    ensures
        exists|k: int| occurs_at(text, pat, k) && forall|j: int| 0 <= j < k ==> !occurs_at(text, pat, j),
    decreases w,
{
    if exists|j: int| 0 <= j < w && occurs_at(text, pat, j) {
        let j = choose|j: int| 0 <= j < w && occurs_at(text, pat, j);
        lemma_earliest_occurrence(text, pat, j);
    } else {
        assert(forall|j: int| 0 <= j < w ==> !occurs_at(text, pat, j));
    }
}

/// The first occurrence, when there is one, is an occurrence.
proof fn lemma_first_occurrence_occurs(text: Seq<char>, pat: Seq<char>)
    ensures
        first_occurrence(text, pat) matches Some(i) ==> occurs_at(text, pat, i),
{
    reveal(first_occurrence);
    if exists|i: int| occurs_at(text, pat, i) {
        let w = choose|i: int| occurs_at(text, pat, i);
        lemma_earliest_occurrence(text, pat, w);
    }
}

/// `doc build` is cached; the `dev` and `preview` servers are not, whether
/// a provider's package bin or the built-in Vite command runs them.
pub proof fn only_doc_build_is_cached(action: DocAction, resolution: ResolutionView, entry: Seq<char>)
    ensures
        (doc_plan_view(action, resolution, entry).cache is Disabled) <==> action != DocAction::Build,
{
}

/// The `dev` and `preview` servers are never cached.
pub proof fn servers_are_never_cached(
    subcommand: SynthesizableSubcommand,
    js: Seq<char>,
    config: (bool, bool, Option<Seq<char>>),
    prepend_run: bool,
)
    requires
        subcommand is Dev || subcommand is Preview,
    ensures
        tool_plan_view(subcommand, js, config, prepend_run).cache is Disabled,
{
}

/// The string form of `defaultPackage` covers the app commands and never
/// redirects `doc`.
pub proof fn string_default_package_never_redirects_doc(facts: DocRootFacts)
    requires
        facts.default_package matches Some(FieldValue::Json(JsonValue::String(_))),
    ensures
        !(doc_root_outcome(facts) matches Some(DocClassView::Redirect(_))),
{
}

/// Below a workspace root the invocation directory already identifies the
/// target: neither `defaultPackage` nor a picker applies, for the app
/// commands and for `vp doc`.
pub proof fn members_run_in_place(
    subcommand: SynthesizableSubcommand,
    facts: AppFacts,
    doc_facts: DocRootFacts,
)
    requires
        facts.workspace matches Some(shape) && !shape.at_root,
        doc_facts.workspace matches Some(shape) && !shape.at_root,
    ensures
        classify_outcome(subcommand, facts) is RunInPlace,
        doc_root_outcome(doc_facts) == Some(DocClassView::RunInPlace),
{
}

/// A string `defaultPackage` at the invocation root redirects every bare
/// app command to the named directory.
pub proof fn string_default_package_applies_to_every_app_command(
    subcommand: SynthesizableSubcommand,
    facts: AppFacts,
)
    requires
        app_command_name(subcommand) is Some,
        classify_from(
            app_command_name(subcommand)->0,
            strings_view(subcommand_args(subcommand)),
            0,
        ) is Bare,
        crate::target::at_invocation_root(facts.workspace),
        facts.default_package matches Some(FieldValue::Json(JsonValue::String(_))),
    ensures
        classify_outcome(subcommand, facts) == ClassView::ElicitDefault(
            app_command_name(subcommand)->0,
            facts.default_package->0,
        ),
{
}

/// A workspace root that looks runnable for the command runs it in place,
/// with or without a terminal; elicitation only adds a target where the
/// root is not one.
pub proof fn runnable_workspace_root_runs_in_place(
    subcommand: SynthesizableSubcommand,
    facts: AppFacts,
)
    requires
        app_command_name(subcommand) is Some,
        facts.default_package is None,
        facts.workspace is Some,
        root_runnable(facts.root, app_command_name(subcommand)->0),
    ensures
        classify_outcome(subcommand, facts) is RunInPlace,
{
}

/// Help and version requests are answered by the underlying tool and are
/// never redirected.
pub proof fn help_requests_are_never_bare(command: Seq<char>, args: Seq<Seq<char>>)
    requires
        args.len() > 0,
        is_help_or_version(args[0]),
    ensures
        classify_from(command, args, 0) is Explicit,
{
    reveal_strlit("-h");
    reveal_strlit("--help");
    reveal_strlit("-v");
    reveal_strlit("--version");
    assert(is_option(args[0]));
}

proof fn lemma_by_path_strict()
    ensures
        strict_order(by_path()),
{
    assert forall|a: CandidateView| !#[trigger] (by_path())(a, a) by {
        lemma_text_lt_irreflexive(a.path);
    }
    assert forall|a: CandidateView, b: CandidateView, c: CandidateView|
        #[trigger] (by_path())(a, b) && #[trigger] (by_path())(b, c) implies (by_path())(a, c) by {
        lemma_text_lt_transitive(a.path, b.path, c.path);
    }
}

proof fn lemma_by_rank_strict()
    ensures
        strict_order(by_rank()),
{
    assert forall|a: RowView| !#[trigger] (by_rank())(a, a) by {
        lemma_text_lt_irreflexive(a.path);
    }
    assert forall|a: RowView, b: RowView, c: RowView|
        #[trigger] (by_rank())(a, b) && #[trigger] (by_rank())(b, c) implies (by_rank())(a, c) by {
        if a.runnable == b.runnable && b.runnable == c.runnable {
            lemma_text_lt_transitive(a.path, b.path, c.path);
        }
    }
}

/// The documentation-package candidates are listed in path order, each
/// marker-declaring member exactly once.
pub proof fn doc_candidates_are_listed_by_path(members: Seq<DocMember>)
    ensures
        doc_members_outcome(members) matches DocClassView::Elicit(rows) ==> sorted_by(
            rows,
            by_path(),
        ) && rows.to_multiset() == candidates(members).to_multiset(),
{
    lemma_by_path_strict();
    lemma_insertion_sort_sorted(candidates(members), by_path());
    lemma_insertion_sort_permutes(candidates(members), by_path());
}

/// The package rows list every member but the root exactly once, the
/// likely-runnable ones first, each group in path order.
pub proof fn package_rows_list_runnable_first(members: Seq<PackageMember>, command: Seq<char>)
    ensures
        ({
            let rows = insertion_sort(rows_of(members, command), by_rank());
            &&& sorted_by(rows, by_rank())
            &&& rows.to_multiset() == rows_of(members, command).to_multiset()
            &&& forall|i: int, j: int|
                0 <= i < j < rows.len() && (#[trigger] rows[j]).runnable ==> (
                #[trigger] rows[i]).runnable
        }),
{
    let rows = insertion_sort(rows_of(members, command), by_rank());
    lemma_by_rank_strict();
    lemma_insertion_sort_sorted(rows_of(members, command), by_rank());
    lemma_insertion_sort_permutes(rows_of(members, command), by_rank());
    assert forall|i: int, j: int| 0 <= i < j < rows.len() && (#[trigger] rows[j]).runnable implies (
    #[trigger] rows[i]).runnable by {
        assert(!(by_rank())(rows[j], rows[i]));
    }
}

/// A file-existence native-config check passes as soon as any listed file
/// is present, and fails exactly when none of them is.
pub proof fn any_listed_config_file_satisfies_the_check(
    p: ProviderView,
    names: Seq<Seq<char>>,
    present: Seq<bool>,
    vite_config: Option<Seq<char>>,
)
    requires
        p.native_config == Some(crate::providers::NativeConfigView::FileExists(names)),
        present.len() == names.len(),
    ensures
        forall|i: int|
            0 <= i < names.len() && #[trigger] present[i] ==> crate::resolve::native_outcome(
                p,
                present,
                vite_config,
            ) is Ok,
        crate::resolve::native_outcome(p, present, vite_config) is Err <==> forall|i: int|
            0 <= i < names.len() ==> !#[trigger] present[i],
{
}

/// The root runs `pack` when tsdown's default entry exists or its config
/// declares a `pack` block; `build` when it has an `index.html` or declares
/// a `build` block; an `index.html` makes it runnable for every command.
pub proof fn declared_blocks_make_the_root_runnable(facts: crate::target::RootFacts, command: Seq<char>)
    ensures
        facts.declares_pack ==> root_runnable(facts, "pack"@),
        facts.src_index_ts ==> root_runnable(facts, "pack"@),
        facts.declares_build ==> root_runnable(facts, "build"@),
        facts.index_html && command != "pack"@ ==> root_runnable(facts, command),
        !facts.index_html && !facts.declares_build ==> !root_runnable(facts, "build"@),
        !facts.src_index_ts && !facts.declares_pack ==> !root_runnable(facts, "pack"@),
{
    reveal_strlit("build");
    reveal_strlit("pack");
    assert("build"@ != "pack"@) by {
        assert("build"@[0] != "pack"@[0]);
    }
}

/// A bare `vp pack` at a real workspace root without `defaultPackage`
/// runs in place when the root config declares a `pack` block.
pub proof fn a_declared_pack_block_runs_pack_at_the_root(args: Vec<String>, facts: AppFacts)
    requires
        classify_from("pack"@, strings_view(args@), 0) is Bare,
        facts.workspace == Some(crate::target::WorkspaceShape { at_root: true, is_workspace: true }),
        facts.default_package is None,
        facts.root.declares_pack,
    ensures
        classify_outcome(SynthesizableSubcommand::Pack { args }, facts) == ClassView::RunInPlace(true),
{
}

/// The fmt plan passes `-c <file>` exactly when the Vite config declares a
/// `fmt` block and names its file, whatever it declares for lint; the lint
/// plan likewise depends only on the `lint` block.
pub proof fn each_tool_reads_only_its_own_block(
    args: Vec<String>,
    js: Seq<char>,
    lint: bool,
    fmt: bool,
    config_file: Option<Seq<char>>,
    prepend_run: bool,
)
    ensures
        tool_plan_view(
            SynthesizableSubcommand::Fmt { args },
            js,
            (lint, fmt, config_file),
            prepend_run,
        ).args == (if fmt && config_file is Some {
            seq![js, "-c"@, config_file->0]
        } else {
            seq![js]
        }) + strings_view(args@),
        tool_plan_view(
            SynthesizableSubcommand::Lint { args },
            js,
            (lint, fmt, config_file),
            prepend_run,
        ).args == (if lint && config_file is Some {
            seq!["--disable-warning=MODULE_TYPELESS_PACKAGE_JSON"@, js, "-c"@, config_file->0]
        } else {
            seq!["--disable-warning=MODULE_TYPELESS_PACKAGE_JSON"@, js]
        }) + strings_view(args@),
{
    assert(seq![js] + crate::resolver::config_flag(fmt, config_file) =~= (if fmt
        && config_file is Some {
        seq![js, "-c"@, config_file->0]
    } else {
        seq![js]
    }));
    assert(seq!["--disable-warning=MODULE_TYPELESS_PACKAGE_JSON"@, js] + crate::resolver::config_flag(
        lint,
        config_file,
    ) =~= (if lint && config_file is Some {
        seq!["--disable-warning=MODULE_TYPELESS_PACKAGE_JSON"@, js, "-c"@, config_file->0]
    } else {
        seq!["--disable-warning=MODULE_TYPELESS_PACKAGE_JSON"@, js]
    }));
}

/// `vp doc info` reports an installed marker version as supported exactly
/// when the version gate of the actions lets it run silently: an
/// above-range version that runs with a warning is not supported.
pub proof fn supported_exactly_when_the_gate_is_silent(
    p: ProviderView,
    source: SelectionSource,
    marker: crate::detect::InstalledPackage,
    execution: Option<crate::detect::InstalledPackage>,
)
    requires
        crate::detect::manifest_version(marker.package_json) is Some,
    ensures
        crate::info::resolved_view(p, source, Some(marker), execution).supported <==> version_gate(
            p,
            crate::detect::manifest_version(marker.package_json),
        ) == Ok::<Option<Seq<char>>, Option<Seq<char>>>(None),
{
}

/// Registry commands run through npm outside a project; only the
/// project-bound `vp pm` subcommands (and `stage publish`) require one.
pub proof fn registry_commands_fall_back_to_npm(c: crate::dispatch::PmCommand)
    ensures
        (c is View || c is Owner || c is Cache || c is Config || c is Login || c is Logout
            || c is Whoami || c is Token || c is DistTag || c is Deprecate || c is Search
            || c is Ping || (c is Stage && c != crate::dispatch::PmCommand::Stage(
            crate::dispatch::StageCommand::Publish,
        ))) ==> crate::dispatch::pm_policy(c) == crate::dispatch::ManagerPolicy::AllowNpmFallback
            && crate::dispatch::policy(crate::dispatch::PackageManagerCommand::Pm(c))
            == crate::dispatch::ManagerPolicy::AllowNpmFallback,
        (c is Ci || c is ApproveBuilds || c is Prune || c is Patch || c is PatchCommit
            || c is Pack || c is List || c is Version || c is Publish || c is Rebuild || c is Fund
            || c is Audit || c == crate::dispatch::PmCommand::Stage(
            crate::dispatch::StageCommand::Publish,
        )) ==> crate::dispatch::pm_policy(c) == crate::dispatch::ManagerPolicy::RequireProject,
{
}

} // verus!
