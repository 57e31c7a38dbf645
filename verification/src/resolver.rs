//! Resolution of synthesizable subcommands to a concrete program, arguments,
//! cache configuration and environment policy. The host supplies each
//! tool's JS entry (and, for lint/fmt, the universal Vite config) between
//! the steps; this module decides what runs.

use vstd::prelude::*;
use vstd::string::*;

use crate::cli::{DocAction, DocInvocation, DocRequest, InvocationView, doc_args_outcome,
    parse_doc_args};
use crate::error::Error;
use crate::resolve::{DocExecution, DocResolution, ResolutionView, SelectionSource};
use crate::target::{SynthesizableSubcommand, subcommand_args};
use crate::text::strings_view;

verus! {

/// The host resolver that supplies a subcommand's JS entry.
#[derive(Debug, Clone, Copy, PartialEq, Eq, Structural)]
pub enum ToolKind {
    Lint,
    Fmt,
    Vite,
    Test,
    Pack,
}

impl ToolKind {
    /// The tool's name in diagnostics.
    pub fn as_str(self) -> (r: &'static str)
        ensures
            r@ == tool_name(self),
    {
        match self {
            ToolKind::Lint => "lint",
            ToolKind::Fmt => "fmt",
            ToolKind::Vite => "vite",
            ToolKind::Test => "test",
            ToolKind::Pack => "pack",
        }
    }
}

pub open spec fn tool_name(kind: ToolKind) -> Seq<char> {
    match kind {
        ToolKind::Lint => "lint"@,
        ToolKind::Fmt => "fmt"@,
        ToolKind::Vite => "vite"@,
        ToolKind::Test => "test"@,
        ToolKind::Pack => "pack"@,
    }
}

/// The tool behind a single-tool subcommand; `None` for `doc` (provider
/// resolution) and `check` (a composite command).
pub open spec fn tool_of(subcommand: SynthesizableSubcommand) -> Option<ToolKind> {
    match subcommand {
        SynthesizableSubcommand::Lint { .. } => Some(ToolKind::Lint),
        SynthesizableSubcommand::Fmt { .. } => Some(ToolKind::Fmt),
        SynthesizableSubcommand::Build { .. } => Some(ToolKind::Vite),
        SynthesizableSubcommand::Test { .. } => Some(ToolKind::Test),
        SynthesizableSubcommand::Pack { .. } => Some(ToolKind::Pack),
        SynthesizableSubcommand::Dev { .. } => Some(ToolKind::Vite),
        SynthesizableSubcommand::Preview { .. } => Some(ToolKind::Vite),
        SynthesizableSubcommand::Doc { .. } => None,
        SynthesizableSubcommand::Check { .. } => None,
    }
}

/// Where a cache input pattern is anchored.
#[derive(Debug, Clone, Copy, PartialEq, Eq, Structural)]
pub enum InputBase {
    Package,
    Workspace,
}

/// One entry of a cache fingerprint's inputs.
#[derive(Debug)]
pub enum CacheInput {
    /// Automatic input tracking.
    Auto,
    /// A negative glob excluded from fingerprinting.
    Exclude { pattern: &'static str, base: InputBase },
}

pub enum CacheInputView {
    Auto,
    Exclude(Seq<char>, InputBase),
}

impl View for CacheInput {
    type V = CacheInputView;

    open spec fn view(&self) -> CacheInputView {
        match self {
            CacheInput::Auto => CacheInputView::Auto,
            CacheInput::Exclude { pattern, base } => CacheInputView::Exclude(pattern@, *base),
        }
    }
}

/// The cache configuration of a resolved subcommand. An enabled cache keeps
/// untracked envs and outputs unset (automatic output inference).
#[derive(Debug)]
pub enum CachePolicy {
    Disabled,
    Enabled { env: Option<Vec<&'static str>>, input: Option<Vec<CacheInput>> },
}

pub enum CacheView {
    Disabled,
    Enabled { env: Option<Seq<Seq<char>>>, input: Option<Seq<CacheInputView>> },
}

impl View for CachePolicy {
    type V = CacheView;

    open spec fn view(&self) -> CacheView {
        match self {
            CachePolicy::Disabled => CacheView::Disabled,
            CachePolicy::Enabled { env, input } => CacheView::Enabled {
                env: match env {
                    Some(names) => Some(names@.map_values(|n: &str| n@)),
                    None => None,
                },
                input: match input {
                    Some(entries) => Some(entries@.map_values(|e: CacheInput| e@)),
                    None => None,
                },
            },
        }
    }
}

/// How the subcommand's environment is built from the caller's envs. An
/// entry never overrides a variable the caller already has.
#[derive(Debug)]
pub enum EnvPlan {
    /// Add the envs the tool resolver returned; `with_version` also adds
    /// `VP_VERSION`.
    ToolEnvs { with_version: bool },
    /// Add these entries.
    Entries(Vec<(&'static str, &'static str)>),
}

pub enum EnvView {
    ToolEnvs(bool),
    Entries(Seq<(Seq<char>, Seq<char>)>),
}

impl View for EnvPlan {
    type V = EnvView;

    open spec fn view(&self) -> EnvView {
        match self {
            EnvPlan::ToolEnvs { with_version } => EnvView::ToolEnvs(*with_version),
            EnvPlan::Entries(entries) => EnvView::Entries(
                entries@.map_values(|e: (&str, &str)| (e.0@, e.1@)),
            ),
        }
    }
}

/// A subcommand resolved to a concrete program.
#[derive(Debug)]
pub struct CommandPlan {
    pub program: &'static str,
    pub args: Vec<String>,
    pub cache: CachePolicy,
    pub env: EnvPlan,
}

pub struct PlanView {
    pub program: Seq<char>,
    pub args: Seq<Seq<char>>,
    pub cache: CacheView,
    pub env: EnvView,
}

impl View for CommandPlan {
    type V = PlanView;

    open spec fn view(&self) -> PlanView {
        PlanView {
            program: self.program@,
            args: strings_view(self.args@),
            cache: self.cache@,
            env: self.env@,
        }
    }
}

/// The parts of the resolved universal Vite config that lint and fmt read:
/// whether each declares its block, and the config file.
#[derive(Debug)]
pub struct ToolConfig {
    pub lint: bool,
    pub fmt: bool,
    pub config_file: Option<String>,
}

/// What the host must do next for a subcommand.
#[derive(Debug)]
pub enum ResolveStep {
    /// Ask this tool resolver for its JS entry (lint and fmt also need the
    /// universal Vite config), then call [`tool_plan`].
    Tool(ToolKind),
    /// Resolve this doc action's provider, then call [`doc_plan`].
    Doc(DocRequest),
}

pub enum StepView {
    Tool(ToolKind),
    Doc(DocAction, Seq<Seq<char>>),
}

impl View for ResolveStep {
    type V = StepView;

    open spec fn view(&self) -> StepView {
        match self {
            ResolveStep::Tool(kind) => StepView::Tool(*kind),
            ResolveStep::Doc(request) => StepView::Doc(request.action, strings_view(request.args@)),
        }
    }
}

pub open spec fn composite_text() -> Seq<char> {
    "Check is a composite command and cannot be resolved to a single subcommand"@
}

pub open spec fn init_in_task_text() -> Seq<char> {
    "`vp doc init` runs directly, not inside `vp run`"@
}

pub open spec fn info_in_task_text() -> Seq<char> {
    "`vp doc info` runs directly, not inside `vp run`"@
}

/// The first step of a subcommand's resolution. A doc invocation that is
/// not an action fails: the direct path handles `init` and `info` before
/// resolution, so reaching them here means a task script.
pub open spec fn step_outcome(subcommand: SynthesizableSubcommand) -> Result<StepView, Seq<char>> {
    match tool_of(subcommand) {
        Some(kind) => Ok(StepView::Tool(kind)),
        None => match subcommand {
            SynthesizableSubcommand::Doc { args } => match doc_args_outcome(
                strings_view(args@),
            ) {
                Ok(InvocationView::Action(action, forwarded)) => Ok(
                    StepView::Doc(action, forwarded),
                ),
                Ok(InvocationView::Init(_)) => Err(init_in_task_text()),
                Ok(InvocationView::Info(_)) => Err(info_in_task_text()),
                Err(Some(message)) => Err(message),
                Err(None) => Err(Seq::empty()),
            },
            _ => Err(composite_text()),
        },
    }
}

/// The first step of resolving a subcommand.
pub fn resolve_step(subcommand: &SynthesizableSubcommand) -> (r: Result<ResolveStep, String>)
    ensures
        match (r, step_outcome(*subcommand)) {
            (Ok(step), Ok(view)) => step@ == view,
            (Err(message), Err(text)) => message@ == text,
            _ => false,
        },
{
    match subcommand {
        SynthesizableSubcommand::Lint { .. } => Ok(ResolveStep::Tool(ToolKind::Lint)),
        SynthesizableSubcommand::Fmt { .. } => Ok(ResolveStep::Tool(ToolKind::Fmt)),
        SynthesizableSubcommand::Build { .. } => Ok(ResolveStep::Tool(ToolKind::Vite)),
        SynthesizableSubcommand::Test { .. } => Ok(ResolveStep::Tool(ToolKind::Test)),
        SynthesizableSubcommand::Pack { .. } => Ok(ResolveStep::Tool(ToolKind::Pack)),
        SynthesizableSubcommand::Dev { .. } => Ok(ResolveStep::Tool(ToolKind::Vite)),
        SynthesizableSubcommand::Preview { .. } => Ok(ResolveStep::Tool(ToolKind::Vite)),
        SynthesizableSubcommand::Doc { args } => {
            let parsed = parse_doc_args(args.as_slice());
            match parsed {
                Ok(DocInvocation::Action(request)) => Ok(ResolveStep::Doc(request)),
                Ok(DocInvocation::Init { .. }) => Err(
                    String::from_str("`vp doc init` runs directly, not inside `vp run`"),
                ),
                Ok(DocInvocation::Info { .. }) => Err(
                    String::from_str("`vp doc info` runs directly, not inside `vp run`"),
                ),
                Err(Error::UserMessage(message)) => Err(message),
                Err(Error::Json(message)) => Err(message),
                Err(Error::Io(_)) => Err(String::new()),
            }
        },
        SynthesizableSubcommand::Check { .. } => Err(
            String::from_str(
                "Check is a composite command and cannot be resolved to a single subcommand",
            ),
        ),
    }
}

/// `prefix` followed by the forwarded arguments.
pub open spec fn with_args(prefix: Seq<Seq<char>>, args: Seq<String>) -> Seq<Seq<char>> {
    prefix + strings_view(args)
}

pub open spec fn enabled_cache() -> CacheView {
    CacheView::Enabled { env: None, input: None }
}

/// The test cache excludes vitest's own results file from fingerprinting.
pub open spec fn test_inputs() -> Seq<CacheInputView> {
    seq![
        CacheInputView::Auto,
        CacheInputView::Exclude("!node_modules/.vite/vitest/**/results.json"@, InputBase::Package),
    ]
}

/// The pack cache excludes the `dist` output that pack both reads and
/// writes.
pub open spec fn pack_inputs() -> Seq<CacheInputView> {
    seq![CacheInputView::Auto, CacheInputView::Exclude("!dist/**"@, InputBase::Package)]
}

/// The check cache excludes the task runner's own state files, which change
/// after each run, at both anchors.
pub open spec fn check_inputs() -> Seq<CacheInputView> {
    seq![
        CacheInputView::Auto,
        CacheInputView::Exclude("!node_modules/.vite/task-cache/**"@, InputBase::Workspace),
        CacheInputView::Exclude("!node_modules/.vite/task-cache/**"@, InputBase::Package),
    ]
}

/// The `-c <config file>` prefix for lint or fmt when the Vite config
/// declares the tool's block and names its file.
pub open spec fn config_flag(declared: bool, config_file: Option<Seq<char>>) -> Seq<Seq<char>> {
    match config_file {
        Some(file) => if declared {
            seq!["-c"@, file]
        } else {
            Seq::empty()
        },
        None => Seq::empty(),
    }
}

pub open spec fn config_view(config: ToolConfig) -> (bool, bool, Option<Seq<char>>) {
    (
        config.lint,
        config.fmt,
        match config.config_file {
            Some(file) => Some(file@),
            None => None,
        },
    )
}

/// The plan of a single-tool subcommand given the tool's JS entry, the
/// lint/fmt config (ignored by the other tools) and whether `vitest run`
/// is prepended.
pub open spec fn tool_plan_view(
    subcommand: SynthesizableSubcommand,
    js: Seq<char>,
    config: (bool, bool, Option<Seq<char>>),
    prepend_run: bool,
) -> PlanView {
    let args = subcommand_args(subcommand);
    match subcommand {
        SynthesizableSubcommand::Lint { .. } => PlanView {
            program: "node"@,
            args: with_args(
                seq!["--disable-warning=MODULE_TYPELESS_PACKAGE_JSON"@, js] + config_flag(
                    config.0,
                    config.2,
                ),
                args,
            ),
            cache: CacheView::Enabled { env: Some(seq!["OXLINT_TSGOLINT_PATH"@]), input: None },
            env: EnvView::ToolEnvs(true),
        },
        SynthesizableSubcommand::Fmt { .. } => PlanView {
            program: "node"@,
            args: with_args(seq![js] + config_flag(config.1, config.2), args),
            cache: enabled_cache(),
            env: EnvView::ToolEnvs(true),
        },
        SynthesizableSubcommand::Build { .. } => PlanView {
            program: "node"@,
            args: with_args(seq![js, "build"@], args),
            cache: enabled_cache(),
            env: EnvView::ToolEnvs(true),
        },
        SynthesizableSubcommand::Test { .. } => PlanView {
            program: "node"@,
            args: with_args(
                if prepend_run {
                    seq![js, "run"@]
                } else {
                    seq![js]
                },
                args,
            ),
            cache: CacheView::Enabled { env: None, input: Some(test_inputs()) },
            env: EnvView::ToolEnvs(true),
        },
        SynthesizableSubcommand::Pack { .. } => PlanView {
            program: "node"@,
            args: with_args(seq![js], args),
            cache: CacheView::Enabled { env: None, input: Some(pack_inputs()) },
            env: EnvView::ToolEnvs(false),
        },
        SynthesizableSubcommand::Dev { .. } => PlanView {
            program: "node"@,
            args: with_args(seq![js, "dev"@], args),
            cache: CacheView::Disabled,
            env: EnvView::ToolEnvs(true),
        },
        _ => PlanView {
            program: "node"@,
            args: with_args(seq![js, "preview"@], args),
            cache: CacheView::Disabled,
            env: EnvView::ToolEnvs(true),
        },
    }
}

/// Owned strings for the prefix, followed by clones of `args`.
fn args_with_prefix(prefix: Vec<String>, args: &Vec<String>) -> (r: Vec<String>)
    ensures
        strings_view(r@) == strings_view(prefix@) + strings_view(args@),
{
    let mut r = prefix;
    let ghost start = strings_view(r@);
    let mut i: usize = 0;
    while i < args.len()
        invariant
            i <= args@.len(),
            strings_view(r@) == start + strings_view(args@.take(i as int)),
        decreases args@.len() - i,
    {
        let ghost prev = r@;
        r.push(args[i].clone());
        proof {
            assert(strings_view(r@) =~= strings_view(prev).push(args@[i as int]@));
            assert(strings_view(args@.take(i + 1)) =~= strings_view(args@.take(i as int)).push(
                args@[i as int]@,
            ));
        }
        i += 1;
    }
    proof {
        assert(args@.take(args@.len() as int) =~= args@);
    }
    r
}

fn owned(s: &str) -> (r: String)
    ensures
        r@ == s@,
{
    String::from_str(s)
}

/// Push `-c <file>` when the tool's block is declared and the file known.
fn push_config_flag(prefix: &mut Vec<String>, declared: bool, config_file: &Option<String>)
    ensures
        strings_view(final(prefix)@) == strings_view(old(prefix)@) + config_flag(
            declared,
            match config_file {
                Some(file) => Some(file@),
                None => None,
            },
        ),
{
    if declared {
        if let Some(file) = config_file {
            let ghost prev = prefix@;
            prefix.push(owned("-c"));
            prefix.push(file.clone());
            proof {
                assert(strings_view(prefix@) =~= strings_view(prev) + seq!["-c"@, file@]);
            }
            return;
        }
    }
    proof {
        assert(strings_view(prefix@) =~= strings_view(prefix@) + Seq::<Seq<char>>::empty());
    }
}

fn test_cache_inputs() -> (r: Vec<CacheInput>)
    ensures
        r@.map_values(|e: CacheInput| e@) == test_inputs(),
{
    let r = vec![
        CacheInput::Auto,
        CacheInput::Exclude {
            pattern: "!node_modules/.vite/vitest/**/results.json",
            base: InputBase::Package,
        },
    ];
    proof {
        assert(r@.map_values(|e: CacheInput| e@) =~= test_inputs());
    }
    r
}

fn pack_cache_inputs() -> (r: Vec<CacheInput>)
    ensures
        r@.map_values(|e: CacheInput| e@) == pack_inputs(),
{
    let r = vec![
        CacheInput::Auto,
        CacheInput::Exclude { pattern: "!dist/**", base: InputBase::Package },
    ];
    proof {
        assert(r@.map_values(|e: CacheInput| e@) =~= pack_inputs());
    }
    r
}

/// Cache input entries for the check command: its subprocess is a full vp
/// CLI process that also reads the task runner's state directory.
pub fn check_cache_inputs() -> (r: Vec<CacheInput>)
    ensures
        r@.map_values(|e: CacheInput| e@) == check_inputs(),
{
    let r = vec![
        CacheInput::Auto,
        CacheInput::Exclude {
            pattern: "!node_modules/.vite/task-cache/**",
            base: InputBase::Workspace,
        },
        CacheInput::Exclude {
            pattern: "!node_modules/.vite/task-cache/**",
            base: InputBase::Package,
        },
    ];
    proof {
        assert(r@.map_values(|e: CacheInput| e@) =~= check_inputs());
    }
    r
}

/// The plan of a single-tool subcommand, once the host supplied the tool's
/// JS entry. `config` is the universal Vite config, required for lint and
/// fmt and ignored by the others; `prepend_run` says whether the test
/// arguments need vitest's `run` subcommand.
pub fn tool_plan(
    subcommand: &SynthesizableSubcommand,
    js_path: &str,
    config: Option<&ToolConfig>,
    prepend_run: bool,
) -> (r: CommandPlan)
    requires
        tool_of(*subcommand) is Some,
        (tool_of(*subcommand) == Some(ToolKind::Lint) || tool_of(*subcommand) == Some(
            ToolKind::Fmt,
        )) ==> config is Some,
    ensures
        r@ == tool_plan_view(
            *subcommand,
            js_path@,
            match config {
                Some(c) => config_view(*c),
                None => (false, false, None),
            },
            prepend_run,
        ),
{
    let ghost cv = match config {
        Some(c) => config_view(*c),
        None => (false, false, None),
    };
    let mut prefix: Vec<String> = Vec::new();
    match subcommand {
        SynthesizableSubcommand::Lint { args } => {
            let c = config.unwrap();
            prefix.push(owned("--disable-warning=MODULE_TYPELESS_PACKAGE_JSON"));
            prefix.push(owned(js_path));
            proof {
                assert(strings_view(prefix@) =~= seq![
                    "--disable-warning=MODULE_TYPELESS_PACKAGE_JSON"@,
                    js_path@,
                ]);
            }
            push_config_flag(&mut prefix, c.lint, &c.config_file);
            let out = args_with_prefix(prefix, args);
            let env = vec!["OXLINT_TSGOLINT_PATH"];
            proof {
                assert(env@.map_values(|n: &str| n@) =~= seq!["OXLINT_TSGOLINT_PATH"@]);
            }
            CommandPlan {
                program: "node",
                args: out,
                cache: CachePolicy::Enabled { env: Some(env), input: None },
                env: EnvPlan::ToolEnvs { with_version: true },
            }
        },
        SynthesizableSubcommand::Fmt { args } => {
            let c = config.unwrap();
            prefix.push(owned(js_path));
            proof {
                assert(strings_view(prefix@) =~= seq![js_path@]);
            }
            push_config_flag(&mut prefix, c.fmt, &c.config_file);
            let out = args_with_prefix(prefix, args);
            CommandPlan {
                program: "node",
                args: out,
                cache: CachePolicy::Enabled { env: None, input: None },
                env: EnvPlan::ToolEnvs { with_version: true },
            }
        },
        SynthesizableSubcommand::Build { args } => {
            prefix.push(owned(js_path));
            prefix.push(owned("build"));
            proof {
                assert(strings_view(prefix@) =~= seq![js_path@, "build"@]);
            }
            CommandPlan {
                program: "node",
                args: args_with_prefix(prefix, args),
                cache: CachePolicy::Enabled { env: None, input: None },
                env: EnvPlan::ToolEnvs { with_version: true },
            }
        },
        SynthesizableSubcommand::Test { args } => {
            prefix.push(owned(js_path));
            if prepend_run {
                prefix.push(owned("run"));
                proof {
                    assert(strings_view(prefix@) =~= seq![js_path@, "run"@]);
                }
            } else {
                proof {
                    assert(strings_view(prefix@) =~= seq![js_path@]);
                }
            }
            CommandPlan {
                program: "node",
                args: args_with_prefix(prefix, args),
                cache: CachePolicy::Enabled { env: None, input: Some(test_cache_inputs()) },
                env: EnvPlan::ToolEnvs { with_version: true },
            }
        },
        SynthesizableSubcommand::Pack { args } => {
            prefix.push(owned(js_path));
            proof {
                assert(strings_view(prefix@) =~= seq![js_path@]);
            }
            CommandPlan {
                program: "node",
                args: args_with_prefix(prefix, args),
                cache: CachePolicy::Enabled { env: None, input: Some(pack_cache_inputs()) },
                env: EnvPlan::ToolEnvs { with_version: false },
            }
        },
        SynthesizableSubcommand::Dev { args } => {
            prefix.push(owned(js_path));
            prefix.push(owned("dev"));
            proof {
                assert(strings_view(prefix@) =~= seq![js_path@, "dev"@]);
            }
            CommandPlan {
                program: "node",
                args: args_with_prefix(prefix, args),
                cache: CachePolicy::Disabled,
                env: EnvPlan::ToolEnvs { with_version: true },
            }
        },
        SynthesizableSubcommand::Preview { args } => {
            prefix.push(owned(js_path));
            prefix.push(owned("preview"));
            proof {
                assert(strings_view(prefix@) =~= seq![js_path@, "preview"@]);
            }
            CommandPlan {
                program: "node",
                args: args_with_prefix(prefix, args),
                cache: CachePolicy::Disabled,
                env: EnvPlan::ToolEnvs { with_version: true },
            }
        },
        SynthesizableSubcommand::Doc { .. } => {
            proof {
                assert(false);
            }
            CommandPlan {
                program: "node",
                args: Vec::new(),
                cache: CachePolicy::Disabled,
                env: EnvPlan::ToolEnvs { with_version: true },
            }
        },
        SynthesizableSubcommand::Check { .. } => {
            proof {
                assert(false);
            }
            CommandPlan {
                program: "node",
                args: Vec::new(),
                cache: CachePolicy::Disabled,
                env: EnvPlan::ToolEnvs { with_version: true },
            }
        },
    }
}

/// Only `doc build` is a cacheable batch operation; the servers stay
/// uncached like `dev` and `preview`.
pub open spec fn doc_cache(action: DocAction) -> CacheView {
    if action == DocAction::Build {
        enabled_cache()
    } else {
        CacheView::Disabled
    }
}

/// The plan of a resolved doc action. `entry` is the executable the host
/// located: the package bin file for a package-bin target, the bundled
/// Vite JS entry for the built-in Vite target.
pub open spec fn doc_plan_view(action: DocAction, resolution: ResolutionView, entry: Seq<char>) -> PlanView {
    match resolution {
        ResolutionView::PackageBin { args, .. } => PlanView {
            program: "node"@,
            args: seq![entry] + args,
            cache: doc_cache(action),
            env: EnvView::Entries(seq![("NODE_PACKAGE_MANAGER"@, "vite-plus"@)]),
        },
        ResolutionView::BuiltinVite { args } => PlanView {
            program: "node"@,
            args: seq![entry] + args,
            cache: doc_cache(action),
            env: EnvView::ToolEnvs(true),
        },
    }
}

/// The plan of a resolved doc action.
pub fn doc_plan(action: DocAction, resolution: &DocResolution, entry: &str) -> (r: CommandPlan)
    ensures
        r@ == doc_plan_view(action, resolution@, entry@),
{
    let cache = if action.is_server() {
        CachePolicy::Disabled
    } else {
        CachePolicy::Enabled { env: None, input: None }
    };
    let mut prefix: Vec<String> = Vec::new();
    prefix.push(owned(entry));
    proof {
        assert(strings_view(prefix@) =~= seq![entry@]);
    }
    match resolution {
        DocResolution::PackageBin { args, .. } => {
            let entries = vec![("NODE_PACKAGE_MANAGER", "vite-plus")];
            proof {
                assert(entries@.map_values(|e: (&str, &str)| (e.0@, e.1@)) =~= seq![
                    ("NODE_PACKAGE_MANAGER"@, "vite-plus"@),
                ]);
            }
            CommandPlan {
                program: "node",
                args: args_with_prefix(prefix, args),
                cache,
                env: EnvPlan::Entries(entries),
            }
        },
        DocResolution::BuiltinVite { args } => CommandPlan {
            program: "node",
            args: args_with_prefix(prefix, args),
            cache,
            env: EnvPlan::ToolEnvs { with_version: true },
        },
    }
}

pub open spec fn marker_notice_text(id: Seq<char>, marker: Seq<char>) -> Seq<char> {
    "Using provider `"@ + id + "` (dependency marker `"@ + marker + "` in package.json)"@
}

/// When dependency detection made the selection, the line that names the
/// marker before delegation; selections from `doc.provider` stay silent.
pub fn selection_notice(execution: &DocExecution) -> (r: Option<String>)
    ensures
        match r {
            Some(text) => execution.source == SelectionSource::Marker && text@ == marker_notice_text(
                execution.provider@.id,
                execution.provider@.marker,
            ),
            None => execution.source != SelectionSource::Marker,
        },
{
    match execution.source {
        SelectionSource::Marker => {
            let mut text = owned("Using provider `");
            text.append(execution.provider.id);
            text.append("` (dependency marker `");
            text.append(execution.provider.marker);
            text.append("` in package.json)");
            Some(text)
        },
        _ => None,
    }
}

} // verus!
