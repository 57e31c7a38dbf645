//! Target elicitation decisions for bare app commands at a workspace root:
//! which arguments target a command, how `defaultPackage` applies to one
//! command, and the likely-runnable heuristic.

use vstd::prelude::*;
use vstd::string::*;

use crate::cli::{DocInvocation, InvocationView, doc_args_outcome, is_option, parse_doc_args};
use crate::json::{JsonValue, entries_get};
use crate::text::{starts_with, starts_with_seq, str_eq, strings_view};

verus! {

/// A subcommand that resolves to a single tool invocation.
#[derive(Debug)]
pub enum SynthesizableSubcommand {
    Lint { args: Vec<String> },
    Fmt { args: Vec<String> },
    Build { args: Vec<String> },
    Test { args: Vec<String> },
    Pack { args: Vec<String> },
    Dev { args: Vec<String> },
    Preview { args: Vec<String> },
    Doc { args: Vec<String> },
    Check { args: Vec<String> },
}

/// The app command name of a subcommand: the single-target subcommands.
pub open spec fn app_command_name(subcommand: SynthesizableSubcommand) -> Option<Seq<char>> {
    match subcommand {
        SynthesizableSubcommand::Dev { .. } => Some("dev"@),
        SynthesizableSubcommand::Build { .. } => Some("build"@),
        SynthesizableSubcommand::Preview { .. } => Some("preview"@),
        SynthesizableSubcommand::Pack { .. } => Some("pack"@),
        _ => None,
    }
}

/// The arguments of a subcommand.
pub open spec fn subcommand_args(subcommand: SynthesizableSubcommand) -> Seq<String> {
    match subcommand {
        SynthesizableSubcommand::Lint { args } => args@,
        SynthesizableSubcommand::Fmt { args } => args@,
        SynthesizableSubcommand::Build { args } => args@,
        SynthesizableSubcommand::Test { args } => args@,
        SynthesizableSubcommand::Pack { args } => args@,
        SynthesizableSubcommand::Dev { args } => args@,
        SynthesizableSubcommand::Preview { args } => args@,
        SynthesizableSubcommand::Doc { args } => args@,
        SynthesizableSubcommand::Check { args } => args@,
    }
}

/// App commands are the single-target subcommands; everything else never
/// goes through elicitation.
pub fn app_command_parts(subcommand: &SynthesizableSubcommand) -> (r: Option<
    (&'static str, &Vec<String>),
>)
    ensures
        match r {
            Some((name, args)) => app_command_name(*subcommand) == Some(name@) && args@
                == subcommand_args(*subcommand),
            None => app_command_name(*subcommand) is None,
        },
{
    match subcommand {
        SynthesizableSubcommand::Dev { args } => Some(("dev", args)),
        SynthesizableSubcommand::Build { args } => Some(("build", args)),
        SynthesizableSubcommand::Preview { args } => Some(("preview", args)),
        SynthesizableSubcommand::Pack { args } => Some(("pack", args)),
        _ => None,
    }
}

/// Boolean flags of the Vite CLI (dev/build/preview). Every other flag
/// consumes a following non-flag token as its value.
pub open spec fn vite_boolean_flags() -> Seq<Seq<char>> {
    seq![
        "-w"@,
        "--watch"@,
        "--app"@,
        "--clearScreen"@,
        "--cors"@,
        "--emptyOutDir"@,
        "--experimentalBundle"@,
        "--force"@,
        "--profile"@,
        "--strictPort"@,
    ]
}

/// Boolean flags of the bundled pack CLI (tsdown).
pub open spec fn pack_boolean_flags() -> Seq<Seq<char>> {
    seq![
        "--attw"@,
        "--clean"@,
        "--devtools"@,
        "--dts"@,
        "--exe"@,
        "--exports"@,
        "--fail-on-warn"@,
        "--failOnWarn"@,
        "--minify"@,
        "--no-write"@,
        "--publint"@,
        "--report"@,
        "--shims"@,
        "--sourcemap"@,
        "--treeshake"@,
        "--unbundle"@,
        "--unused"@,
    ]
}

fn vite_flags() -> (r: Vec<&'static str>)
    ensures
        strs(r@) == vite_boolean_flags(),
{
    let r = vec![
        "-w",
        "--watch",
        "--app",
        "--clearScreen",
        "--cors",
        "--emptyOutDir",
        "--experimentalBundle",
        "--force",
        "--profile",
        "--strictPort",
    ];
    proof {
        assert(strs(r@) =~= vite_boolean_flags());
    }
    r
}

fn pack_flags() -> (r: Vec<&'static str>)
    ensures
        strs(r@) == pack_boolean_flags(),
{
    let r = vec![
        "--attw",
        "--clean",
        "--devtools",
        "--dts",
        "--exe",
        "--exports",
        "--fail-on-warn",
        "--failOnWarn",
        "--minify",
        "--no-write",
        "--publint",
        "--report",
        "--shims",
        "--sourcemap",
        "--treeshake",
        "--unbundle",
        "--unused",
    ];
    proof {
        assert(strs(r@) =~= pack_boolean_flags());
    }
    r
}

pub open spec fn strs(s: Seq<&str>) -> Seq<Seq<char>> {
    s.map_values(|x: &str| x@)
}

/// A help or version request, answered by the underlying tool (cac-based
/// tools use `-v` for version).
pub open spec fn is_help_or_version(arg: Seq<char>) -> bool {
    arg == "-h"@ || arg == "--help"@ || arg == "-v"@ || arg == "--version"@
}

fn help_or_version(arg: &str) -> (r: bool)
    ensures
        r == is_help_or_version(arg@),
{
    str_eq(arg, "-h") || str_eq(arg, "--help") || str_eq(arg, "-v") || str_eq(arg, "--version")
}

/// `arg` is one of `flags`, exactly or in inline `flag=value` form.
pub open spec fn matches_flag(arg: Seq<char>, flags: Seq<Seq<char>>) -> bool {
    exists|i: int|
        0 <= i < flags.len() && (arg == flags[i] || starts_with_seq(arg, flags[i] + "="@))
}

fn matches_flag_exec(arg: &str, flags: &Vec<&'static str>) -> (r: bool)
    ensures
        r == matches_flag(arg@, strs(flags@)),
{
    let mut i: usize = 0;
    while i < flags.len()
        invariant
            i <= flags@.len(),
            forall|j: int|
                0 <= j < i ==> !(arg@ == strs(flags@)[j] || starts_with_seq(
                    arg@,
                    strs(flags@)[j] + "="@,
                )),
        decreases flags@.len() - i,
    {
        let mut with_eq = String::from_str(flags[i]);
        with_eq.append("=");
        if str_eq(arg, flags[i]) || starts_with(arg, with_eq.as_str()) {
            assert(arg@ == strs(flags@)[i as int] || starts_with_seq(
                arg@,
                strs(flags@)[i as int] + "="@,
            ));
            return true;
        }
        i += 1;
    }
    false
}

/// How an app command's arguments target it.
#[derive(Debug)]
pub enum ArgTarget<'a> {
    /// No positional target and no help-like flag: elicitation territory.
    Bare,
    /// The first token the tool would treat as a positional, including one
    /// after a `--` terminator.
    Positional(&'a str),
    /// Explicitly targeted without a positional: forward untouched.
    Explicit,
}

/// The abstract value of an [`ArgTarget`].
pub enum ArgTargetView {
    Bare,
    Positional(Seq<char>),
    Explicit,
}

impl<'a> View for ArgTarget<'a> {
    type V = ArgTargetView;

    open spec fn view(&self) -> ArgTargetView {
        match self {
            ArgTarget::Bare => ArgTargetView::Bare,
            ArgTarget::Positional(token) => ArgTargetView::Positional(token@),
            ArgTarget::Explicit => ArgTargetView::Explicit,
        }
    }
}

/// The boolean flags of a command's tool.
pub open spec fn boolean_flags(command: Seq<char>) -> Seq<Seq<char>> {
    if command == "pack"@ {
        pack_boolean_flags()
    } else {
        vite_boolean_flags()
    }
}

/// The walk of the tools' own cac/mri parsing from token `i`: a non-flag
/// token after a non-boolean flag is that flag's value, while a token
/// after a boolean flag is a positional target.
pub open spec fn classify_from(command: Seq<char>, args: Seq<Seq<char>>, i: int) -> ArgTargetView
    decreases args.len() - i,
{
    if i < 0 || i >= args.len() {
        ArgTargetView::Bare
    } else {
        let arg = args[i];
        if !is_option(arg) {
            ArgTargetView::Positional(arg)
        } else if is_help_or_version(arg) {
            ArgTargetView::Explicit
        } else if arg == "--"@ {
            if i + 1 < args.len() {
                ArgTargetView::Positional(args[i + 1])
            } else {
                ArgTargetView::Bare
            }
        } else if matches_flag(arg, seq!["-c"@, "--config"@]) {
            ArgTargetView::Explicit
        } else if command == "pack"@ && matches_flag(
            arg,
            seq!["-W"@, "--workspace"@, "-F"@, "--filter"@, "--root"@],
        ) {
            ArgTargetView::Explicit
        } else {
            let is_boolean = boolean_flags(command).contains(arg) || starts_with_seq(
                arg,
                "--no-"@,
            );
            if !is_boolean && !arg.contains('=') && i + 1 < args.len() && !is_option(
                args[i + 1],
            ) {
                classify_from(command, args, i + 2)
            } else {
                classify_from(command, args, i + 1)
            }
        }
    }
}

fn contains_char(s: &str, c: char) -> (r: bool)
    ensures
        r == s@.contains(c),
{
    let chars = crate::text::chars_of(s);
    let mut i: usize = 0;
    while i < chars.len()
        invariant
            chars@ == s@,
            i <= chars@.len(),
            forall|j: int| 0 <= j < i ==> chars@[j] != c,
        decreases chars@.len() - i,
    {
        if chars[i] == c {
            assert(s@[i as int] == c);
            return true;
        }
        i += 1;
    }
    false
}

fn contains_flag(flags: &Vec<&'static str>, arg: &str) -> (r: bool)
    ensures
        r == strs(flags@).contains(arg@),
{
    let mut i: usize = 0;
    while i < flags.len()
        invariant
            i <= flags@.len(),
            forall|j: int| 0 <= j < i ==> strs(flags@)[j] != arg@,
        decreases flags@.len() - i,
    {
        if str_eq(flags[i], arg) {
            assert(strs(flags@)[i as int] == arg@);
            return true;
        }
        i += 1;
    }
    false
}

/// Mirrors the tools' own cac/mri parsing to find how the arguments target
/// the command. pack's workspace selectors define their own target set;
/// help/version requests are answered by the underlying tool.
pub fn classify_args<'a>(command: &str, args: &'a [String]) -> (r: ArgTarget<'a>)
    ensures
        r@ == classify_from(command@, strings_view(args@), 0),
{
    let ghost view = strings_view(args@);
    let is_pack = str_eq(command, "pack");
    let booleans = if is_pack {
        pack_flags()
    } else {
        vite_flags()
    };
    let config_flags = vec!["-c", "--config"];
    let selector_flags = vec!["-W", "--workspace", "-F", "--filter", "--root"];
    proof {
        assert(strs(config_flags@) =~= seq!["-c"@, "--config"@]);
        assert(strs(selector_flags@) =~= seq!["-W"@, "--workspace"@, "-F"@, "--filter"@, "--root"@]);
    }
    let mut i: usize = 0;
    while i < args.len()
        invariant
            view == strings_view(args@),
            is_pack == (command@ == "pack"@),
            strs(booleans@) == boolean_flags(command@),
            strs(config_flags@) == seq!["-c"@, "--config"@],
            strs(selector_flags@) == seq!["-W"@, "--workspace"@, "-F"@, "--filter"@, "--root"@],
            i <= args@.len(),
            classify_from(command@, view, 0) == classify_from(command@, view, i as int),
        decreases args@.len() - i,
    {
        let arg = args[i].as_str();
        if !crate::text::starts_with_char(arg, '-') {
            return ArgTarget::Positional(arg);
        }
        if help_or_version(arg) {
            return ArgTarget::Explicit;
        }
        if str_eq(arg, "--") {
            if i + 1 < args.len() {
                return ArgTarget::Positional(args[i + 1].as_str());
            }
            return ArgTarget::Bare;
        }
        if matches_flag_exec(arg, &config_flags) {
            return ArgTarget::Explicit;
        }
        if is_pack && matches_flag_exec(arg, &selector_flags) {
            return ArgTarget::Explicit;
        }
        let is_boolean = contains_flag(&booleans, arg) || starts_with(arg, "--no-");
        if !is_boolean && !contains_char(arg, '=') && i + 1 < args.len()
            && !crate::text::starts_with_char(args[i + 1].as_str(), '-') {
            i += 2;
        } else {
            i += 1;
        }
    }
    ArgTarget::Bare
}

/// Bare = no positional target and no help-like flag.
pub fn is_bare(command: &str, args: &[String]) -> (r: bool)
    ensures
        r == (classify_from(command@, strings_view(args@), 0) is Bare),
{
    matches!(classify_args(command, args), ArgTarget::Bare)
}

/// A declared field of a `vite.config.*` as static extraction reads it.
#[derive(Debug)]
pub enum FieldValue {
    /// A statically analyzable value.
    Json(JsonValue),
    /// Declared, but not a static literal.
    NonStatic,
}

/// The value of the first entry named `key`, moved out of the entries.
fn take_entry(source: Vec<(String, JsonValue)>, key: &str) -> (r: Option<JsonValue>)
    ensures
        r == entries_get(source@, key@),
{
    let mut entries = source;
    let ghost all = entries@;
    let mut i: usize = 0;
    proof {
        assert(all.skip(0) =~= all);
    }
    while i < entries.len()
        invariant
            entries@ == all,
            all == source@,
            i <= all.len(),
            entries_get(all, key@) == entries_get(all.skip(i as int), key@),
        decreases all.len() - i,
    {
        proof {
            assert(all.skip(i as int).drop_first() =~= all.skip(i + 1));
            assert(all.skip(i as int)[0] == all[i as int]);
        }
        if str_eq(entries[i].0.as_str(), key) {
            assert(entries_get(all.skip(i as int), key@) == Some(all[i as int].1));
            let removed = entries.swap_remove(i);
            assert(removed == all[i as int]);
            return Some(removed.1);
        }
        i += 1;
    }
    None
}

/// How a `defaultPackage` declaration applies to one command: an object
/// maps commands individually (a command absent from it falls through to
/// the picker), while every other shape, a string or an invalid or
/// non-static value, applies as declared.
pub open spec fn default_package_entry(command: Seq<char>, value: FieldValue) -> Option<FieldValue> {
    match value {
        FieldValue::Json(JsonValue::Object(entries)) => match entries_get(entries@, command) {
            Some(v) => Some(FieldValue::Json(v)),
            None => None,
        },
        _ => Some(value),
    }
}

/// Applies a `defaultPackage` declaration to one command.
pub fn default_package_for_command(command: &str, value: FieldValue) -> (r: Option<FieldValue>)
    ensures
        r == default_package_entry(command@, value),
{
    match value {
        FieldValue::Json(JsonValue::Object(entries)) => match take_entry(entries, command) {
            Some(v) => Some(FieldValue::Json(v)),
            None => None,
        },
        other => Some(other),
    }
}

/// What a `defaultPackage` value asks of a command.
#[derive(Debug)]
pub enum DefaultPackageOutcome {
    /// Run as if invoked in `dir`, relative to the invocation directory,
    /// after printing `note`.
    Dir { dir: String, note: String },
    /// Print this error and exit with status 1.
    Fail(String),
}

pub open spec fn default_package_note(command: Seq<char>, dir: Seq<char>) -> Seq<char> {
    "vp "@ + command + ": using "@ + dir + " (defaultPackage in vite.config.ts)"@
}

pub open spec fn missing_directory_text(dir: Seq<char>) -> Seq<char> {
    "defaultPackage points to a missing directory: "@ + dir
}

pub open spec fn not_a_directory_text(rendered: Seq<char>) -> Seq<char> {
    "defaultPackage must be a string of a directory, got: "@ + rendered
}

pub open spec fn non_static_text() -> Seq<char> {
    "defaultPackage in vite.config.ts must be a static string literal so vp can read it without executing the config"@
}

/// The directory a `defaultPackage` value names, when it is a string.
pub open spec fn default_package_dir(value: FieldValue) -> Option<Seq<char>> {
    match value {
        FieldValue::Json(JsonValue::String(dir)) => Some(dir@),
        _ => None,
    }
}

/// The outcome of a `defaultPackage` value: a static string naming an
/// existing directory redirects; a missing directory, another JSON value
/// (shown as `rendered`) or a non-static value fails.
pub open spec fn default_package_outcome(
    command: Seq<char>,
    value: FieldValue,
    dir_exists: bool,
    rendered: Seq<char>,
) -> Result<(Seq<char>, Seq<char>), Seq<char>> {
    match value {
        FieldValue::Json(JsonValue::String(dir)) => if dir_exists {
            Ok((dir@, default_package_note(command, dir@)))
        } else {
            Err(missing_directory_text(dir@))
        },
        FieldValue::Json(_) => Err(not_a_directory_text(rendered)),
        FieldValue::NonStatic => Err(non_static_text()),
    }
}

impl View for DefaultPackageOutcome {
    type V = Result<(Seq<char>, Seq<char>), Seq<char>>;

    open spec fn view(&self) -> Result<(Seq<char>, Seq<char>), Seq<char>> {
        match self {
            DefaultPackageOutcome::Dir { dir, note } => Ok((dir@, note@)),
            DefaultPackageOutcome::Fail(message) => Err(message@),
        }
    }
}

/// The directory a `defaultPackage` value names, when it is a string; the
/// caller checks whether it exists below the invocation directory.
pub fn default_package_directory(value: &FieldValue) -> (r: Option<&str>)
    ensures
        match r {
            Some(dir) => default_package_dir(*value) == Some(dir@),
            None => default_package_dir(*value) is None,
        },
{
    match value {
        FieldValue::Json(JsonValue::String(dir)) => Some(dir.as_str()),
        _ => None,
    }
}

/// Resolve the `defaultPackage` value extracted from the invocation root's
/// `vite.config.*`. `dir_exists` says whether the named directory exists
/// below the invocation directory; `rendered` is the JSON text of a value
/// that is not a string.
pub fn resolve_default_package(
    command: &str,
    value: &FieldValue,
    dir_exists: bool,
    rendered: &str,
) -> (r: DefaultPackageOutcome)
    ensures
        r@ == default_package_outcome(command@, *value, dir_exists, rendered@),
{
    match value {
        FieldValue::Json(JsonValue::String(dir)) => {
            if !dir_exists {
                let mut message = String::from_str("defaultPackage points to a missing directory: ");
                message.append(dir.as_str());
                return DefaultPackageOutcome::Fail(message);
            }
            let mut note = String::from_str("vp ");
            note.append(command);
            note.append(": using ");
            note.append(dir.as_str());
            note.append(" (defaultPackage in vite.config.ts)");
            DefaultPackageOutcome::Dir { dir: dir.clone(), note }
        },
        FieldValue::Json(_) => {
            let mut message = String::from_str(
                "defaultPackage must be a string of a directory, got: ",
            );
            message.append(rendered);
            DefaultPackageOutcome::Fail(message)
        },
        FieldValue::NonStatic => DefaultPackageOutcome::Fail(
            String::from_str(
                "defaultPackage in vite.config.ts must be a static string literal so vp can read it without executing the config",
            ),
        ),
    }
}

/// The workspace lookup for the invocation directory: whether it is the
/// root itself, and whether the root is a real workspace (not a lone
/// package).
#[derive(Debug, Clone, Copy)]
pub struct WorkspaceShape {
    pub at_root: bool,
    pub is_workspace: bool,
}

/// Where `defaultPackage` applies: the invocation directory is its own
/// root (or no package ancestry was found).
pub open spec fn at_invocation_root(workspace: Option<WorkspaceShape>) -> bool {
    match workspace {
        Some(shape) => shape.at_root,
        None => true,
    }
}

/// What the workspace root holds for the likely-runnable heuristic.
#[derive(Debug, Clone, Copy)]
pub struct RootFacts {
    pub index_html: bool,
    pub src_index_ts: bool,
    /// The root config declares a `pack` block.
    pub declares_pack: bool,
    /// The root config declares a `build` block.
    pub declares_build: bool,
}

/// Root variant of the likely-runnable heuristic. A shared root config for
/// lint/fmt/tasks declares neither block, so it never makes the root a
/// target: dev/preview serve an app (an `index.html`), `build` also accepts
/// a declared `build` block, and `pack` tsdown's default entry or a
/// declared `pack` block.
pub open spec fn root_runnable(facts: RootFacts, command: Seq<char>) -> bool {
    if command == "pack"@ {
        facts.src_index_ts || facts.declares_pack
    } else if command == "build"@ {
        facts.index_html || facts.declares_build
    } else {
        facts.index_html
    }
}

/// Root variant of the likely-runnable heuristic.
pub fn root_looks_runnable(facts: &RootFacts, command: &str) -> (r: bool)
    ensures
        r == root_runnable(*facts, command@),
{
    if str_eq(command, "pack") {
        facts.src_index_ts || facts.declares_pack
    } else if str_eq(command, "build") {
        facts.index_html || facts.declares_build
    } else {
        facts.index_html
    }
}

/// What a member package holds for the likely-runnable heuristic.
#[derive(Debug, Clone, Copy)]
pub struct MemberFacts {
    pub src_index_ts: bool,
    /// The member's own config declares a `pack` block.
    pub declares_pack: bool,
    /// The member has a `vite.config.*`.
    pub has_config_file: bool,
    pub index_html: bool,
}

/// Member variant of the likely-runnable heuristic.
pub open spec fn member_runnable(facts: MemberFacts, command: Seq<char>) -> bool {
    if command == "pack"@ {
        facts.src_index_ts || facts.declares_pack
    } else {
        facts.has_config_file || facts.index_html
    }
}

/// Member variant of the likely-runnable heuristic.
pub fn member_looks_runnable(facts: &MemberFacts, command: &str) -> (r: bool)
    ensures
        r == member_runnable(*facts, command@),
{
    if str_eq(command, "pack") {
        facts.src_index_ts || facts.declares_pack
    } else {
        facts.has_config_file || facts.index_html
    }
}

/// What the invocation directory holds for classifying a bare app command.
#[derive(Debug)]
pub struct AppFacts {
    /// The workspace lookup; `None` when it failed.
    pub workspace: Option<WorkspaceShape>,
    /// `defaultPackage` as the invocation directory's config declares it
    /// (read at an invocation root only).
    pub default_package: Option<FieldValue>,
    pub root: RootFacts,
}

/// Why a bare app command needs target elicitation.
#[derive(Debug)]
pub enum Elicitation {
    /// The invocation root's config declares `defaultPackage` for the
    /// command (possibly invalid, which the resolver reports).
    DefaultPackage(FieldValue),
    /// Bare app command at a real workspace root: picker or listing.
    WorkspaceRoot,
}

/// Outcome of classifying an app command.
#[derive(Debug)]
pub enum Classification {
    /// Run in the invocation directory unchanged; `found_root` says the
    /// workspace root found for it can be reused.
    RunInPlace { found_root: bool },
    /// Elicit a target for `command`.
    Elicit { command: &'static str, elicitation: Elicitation },
}

pub enum ClassView {
    RunInPlace(bool),
    ElicitDefault(Seq<char>, FieldValue),
    ElicitRoot(Seq<char>),
}

impl View for Classification {
    type V = ClassView;

    open spec fn view(&self) -> ClassView {
        match self {
            Classification::RunInPlace { found_root } => ClassView::RunInPlace(*found_root),
            Classification::Elicit { command, elicitation } => match elicitation {
                Elicitation::DefaultPackage(v) => ClassView::ElicitDefault(command@, *v),
                Elicitation::WorkspaceRoot => ClassView::ElicitRoot(command@),
            },
        }
    }
}

impl Classification {
    /// Whether target resolution would do anything other than run in
    /// place.
    pub fn elicits(&self) -> (r: bool)
        ensures
            r == !(self@ is RunInPlace),
    {
        !matches!(self, Classification::RunInPlace { .. })
    }
}

/// The resolution order for a bare app command: `defaultPackage` at the
/// invocation root, then the workspace root itself, which elicits unless
/// it looks runnable. Below a workspace root the invocation directory
/// already identifies the target.
pub open spec fn classify_outcome(subcommand: SynthesizableSubcommand, facts: AppFacts) -> ClassView {
    match app_command_name(subcommand) {
        None => ClassView::RunInPlace(false),
        Some(command) => if !(classify_from(command, strings_view(subcommand_args(subcommand)), 0)
            is Bare) {
            ClassView::RunInPlace(false)
        } else {
            let declared = if at_invocation_root(facts.workspace) {
                match facts.default_package {
                    Some(v) => default_package_entry(command, v),
                    None => None,
                }
            } else {
                None
            };
            match declared {
                Some(v) => ClassView::ElicitDefault(command, v),
                None => match facts.workspace {
                    None => ClassView::RunInPlace(false),
                    Some(shape) => if !shape.at_root || !shape.is_workspace || root_runnable(
                        facts.root,
                        command,
                    ) {
                        ClassView::RunInPlace(true)
                    } else {
                        ClassView::ElicitRoot(command)
                    },
                },
            }
        },
    }
}

/// Classify an app command from what its invocation directory holds.
pub fn classify(subcommand: &SynthesizableSubcommand, facts: AppFacts) -> (r: Classification)
    ensures
        r@ == classify_outcome(*subcommand, facts),
{
    let (command, args) = match app_command_parts(subcommand) {
        Some(parts) => parts,
        None => return Classification::RunInPlace { found_root: false },
    };
    if !is_bare(command, args.as_slice()) {
        return Classification::RunInPlace { found_root: false };
    }
    let AppFacts { workspace, default_package, root } = facts;
    let at_root = match workspace {
        Some(shape) => shape.at_root,
        None => true,
    };
    if at_root {
        if let Some(value) = default_package {
            if let Some(v) = default_package_for_command(command, value) {
                return Classification::Elicit {
                    command,
                    elicitation: Elicitation::DefaultPackage(v),
                };
            }
        }
    }
    match workspace {
        None => Classification::RunInPlace { found_root: false },
        Some(shape) => {
            if !shape.at_root || !shape.is_workspace || root_looks_runnable(&root, command) {
                Classification::RunInPlace { found_root: true }
            } else {
                Classification::Elicit { command, elicitation: Elicitation::WorkspaceRoot }
            }
        },
    }
}

/// Whether a vp-script interception must spawn the real binary: a doc
/// script synthesizes only an action (`init`, `info` and parse errors
/// spawn it), and any subcommand spawns it when target resolution
/// `elicits` (the doc redirect or candidates; an app command's
/// elicitation).
pub open spec fn needs_elicitation_spec(subcommand: SynthesizableSubcommand, elicits: bool) -> bool {
    match subcommand {
        SynthesizableSubcommand::Doc { args } => !(doc_args_outcome(strings_view(args@)) matches Ok(
            InvocationView::Action(..),
        )) || elicits,
        _ => elicits,
    }
}

/// Pure predicate for the vp-script interception; `elicits` is whether the
/// invocation directory's classification would redirect or elicit.
pub fn needs_elicitation(subcommand: &SynthesizableSubcommand, elicits: bool) -> (r: bool)
    ensures
        r == needs_elicitation_spec(*subcommand, elicits),
{
    match subcommand {
        SynthesizableSubcommand::Doc { args } => {
            let parsed = parse_doc_args(args.as_slice());
            !matches!(parsed, Ok(DocInvocation::Action(_))) || elicits
        },
        _ => elicits,
    }
}

/// The positional target of a dev/build/preview invocation, which keeps
/// Vite's `root` semantics without changing the working directory. pack
/// positionals are entry files, never directories.
pub open spec fn directory_positional_spec(subcommand: SynthesizableSubcommand) -> Option<
    (Seq<char>, Seq<char>),
> {
    match app_command_name(subcommand) {
        Some(command) => if command == "pack"@ {
            None
        } else {
            match classify_from(command, strings_view(subcommand_args(subcommand)), 0) {
                ArgTargetView::Positional(target) => Some((command, target)),
                _ => None,
            }
        },
        None => None,
    }
}

/// The command and positional target to teach the `-C` form for, when the
/// target names a directory.
pub fn directory_positional(subcommand: &SynthesizableSubcommand) -> (r: Option<
    (&'static str, &str),
>)
    ensures
        match r {
            Some((command, target)) => directory_positional_spec(*subcommand) == Some(
                (command@, target@),
            ),
            None => directory_positional_spec(*subcommand) is None,
        },
{
    let (command, args) = match app_command_parts(subcommand) {
        Some(parts) => parts,
        None => return None,
    };
    if str_eq(command, "pack") {
        return None;
    }
    match classify_args(command, args.as_slice()) {
        ArgTarget::Positional(target) => Some((command, target)),
        _ => None,
    }
}

pub open spec fn positional_note_text(command: Seq<char>, target: Seq<char>) -> Seq<char> {
    "`vp "@ + command + " "@ + target
        + "` sets Vite's root without changing the working directory. To run as if started there, use `vp -C "@
        + target + " "@ + command + "`."@
}

/// The guidance for a positional that names a directory.
pub fn positional_note(command: &str, target: &str) -> (r: String)
    ensures
        r@ == positional_note_text(command@, target@),
{
    let mut note = String::from_str("`vp ");
    note.append(command);
    note.append(" ");
    note.append(target);
    note.append(
        "` sets Vite's root without changing the working directory. To run as if started there, use `vp -C ",
    );
    note.append(target);
    note.append(" ");
    note.append(command);
    note.append("`.");
    note
}

} // verus!
