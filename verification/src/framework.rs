//! Refusal for framework projects whose own CLI wraps Vite: `vp dev` and
//! `vp build` run the bundled Vite CLI, which cannot serve or build a Nuxt
//! or Astro project. An explicit `--config`/`-c` flag selects a Vite config
//! on purpose and skips the refusal.

use vstd::prelude::*;
use vstd::string::*;
use owo_colors::OwoColorize;

use crate::detect::answers;
use crate::json::{JsonValue, entries_get, json_from_str, parse_json};
use crate::target::SynthesizableSubcommand;
use crate::text::{chars_of, occurs_at, starts_with, str_eq};

verus! {

/// The exit status after the refusal.
pub const REFUSED: u8 = 1;

/// A framework that wraps Vite behind its own CLI.
#[derive(Debug)]
pub struct Framework {
    pub name: &'static str,
    /// The config files that the framework's loader resolves, in its
    /// resolution order.
    pub config_files: Vec<&'static str>,
    /// Executable names of the framework CLI; the first is the one the
    /// `vp exec` hint shows.
    pub bins: Vec<&'static str>,
}

/// The abstract value of a [`Framework`].
pub struct FrameworkView {
    pub name: Seq<char>,
    pub config_files: Seq<Seq<char>>,
    pub bins: Seq<Seq<char>>,
}

impl View for Framework {
    type V = FrameworkView;

    open spec fn view(&self) -> FrameworkView {
        FrameworkView {
            name: self.name@,
            config_files: self.config_files@.map_values(|f: &str| f@),
            bins: self.bins@.map_values(|b: &str| b@),
        }
    }
}

/// Nuxt resolves `nuxt.config` with the script extensions of its loader
/// and ships the `nuxt` and `nuxi` bins; Astro searches only four config
/// names and ships the `astro` bin. Nuxt is checked first.
pub open spec fn framework_views() -> Seq<FrameworkView> {
    seq![
        FrameworkView {
            name: "Nuxt"@,
            config_files: seq![
                "nuxt.config.js"@,
                "nuxt.config.ts"@,
                "nuxt.config.mjs"@,
                "nuxt.config.cjs"@,
                "nuxt.config.mts"@,
                "nuxt.config.cts"@,
            ],
            bins: seq!["nuxt"@, "nuxi"@],
        },
        FrameworkView {
            name: "Astro"@,
            config_files: seq![
                "astro.config.mjs"@,
                "astro.config.js"@,
                "astro.config.ts"@,
                "astro.config.mts"@,
            ],
            bins: seq!["astro"@],
        },
    ]
}

/// The frameworks the guard knows, in detection order.
pub fn frameworks() -> (fs: Vec<Framework>)
    ensures
        fs@.map_values(|f: Framework| f@) == framework_views(),
{
    let fs = vec![
        Framework {
            name: "Nuxt",
            config_files: vec![
                "nuxt.config.js",
                "nuxt.config.ts",
                "nuxt.config.mjs",
                "nuxt.config.cjs",
                "nuxt.config.mts",
                "nuxt.config.cts",
            ],
            bins: vec!["nuxt", "nuxi"],
        },
        Framework {
            name: "Astro",
            config_files: vec![
                "astro.config.mjs",
                "astro.config.js",
                "astro.config.ts",
                "astro.config.mts",
            ],
            bins: vec!["astro"],
        },
    ];
    proof {
        assert(fs@[0]@.config_files =~= framework_views()[0].config_files);
        assert(fs@[0]@.bins =~= framework_views()[0].bins);
        assert(fs@[1]@.config_files =~= framework_views()[1].config_files);
        assert(fs@[1]@.bins =~= framework_views()[1].bins);
        assert(fs@.map_values(|f: Framework| f@) =~= framework_views());
    }
    fs
}

/// Unicode `White_Space`, the property `char::is_whitespace` tests.
pub open spec fn is_white_space(c: char) -> bool {
    ||| ('\u{9}' <= c && c <= '\u{d}')
    ||| c == ' '
    ||| c == '\u{85}'
    ||| c == '\u{a0}'
    ||| c == '\u{1680}'
    ||| ('\u{2000}' <= c && c <= '\u{200a}')
    ||| c == '\u{2028}'
    ||| c == '\u{2029}'
    ||| c == '\u{202f}'
    ||| c == '\u{205f}'
    ||| c == '\u{3000}'
}

fn white_space(c: char) -> (r: bool)
    ensures
        r == is_white_space(c),
{
    ('\u{9}' <= c && c <= '\u{d}') || c == ' ' || c == '\u{85}' || c == '\u{a0}' || c
        == '\u{1680}' || ('\u{2000}' <= c && c <= '\u{200a}') || c == '\u{2028}' || c
        == '\u{2029}' || c == '\u{202f}' || c == '\u{205f}' || c == '\u{3000}'
}

/// `pattern` occurs at `i` between whitespace boundaries (or the ends of
/// the text).
pub open spec fn word_at(text: Seq<char>, pattern: Seq<char>, i: int) -> bool {
    &&& occurs_at(text, pattern, i)
    &&& (i == 0 || is_white_space(text[i - 1]))
    &&& (i + pattern.len() == text.len() || is_white_space(text[i + pattern.len()]))
}

/// `pattern` occurs somewhere in `text` between whitespace boundaries.
pub open spec fn contains_word_spec(text: Seq<char>, pattern: Seq<char>) -> bool {
    exists|i: int| word_at(text, pattern, i)
}

/// Whether `text` contains `pattern` between whitespace boundaries, so
/// `nuxt dev` does not match inside `nuxt devtools`.
pub fn contains_word(text: &str, pattern: &str) -> (r: bool)
    requires
        pattern@.len() > 0,
    ensures
        r == contains_word_spec(text@, pattern@),
{
    let t = chars_of(text);
    let p = chars_of(pattern);
    let mut i: usize = 0;
    while i < t.len()
        invariant
            t@ == text@,
            p@ == pattern@,
            p@.len() > 0,
            i <= t@.len(),
            forall|j: int| 0 <= j < i ==> !word_at(text@, pattern@, j),
        decreases t@.len() - i,
    {
        if crate::text::occurs_at_exec(&t, &p, i) {
            let end = i + p.len();
            let before = i == 0 || white_space(t[i - 1]);
            let after = end == t.len() || white_space(t[end]);
            if before && after {
                assert(word_at(text@, pattern@, i as int));
                return true;
            }
        }
        i += 1;
    }
    proof {
        assert forall|j: int| !word_at(text@, pattern@, j) by {
            if j >= t@.len() {
                assert(!occurs_at(text@, pattern@, j));
            }
        }
    }
    false
}

/// The forwarded Vite args select a config file explicitly. The capital
/// `-C` flag retargets the directory; it is a different flag.
pub open spec fn explicit_config_arg(arg: Seq<char>) -> bool {
    ||| arg == "-c"@
    ||| arg == "--config"@
    ||| crate::text::starts_with_seq(arg, "--config="@)
    ||| crate::text::starts_with_seq(arg, "-c="@)
}

/// Whether the forwarded Vite args select a config file explicitly.
pub fn has_explicit_config(args: &Vec<String>) -> (r: bool)
    ensures
        r == exists|i: int| 0 <= i < args@.len() && explicit_config_arg(#[trigger] args@[i]@),
{
    let mut i: usize = 0;
    while i < args.len()
        invariant
            i <= args@.len(),
            forall|j: int| 0 <= j < i ==> !explicit_config_arg(#[trigger] args@[j]@),
        decreases args@.len() - i,
    {
        let arg = args[i].as_str();
        if str_eq(arg, "-c") || str_eq(arg, "--config") || starts_with(arg, "--config=")
            || starts_with(arg, "-c=") {
            assert(explicit_config_arg(args@[i as int]@));
            return true;
        }
        i += 1;
    }
    false
}

/// `owo_colors` bright blue: the text between the `94` foreground code and
/// the default-foreground reset.
pub open spec fn bright_blue_text(text: Seq<char>) -> Seq<char> {
    "\x1b[94m"@ + text + "\x1b[39m"@
}

/// Calls `OwoColorize::bright_blue` and renders it with `to_string`. The
/// crate's `Display` for a foreground color writes the color's code, the
/// text, and the `\x1b[39m` reset; the contract states that rendering.
#[verifier::external_body]
fn bright_blue(text: &str) -> (r: String)
    ensures
        r@ == bright_blue_text(text@),
{
    text.bright_blue().to_string()
}

/// The first framework command (a bin, a space, the command) that the
/// script `value` runs between whitespace boundaries.
pub open spec fn bin_match(value: Seq<char>, bins: Seq<Seq<char>>, command: Seq<char>) -> Option<
    Seq<char>,
>
    decreases bins.len(),
{
    if bins.len() == 0 {
        None
    } else if contains_word_spec(value, bins[0] + " "@ + command) {
        Some(bins[0] + " "@ + command)
    } else {
        bin_match(value, bins.drop_first(), command)
    }
}

/// The first script (in entry order) whose string value runs a
/// framework command: its name and the command.
pub open spec fn script_match(
    entries: Seq<(String, JsonValue)>,
    bins: Seq<Seq<char>>,
    command: Seq<char>,
) -> Option<(Seq<char>, Seq<char>)>
    decreases entries.len(),
{
    if entries.len() == 0 {
        None
    } else {
        let found = match entries[0].1.spec_as_str() {
            Some(value) => bin_match(value, bins, command),
            None => None,
        };
        match found {
            Some(fc) => Some((entries[0].0@, fc)),
            None => script_match(entries.drop_first(), bins, command),
        }
    }
}

pub open spec fn exec_hint_text(f: FrameworkView, command: Seq<char>) -> Seq<char> {
    "run the "@ + f.name + " CLI with "@ + bright_blue_text(
        "`vp exec "@ + f.bins[0] + " "@ + command + "`"@,
    ) + "."@
}

/// The hint that follows the refusal: the `package.json` script with the
/// command's name, else a script that runs the framework command under
/// another name, else the framework CLI through `vp exec`.
pub open spec fn run_hint_text(manifest: JsonValue, f: FrameworkView, command: Seq<char>) -> Seq<
    char,
> {
    match manifest.spec_get("scripts"@) {
        Some(JsonValue::Object(entries)) => {
            let named = match entries_get(entries@, command) {
                Some(v) => v.spec_as_str() is Some,
                None => false,
            };
            if named {
                "did you mean "@ + bright_blue_text("`vp run "@ + command + "`"@) + "?"@
            } else {
                match script_match(entries@, f.bins, command) {
                    Some((name, fc)) => "did you mean "@ + bright_blue_text(
                        "`vp run "@ + name + "`"@,
                    ) + "? The "@ + name + " script runs `"@ + fc + "`."@,
                    None => exec_hint_text(f, command),
                }
            }
        },
        _ => exec_hint_text(f, command),
    }
}

/// The framework command run by `value`, trying the bins in order.
fn match_bins(value: &str, bins: &Vec<&'static str>, command: &str) -> (r: Option<String>)
    ensures
        match r {
            Some(fc) => bin_match(value@, bins@.map_values(|b: &str| b@), command@) == Some(fc@),
            None => bin_match(value@, bins@.map_values(|b: &str| b@), command@) is None,
        },
{
    let ghost all = bins@.map_values(|b: &str| b@);
    let mut k: usize = 0;
    proof {
        assert(all.skip(0) =~= all);
    }
    while k < bins.len()
        invariant
            k <= bins@.len(),
            all == bins@.map_values(|b: &str| b@),
            bin_match(value@, all, command@) == bin_match(value@, all.skip(k as int), command@),
        decreases bins@.len() - k,
    {
        let mut framework_command = String::from_str(bins[k]);
        framework_command.append(" ");
        framework_command.append(command);
        proof {
            reveal_strlit(" ");
            assert(all.skip(k as int)[0] == bins@[k as int]@);
            assert(all.skip(k as int).drop_first() =~= all.skip(k + 1));
        }
        if contains_word(value, framework_command.as_str()) {
            return Some(framework_command);
        }
        k += 1;
    }
    None
}

/// The hint that follows the refusal.
pub fn run_hint(manifest: &JsonValue, framework: &Framework, command: &str) -> (r: String)
    requires
        framework@.bins.len() > 0,
    ensures
        r@ == run_hint_text(*manifest, framework@, command@),
{
    if let Some(scripts) = manifest.get("scripts") {
        if let JsonValue::Object(entries) = scripts {
            let named = match scripts.get(command) {
                Some(v) => v.as_str().is_some(),
                None => false,
            };
            if named {
                let mut via = String::from_str("`vp run ");
                via.append(command);
                via.append("`");
                let mut hint = String::from_str("did you mean ");
                hint.append(bright_blue(via.as_str()).as_str());
                hint.append("?");
                return hint;
            }
            let mut i: usize = 0;
            proof {
                assert(entries@.skip(0) =~= entries@);
            }
            while i < entries.len()
                invariant
                    i <= entries@.len(),
                    framework@.bins.len() > 0,
                    manifest.spec_get("scripts"@) == Some(JsonValue::Object(*entries)),
                    !(match entries_get(entries@, command@) {
                        Some(v) => v.spec_as_str() is Some,
                        None => false,
                    }),
                    script_match(entries@, framework@.bins, command@) == script_match(
                        entries@.skip(i as int),
                        framework@.bins,
                        command@,
                    ),
                decreases entries@.len() - i,
            {
                proof {
                    assert(entries@.skip(i as int)[0] == entries@[i as int]);
                    assert(entries@.skip(i as int).drop_first() =~= entries@.skip(i + 1));
                }
                let name = entries[i].0.as_str();
                if let Some(value) = entries[i].1.as_str() {
                    if let Some(framework_command) = match_bins(value, &framework.bins, command) {
                        let mut via = String::from_str("`vp run ");
                        via.append(name);
                        via.append("`");
                        let mut hint = String::from_str("did you mean ");
                        hint.append(bright_blue(via.as_str()).as_str());
                        hint.append("? The ");
                        hint.append(name);
                        hint.append(" script runs `");
                        hint.append(framework_command.as_str());
                        hint.append("`.");
                        return hint;
                    }
                }
                i += 1;
            }
        }
    }
    let mut via = String::from_str("`vp exec ");
    via.append(framework.bins[0]);
    via.append(" ");
    via.append(command);
    via.append("`");
    let mut hint = String::from_str("run the ");
    hint.append(framework.name);
    hint.append(" CLI with ");
    hint.append(bright_blue(via.as_str()).as_str());
    hint.append(".");
    hint
}

/// The config file `c` of framework `f` comes before config file `d` of
/// framework `g` in detection order.
pub open spec fn detected_before(f: int, c: int, g: int, d: int) -> bool {
    f < g || (f == g && c < d)
}

/// The first framework config file for which `is_file` answered true; the
/// frameworks are tried in order, each one's files in its loader's
/// resolution order.
pub fn detect<'a, F: Fn(&str) -> bool>(frameworks: &'a Vec<Framework>, is_file: F) -> (r: Option<
    (&'a Framework, &'static str),
>)
    requires
        forall|s: &str| call_requires(is_file, (s,)),
    ensures
        match r {
            Some((framework, config_file)) => exists|f: int, c: int|
                {
                    &&& 0 <= f < frameworks@.len()
                    &&& 0 <= c < frameworks@[f]@.config_files.len()
                    &&& *framework == frameworks@[f]
                    &&& config_file@ == frameworks@[f]@.config_files[c]
                    &&& answers(is_file, config_file@, true)
                    &&& forall|g: int, d: int|
                        0 <= g < frameworks@.len() && 0 <= d < frameworks@[g]@.config_files.len()
                            && detected_before(g, d, f, c) ==> answers(
                            is_file,
                            #[trigger] frameworks@[g]@.config_files[d],
                            false,
                        )
                },
            None => forall|g: int, d: int|
                0 <= g < frameworks@.len() && 0 <= d < frameworks@[g]@.config_files.len()
                    ==> answers(is_file, #[trigger] frameworks@[g]@.config_files[d], false),
        },
{
    let mut f: usize = 0;
    while f < frameworks.len()
        invariant
            f <= frameworks@.len(),
            forall|s: &str| call_requires(is_file, (s,)),
            forall|g: int, d: int|
                0 <= g < f && 0 <= d < frameworks@[g]@.config_files.len() ==> answers(
                    is_file,
                    #[trigger] frameworks@[g]@.config_files[d],
                    false,
                ),
        decreases frameworks@.len() - f,
    {
        let framework = &frameworks[f];
        let mut c: usize = 0;
        while c < framework.config_files.len()
            invariant
                f < frameworks@.len(),
                *framework == frameworks@[f as int],
                c <= framework.config_files@.len(),
                forall|s: &str| call_requires(is_file, (s,)),
                forall|g: int, d: int|
                    0 <= g < frameworks@.len() && 0 <= d < frameworks@[g]@.config_files.len()
                        && detected_before(g, d, f as int, c as int) ==> answers(
                        is_file,
                        #[trigger] frameworks@[g]@.config_files[d],
                        false,
                    ),
            decreases framework.config_files@.len() - c,
        {
            let config_file = framework.config_files[c];
            let found = is_file(config_file);
            proof {
                assert(config_file@ == frameworks@[f as int]@.config_files[c as int]);
                assert(answers(is_file, config_file@, found));
            }
            if found {
                return Some((framework, config_file));
            }
            c += 1;
        }
        f += 1;
    }
    None
}

/// The command the guard covers: `vp dev` and `vp build`, unless an
/// explicit config flag selects a Vite config on purpose.
pub open spec fn guarded_spec(subcommand: SynthesizableSubcommand) -> Option<Seq<char>> {
    match subcommand {
        SynthesizableSubcommand::Dev { args } => if exists|i: int|
            0 <= i < args@.len() && explicit_config_arg(#[trigger] args@[i]@) {
            None
        } else {
            Some("dev"@)
        },
        SynthesizableSubcommand::Build { args } => if exists|i: int|
            0 <= i < args@.len() && explicit_config_arg(#[trigger] args@[i]@) {
            None
        } else {
            Some("build"@)
        },
        _ => None,
    }
}

/// The command the framework guard checks, if any.
pub fn guarded_command(subcommand: &SynthesizableSubcommand) -> (r: Option<&'static str>)
    ensures
        match r {
            Some(command) => guarded_spec(*subcommand) == Some(command@),
            None => guarded_spec(*subcommand) is None,
        },
{
    let (command, args) = match subcommand {
        SynthesizableSubcommand::Dev { args } => ("dev", args),
        SynthesizableSubcommand::Build { args } => ("build", args),
        _ => return None,
    };
    if has_explicit_config(args) {
        None
    } else {
        Some(command)
    }
}

pub open spec fn refusal_text(command: Seq<char>, f: FrameworkView, config_file: Seq<char>) -> Seq<
    char,
> {
    "this project uses "@ + f.name + " ("@ + config_file + "). "@ + bright_blue_text(
        "`vp "@ + command + "`"@,
    ) + " runs the bundled Vite CLI, not the "@ + f.name + " CLI."@
}

/// The manifest the hint reads: the parsed `package.json`, or `null` when
/// it is unreadable as text or does not parse.
pub open spec fn manifest_or_null(text: Option<Seq<char>>) -> JsonValue {
    match text {
        Some(t) => match json_from_str(t) {
            Ok(v) => v,
            Err(_) => JsonValue::Null,
        },
        None => JsonValue::Null,
    }
}

/// The refusal printed for a framework project: the error line and the
/// hint line.
#[derive(Debug)]
pub struct Refusal {
    pub error: String,
    pub hint: String,
}

/// The refusal of `vp <command>` in a project of `framework`, detected by
/// `config_file`; `manifest_text` is the nearest `package.json` as text.
pub fn refusal(
    command: &str,
    framework: &Framework,
    config_file: &str,
    manifest_text: Option<&str>,
) -> (r: Refusal)
    requires
        framework@.bins.len() > 0,
    ensures
        r.error@ == refusal_text(command@, framework@, config_file@),
        r.hint@ == "hint: "@ + run_hint_text(
            manifest_or_null(
                match manifest_text {
                    Some(t) => Some(t@),
                    None => None,
                },
            ),
            framework@,
            command@,
        ),
{
    let mut built_in = String::from_str("`vp ");
    built_in.append(command);
    built_in.append("`");
    let mut error = String::from_str("this project uses ");
    error.append(framework.name);
    error.append(" (");
    error.append(config_file);
    error.append("). ");
    error.append(bright_blue(built_in.as_str()).as_str());
    error.append(" runs the bundled Vite CLI, not the ");
    error.append(framework.name);
    error.append(" CLI.");
    let manifest = match manifest_text {
        Some(text) => match parse_json(text) {
            Ok(v) => v,
            Err(_) => JsonValue::Null,
        },
        None => JsonValue::Null,
    };
    let mut hint = String::from_str("hint: ");
    hint.append(run_hint(&manifest, framework, command).as_str());
    Refusal { error, hint }
}

} // verus!
