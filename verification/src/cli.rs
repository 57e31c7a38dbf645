//! `vp doc` argument parsing.

use vstd::prelude::*;
use vstd::string::*;

use crate::error::{Error, result_view, user_err, user_message};
use crate::text::{starts_with_char, str_eq, strings_view};

verus! {

/// The action of the `doc` command.
#[derive(Debug, Clone, Copy, PartialEq, Eq, Structural)]
pub enum DocAction {
    Dev,
    Build,
    Preview,
}

impl View for DocAction {
    type V = DocAction;

    open spec fn view(&self) -> DocAction {
        *self
    }
}

/// The command-line name of an action.
pub open spec fn action_name(action: DocAction) -> Seq<char> {
    match action {
        DocAction::Dev => "dev"@,
        DocAction::Build => "build"@,
        DocAction::Preview => "preview"@,
    }
}

impl DocAction {
    pub fn as_str(self) -> (r: &'static str)
        ensures
            r@ == action_name(self),
    {
        match self {
            DocAction::Dev => "dev",
            DocAction::Build => "build",
            DocAction::Preview => "preview",
        }
    }

    /// `dev` and `preview` run long-lived servers; only `build` is a batch
    /// operation. Cache policy and terminal handling both key off this.
    pub fn is_server(self) -> (r: bool)
        ensures
            r == (self != DocAction::Build),
    {
        !matches!(self, DocAction::Build)
    }
}

/// An action invocation: the action and the arguments forwarded to the
/// tool verbatim.
#[derive(Debug)]
pub struct DocRequest {
    pub action: DocAction,
    pub args: Vec<String>,
}

impl View for DocRequest {
    type V = (DocAction, Seq<Seq<char>>);

    open spec fn view(&self) -> (DocAction, Seq<Seq<char>>) {
        (self.action, strings_view(self.args@))
    }
}

/// A parsed `vp doc` invocation. `Init` and `Info` are Vite+-owned commands;
/// only `Action` delegates to a tool.
#[derive(Debug)]
pub enum DocInvocation {
    Action(DocRequest),
    Init { provider: Option<String> },
    Info { json: bool },
}

/// The abstract value of a [`DocInvocation`].
pub enum InvocationView {
    Action(DocAction, Seq<Seq<char>>),
    Init(Option<Seq<char>>),
    Info(bool),
}

impl View for DocInvocation {
    type V = InvocationView;

    open spec fn view(&self) -> InvocationView {
        match self {
            DocInvocation::Action(request) => InvocationView::Action(
                request.action,
                strings_view(request.args@),
            ),
            DocInvocation::Init { provider } => InvocationView::Init(
                match provider {
                    Some(p) => Some(p@),
                    None => None,
                },
            ),
            DocInvocation::Info { json } => InvocationView::Info(*json),
        }
    }
}

/// A token that starts with `-`.
pub open spec fn is_option(arg: Seq<char>) -> bool {
    arg.len() > 0 && arg[0] == '-'
}

pub open spec fn unrecognized_command_message(token: Seq<char>) -> Seq<char> {
    "unrecognized doc command `"@ + token
        + "`\n\nAvailable commands: dev, build, preview, init, info"@
}

pub open spec fn unexpected_init_message(arg: Seq<char>) -> Seq<char> {
    "unexpected argument `"@ + arg + "`\n\nUsage: vp doc init [PROVIDER]"@
}

pub open spec fn unexpected_info_message(arg: Seq<char>) -> Seq<char> {
    "unexpected argument `"@ + arg + "`\n\nUsage: vp doc info [--json]"@
}

/// `vp doc init [PROVIDER]`: at most one positional provider ID, no option.
pub open spec fn init_outcome(rest: Seq<Seq<char>>) -> Result<
    InvocationView,
    Option<Seq<char>>,
> {
    if rest.len() == 0 {
        Ok(InvocationView::Init(None))
    } else if is_option(rest[0]) {
        user_err(unexpected_init_message(rest[0]))
    } else if rest.len() == 1 {
        Ok(InvocationView::Init(Some(rest[0])))
    } else {
        user_err(unexpected_init_message(rest[1]))
    }
}

/// The first argument that is not `--json`.
pub open spec fn first_non_json(rest: Seq<Seq<char>>) -> int {
    choose|i: int|
        0 <= i < rest.len() && rest[i] != "--json"@ && forall|j: int|
            0 <= j < i ==> rest[j] == "--json"@
}

/// `vp doc info [--json]`: `--json` is the only accepted argument.
pub open spec fn info_outcome(rest: Seq<Seq<char>>) -> Result<
    InvocationView,
    Option<Seq<char>>,
> {
    if forall|i: int| 0 <= i < rest.len() ==> rest[i] == "--json"@ {
        Ok(InvocationView::Info(rest.len() > 0))
    } else {
        user_err(unexpected_info_message(rest[first_non_json(rest)]))
    }
}

/// The meaning of a `vp doc` argument list. The first token decides the
/// invocation; every argument after `dev`, `build`, or `preview` (or after
/// `--`) forwards verbatim, and a leading option selects `dev` with the
/// complete sequence.
pub open spec fn doc_args_outcome(args: Seq<Seq<char>>) -> Result<
    InvocationView,
    Option<Seq<char>>,
> {
    if args.len() == 0 {
        Ok(InvocationView::Action(DocAction::Dev, Seq::empty()))
    } else if args[0] == "--"@ {
        Ok(InvocationView::Action(DocAction::Dev, args.drop_first()))
    } else if is_option(args[0]) {
        Ok(InvocationView::Action(DocAction::Dev, args))
    } else if args[0] == "dev"@ {
        Ok(InvocationView::Action(DocAction::Dev, args.drop_first()))
    } else if args[0] == "build"@ {
        Ok(InvocationView::Action(DocAction::Build, args.drop_first()))
    } else if args[0] == "preview"@ {
        Ok(InvocationView::Action(DocAction::Preview, args.drop_first()))
    } else if args[0] == "init"@ {
        init_outcome(args.drop_first())
    } else if args[0] == "info"@ {
        info_outcome(args.drop_first())
    } else {
        user_err(unrecognized_command_message(args[0]))
    }
}

/// Clones of `args[from..]`.
fn clone_from(args: &[String], from: usize) -> (out: Vec<String>)
    requires
        from <= args@.len(),
    ensures
        out@ == args@.skip(from as int),
{
    let mut out: Vec<String> = Vec::new();
    let mut i = from;
    while i < args.len()
        invariant
            from <= i <= args@.len(),
            out@ == args@.subrange(from as int, i as int),
        decreases args@.len() - i,
    {
        out.push(args[i].clone());
        i += 1;
        proof {
            assert(out@ =~= args@.subrange(from as int, i as int));
        }
    }
    proof {
        assert(out@ =~= args@.skip(from as int));
    }
    out
}

/// Parse `vp doc` arguments. Vite+ consumes no option of its own: every
/// argument after the action forwards to the tool verbatim.
pub fn parse_doc_args(args: &[String]) -> (r: Result<DocInvocation, Error>)
    ensures
        result_view(r) == doc_args_outcome(strings_view(args@)),
{
    let ghost view = strings_view(args@);
    if args.len() == 0 {
        let empty: Vec<String> = Vec::new();
        proof {
            assert(strings_view(empty@) =~= Seq::empty());
        }
        return Ok(DocInvocation::Action(DocRequest { action: DocAction::Dev, args: empty }));
    }
    let first = args[0].as_str();
    let rest = clone_from(args, 1);
    proof {
        assert(strings_view(rest@) =~= view.drop_first());
    }
    if str_eq(first, "--") {
        return Ok(DocInvocation::Action(DocRequest { action: DocAction::Dev, args: rest }));
    }
    if starts_with_char(first, '-') {
        let all = clone_from(args, 0);
        proof {
            assert(all@ =~= args@);
        }
        return Ok(DocInvocation::Action(DocRequest { action: DocAction::Dev, args: all }));
    }
    let action = if str_eq(first, "dev") {
        DocAction::Dev
    } else if str_eq(first, "build") {
        DocAction::Build
    } else if str_eq(first, "preview") {
        DocAction::Preview
    } else if str_eq(first, "init") {
        return parse_init_args(&rest);
    } else if str_eq(first, "info") {
        return parse_info_args(&rest);
    } else {
        let mut message = String::from_str("unrecognized doc command `");
        message.append(first);
        message.append("`\n\nAvailable commands: dev, build, preview, init, info");
        return Err(user_message(message));
    };
    Ok(DocInvocation::Action(DocRequest { action, args: rest }))
}

fn parse_init_args(args: &Vec<String>) -> (r: Result<DocInvocation, Error>)
    ensures
        result_view(r) == init_outcome(strings_view(args@)),
{
    let mut provider: Option<String> = None;
    let mut i: usize = 0;
    while i < args.len()
        invariant
            i <= args@.len(),
            i <= 1,
            i == 0 ==> provider is None,
            i == 1 ==> provider == Some(args@[0]) && !is_option(args@[0]@),
        decreases args@.len() - i,
    {
        let arg = args[i].as_str();
        if starts_with_char(arg, '-') || provider.is_some() {
            let mut message = String::from_str("unexpected argument `");
            message.append(arg);
            message.append("`\n\nUsage: vp doc init [PROVIDER]");
            return Err(user_message(message));
        }
        provider = Some(args[i].clone());
        i += 1;
    }
    Ok(DocInvocation::Init { provider })
}

fn parse_info_args(args: &Vec<String>) -> (r: Result<DocInvocation, Error>)
    ensures
        result_view(r) == info_outcome(strings_view(args@)),
{
    let ghost rest = strings_view(args@);
    let mut json = false;
    let mut i: usize = 0;
    while i < args.len()
        invariant
            i <= args@.len(),
            rest == strings_view(args@),
            json == (i > 0),
            forall|j: int| 0 <= j < i ==> rest[j] == "--json"@,
        decreases args@.len() - i,
    {
        if str_eq(args[i].as_str(), "--json") {
            json = true;
        } else {
            proof {
                assert(rest[i as int] != "--json"@);
                let k = first_non_json(rest);
                assert(0 <= k < rest.len() && rest[k] != "--json"@ && forall|j: int|
                    0 <= j < k ==> rest[j] == "--json"@);
                if k < i {
                } else if k > i {
                    assert(rest[i as int] == "--json"@);
                }
                assert(k == i);
            }
            let mut message = String::from_str("unexpected argument `");
            message.append(args[i].as_str());
            message.append("`\n\nUsage: vp doc info [--json]");
            return Err(user_message(message));
        }
        i += 1;
    }
    Ok(DocInvocation::Info { json })
}

} // verus!
