use vp_doc_cli::{DocAction, DocInvocation, DocRequest, Error, parse_doc_args};

fn args(list: &[&str]) -> Vec<String> {
    list.iter().map(|arg| (*arg).to_string()).collect()
}

fn action(list: &[&str]) -> DocRequest {
    match parse_doc_args(&args(list)).unwrap() {
        DocInvocation::Action(request) => request,
        other => panic!("expected an action, got {other:?}"),
    }
}

fn parse_error(list: &[&str]) -> String {
    match parse_doc_args(&args(list)).unwrap_err() {
        Error::UserMessage(message) => message,
        other => panic!("expected a user message, got {other:?}"),
    }
}

#[test]
fn bare_doc_defaults_to_dev() {
    let request = action(&[]);
    assert_eq!(request.action, DocAction::Dev);
    assert!(request.args.is_empty());
}

#[test]
fn arguments_after_the_action_forward_verbatim() {
    let request = action(&["build", "--site", "example", "--", "-x"]);
    assert_eq!(request.action, DocAction::Build);
    assert_eq!(request.args, ["--site", "example", "--", "-x"]);
}

#[test]
fn double_dash_forwards_to_the_default_dev() {
    let request = action(&["--", "--port", "4173"]);
    assert_eq!(request.action, DocAction::Dev);
    assert_eq!(request.args, ["--port", "4173"]);
}

#[test]
fn a_leading_option_selects_dev_and_forwards_everything() {
    let request = action(&["--host", "0.0.0.0", "--port", "3000"]);
    assert_eq!(request.action, DocAction::Dev);
    assert_eq!(request.args, ["--host", "0.0.0.0", "--port", "3000"]);
}

#[test]
fn an_unknown_command_token_is_an_error() {
    let message = parse_error(&["serve"]);
    assert!(message.contains("unrecognized doc command `serve`"), "{message}");
}

#[test]
fn init_takes_one_optional_provider_id() {
    let DocInvocation::Init { provider } = parse_doc_args(&args(&["init", "vitepress"])).unwrap()
    else {
        panic!("expected init");
    };
    assert_eq!(provider.as_deref(), Some("vitepress"));
    assert!(matches!(
        parse_doc_args(&args(&["init"])).unwrap(),
        DocInvocation::Init { provider: None }
    ));
    let message = parse_error(&["init", "vitepress", "extra"]);
    assert!(message.contains("unexpected argument `extra`"), "{message}");
    let message = parse_error(&["init", "--json"]);
    assert!(message.contains("unexpected argument `--json`"), "{message}");
}

#[test]
fn info_accepts_only_json() {
    assert!(matches!(parse_doc_args(&args(&["info"])).unwrap(), DocInvocation::Info { json: false }));
    assert!(matches!(
        parse_doc_args(&args(&["info", "--json"])).unwrap(),
        DocInvocation::Info { json: true }
    ));
    let message = parse_error(&["info", "--verbose"]);
    assert!(message.contains("unexpected argument `--verbose`"), "{message}");
}

#[test]
fn every_action_name_forwards_the_rest() {
    for (name, expected) in
        [("dev", DocAction::Dev), ("build", DocAction::Build), ("preview", DocAction::Preview)]
    {
        let request = action(&[name, "docs", "--open"]);
        assert_eq!(request.action, expected);
        assert_eq!(request.action.as_str(), name);
        assert_eq!(request.args, ["docs", "--open"]);
    }
}

#[test]
fn only_build_is_a_batch_action() {
    assert!(DocAction::Dev.is_server());
    assert!(DocAction::Preview.is_server());
    assert!(!DocAction::Build.is_server());
}

#[test]
fn the_unknown_command_message_lists_the_commands() {
    let message = parse_error(&["serve"]);
    assert_eq!(
        message,
        "unrecognized doc command `serve`\n\nAvailable commands: dev, build, preview, init, info"
    );
    let message = parse_error(&["info", "--json", "--json", "-v"]);
    assert_eq!(message, "unexpected argument `-v`\n\nUsage: vp doc info [--json]");
}
