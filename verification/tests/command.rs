use kubectl_light::command::{parse_command, parse_tokens, Command, ParseError, SyntaxError, Verb};

fn command(verb: Verb) -> Command {
    Command { verb, resource: None, name: None, selector: None, namespace: None, all_namespaces: false }
}

fn some(text: &str) -> Option<String> {
    Some(text.to_string())
}

fn syntax(e: SyntaxError) -> Result<Command, ParseError> {
    Err(ParseError::InvalidSyntax(e))
}

#[test]
fn parses_get_with_a_resource() {
    let expected = Command { resource: some("pods"), ..command(Verb::Get) };
    assert_eq!(parse_command("get pods"), Ok(expected));
}

#[test]
fn parses_get_with_a_namespace() {
    let expected = Command { resource: some("pods"), namespace: some("kube-system"), ..command(Verb::Get) };
    assert_eq!(parse_command("get pods -n kube-system"), Ok(expected.clone()));
    assert_eq!(parse_command("get pods --namespace kube-system"), Ok(expected));
}

#[test]
fn parses_get_across_all_namespaces() {
    let expected = Command { resource: some("pods"), all_namespaces: true, ..command(Verb::Get) };
    assert_eq!(parse_command("get pods -A"), Ok(expected.clone()));
    assert_eq!(parse_command("get pods --all-namespaces"), Ok(expected));
}

#[test]
fn parses_a_selector() {
    let expected = Command { resource: some("Pod"), selector: some("app=web,tier!=db"), ..command(Verb::Get) };
    assert_eq!(parse_command("get Pod -l app=web,tier!=db"), Ok(expected.clone()));
    assert_eq!(parse_command("get Pod --selector app=web,tier!=db"), Ok(expected));
}

#[test]
fn parses_delete_with_a_name() {
    let expected = Command { resource: some("deploy"), name: some("web"), ..command(Verb::Delete) };
    assert_eq!(parse_command("delete deploy web"), Ok(expected));
}

#[test]
fn parses_apply_alone_and_with_options() {
    assert_eq!(parse_command("apply"), Ok(command(Verb::Apply)));
    let expected = Command { namespace: some("staging"), ..command(Verb::Apply) };
    assert_eq!(parse_command("apply -n staging"), Ok(expected));
}

#[test]
fn options_may_stand_anywhere() {
    let expected = Command {
        resource: some("pods"),
        name: some("web-0"),
        selector: some("a=b"),
        namespace: some("ns"),
        all_namespaces: true,
        ..command(Verb::Get)
    };
    assert_eq!(parse_command("-A get -n ns pods -l a=b web-0"), Ok(expected.clone()));
    assert_eq!(parse_command("get pods web-0 -l a=b -n ns -A"), Ok(expected));
}

#[test]
fn get_without_a_resource_still_parses() {
    assert_eq!(parse_command("get"), Ok(command(Verb::Get)));
    assert_eq!(parse_command("delete"), Ok(command(Verb::Delete)));
}

#[test]
fn apply_with_a_resource_is_refused() {
    assert_eq!(parse_command("apply pods"), Err(ParseError::InvalidArguments));
    assert_eq!(parse_command("apply pods web"), Err(ParseError::InvalidArguments));
    assert_eq!(parse_command("-n ns apply deployments"), Err(ParseError::InvalidArguments));
}

#[test]
fn unknown_verbs_are_refused() {
    assert_eq!(parse_command("describe pods"), Err(ParseError::InvalidVerb("describe".to_string())));
    assert_eq!(parse_command("logs"), Err(ParseError::InvalidVerb("logs".to_string())));
}

#[test]
fn verbs_are_matched_with_their_case() {
    assert_eq!(parse_command("GET pods"), Err(ParseError::InvalidVerb("GET".to_string())));
    assert_eq!(parse_command("Apply"), Err(ParseError::InvalidVerb("Apply".to_string())));
}

#[test]
fn an_empty_line_lacks_a_verb() {
    assert_eq!(parse_command(""), syntax(SyntaxError::MissingVerb));
    assert_eq!(parse_command("   \t "), syntax(SyntaxError::MissingVerb));
    assert_eq!(parse_command("-A"), syntax(SyntaxError::MissingVerb));
    assert_eq!(parse_command("-n ns"), syntax(SyntaxError::MissingVerb));
}

#[test]
fn unknown_options_are_refused() {
    assert_eq!(parse_command("get pods -x"), syntax(SyntaxError::UnknownOption("-x".to_string())));
    assert_eq!(parse_command("get pods --all"), syntax(SyntaxError::UnknownOption("--all".to_string())));
    assert_eq!(
        parse_command("get pods --namespace=kube-system"),
        syntax(SyntaxError::UnknownOption("--namespace=kube-system".to_string()))
    );
    assert_eq!(parse_command("get pods -nkube"), syntax(SyntaxError::UnknownOption("-nkube".to_string())));
}

#[test]
fn options_need_their_value() {
    assert_eq!(parse_command("get pods -n"), syntax(SyntaxError::MissingValue("-n".to_string())));
    assert_eq!(parse_command("get pods -l"), syntax(SyntaxError::MissingValue("-l".to_string())));
    assert_eq!(parse_command("get pods -n -A"), syntax(SyntaxError::MissingValue("-n".to_string())));
    assert_eq!(
        parse_command("get --selector --namespace ns pods"),
        syntax(SyntaxError::MissingValue("--selector".to_string()))
    );
}

#[test]
fn a_lone_hyphen_is_a_word() {
    let expected = Command { resource: some("pods"), namespace: some("-"), ..command(Verb::Get) };
    assert_eq!(parse_command("get pods -n -"), Ok(expected));
    let expected = Command { resource: some("-"), ..command(Verb::Get) };
    assert_eq!(parse_command("get -"), Ok(expected));
}

#[test]
fn options_are_given_once() {
    assert_eq!(parse_command("get pods -A -A"), syntax(SyntaxError::RepeatedOption("-A".to_string())));
    assert_eq!(
        parse_command("get pods -n a --namespace b"),
        syntax(SyntaxError::RepeatedOption("--namespace".to_string()))
    );
    assert_eq!(parse_command("get pods -l a -l b"), syntax(SyntaxError::RepeatedOption("-l".to_string())));
}

#[test]
fn a_fourth_word_is_refused() {
    assert_eq!(
        parse_command("get pods web extra"),
        syntax(SyntaxError::UnexpectedArgument("extra".to_string()))
    );
}

#[test]
fn syntax_errors_come_before_the_verb_is_looked_at() {
    assert_eq!(parse_command("describe -x"), syntax(SyntaxError::UnknownOption("-x".to_string())));
    assert_eq!(parse_command("apply pods -x"), syntax(SyntaxError::UnknownOption("-x".to_string())));
    assert_eq!(parse_command("describe pods"), Err(ParseError::InvalidVerb("describe".to_string())));
}

#[test]
fn tokens_parse_as_the_line_does() {
    let tokens: Vec<String> = ["delete", "deploy", "web"].iter().map(|t| t.to_string()).collect();
    assert_eq!(parse_tokens(&tokens), parse_command("delete deploy web"));
    assert_eq!(parse_tokens(&Vec::new()), parse_command(""));
}

#[test]
fn parsed_commands_are_well_formed() {
    for line in ["get", "get pods", "get pods web", "delete pods -l a=b", "apply", "apply -A"] {
        let command = parse_command(line).unwrap();
        assert!(command.name.is_none() || command.resource.is_some());
        assert!(command.verb != Verb::Apply || command.resource.is_none());
    }
}

#[test]
fn errors_have_their_text() {
    assert_eq!(SyntaxError::MissingVerb.message(), "a verb is required: get, delete or apply");
    assert_eq!(SyntaxError::UnknownOption("-x".to_string()).message(), "unexpected option '-x'");
    assert_eq!(SyntaxError::MissingValue("-n".to_string()).message(), "option '-n' requires a value");
    assert_eq!(
        SyntaxError::RepeatedOption("-A".to_string()).message(),
        "option '-A' cannot be used more than once"
    );
    assert_eq!(SyntaxError::UnexpectedArgument("x".to_string()).message(), "unexpected argument 'x'");
    assert_eq!(
        ParseError::InvalidSyntax(SyntaxError::MissingVerb).message(),
        "a verb is required: get, delete or apply"
    );
    assert_eq!(
        ParseError::InvalidVerb("logs".to_string()).message(),
        "invalid verb 'logs': expected get, delete or apply"
    );
    assert_eq!(ParseError::InvalidArguments.message(), "verb Apply cannot act on an explicit resource");
}

#[test]
fn a_command_copy_equals_what_it_copies() {
    let first = parse_command("get pods web -l a=b -n ns -A").unwrap();
    assert_eq!(first.duplicate(), first);
}
