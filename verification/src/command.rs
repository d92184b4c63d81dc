//! The command parser: from the text that follows the program name to a
//! typed command.
//!
//! Grammar, over the whitespace-separated words of the line:
//!
//! ```text
//! <verb> [<resource> [<name>]] [--selector|-l <expr>] [--namespace|-n <ns>] [--all-namespaces|-A]
//! ```
//!
//! Options may stand anywhere among the positional words. Quoting is not
//! supported: words are split on whitespace and nothing else.

use crate::text::{clone_opt, enclose, opt_text, split_whitespace, str_eq, texts, words};
use vstd::prelude::*;
use vstd::string::*;

verus! {

/// What a command does.
#[derive(Clone, Copy, Debug, PartialEq, Eq, Structural)]
pub enum Verb {
    Get,
    Delete,
    Apply,
}

/// A parsed command line.
#[derive(Clone, Debug, PartialEq, Eq)]
pub struct Command {
    pub verb: Verb,
    /// Kind or plural of the resource to act on, as typed.
    pub resource: Option<String>,
    /// Name of the single object to act on.
    pub name: Option<String>,
    /// Label selector.
    pub selector: Option<String>,
    /// Explicit namespace.
    pub namespace: Option<String>,
    /// Act across all namespaces.
    pub all_namespaces: bool,
}

pub struct CommandView {
    pub verb: Verb,
    pub resource: Option<Seq<char>>,
    pub name: Option<Seq<char>>,
    pub selector: Option<Seq<char>>,
    pub namespace: Option<Seq<char>>,
    pub all_namespaces: bool,
}

impl View for Command {
    type V = CommandView;

    open spec fn view(&self) -> CommandView {
        CommandView {
            verb: self.verb,
            resource: opt_text(self.resource),
            name: opt_text(self.name),
            selector: opt_text(self.selector),
            namespace: opt_text(self.namespace),
            all_namespaces: self.all_namespaces,
        }
    }
}

impl CommandView {
    /// What holds of every command the parser returns: an object name comes
    /// only with a resource, and `apply` carries neither, since it takes its
    /// targets from the manifest.
    pub open spec fn well_formed(self) -> bool {
        &&& self.name is Some ==> self.resource is Some
        &&& self.verb == Verb::Apply ==> self.resource is None
    }
}

/// How the words of a line break the grammar.
#[derive(Clone, Debug, PartialEq, Eq)]
pub enum SyntaxError {
    /// The line holds no positional word.
    MissingVerb,
    /// A word that starts with a hyphen and is no option of the grammar.
    UnknownOption(String),
    /// An option that takes a value stands last, or before another option.
    MissingValue(String),
    /// An option is given a second time.
    RepeatedOption(String),
    /// A fourth positional word.
    UnexpectedArgument(String),
}

pub enum SyntaxErrorView {
    MissingVerb,
    UnknownOption(Seq<char>),
    MissingValue(Seq<char>),
    RepeatedOption(Seq<char>),
    UnexpectedArgument(Seq<char>),
}

impl View for SyntaxError {
    type V = SyntaxErrorView;

    open spec fn view(&self) -> SyntaxErrorView {
        match self {
            SyntaxError::MissingVerb => SyntaxErrorView::MissingVerb,
            SyntaxError::UnknownOption(t) => SyntaxErrorView::UnknownOption(t@),
            SyntaxError::MissingValue(t) => SyntaxErrorView::MissingValue(t@),
            SyntaxError::RepeatedOption(t) => SyntaxErrorView::RepeatedOption(t@),
            SyntaxError::UnexpectedArgument(t) => SyntaxErrorView::UnexpectedArgument(t@),
        }
    }
}

/// Why a command line was refused.
#[derive(Clone, Debug, PartialEq, Eq)]
pub enum ParseError {
    /// The words do not follow the grammar.
    InvalidSyntax(SyntaxError),
    /// The first positional word is none of `get`, `delete`, `apply`.
    InvalidVerb(String),
    /// `apply` was given a resource.
    InvalidArguments,
}

pub enum ParseErrorView {
    InvalidSyntax(SyntaxErrorView),
    InvalidVerb(Seq<char>),
    InvalidArguments,
}

impl View for ParseError {
    type V = ParseErrorView;

    open spec fn view(&self) -> ParseErrorView {
        match self {
            ParseError::InvalidSyntax(e) => ParseErrorView::InvalidSyntax(e@),
            ParseError::InvalidVerb(t) => ParseErrorView::InvalidVerb(t@),
            ParseError::InvalidArguments => ParseErrorView::InvalidArguments,
        }
    }
}

/// The view of a parse result.
pub open spec fn parsed(r: Result<Command, ParseError>) -> Result<CommandView, ParseErrorView> {
    match r {
        Ok(c) => Ok(c@),
        Err(e) => Err(e@),
    }
}

/// What the words read so far amount to.
pub struct Arguments {
    pub positionals: Seq<Seq<char>>,
    pub selector: Option<Seq<char>>,
    pub namespace: Option<Seq<char>>,
    pub all_namespaces: bool,
}

pub open spec fn no_arguments() -> Arguments {
    Arguments {
        positionals: Seq::empty(),
        selector: None,
        namespace: None,
        all_namespaces: false,
    }
}

/// A word reads as an option when it starts with a hyphen and is longer
/// than the hyphen alone.
pub open spec fn is_option(word: Seq<char>) -> bool {
    word.len() >= 2 && word[0] == '-'
}

pub open spec fn is_selector_flag(word: Seq<char>) -> bool {
    word == "--selector"@ || word == "-l"@
}

pub open spec fn is_namespace_flag(word: Seq<char>) -> bool {
    word == "--namespace"@ || word == "-n"@
}

pub open spec fn is_all_flag(word: Seq<char>) -> bool {
    word == "--all-namespaces"@ || word == "-A"@
}

/// Whether the word after position `i` can serve as the value of the
/// option at `i`.
pub open spec fn has_value(tokens: Seq<Seq<char>>, i: int) -> bool {
    i + 1 < tokens.len() && !is_option(tokens[i + 1])
}

/// Reads the words from position `i` on into `acc`, left to right.
pub open spec fn scan(tokens: Seq<Seq<char>>, i: int, acc: Arguments) -> Result<
    Arguments,
    SyntaxErrorView,
>
    decreases tokens.len() - i,
{
    if i < 0 || i >= tokens.len() {
        Ok(acc)
    } else {
        let t = tokens[i];
        if is_selector_flag(t) {
            if acc.selector is Some {
                Err(SyntaxErrorView::RepeatedOption(t))
            } else if !has_value(tokens, i) {
                Err(SyntaxErrorView::MissingValue(t))
            } else {
                scan(tokens, i + 2, Arguments { selector: Some(tokens[i + 1]), ..acc })
            }
        } else if is_namespace_flag(t) {
            if acc.namespace is Some {
                Err(SyntaxErrorView::RepeatedOption(t))
            } else if !has_value(tokens, i) {
                Err(SyntaxErrorView::MissingValue(t))
            } else {
                scan(tokens, i + 2, Arguments { namespace: Some(tokens[i + 1]), ..acc })
            }
        } else if is_all_flag(t) {
            if acc.all_namespaces {
                Err(SyntaxErrorView::RepeatedOption(t))
            } else {
                scan(tokens, i + 1, Arguments { all_namespaces: true, ..acc })
            }
        } else if is_option(t) {
            Err(SyntaxErrorView::UnknownOption(t))
        } else if acc.positionals.len() >= 3 {
            Err(SyntaxErrorView::UnexpectedArgument(t))
        } else {
            scan(tokens, i + 1, Arguments { positionals: acc.positionals.push(t), ..acc })
        }
    }
}

/// The verb a word spells. Case matters.
pub open spec fn verb_of(word: Seq<char>) -> Option<Verb> {
    if word == "get"@ {
        Some(Verb::Get)
    } else if word == "delete"@ {
        Some(Verb::Delete)
    } else if word == "apply"@ {
        Some(Verb::Apply)
    } else {
        None
    }
}

/// The command that fully read arguments spell.
pub open spec fn command_of(args: Arguments) -> Result<CommandView, ParseErrorView> {
    if args.positionals.len() == 0 {
        Err(ParseErrorView::InvalidSyntax(SyntaxErrorView::MissingVerb))
    } else {
        match verb_of(args.positionals[0]) {
            None => Err(ParseErrorView::InvalidVerb(args.positionals[0])),
            Some(verb) => if verb == Verb::Apply && args.positionals.len() > 1 {
                Err(ParseErrorView::InvalidArguments)
            } else {
                Ok(
                    CommandView {
                        verb,
                        resource: if args.positionals.len() > 1 {
                            Some(args.positionals[1])
                        } else {
                            None
                        },
                        name: if args.positionals.len() > 2 {
                            Some(args.positionals[2])
                        } else {
                            None
                        },
                        selector: args.selector,
                        namespace: args.namespace,
                        all_namespaces: args.all_namespaces,
                    },
                )
            },
        }
    }
}

/// The meaning of a list of words: a syntax error comes first, then an
/// unknown verb, then arguments that the verb does not take.
pub open spec fn parse_words(tokens: Seq<Seq<char>>) -> Result<CommandView, ParseErrorView> {
    match scan(tokens, 0, no_arguments()) {
        Err(e) => Err(ParseErrorView::InvalidSyntax(e)),
        Ok(args) => command_of(args),
    }
}

/// The meaning of a command line.
pub open spec fn parse_line(line: Seq<char>) -> Result<CommandView, ParseErrorView> {
    parse_words(words(line))
}

/// Every command that the grammar yields is well formed.
pub proof fn lemma_parsed_well_formed(line: Seq<char>)
    ensures
        parse_line(line) matches Ok(c) ==> c.well_formed(),
{
}

/// The text shown for a syntax error.
pub open spec fn syntax_message(e: SyntaxErrorView) -> Seq<char> {
    match e {
        SyntaxErrorView::MissingVerb => "a verb is required: get, delete or apply"@,
        SyntaxErrorView::UnknownOption(t) => "unexpected option '"@ + t + "'"@,
        SyntaxErrorView::MissingValue(t) => "option '"@ + t + "' requires a value"@,
        SyntaxErrorView::RepeatedOption(t) => "option '"@ + t
            + "' cannot be used more than once"@,
        SyntaxErrorView::UnexpectedArgument(t) => "unexpected argument '"@ + t + "'"@,
    }
}

/// The text shown for a refused command line.
pub open spec fn parse_message(e: ParseErrorView) -> Seq<char> {
    match e {
        ParseErrorView::InvalidSyntax(s) => syntax_message(s),
        ParseErrorView::InvalidVerb(t) => "invalid verb '"@ + t
            + "': expected get, delete or apply"@,
        ParseErrorView::InvalidArguments => "verb Apply cannot act on an explicit resource"@,
    }
}

impl SyntaxError {
    /// The text shown for this error.
    pub fn message(&self) -> (text: String)
        ensures
            text@ == syntax_message(self@),
    {
        match self {
            SyntaxError::MissingVerb => String::from_str(
                "a verb is required: get, delete or apply",
            ),
            SyntaxError::UnknownOption(t) => enclose("unexpected option '", t.as_str(), "'"),
            SyntaxError::MissingValue(t) => enclose("option '", t.as_str(), "' requires a value"),
            SyntaxError::RepeatedOption(t) => enclose(
                "option '",
                t.as_str(),
                "' cannot be used more than once",
            ),
            SyntaxError::UnexpectedArgument(t) => enclose(
                "unexpected argument '",
                t.as_str(),
                "'",
            ),
        }
    }
}

impl ParseError {
    /// The text shown for this error.
    pub fn message(&self) -> (text: String)
        ensures
            text@ == parse_message(self@),
    {
        match self {
            ParseError::InvalidSyntax(e) => e.message(),
            ParseError::InvalidVerb(t) => enclose(
                "invalid verb '",
                t.as_str(),
                "': expected get, delete or apply",
            ),
            ParseError::InvalidArguments => String::from_str(
                "verb Apply cannot act on an explicit resource",
            ),
        }
    }
}

/// Whether `word` reads as an option.
fn word_is_option(word: &str) -> (b: bool)
    ensures
        b == is_option(word@),
{
    word.unicode_len() >= 2 && word.get_char(0) == '-'
}

/// The verb that `word` spells.
fn word_verb(word: &str) -> (verb: Option<Verb>)
    ensures
        verb == verb_of(word@),
{
    if str_eq(word, "get") {
        Some(Verb::Get)
    } else if str_eq(word, "delete") {
        Some(Verb::Delete)
    } else if str_eq(word, "apply") {
        Some(Verb::Apply)
    } else {
        None
    }
}

/// Builds the command that the collected arguments spell.
fn build_command(
    positionals: Vec<String>,
    selector: Option<String>,
    namespace: Option<String>,
    all_namespaces: bool,
) -> (r: Result<Command, ParseError>)
    requires
        positionals@.len() <= 3,
    ensures
        parsed(r) == command_of(
            Arguments {
                positionals: texts(positionals@),
                selector: opt_text(selector),
                namespace: opt_text(namespace),
                all_namespaces,
            },
        ),
{
    let count: usize = positionals.len();
    if count == 0 {
        return Err(ParseError::InvalidSyntax(SyntaxError::MissingVerb));
    }
    let verb = match word_verb(positionals[0].as_str()) {
        None => { return Err(ParseError::InvalidVerb(positionals[0].clone())); },
        Some(verb) => verb,
    };
    if matches!(verb, Verb::Apply) && count > 1 {
        return Err(ParseError::InvalidArguments);
    }
    let resource = if count > 1 {
        Some(positionals[1].clone())
    } else {
        None
    };
    let name = if count > 2 {
        Some(positionals[2].clone())
    } else {
        None
    };
    Ok(Command { verb, resource, name, selector, namespace, all_namespaces })
}

/// Parses the words of a command line.
pub fn parse_tokens(tokens: &Vec<String>) -> (r: Result<Command, ParseError>)
    ensures
        parsed(r) == parse_words(texts(tokens@)),
{
    let ghost words = texts(tokens@);
    let mut positionals: Vec<String> = Vec::new();
    let mut selector: Option<String> = None;
    let mut namespace: Option<String> = None;
    let mut all_namespaces: bool = false;
    let n: usize = tokens.len();
    let mut i: usize = 0;
    assert(texts(positionals@) =~= Seq::<Seq<char>>::empty());
    while i < n
        invariant
            i <= n,
            n == tokens@.len(),
            words == texts(tokens@),
            positionals@.len() <= 3,
            scan(
                words,
                i as int,
                Arguments {
                    positionals: texts(positionals@),
                    selector: opt_text(selector),
                    namespace: opt_text(namespace),
                    all_namespaces,
                },
            ) == scan(words, 0, no_arguments()),
        decreases n - i,
    {
        let token = tokens[i].as_str();
        assert(token@ == words[i as int]);
        if str_eq(token, "--selector") || str_eq(token, "-l") {
            if selector.is_some() {
                return Err(ParseError::InvalidSyntax(SyntaxError::RepeatedOption(tokens[i].clone())));
            }
            if i + 1 >= n || word_is_option(tokens[i + 1].as_str()) {
                return Err(ParseError::InvalidSyntax(SyntaxError::MissingValue(tokens[i].clone())));
            }
            selector = Some(tokens[i + 1].clone());
            i += 2;
        } else if str_eq(token, "--namespace") || str_eq(token, "-n") {
            if namespace.is_some() {
                return Err(ParseError::InvalidSyntax(SyntaxError::RepeatedOption(tokens[i].clone())));
            }
            if i + 1 >= n || word_is_option(tokens[i + 1].as_str()) {
                return Err(ParseError::InvalidSyntax(SyntaxError::MissingValue(tokens[i].clone())));
            }
            namespace = Some(tokens[i + 1].clone());
            i += 2;
        } else if str_eq(token, "--all-namespaces") || str_eq(token, "-A") {
            if all_namespaces {
                return Err(ParseError::InvalidSyntax(SyntaxError::RepeatedOption(tokens[i].clone())));
            }
            all_namespaces = true;
            i += 1;
        } else if word_is_option(token) {
            return Err(ParseError::InvalidSyntax(SyntaxError::UnknownOption(tokens[i].clone())));
        } else if positionals.len() >= 3 {
            return Err(
                ParseError::InvalidSyntax(SyntaxError::UnexpectedArgument(tokens[i].clone())),
            );
        } else {
            let ghost before = texts(positionals@);
            positionals.push(tokens[i].clone());
            assert(texts(positionals@) =~= before.push(words[i as int]));
            i += 1;
        }
    }
    build_command(positionals, selector, namespace, all_namespaces)
}

/// Parses the part of a command line that follows the program name.
///
/// Succeeds exactly on the lines that follow the grammar with a known verb
/// and, for `apply`, without a resource; otherwise says what is wrong.
pub fn parse_command(line: &str) -> (r: Result<Command, ParseError>)
    ensures
        parsed(r) == parse_line(line@),
        r matches Ok(c) ==> c@.well_formed(),
{
    let tokens = split_whitespace(line);
    parse_tokens(&tokens)
}

impl Command {
    /// A copy of this command.
    pub fn duplicate(&self) -> (copy: Command)
        ensures
            copy@ == self@,
    {
        Command {
            verb: self.verb,
            resource: clone_opt(&self.resource),
            name: clone_opt(&self.name),
            selector: clone_opt(&self.selector),
            namespace: clone_opt(&self.namespace),
            all_namespaces: self.all_namespaces,
        }
    }
}

} // verus!
