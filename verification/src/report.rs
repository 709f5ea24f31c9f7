//! What a run writes: the lines for a parsed invocation, the message for a
//! rejected command line, and the exit status.

use vstd::prelude::*;
use vstd::string::*;
use crate::grammar::parse_spec;
use crate::invocation::{
    texts, Command, CommandView, Invocation, InvocationView, ParseError, ParseErrorView, Reason,
    ResourceKind,
};
use crate::parser::parse;

verus! {

/// The exit status of a run that parsed its arguments.
pub const EXIT_OK: u8 = 0;

/// The exit status of a run that rejected its arguments.
pub const EXIT_USAGE: u8 = 2;

/// The text that the standard library's `Debug` formatting gives for a
/// string with the text `s`: the text between double quotes, with the
/// characters that need it escaped.
pub uninterp spec fn debug_text(s: Seq<char>) -> Seq<char>;

/// Formats `s` with `Debug` for `str` through `format!`. Trusted: the
/// result is [`debug_text`] of the text of `s`, a function of that text
/// alone.
#[verifier::external_body]
fn quoted(s: &str) -> (q: String)
    ensures
        q@ == debug_text(s@),
{
    format!("{:?}", s)
}

/// The decimal digit for `d`.
pub open spec fn digit(d: nat) -> char
    recommends
        d < 10,
{
    ((('0' as u8) + d) as u8) as char
}

/// The decimal numeral of `n`, without leading zeros.
pub open spec fn decimal_text(n: nat) -> Seq<char>
    decreases n,
{
    if n < 10 {
        seq![digit(n)]
    } else {
        decimal_text(n / 10).push(digit(n % 10))
    }
}

/// The items with `, ` between them.
pub open spec fn joined(items: Seq<Seq<char>>) -> Seq<char>
    decreases items.len(),
{
    if items.len() == 0 {
        Seq::empty()
    } else if items.len() == 1 {
        items[0]
    } else {
        joined(items.drop_last()) + ", "@ + items.last()
    }
}

/// The first line: the names as a bracketed list of quoted strings.
pub open spec fn names_text(quoted_names: Seq<Seq<char>>) -> Seq<char> {
    "name: ["@ + joined(quoted_names) + "]"@
}

/// The second line: the verbosity.
pub open spec fn verbosity_text(verbosity: nat) -> Seq<char> {
    "verbose: "@ + decimal_text(verbosity)
}

/// The tag that stands for a resource kind.
pub open spec fn tag_text(resource: ResourceKind) -> Seq<char> {
    match resource {
        ResourceKind::PRTB => "PRTB"@,
        ResourceKind::CRTB => "CRTB"@,
    }
}

/// The last line: what the subcommand would do.
pub open spec fn summary_text(command: CommandView) -> Seq<char> {
    match command {
        CommandView::Get { name } => "Get "@ + name,
        CommandView::Delete { resource } => tag_text(resource),
    }
}

/// The lines for an invocation: names, verbosity, summary.
pub open spec fn report(invocation: InvocationView) -> Seq<Seq<char>> {
    seq![
        names_text(invocation.names.map_values(|name: Seq<char>| debug_text(name))),
        verbosity_text(invocation.verbosity),
        summary_text(invocation.command),
    ]
}

/// The synopsis that every message ends with.
pub open spec fn usage_text() -> Seq<char> {
    "usage: [-n|--name <string>]... [-v|--verbose]... <get <name> | delete <prtb|crtb>>"@
}

/// What is wrong, in words; `token` is the argument at fault.
pub open spec fn complaint_text(reason: Reason, token: Seq<char>) -> Seq<char> {
    match reason {
        Reason::MissingSubcommand => "a subcommand is required: get or delete"@,
        Reason::UnknownSubcommand => "unrecognized subcommand '"@ + token
            + "': expected get or delete"@,
        Reason::UnknownOption => "unexpected option '"@ + token + "'"@,
        Reason::MissingValue => "a value is required after '"@ + token + "'"@,
        Reason::UnexpectedValue => "unexpected value in '"@ + token + "': --verbose takes none"@,
        Reason::MissingName => "get requires a resource name"@,
        Reason::MissingResource => "delete requires a resource kind: prtb or crtb"@,
        Reason::UnknownResource => "unrecognized resource kind '"@ + token
            + "': expected prtb or crtb"@,
        Reason::ExtraArgument => "unexpected argument '"@ + token + "'"@,
    }
}

/// The message for a rejected command line.
pub open spec fn message_text(error: ParseErrorView) -> Seq<char> {
    "error: "@ + complaint_text(error.reason, error.token) + "\n"@ + usage_text()
}

/// The one-character string of a decimal digit.
fn digit_str(d: u8) -> (s: &'static str)
    requires
        d < 10,
    ensures
        s@ == seq![digit(d as nat)],
{
    proof {
        reveal_strlit("0");
        reveal_strlit("1");
        reveal_strlit("2");
        reveal_strlit("3");
        reveal_strlit("4");
        reveal_strlit("5");
        reveal_strlit("6");
        reveal_strlit("7");
        reveal_strlit("8");
        reveal_strlit("9");
    }
    let s = match d {
        0 => "0",
        1 => "1",
        2 => "2",
        3 => "3",
        4 => "4",
        5 => "5",
        6 => "6",
        7 => "7",
        8 => "8",
        _ => "9",
    };
    assert(s@ =~= seq![digit(d as nat)]);
    s
}

/// The decimal numeral of `n`.
pub fn decimal(n: u128) -> (s: String)
    ensures
        s@ == decimal_text(n as nat),
    decreases n,
{
    if n < 10 {
        String::from_str(digit_str(n as u8))
    } else {
        let mut s = decimal(n / 10);
        s.append(digit_str((n % 10) as u8));
        assert(s@ =~= decimal_text((n / 10) as nat).push(digit((n % 10) as nat)));
        s
    }
}

impl ResourceKind {
    /// The tag that stands for this kind.
    pub fn tag(&self) -> (s: &'static str)
        ensures
            s@ == tag_text(*self),
    {
        match self {
            ResourceKind::PRTB => "PRTB",
            ResourceKind::CRTB => "CRTB",
        }
    }
}

/// The first line, from the names already quoted.
pub fn names_line(quoted_names: &Vec<String>) -> (line: String)
    ensures
        line@ == names_text(texts(quoted_names@)),
{
    let ghost items = texts(quoted_names@);
    let mut line = String::from_str("name: [");
    let mut i: usize = 0;
    while i < quoted_names.len()
        invariant
            i <= quoted_names.len(),
            items == texts(quoted_names@),
            line@ == "name: ["@ + joined(items.take(i as int)),
        decreases quoted_names.len() - i,
    {
        if i > 0 {
            line.append(", ");
        }
        line.append(quoted_names[i].as_str());
        proof {
            let before = items.take(i as int);
            let now = items.take(i + 1);
            assert(now.drop_last() =~= before);
            assert(now.last() == items[i as int]);
            if i == 0 {
                assert(joined(before) =~= Seq::<char>::empty());
                assert(line@ =~= "name: ["@ + joined(now));
            } else {
                assert(line@ =~= "name: ["@ + joined(now));
            }
        }
        i += 1;
    }
    assert(items.take(i as int) =~= items);
    line.append("]");
    line
}

/// The second line.
pub fn verbosity_line(verbosity: u128) -> (line: String)
    ensures
        line@ == verbosity_text(verbosity as nat),
{
    let mut line = String::from_str("verbose: ");
    line.append(decimal(verbosity).as_str());
    line
}

/// The last line.
pub fn summary(command: &Command) -> (line: String)
    ensures
        line@ == summary_text(command@),
{
    match command {
        Command::Get { name } => {
            let mut line = String::from_str("Get ");
            line.append(name.as_str());
            line
        },
        Command::Delete { resource } => String::from_str(resource.tag()),
    }
}

/// The lines that a run writes to its standard output for `invocation`:
/// the names, the verbosity, and what the subcommand would do.
pub fn dispatch(invocation: &Invocation) -> (lines: Vec<String>)
    ensures
        texts(lines@) == report(invocation@),
{
    let ghost names = texts(invocation.names@);
    let mut quoted_names: Vec<String> = Vec::new();
    let mut i: usize = 0;
    while i < invocation.names.len()
        invariant
            i <= invocation.names.len(),
            names == texts(invocation.names@),
            texts(quoted_names@) == names.take(i as int).map_values(
                |name: Seq<char>| debug_text(name),
            ),
        decreases invocation.names.len() - i,
    {
        let ghost before = texts(quoted_names@);
        quoted_names.push(quoted(invocation.names[i].as_str()));
        proof {
            let now = names.take(i + 1).map_values(|name: Seq<char>| debug_text(name));
            assert(texts(quoted_names@) =~= before.push(debug_text(names[i as int])));
            assert(now.drop_last() =~= before);
            assert(now =~= before.push(debug_text(names[i as int])));
        }
        i += 1;
    }
    assert(names.take(i as int) =~= names);
    let mut lines: Vec<String> = Vec::new();
    lines.push(names_line(&quoted_names));
    lines.push(verbosity_line(invocation.verbosity));
    lines.push(summary(&invocation.command));
    assert(texts(lines@) =~= report(invocation@));
    lines
}

impl ParseError {
    /// The message for this error: what is wrong with which argument, and
    /// the synopsis of the command line.
    pub fn message(&self) -> (text: String)
        ensures
            text@ == message_text(self@),
    {
        let mut text = String::from_str("error: ");
        match self.reason {
            Reason::MissingSubcommand => {
                text.append("a subcommand is required: get or delete");
            },
            Reason::UnknownSubcommand => {
                text.append("unrecognized subcommand '");
                text.append(self.token.as_str());
                text.append("': expected get or delete");
            },
            Reason::UnknownOption => {
                text.append("unexpected option '");
                text.append(self.token.as_str());
                text.append("'");
            },
            Reason::MissingValue => {
                text.append("a value is required after '");
                text.append(self.token.as_str());
                text.append("'");
            },
            Reason::UnexpectedValue => {
                text.append("unexpected value in '");
                text.append(self.token.as_str());
                text.append("': --verbose takes none");
            },
            Reason::MissingName => {
                text.append("get requires a resource name");
            },
            Reason::MissingResource => {
                text.append("delete requires a resource kind: prtb or crtb");
            },
            Reason::UnknownResource => {
                text.append("unrecognized resource kind '");
                text.append(self.token.as_str());
                text.append("': expected prtb or crtb");
            },
            Reason::ExtraArgument => {
                text.append("unexpected argument '");
                text.append(self.token.as_str());
                text.append("'");
            },
        }
        text.append("\n");
        text.append(
            "usage: [-n|--name <string>]... [-v|--verbose]... <get <name> | delete <prtb|crtb>>",
        );
        assert(text@ =~= message_text(self@));
        text
    }
}

/// Everything that one run produces.
#[derive(Debug, Clone, PartialEq, Eq)]
pub struct Transcript {
    /// The exit status.
    pub status: u8,
    /// The lines for the standard output.
    pub output: Vec<String>,
    /// The lines for the standard error stream.
    pub errors: Vec<String>,
}

/// The mathematical value of a [`Transcript`].
pub struct TranscriptView {
    pub status: nat,
    pub output: Seq<Seq<char>>,
    pub errors: Seq<Seq<char>>,
}

impl View for Transcript {
    type V = TranscriptView;

    open spec fn view(&self) -> TranscriptView {
        TranscriptView {
            status: self.status as nat,
            output: texts(self.output@),
            errors: texts(self.errors@),
        }
    }
}

/// What a run on `args` produces: the report and status 0 where the
/// arguments parse; else nothing on the standard output, the message on
/// the error stream, and status 2.
pub open spec fn transcript(args: Seq<Seq<char>>) -> TranscriptView {
    match parse_spec(args) {
        Ok(invocation) => TranscriptView {
            status: EXIT_OK as nat,
            output: report(invocation),
            errors: Seq::empty(),
        },
        Err(error) => TranscriptView {
            status: EXIT_USAGE as nat,
            output: Seq::empty(),
            errors: seq![message_text(error)],
        },
    }
}

/// Runs the command line on `args` (the program's name left out) without
/// writing anything: the caller writes the lines and exits with the
/// status.
pub fn run(args: &Vec<String>) -> (t: Transcript)
    ensures
        t@ == transcript(texts(args@)),
{
    match parse(args) {
        Ok(invocation) => {
            let t = Transcript {
                status: EXIT_OK,
                output: dispatch(&invocation),
                errors: Vec::new(),
            };
            assert(texts(t.errors@) =~= Seq::<Seq<char>>::empty());
            t
        },
        Err(error) => {
            let mut errors: Vec<String> = Vec::new();
            errors.push(error.message());
            let t = Transcript { status: EXIT_USAGE, output: Vec::new(), errors };
            assert(texts(t.output@) =~= Seq::<Seq<char>>::empty());
            assert(texts(t.errors@) =~= seq![message_text(error@)]);
            t
        },
    }
}

} // verus!
