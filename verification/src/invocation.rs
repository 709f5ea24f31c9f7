//! The data that one run of the command line is parsed into, and the
//! mathematical values that contracts use to speak about it.

use vstd::prelude::*;

verus! {

/// The kinds of resource that `delete` can select.
#[derive(Debug, Clone, Copy, PartialEq, Eq, Structural)]
pub enum ResourceKind {
    /// A project role template binding.
    PRTB,
    /// A cluster role template binding.
    CRTB,
}

/// The subcommand of an invocation.
#[derive(Debug, Clone, PartialEq, Eq)]
pub enum Command {
    /// `get <name>`: look one resource up by name.
    Get { name: String },
    /// `delete <kind>`: delete resources of one kind.
    Delete { resource: ResourceKind },
}

/// One fully parsed command line.
#[derive(Debug, Clone, PartialEq, Eq)]
pub struct Invocation {
    /// The values of the `-n`/`--name` options, in the order given.
    pub names: Vec<String>,
    /// How many times `-v`/`--verbose` was given.
    pub verbosity: u128,
    /// The subcommand.
    pub command: Command,
}

/// Why a command line was rejected.
#[derive(Debug, Clone, Copy, PartialEq, Eq, Structural)]
pub enum Reason {
    /// The arguments ended before any subcommand.
    MissingSubcommand,
    /// A word stands where `get` or `delete` is expected.
    UnknownSubcommand,
    /// An option that the command line does not have.
    UnknownOption,
    /// `-n`/`--name` is not followed by a value.
    MissingValue,
    /// `--verbose` was given a value.
    UnexpectedValue,
    /// `get` is not followed by a resource name.
    MissingName,
    /// `delete` is not followed by a resource kind.
    MissingResource,
    /// The word after `delete` is neither `prtb` nor `crtb`.
    UnknownResource,
    /// An argument follows a complete subcommand.
    ExtraArgument,
}

/// A rejected command line: the first argument at fault and the reason.
#[derive(Debug, Clone, PartialEq, Eq)]
pub struct ParseError {
    /// Why the argument is rejected.
    pub reason: Reason,
    /// The index of the argument at fault; the number of arguments when
    /// something is missing at the end.
    pub position: usize,
    /// The text of the argument at fault; empty when something is missing
    /// at the end.
    pub token: String,
}

/// The mathematical value of a [`Command`].
pub enum CommandView {
    Get { name: Seq<char> },
    Delete { resource: ResourceKind },
}

/// The mathematical value of an [`Invocation`].
pub struct InvocationView {
    pub names: Seq<Seq<char>>,
    pub verbosity: nat,
    pub command: CommandView,
}

/// The mathematical value of a [`ParseError`].
pub struct ParseErrorView {
    pub reason: Reason,
    pub position: nat,
    pub token: Seq<char>,
}

/// The texts of a sequence of strings.
pub open spec fn texts(v: Seq<String>) -> Seq<Seq<char>> {
    v.map_values(|s: String| s@)
}

impl View for Command {
    type V = CommandView;

    open spec fn view(&self) -> CommandView {
        match self {
            Command::Get { name } => CommandView::Get { name: name@ },
            Command::Delete { resource } => CommandView::Delete { resource: *resource },
        }
    }
}

impl View for Invocation {
    type V = InvocationView;

    open spec fn view(&self) -> InvocationView {
        InvocationView {
            names: texts(self.names@),
            verbosity: self.verbosity as nat,
            command: self.command@,
        }
    }
}

impl View for ParseError {
    type V = ParseErrorView;

    open spec fn view(&self) -> ParseErrorView {
        ParseErrorView {
            reason: self.reason,
            position: self.position as nat,
            token: self.token@,
        }
    }
}

/// The mathematical value of a parse result.
pub open spec fn outcome(r: Result<Invocation, ParseError>) -> Result<
    InvocationView,
    ParseErrorView,
> {
    match r {
        Ok(invocation) => Ok(invocation@),
        Err(error) => Err(error@),
    }
}

} // verus!
