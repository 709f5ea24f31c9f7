//! The grammar of the command line, as mathematical functions.
//!
//! ```text
//! [-n|--name <string>]... [-v|--verbose]... <SUBCOMMAND>
//!
//! SUBCOMMAND:
//!   get <name>
//!   delete <prtb|crtb>
//! ```
//!
//! Options follow the usual conventions: short flags may be bundled
//! (`-vv`, `-vn x`), a value may be attached to its option (`--name=x`,
//! `-nx`, `-n=x`), and a lone `--` ends option processing.

use vstd::prelude::*;
use crate::invocation::{CommandView, InvocationView, ParseErrorView, Reason, ResourceKind};
use crate::text::ascii_lower;

verus! {

/// The lexical class of one argument.
pub enum Shape {
    /// Exactly `--`.
    Escape,
    /// `--` followed by at least one character.
    Long,
    /// `-` followed by at least one character other than `-`.
    Short,
    /// Anything else, the empty argument and a lone `-` included.
    Word,
}

/// What an option argument asks for beyond verbosity.
pub enum NameArg {
    /// No name option.
    Absent,
    /// A name option with its value in the same argument.
    Attached(Seq<char>),
    /// A name option whose value is the next argument.
    Detached,
}

/// The meaning of one option argument.
pub enum Effect {
    /// The argument is at fault.
    Reject(Reason),
    /// The argument adds `verbose` to the verbosity, and a name where
    /// `name` says so.
    Accept { verbose: nat, name: NameArg },
}

/// The lexical class of `t`.
pub open spec fn shape(t: Seq<char>) -> Shape {
    if t.len() >= 2 && t[0] == '-' && t[1] == '-' {
        if t.len() == 2 {
            Shape::Escape
        } else {
            Shape::Long
        }
    } else if t.len() >= 2 && t[0] == '-' {
        Shape::Short
    } else {
        Shape::Word
    }
}

/// Whether `t` begins with `prefix`.
pub open spec fn starts_with(t: Seq<char>, prefix: Seq<char>) -> bool {
    prefix.len() <= t.len() && t.take(prefix.len() as int) == prefix
}

/// The meaning of an argument of shape [`Shape::Long`].
pub open spec fn long_effect(t: Seq<char>) -> Effect {
    if t == "--verbose"@ {
        Effect::Accept { verbose: 1, name: NameArg::Absent }
    } else if t == "--name"@ {
        Effect::Accept { verbose: 0, name: NameArg::Detached }
    } else if starts_with(t, "--name="@) {
        Effect::Accept { verbose: 0, name: NameArg::Attached(t.skip("--name="@.len() as int)) }
    } else if starts_with(t, "--verbose="@) {
        Effect::Reject(Reason::UnexpectedValue)
    } else {
        Effect::Reject(Reason::UnknownOption)
    }
}

/// One more `-v` in front of what `rest` means.
pub open spec fn louder(rest: Effect) -> Effect {
    match rest {
        Effect::Accept { verbose, name } => Effect::Accept { verbose: verbose + 1, name },
        Effect::Reject(reason) => Effect::Reject(reason),
    }
}

/// The meaning of the short flags of `t` from index `j` on: any number
/// of `v`, then nothing or `n` with the rest of the argument as its
/// value, one leading `=` dropped.
pub open spec fn short_effect(t: Seq<char>, j: int) -> Effect
    decreases t.len() - j,
{
    if j >= t.len() {
        Effect::Accept { verbose: 0, name: NameArg::Absent }
    } else if t[j] == 'v' {
        louder(short_effect(t, j + 1))
    } else if t[j] == 'n' {
        if j + 1 == t.len() {
            Effect::Accept { verbose: 0, name: NameArg::Detached }
        } else if t[j + 1] == '=' {
            Effect::Accept { verbose: 0, name: NameArg::Attached(t.skip(j + 2)) }
        } else {
            Effect::Accept { verbose: 0, name: NameArg::Attached(t.skip(j + 1)) }
        }
    } else {
        Effect::Reject(Reason::UnknownOption)
    }
}

/// The meaning of an argument where an option or a subcommand may stand.
/// A word is no option, and neither is `--`: nothing but the subcommand
/// may follow the options.
pub open spec fn effect(t: Seq<char>) -> Effect {
    match shape(t) {
        Shape::Long => long_effect(t),
        Shape::Short => short_effect(t, 1),
        Shape::Escape => Effect::Reject(Reason::UnknownOption),
        Shape::Word => Effect::Reject(Reason::UnknownSubcommand),
    }
}

/// The resource kind that `t` names, letter case ignored.
pub open spec fn kind_of(t: Seq<char>) -> Option<ResourceKind> {
    let folded = t.map_values(|c: char| ascii_lower(c));
    if folded == "prtb"@ {
        Some(ResourceKind::PRTB)
    } else if folded == "crtb"@ {
        Some(ResourceKind::CRTB)
    } else {
        None
    }
}

/// The error for the argument at index `i`.
pub open spec fn fault(reason: Reason, args: Seq<Seq<char>>, i: int) -> ParseErrorView {
    ParseErrorView { reason, position: i as nat, token: args[i] }
}

/// The error for something missing after the last argument.
pub open spec fn lack(reason: Reason, args: Seq<Seq<char>>) -> ParseErrorView {
    ParseErrorView { reason, position: args.len(), token: Seq::empty() }
}

/// What may follow a complete subcommand from index `i` on: nothing, or
/// a closing `--` if `escaped` does not say that one was seen already.
/// Gives the first argument that is too many.
pub open spec fn surplus(args: Seq<Seq<char>>, i: int, escaped: bool) -> Option<int> {
    if i >= args.len() {
        None
    } else if !escaped && args[i] == "--"@ {
        if i + 1 >= args.len() {
            None
        } else {
            Some(i + 1)
        }
    } else {
        Some(i)
    }
}

/// The arguments of `get` from index `i` on: one name, which must not
/// look like an option unless a `--` stands before it.
pub open spec fn get_name(args: Seq<Seq<char>>, i: int) -> Result<Seq<char>, ParseErrorView> {
    let escaped = i < args.len() && args[i] == "--"@;
    let at = if escaped {
        i + 1
    } else {
        i
    };
    if at >= args.len() {
        Err(lack(Reason::MissingName, args))
    } else if !escaped && !(shape(args[at]) is Word) {
        Err(fault(Reason::UnknownOption, args, at))
    } else {
        match surplus(args, at + 1, escaped) {
            Some(extra) => Err(fault(Reason::ExtraArgument, args, extra)),
            None => Ok(args[at]),
        }
    }
}

/// The arguments of `delete` from index `i` on: one resource kind.
pub open spec fn delete_kind(args: Seq<Seq<char>>, i: int) -> Result<
    ResourceKind,
    ParseErrorView,
> {
    if i >= args.len() {
        Err(lack(Reason::MissingResource, args))
    } else {
        match kind_of(args[i]) {
            None => Err(fault(Reason::UnknownResource, args, i)),
            Some(resource) => match surplus(args, i + 1, false) {
                Some(extra) => Err(fault(Reason::ExtraArgument, args, extra)),
                None => Ok(resource),
            },
        }
    }
}

/// The invocation with no options and the given command.
pub open spec fn bare(command: CommandView) -> InvocationView {
    InvocationView { names: Seq::empty(), verbosity: 0, command }
}

/// The result `rest` with the given names put in front of its names and
/// the given count added to its verbosity; an error stays as it is.
pub open spec fn preceded(
    names: Seq<Seq<char>>,
    verbosity: nat,
    rest: Result<InvocationView, ParseErrorView>,
) -> Result<InvocationView, ParseErrorView> {
    match rest {
        Ok(invocation) => Ok(
            InvocationView {
                names: names + invocation.names,
                verbosity: verbosity + invocation.verbosity,
                command: invocation.command,
            },
        ),
        Err(error) => Err(error),
    }
}

/// No options in front change nothing.
pub proof fn lemma_preceded_nothing(r: Result<InvocationView, ParseErrorView>)
    ensures
        preceded(Seq::empty(), 0, r) == r,
{
    match r {
        Ok(invocation) => {
            assert(Seq::<Seq<char>>::empty() + invocation.names =~= invocation.names);
        },
        Err(_) => {},
    }
}

/// Putting two runs of options in front of a result, one after the
/// other, is putting their concatenation in front of it.
pub proof fn lemma_preceded_twice(
    first: Seq<Seq<char>>,
    loud: nat,
    second: Seq<Seq<char>>,
    louder: nat,
    rest: Result<InvocationView, ParseErrorView>,
)
    ensures
        preceded(first, loud, preceded(second, louder, rest)) == preceded(
            first + second,
            loud + louder,
            rest,
        ),
{
    match rest {
        Ok(invocation) => {
            assert(first + (second + invocation.names) =~= (first + second) + invocation.names);
        },
        Err(_) => {},
    }
}

/// What one option adds, and where reading goes on after it.
pub struct Step {
    pub names: Seq<Seq<char>>,
    pub verbose: nat,
    pub next: int,
}

/// The option at index `i`, together with the next argument where that
/// is its value. A value must be a word: what looks like an option is
/// never taken for one.
pub open spec fn option_at(args: Seq<Seq<char>>, i: int) -> Result<Step, ParseErrorView> {
    match effect(args[i]) {
        Effect::Reject(reason) => Err(fault(reason, args, i)),
        Effect::Accept { verbose, name } => match name {
            NameArg::Absent => Ok(Step { names: Seq::empty(), verbose, next: i + 1 }),
            NameArg::Attached(value) => Ok(Step { names: seq![value], verbose, next: i + 1 }),
            NameArg::Detached => if i + 1 < args.len() && shape(args[i + 1]) is Word {
                Ok(Step { names: seq![args[i + 1]], verbose, next: i + 2 })
            } else {
                Err(fault(Reason::MissingValue, args, i))
            },
        },
    }
}

/// The meaning of the arguments from index `i` on, where an option or
/// the subcommand is expected.
pub open spec fn parse_from(args: Seq<Seq<char>>, i: int) -> Result<InvocationView, ParseErrorView>
    decreases args.len() - i,
{
    if i >= args.len() {
        Err(lack(Reason::MissingSubcommand, args))
    } else if args[i] == "get"@ {
        match get_name(args, i + 1) {
            Ok(name) => Ok(bare(CommandView::Get { name })),
            Err(error) => Err(error),
        }
    } else if args[i] == "delete"@ {
        match delete_kind(args, i + 1) {
            Ok(resource) => Ok(bare(CommandView::Delete { resource })),
            Err(error) => Err(error),
        }
    } else {
        match option_at(args, i) {
            Err(error) => Err(error),
            Ok(step) => preceded(step.names, step.verbose, parse_from(args, step.next)),
        }
    }
}

/// The meaning of a whole argument vector (without the program's name).
pub open spec fn parse_spec(args: Seq<Seq<char>>) -> Result<InvocationView, ParseErrorView> {
    parse_from(args, 0)
}

} // verus!
