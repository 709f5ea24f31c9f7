//! Parsing an argument vector into an [`Invocation`].

use vstd::prelude::*;
use vstd::string::*;
use crate::grammar::{
    delete_kind, fault, get_name, lack, lemma_preceded_nothing, lemma_preceded_twice, parse_from,
    parse_spec, preceded, shape, surplus, Shape,
};
use crate::invocation::{
    outcome, texts, Command, Invocation, ParseError, ParseErrorView, Reason, ResourceKind,
};
use crate::lexer::{classify, is_text, resource_kind, scan_option, Scan, Value};
use crate::text::chars_of;

verus! {

/// No argument adds more to the verbosity than it has characters, and
/// so never more than this.
const PER_ARGUMENT: u128 = 0xFFFF_FFFF_FFFF_FFFF;

/// The error for the argument at index `i`.
fn fault_at(reason: Reason, args: &Vec<String>, i: usize) -> (e: ParseError)
    requires
        i < args.len(),
    ensures
        e@ == fault(reason, texts(args@), i as int),
{
    ParseError { reason, position: i, token: args[i].clone() }
}

/// The error for something missing after the last argument.
fn lack_of(reason: Reason, args: &Vec<String>) -> (e: ParseError)
    ensures
        e@ == lack(reason, texts(args@)),
{
    ParseError { reason, position: args.len(), token: String::new() }
}

/// Whether the argument at index `i` is exactly `--`.
fn is_escape(args: &Vec<String>, i: usize) -> (b: bool)
    requires
        i < args.len(),
    ensures
        b == (texts(args@)[i as int] == "--"@),
{
    is_text(&chars_of(args[i].as_str()), "--")
}

/// Whether the argument at index `i` is a word.
fn is_word(args: &Vec<String>, i: usize) -> (b: bool)
    requires
        i < args.len(),
    ensures
        b == (shape(texts(args@)[i as int]) is Word),
{
    match classify(&chars_of(args[i].as_str())) {
        Shape::Word => true,
        _ => false,
    }
}

/// Looks for an argument too many from index `i` on.
fn find_surplus(args: &Vec<String>, i: usize, escaped: bool) -> (extra: Option<usize>)
    requires
        i <= args.len(),
    ensures
        match extra {
            Some(at) => at < args.len() && surplus(texts(args@), i as int, escaped) == Some(
                at as int,
            ),
            None => surplus(texts(args@), i as int, escaped) is None,
        },
{
    if i >= args.len() {
        None
    } else if !escaped && is_escape(args, i) {
        if i + 1 >= args.len() {
            None
        } else {
            Some(i + 1)
        }
    } else {
        Some(i)
    }
}

/// Parses what follows `get`, from index `i` on.
fn parse_get(args: &Vec<String>, i: usize) -> (r: Result<String, ParseError>)
    requires
        i <= args.len(),
    ensures
        match r {
            Ok(name) => get_name(texts(args@), i as int) == Ok::<Seq<char>, ParseErrorView>(name@),
            Err(error) => get_name(texts(args@), i as int) == Err::<Seq<char>, ParseErrorView>(
                error@,
            ),
        },
{
    let escaped = i < args.len() && is_escape(args, i);
    let at = if escaped {
        i + 1
    } else {
        i
    };
    if at >= args.len() {
        Err(lack_of(Reason::MissingName, args))
    } else if !escaped && !is_word(args, at) {
        Err(fault_at(Reason::UnknownOption, args, at))
    } else {
        match find_surplus(args, at + 1, escaped) {
            Some(extra) => Err(fault_at(Reason::ExtraArgument, args, extra)),
            None => Ok(args[at].clone()),
        }
    }
}

/// Parses what follows `delete`, from index `i` on.
fn parse_delete(args: &Vec<String>, i: usize) -> (r: Result<ResourceKind, ParseError>)
    requires
        i <= args.len(),
    ensures
        match r {
            Ok(resource) => delete_kind(texts(args@), i as int) == Ok::<
                ResourceKind,
                ParseErrorView,
            >(resource),
            Err(error) => delete_kind(texts(args@), i as int) == Err::<
                ResourceKind,
                ParseErrorView,
            >(error@),
        },
{
    if i >= args.len() {
        Err(lack_of(Reason::MissingResource, args))
    } else {
        match resource_kind(&chars_of(args[i].as_str())) {
            None => Err(fault_at(Reason::UnknownResource, args, i)),
            Some(resource) => match find_surplus(args, i + 1, false) {
                Some(extra) => Err(fault_at(Reason::ExtraArgument, args, extra)),
                None => Ok(resource),
            },
        }
    }
}

/// Parses the arguments of one run, the program's name left out.
///
/// The result is the one that the grammar gives: the invocation, or the
/// first argument at fault with the reason.
pub fn parse(args: &Vec<String>) -> (r: Result<Invocation, ParseError>)
    ensures
        outcome(r) == parse_spec(texts(args@)),
{
    let ghost all = texts(args@);
    let mut names: Vec<String> = Vec::new();
    let mut verbosity: u128 = 0;
    let mut i: usize = 0;
    proof {
        assert(texts(names@) =~= Seq::<Seq<char>>::empty());
        lemma_preceded_nothing(parse_from(all, 0));
    }
    while i < args.len()
        invariant
            i <= args.len(),
            all == texts(args@),
            verbosity <= i * PER_ARGUMENT,
            parse_spec(all) == preceded(texts(names@), verbosity as nat, parse_from(all, i as int)),
        decreases args.len() - i,
    {
        let token = args[i].as_str();
        let t = chars_of(token);
        assert(all[i as int] == t@);
        if is_text(&t, "get") {
            return match parse_get(args, i + 1) {
                Ok(name) => {
                    let invocation = Invocation { names, verbosity, command: Command::Get { name } };
                    assert(invocation@.names =~= texts(names@) + Seq::<Seq<char>>::empty());
                    Ok(invocation)
                },
                Err(error) => Err(error),
            };
        }
        if is_text(&t, "delete") {
            return match parse_delete(args, i + 1) {
                Ok(resource) => {
                    let invocation = Invocation {
                        names,
                        verbosity,
                        command: Command::Delete { resource },
                    };
                    assert(invocation@.names =~= texts(names@) + Seq::<Seq<char>>::empty());
                    Ok(invocation)
                },
                Err(error) => Err(error),
            };
        }
        match scan_option(&t) {
            Scan::Reject(reason) => {
                return Err(fault_at(reason, args, i));
            },
            Scan::Accept { verbose, value } => {
                let ghost before = texts(names@);
                let ghost rest;
                let ghost added;
                match value {
                    Value::Absent => {
                        proof {
                            added = Seq::empty();
                            rest = parse_from(all, i + 1);
                        }
                        i += 1;
                    },
                    Value::Attached { start } => {
                        let text = token.substring_char(start, t.len());
                        names.push(String::from_str(text));
                        proof {
                            added = seq![t@.skip(start as int)];
                            rest = parse_from(all, i + 1);
                            assert(t@.subrange(start as int, t.len() as int) == t@.skip(
                                start as int,
                            ));
                        }
                        i += 1;
                    },
                    Value::Detached => {
                        if i + 1 < args.len() && is_word(args, i + 1) {
                            names.push(args[i + 1].clone());
                            proof {
                                added = seq![all[i + 1]];
                                rest = parse_from(all, i + 2);
                            }
                            i += 2;
                        } else {
                            return Err(fault_at(Reason::MissingValue, args, i));
                        }
                    },
                }
                proof {
                    assert(texts(names@) =~= before + added);
                    lemma_preceded_twice(before, verbosity as nat, added, verbose as nat, rest);
                }
                verbosity += verbose as u128;
            },
        }
    }
    Err(lack_of(Reason::MissingSubcommand, args))
}

} // verus!
