//! What holds of every command line: options in front of a subcommand,
//! the order of names, the count of flags, and what a rejected command
//! line produces.

use vstd::prelude::*;
use crate::grammar::{
    bare, delete_kind, get_name, kind_of, lack, lemma_preceded_nothing, lemma_preceded_twice,
    option_at, parse_from, parse_spec, preceded, shape, short_effect, surplus, Step,
};
use crate::invocation::{
    outcome, CommandView, Invocation, InvocationView, ParseError, ParseErrorView, Reason,
    ResourceKind,
};
use crate::report::{message_text, report, tag_text, transcript, usage_text, EXIT_USAGE};
use crate::text::ascii_lower;

verus! {

/// What a run of options gives.
pub struct Options {
    pub names: Seq<Seq<char>>,
    pub verbosity: nat,
}

/// What the arguments from index `i` on give, where they are options
/// with their values and nothing else.
pub open spec fn options_from(args: Seq<Seq<char>>, i: int) -> Option<Options>
    decreases args.len() - i,
{
    if i >= args.len() {
        Some(Options { names: Seq::empty(), verbosity: 0 })
    } else if args[i] == "get"@ || args[i] == "delete"@ {
        None
    } else {
        match option_at(args, i) {
            Err(_) => None,
            Ok(step) => match options_from(args, step.next) {
                Some(more) => Some(
                    Options {
                        names: step.names + more.names,
                        verbosity: step.verbose + more.verbosity,
                    },
                ),
                None => None,
            },
        }
    }
}

/// What `args` gives, where it holds options and nothing else.
pub open spec fn options(args: Seq<Seq<char>>) -> Option<Options> {
    options_from(args, 0)
}

/// The error `error`, for arguments that stand `by` places further on.
pub open spec fn moved_error(by: nat, error: ParseErrorView) -> ParseErrorView {
    ParseErrorView { reason: error.reason, position: error.position + by, token: error.token }
}

/// The result `r`, for arguments that stand `by` places further on.
pub open spec fn moved(by: nat, r: Result<InvocationView, ParseErrorView>) -> Result<
    InvocationView,
    ParseErrorView,
> {
    match r {
        Ok(invocation) => Ok(invocation),
        Err(error) => Err(moved_error(by, error)),
    }
}

/// Each of `xs` as the value of its own `-n`.
pub open spec fn name_options(xs: Seq<Seq<char>>) -> Seq<Seq<char>>
    decreases xs.len(),
{
    if xs.len() == 0 {
        Seq::empty()
    } else {
        seq!["-n"@, xs[0]] + name_options(xs.drop_first())
    }
}

/// `-v`, `k` times.
pub open spec fn verbose_flags(k: nat) -> Seq<Seq<char>> {
    Seq::new(k, |i: int| "-v"@)
}

/// The arguments `get <name>`.
pub open spec fn get_line(name: Seq<char>) -> Seq<Seq<char>> {
    seq!["get"@, name]
}

/// The arguments `get -- <name>`.
pub open spec fn escaped_get_line(name: Seq<char>) -> Seq<Seq<char>> {
    seq!["get"@, "--"@, name]
}

/// The arguments `delete <word>`.
pub open spec fn delete_line(word: Seq<char>) -> Seq<Seq<char>> {
    seq!["delete"@, word]
}

/// Whether `a` and `b` differ at most in the case of ASCII letters.
pub open spec fn same_but_for_case(a: Seq<char>, b: Seq<char>) -> bool {
    &&& a.len() == b.len()
    &&& forall|i: int| 0 <= i < a.len() ==> ascii_lower(#[trigger] a[i]) == ascii_lower(b[i])
}

/// What is too many behind other arguments is too many on its own.
proof fn lemma_surplus_moves(front: Seq<Seq<char>>, tail: Seq<Seq<char>>, j: int, escaped: bool)
    requires
        0 <= j,
    ensures
        surplus(front + tail, front.len() + j, escaped) == match surplus(tail, j, escaped) {
            Some(extra) => Some(front.len() + extra),
            None => None,
        },
{
}

/// The arguments of `get` mean the same behind other arguments, but
/// for the positions of errors.
proof fn lemma_get_moves(front: Seq<Seq<char>>, tail: Seq<Seq<char>>, j: int)
    requires
        0 <= j,
    ensures
        get_name(front + tail, front.len() + j) == match get_name(tail, j) {
            Ok(name) => Ok::<Seq<char>, ParseErrorView>(name),
            Err(error) => Err(moved_error(front.len(), error)),
        },
{
    let escaped = j < tail.len() && tail[j] == "--"@;
    let at = if escaped {
        j + 1
    } else {
        j
    };
    lemma_surplus_moves(front, tail, at + 1, escaped);
}

/// The arguments of `delete` mean the same behind other arguments, but
/// for the positions of errors.
proof fn lemma_delete_moves(front: Seq<Seq<char>>, tail: Seq<Seq<char>>, j: int)
    requires
        0 <= j,
    ensures
        delete_kind(front + tail, front.len() + j) == match delete_kind(tail, j) {
            Ok(resource) => Ok::<ResourceKind, ParseErrorView>(resource),
            Err(error) => Err(moved_error(front.len(), error)),
        },
{
    lemma_surplus_moves(front, tail, j + 1, false);
}

/// Arguments mean the same behind others as on their own, but for the
/// positions of errors.
proof fn lemma_parse_moves(front: Seq<Seq<char>>, tail: Seq<Seq<char>>, j: int)
    requires
        0 <= j,
    ensures
        parse_from(front + tail, front.len() + j) == moved(front.len(), parse_from(tail, j)),
    decreases tail.len() - j,
{
    let all = front + tail;
    let n = front.len() as int;
    if j >= tail.len() {
    } else if tail[j] == "get"@ {
        lemma_get_moves(front, tail, j + 1);
    } else if tail[j] == "delete"@ {
        lemma_delete_moves(front, tail, j + 1);
    } else {
        assert(all[n + j] == tail[j]);
        match option_at(tail, j) {
            Err(error) => {
                assert(option_at(all, n + j) == Err::<Step, ParseErrorView>(
                    moved_error(front.len(), error),
                ));
            },
            Ok(step) => {
                assert(option_at(all, n + j) == Ok::<Step, ParseErrorView>(
                    Step {
                        names: step.names,
                        verbose: step.verbose,
                        next: n + step.next,
                    },
                ));
                lemma_parse_moves(front, tail, step.next);
            },
        }
    }
}

/// [`law_options_precede`], from index `i` on.
proof fn lemma_options_precede_from(opts: Seq<Seq<char>>, rest: Seq<Seq<char>>, i: int)
    requires
        0 <= i <= opts.len(),
        options_from(opts, i) is Some,
    ensures
        parse_from(opts + rest, i) == preceded(
            options_from(opts, i)->0.names,
            options_from(opts, i)->0.verbosity,
            moved(opts.len(), parse_spec(rest)),
        ),
    decreases opts.len() - i,
{
    let all = opts + rest;
    let behind = moved(opts.len(), parse_spec(rest));
    if i >= opts.len() {
        lemma_parse_moves(opts, rest, 0);
        lemma_preceded_nothing(behind);
    } else {
        assert(all[i] == opts[i]);
        let step = option_at(opts, i)->Ok_0;
        assert(option_at(all, i) == Ok::<Step, ParseErrorView>(step));
        lemma_options_precede_from(opts, rest, step.next);
        let more = options_from(opts, step.next)->0;
        lemma_preceded_twice(step.names, step.verbose, more.names, more.verbosity, behind);
    }
}

/// Options give the same behind other arguments as on their own.
proof fn lemma_options_move(front: Seq<Seq<char>>, tail: Seq<Seq<char>>, j: int)
    requires
        0 <= j,
    ensures
        options_from(front + tail, front.len() + j) == options_from(tail, j),
    decreases tail.len() - j,
{
    let all = front + tail;
    let n = front.len() as int;
    if j >= tail.len() {
    } else if tail[j] == "get"@ || tail[j] == "delete"@ {
    } else {
        assert(all[n + j] == tail[j]);
        match option_at(tail, j) {
            Err(_) => {
                assert(option_at(all, n + j) is Err);
            },
            Ok(step) => {
                assert(option_at(all, n + j) == Ok::<Step, ParseErrorView>(
                    Step {
                        names: step.names,
                        verbose: step.verbose,
                        next: n + step.next,
                    },
                ));
                lemma_options_move(front, tail, step.next);
            },
        }
    }
}

/// [`law_options_join`], from index `i` on.
proof fn lemma_options_join_from(first: Seq<Seq<char>>, second: Seq<Seq<char>>, i: int)
    requires
        0 <= i <= first.len(),
        options_from(first, i) is Some,
        options(second) is Some,
    ensures
        options_from(first + second, i) == Some(
            Options {
                names: options_from(first, i)->0.names + options(second)->0.names,
                verbosity: options_from(first, i)->0.verbosity + options(second)->0.verbosity,
            },
        ),
    decreases first.len() - i,
{
    let all = first + second;
    if i >= first.len() {
        lemma_options_move(first, second, 0);
        assert(Seq::<Seq<char>>::empty() + options(second)->0.names =~= options(second)->0.names);
    } else {
        assert(all[i] == first[i]);
        let step = option_at(first, i)->Ok_0;
        assert(option_at(all, i) == Ok::<Step, ParseErrorView>(step));
        lemma_options_join_from(first, second, step.next);
        let more = options_from(first, step.next)->0;
        assert(step.names + (more.names + options(second)->0.names) =~= (step.names + more.names)
            + options(second)->0.names);
    }
}

/// Options may stand in front of any command line: their names come
/// first, their flags are added to the verbosity, and an error of what
/// follows is reported at its place in the whole.
pub proof fn law_options_precede(opts: Seq<Seq<char>>, rest: Seq<Seq<char>>)
    requires
        options(opts) is Some,
    ensures
        parse_spec(opts + rest) == preceded(
            options(opts)->0.names,
            options(opts)->0.verbosity,
            moved(opts.len(), parse_spec(rest)),
        ),
{
    lemma_options_precede_from(opts, rest, 0);
}

/// Two runs of options, one after the other, give the names of the
/// first followed by those of the second, and the sum of their flags.
pub proof fn law_options_join(first: Seq<Seq<char>>, second: Seq<Seq<char>>)
    requires
        options(first) is Some,
        options(second) is Some,
    ensures
        options(first + second) == Some(
            Options {
                names: options(first)->0.names + options(second)->0.names,
                verbosity: options(first)->0.verbosity + options(second)->0.verbosity,
            },
        ),
{
    lemma_options_join_from(first, second, 0);
}

/// The invocation that options and a command give together.
pub open spec fn invocation_of(given: Options, command: CommandView) -> InvocationView {
    InvocationView { names: given.names, verbosity: given.verbosity, command }
}

/// Options in front of a subcommand without options give the
/// invocation with those options and that command.
proof fn lemma_options_then_command(
    opts: Seq<Seq<char>>,
    rest: Seq<Seq<char>>,
    command: CommandView,
)
    requires
        options(opts) is Some,
        parse_spec(rest) == Ok::<InvocationView, ParseErrorView>(bare(command)),
    ensures
        parse_spec(opts + rest) == Ok::<InvocationView, ParseErrorView>(
            invocation_of(options(opts)->0, command),
        ),
{
    law_options_precede(opts, rest);
    let given = options(opts)->0;
    assert(given.names + Seq::<Seq<char>>::empty() =~= given.names);
}

/// None of the three lines of a report on `get` is a resource tag.
proof fn lemma_get_report_has_no_tag(invocation: InvocationView)
    requires
        invocation.command is Get,
    ensures
        forall|k: int|
            0 <= k < 3 ==> (#[trigger] report(invocation)[k]) != tag_text(ResourceKind::PRTB)
                && report(invocation)[k] != tag_text(ResourceKind::CRTB),
{
    reveal_strlit("name: [");
    reveal_strlit("verbose: ");
    reveal_strlit("Get ");
    reveal_strlit("PRTB");
    reveal_strlit("CRTB");
    let lines = report(invocation);
    assert(lines[0][0] == 'n');
    assert(lines[1][0] == 'v');
    assert(lines[2][0] == 'G');
    assert(tag_text(ResourceKind::PRTB)[0] == 'P');
    assert(tag_text(ResourceKind::CRTB)[0] == 'C');
}

/// `get <name>` behind any options gives the `Get` command with exactly
/// that name, for every name that does not look like an option. The
/// report then ends with `Get <name>`, and no line of it is a resource
/// tag.
pub proof fn law_get_reports_name(opts: Seq<Seq<char>>, name: Seq<char>)
    requires
        options(opts) is Some,
        shape(name) is Word,
    ensures
        parse_spec(opts + get_line(name)) == Ok::<InvocationView, ParseErrorView>(
            invocation_of(options(opts)->0, CommandView::Get { name }),
        ),
        transcript(opts + get_line(name)).output.len() == 3,
        transcript(opts + get_line(name)).output[2] == "Get "@ + name,
        forall|k: int|
            0 <= k < 3 ==> (#[trigger] transcript(opts + get_line(name)).output[k])
                != tag_text(ResourceKind::PRTB) && transcript(
                opts + get_line(name),
            ).output[k] != tag_text(ResourceKind::CRTB),
{
    let line = get_line(name);
    let command = CommandView::Get { name };
    reveal_strlit("--");
    assert(line[0] == "get"@);
    assert(get_name(line, 1) == Ok::<Seq<char>, ParseErrorView>(name));
    lemma_options_then_command(opts, line, command);
    lemma_get_report_has_no_tag(invocation_of(options(opts)->0, command));
}

/// `get -- <name>` behind any options gives the `Get` command with
/// exactly that name, whatever the name looks like.
pub proof fn law_get_takes_any_name_after_escape(opts: Seq<Seq<char>>, name: Seq<char>)
    requires
        options(opts) is Some,
    ensures
        parse_spec(opts + escaped_get_line(name)) == Ok::<InvocationView, ParseErrorView>(
            invocation_of(options(opts)->0, CommandView::Get { name }),
        ),
        transcript(opts + escaped_get_line(name)).output[2] == "Get "@ + name,
{
    let line = escaped_get_line(name);
    assert(line[0] == "get"@);
    assert(line[1] == "--"@);
    assert(get_name(line, 1) == Ok::<Seq<char>, ParseErrorView>(name));
    lemma_options_then_command(opts, line, CommandView::Get { name });
}

/// A word that is `prtb` or `crtb` but for the case of its letters
/// names that kind.
pub proof fn law_kind_ignores_case(word: Seq<char>)
    ensures
        same_but_for_case(word, "prtb"@) ==> kind_of(word) == Some(ResourceKind::PRTB),
        same_but_for_case(word, "crtb"@) ==> kind_of(word) == Some(ResourceKind::CRTB),
{
    reveal_strlit("prtb");
    reveal_strlit("crtb");
    let folded = word.map_values(|c: char| ascii_lower(c));
    if same_but_for_case(word, "prtb"@) {
        assert(folded =~= "prtb"@);
    }
    if same_but_for_case(word, "crtb"@) {
        assert(folded =~= "crtb"@);
        assert("crtb"@[0] != "prtb"@[0]);
    }
}

/// `delete <kind>` behind any options gives the `Delete` command with
/// the kind that the word names, and the report ends with exactly the
/// tag of that kind.
pub proof fn law_delete_reports_kind(
    opts: Seq<Seq<char>>,
    word: Seq<char>,
    resource: ResourceKind,
)
    requires
        options(opts) is Some,
        kind_of(word) == Some(resource),
    ensures
        parse_spec(opts + delete_line(word)) == Ok::<InvocationView, ParseErrorView>(
            invocation_of(options(opts)->0, CommandView::Delete { resource }),
        ),
        transcript(opts + delete_line(word)).output.len() == 3,
        transcript(opts + delete_line(word)).output[2] == tag_text(resource),
        resource == ResourceKind::PRTB ==> tag_text(resource) == "PRTB"@,
        resource == ResourceKind::CRTB ==> tag_text(resource) == "CRTB"@,
{
    let line = delete_line(word);
    reveal_strlit("get");
    reveal_strlit("delete");
    assert(line[0] == "delete"@);
    assert(line[0] != "get"@);
    assert(delete_kind(line, 1) == Ok::<ResourceKind, ParseErrorView>(resource));
    lemma_options_then_command(opts, line, CommandView::Delete { resource });
}

/// A word behind `delete` that names no kind is rejected as an unknown
/// resource, whatever follows it, and the message names `prtb` and
/// `crtb`.
pub proof fn law_unknown_kind_is_rejected(
    opts: Seq<Seq<char>>,
    word: Seq<char>,
    rest: Seq<Seq<char>>,
)
    requires
        options(opts) is Some,
        kind_of(word) is None,
    ensures
        parse_spec(opts + (delete_line(word) + rest)) == Err::<InvocationView, ParseErrorView>(
            ParseErrorView {
                reason: Reason::UnknownResource,
                position: opts.len() + 1,
                token: word,
            },
        ),
        transcript(opts + (delete_line(word) + rest)).errors == seq![
            "error: "@ + "unrecognized resource kind '"@ + word + "': expected prtb or crtb"@
                + "\n"@ + usage_text(),
        ],
{
    let line = delete_line(word) + rest;
    reveal_strlit("get");
    reveal_strlit("delete");
    assert(line[0] == "delete"@);
    assert(line[0] != "get"@);
    assert(line[1] == word);
    law_options_precede(opts, line);
    let error = ParseErrorView {
        reason: Reason::UnknownResource,
        position: opts.len() + 1,
        token: word,
    };
    assert(message_text(error) =~= "error: "@ + "unrecognized resource kind '"@ + word
        + "': expected prtb or crtb"@ + "\n"@ + usage_text());
}

/// `-n <x>` gives the one name `x`.
proof fn lemma_name_option(x: Seq<char>)
    requires
        shape(x) is Word,
    ensures
        options(seq!["-n"@, x]) == Some(Options { names: seq![x], verbosity: 0 }),
{
    reveal_strlit("-n");
    reveal_strlit("get");
    reveal_strlit("delete");
    let line = seq!["-n"@, x];
    assert(line[0] == "-n"@);
    assert(shape(line[0]) is Short);
    assert(option_at(line, 0) == Ok::<Step, ParseErrorView>(
        Step { names: seq![x], verbose: 0, next: 2 },
    ));
    assert(options_from(line, 2) == Some(Options { names: Seq::empty(), verbosity: 0 }));
    assert(seq![x] + Seq::<Seq<char>>::empty() =~= seq![x]);
}

/// `-n a -n b -n c ...` gives the names `a`, `b`, `c`, ... in that
/// order and no verbosity, for values that do not look like options;
/// in front of a command line, these names come before the names of
/// that command line.
pub proof fn law_names_keep_order(xs: Seq<Seq<char>>, rest: Seq<Seq<char>>)
    requires
        forall|i: int| 0 <= i < xs.len() ==> shape(#[trigger] xs[i]) is Word,
    ensures
        name_options(xs).len() == 2 * xs.len(),
        options(name_options(xs)) == Some(Options { names: xs, verbosity: 0 }),
        parse_spec(name_options(xs) + rest) == preceded(
            xs,
            0,
            moved(2 * xs.len(), parse_spec(rest)),
        ),
        parse_spec(rest) is Ok ==> parse_spec(name_options(xs) + rest) is Ok && parse_spec(
            name_options(xs) + rest,
        )->Ok_0.names == xs + parse_spec(rest)->Ok_0.names,
    decreases xs.len(),
{
    if xs.len() == 0 {
        assert(xs =~= Seq::<Seq<char>>::empty());
    } else {
        let later = xs.drop_first();
        assert forall|i: int| 0 <= i < later.len() implies shape(#[trigger] later[i]) is Word by {
            assert(later[i] == xs[i + 1]);
        }
        law_names_keep_order(later, rest);
        lemma_name_option(xs[0]);
        law_options_join(seq!["-n"@, xs[0]], name_options(later));
        assert(seq![xs[0]] + later =~= xs);
    }
    law_options_precede(name_options(xs), rest);
}

/// Of `k` flags, those from index `i` on give `k - i`.
proof fn lemma_verbose_flags_from(k: nat, i: int)
    requires
        0 <= i <= k,
    ensures
        options_from(verbose_flags(k), i) == Some(
            Options { names: Seq::empty(), verbosity: (k - i) as nat },
        ),
    decreases k - i,
{
    if i < k {
        reveal_strlit("-v");
        reveal_strlit("get");
        reveal_strlit("delete");
        reveal_with_fuel(short_effect, 3);
        let line = verbose_flags(k);
        assert(line[i] == "-v"@);
        assert(shape(line[i]) is Short);
        assert(option_at(line, i) == Ok::<Step, ParseErrorView>(
            Step { names: Seq::empty(), verbose: 1, next: i + 1 },
        ));
        lemma_verbose_flags_from(k, i + 1);
        assert(Seq::<Seq<char>>::empty() + Seq::<Seq<char>>::empty() =~= Seq::<
            Seq<char>,
        >::empty());
    }
}

/// `-v` given `k` times gives the verbosity `k` and no names; in front
/// of a command line, it adds `k` to the verbosity of that command
/// line.
pub proof fn law_verbosity_counts(k: nat, rest: Seq<Seq<char>>)
    ensures
        options(verbose_flags(k)) == Some(Options { names: Seq::empty(), verbosity: k }),
        parse_spec(verbose_flags(k) + rest) == preceded(
            Seq::empty(),
            k,
            moved(k, parse_spec(rest)),
        ),
        parse_spec(rest) is Ok ==> parse_spec(verbose_flags(k) + rest) is Ok && parse_spec(
            verbose_flags(k) + rest,
        )->Ok_0.verbosity == k + parse_spec(rest)->Ok_0.verbosity,
{
    lemma_verbose_flags_from(k, 0);
    law_options_precede(verbose_flags(k), rest);
}

/// `get` takes exactly one name: with none it is rejected for the
/// missing name, and with more the second is rejected as an argument
/// too many.
pub proof fn law_get_needs_one_name(opts: Seq<Seq<char>>, words: Seq<Seq<char>>)
    requires
        options(opts) is Some,
        forall|i: int| 0 <= i < words.len() ==> shape(#[trigger] words[i]) is Word,
    ensures
        words.len() == 0 ==> parse_spec(opts + (seq!["get"@] + words)) == Err::<
            InvocationView,
            ParseErrorView,
        >(
            ParseErrorView {
                reason: Reason::MissingName,
                position: opts.len() + 1,
                token: Seq::empty(),
            },
        ),
        words.len() >= 2 ==> parse_spec(opts + (seq!["get"@] + words)) == Err::<
            InvocationView,
            ParseErrorView,
        >(
            ParseErrorView {
                reason: Reason::ExtraArgument,
                position: opts.len() + 2,
                token: words[1],
            },
        ),
{
    let line = seq!["get"@] + words;
    reveal_strlit("--");
    assert(line[0] == "get"@);
    law_options_precede(opts, line);
    if words.len() >= 2 {
        assert(line[1] == words[0]);
        assert(line[2] == words[1]);
        assert(shape(line[1]) is Word);
        assert(shape(line[2]) is Word);
    }
}

/// Whether nothing follows the first `i` arguments of `line` but,
/// at most, a closing `--`.
pub open spec fn closes_at(line: Seq<Seq<char>>, i: int) -> bool {
    line.len() == i || (line.len() == i + 1 && line[i] == "--"@)
}

/// Whether `line` is a subcommand with its argument: `get <name>` with
/// a name that does not look like an option, `get -- <name>` with any
/// name, or `delete <kind>`; the first and the last may end in `--`.
pub open spec fn is_command(line: Seq<Seq<char>>) -> bool {
    ||| line.len() >= 2 && line[0] == "get"@ && shape(line[1]) is Word && closes_at(line, 2)
    ||| line.len() == 3 && line[0] == "get"@ && line[1] == "--"@
    ||| line.len() >= 2 && line[0] == "delete"@ && kind_of(line[1]) is Some && closes_at(line, 2)
}

/// Whether `args` is a run of options followed by a subcommand with
/// its argument.
pub open spec fn is_well_formed(args: Seq<Seq<char>>) -> bool {
    exists|k: int|
        0 <= k <= args.len() && options(#[trigger] args.take(k)) is Some && is_command(
            args.skip(k),
        )
}

/// A subcommand with its argument is accepted.
proof fn lemma_command_is_accepted(line: Seq<Seq<char>>)
    requires
        is_command(line),
    ensures
        parse_spec(line) is Ok,
{
    reveal_strlit("--");
    reveal_strlit("get");
    reveal_strlit("delete");
    assert(line[0] == "get"@ ==> line[0] != "delete"@);
}

/// Where the arguments from index `i` on are accepted, they are
/// options up to some index `k`, and a subcommand with its argument
/// from there.
proof fn lemma_accepted_from(args: Seq<Seq<char>>, i: int) -> (k: int)
    requires
        0 <= i,
        parse_from(args, i) is Ok,
    ensures
        i <= k <= args.len(),
        options_from(args.take(k), i) is Some,
        is_command(args.skip(k)),
    decreases args.len() - i,
{
    reveal_strlit("--");
    reveal_strlit("get");
    reveal_strlit("delete");
    if args[i] == "get"@ || args[i] == "delete"@ {
        let line = args.skip(i);
        assert(line[0] == args[i]);
        if line.len() > 1 {
            assert(line[1] == args[i + 1]);
        }
        if line.len() > 2 {
            assert(line[2] == args[i + 2]);
        }
        i
    } else {
        let step = option_at(args, i)->Ok_0;
        let k = lemma_accepted_from(args, step.next);
        let front = args.take(k);
        assert(front[i] == args[i]);
        if step.next == i + 2 {
            assert(front[i + 1] == args[i + 1]);
        }
        assert(option_at(front, i) == Ok::<Step, ParseErrorView>(step));
        k
    }
}

/// The command lines that are accepted are exactly the runs of options
/// followed by a subcommand with its argument.
pub proof fn law_accepted_lines(args: Seq<Seq<char>>)
    ensures
        parse_spec(args) is Ok <==> is_well_formed(args),
{
    if parse_spec(args) is Ok {
        let k = lemma_accepted_from(args, 0);
        assert(options(args.take(k)) is Some);
    }
    if is_well_formed(args) {
        let k = choose|k: int|
            0 <= k <= args.len() && options(#[trigger] args.take(k)) is Some && is_command(
                args.skip(k),
            );
        lemma_command_is_accepted(args.skip(k));
        law_options_precede(args.take(k), args.skip(k));
        assert(args.take(k) + args.skip(k) =~= args);
    }
}

/// Options without a subcommand are rejected at their end: the status
/// is not zero, and nothing is written to the standard output.
pub proof fn law_missing_subcommand_is_rejected(opts: Seq<Seq<char>>)
    requires
        options(opts) is Some,
    ensures
        parse_spec(opts) == Err::<InvocationView, ParseErrorView>(
            lack(Reason::MissingSubcommand, opts),
        ),
        transcript(opts).status == EXIT_USAGE,
        transcript(opts).status != 0,
        transcript(opts).output.len() == 0,
{
    law_options_precede(opts, Seq::empty());
    assert(opts + Seq::<Seq<char>>::empty() =~= opts);
}

/// A run on a rejected command line writes nothing to the standard
/// output and ends with a status that is not zero; a run on an accepted
/// one writes three lines and ends with status zero.
pub proof fn law_status_tells_rejection(args: Seq<Seq<char>>)
    ensures
        parse_spec(args) is Err <==> transcript(args).status != 0,
        parse_spec(args) is Err ==> transcript(args).output.len() == 0 && transcript(
            args,
        ).errors.len() == 1,
        parse_spec(args) is Ok ==> transcript(args).output.len() == 3 && transcript(
            args,
        ).errors.len() == 0,
{
}

/// Parsing is a function of the arguments' text: two results of
/// parsing the same arguments have the same value.
pub proof fn law_parse_is_a_function(
    args: Seq<Seq<char>>,
    first: Result<Invocation, ParseError>,
    second: Result<Invocation, ParseError>,
)
    requires
        outcome(first) == parse_spec(args),
        outcome(second) == parse_spec(args),
    ensures
        outcome(first) == outcome(second),
        first is Ok <==> second is Ok,
{
}

} // verus!
