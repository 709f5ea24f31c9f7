//! Reading a single argument: its shape, and what it means as an option.

use vstd::prelude::*;
use crate::grammar::{
    effect, kind_of, long_effect, shape, short_effect, starts_with, Effect, NameArg, Shape,
};
use crate::invocation::{Reason, ResourceKind};
use crate::text::{ascii_lower, chars_of, to_ascii_lower};

verus! {

/// Where the value of a name option is, as far as one argument tells.
pub enum Value {
    /// The argument holds no name option.
    Absent,
    /// The value is the argument's text from index `start` on.
    Attached { start: usize },
    /// The value is the next argument.
    Detached,
}

/// What [`scan_option`] found in one argument.
pub enum Scan {
    /// The argument is at fault.
    Reject(Reason),
    /// The argument holds `verbose` flags, and a name option where
    /// `value` says so.
    Accept { verbose: usize, value: Value },
}

impl Scan {
    /// The meaning that this finding stands for, given the argument.
    pub open spec fn meaning(self, t: Seq<char>) -> Effect {
        match self {
            Scan::Reject(reason) => Effect::Reject(reason),
            Scan::Accept { verbose, value } => Effect::Accept {
                verbose: verbose as nat,
                name: match value {
                    Value::Absent => NameArg::Absent,
                    Value::Attached { start } => NameArg::Attached(t.skip(start as int)),
                    Value::Detached => NameArg::Detached,
                },
            },
        }
    }

    /// Indices and counts stay within the argument.
    pub open spec fn within(self, t: Seq<char>) -> bool {
        match self {
            Scan::Reject(_) => true,
            Scan::Accept { verbose, value } => verbose <= t.len() && match value {
                Value::Attached { start } => start <= t.len(),
                _ => true,
            },
        }
    }
}

/// Whether `t` is exactly the text of `word`.
pub fn is_text(t: &Vec<char>, word: &str) -> (same: bool)
    ensures
        same == (t@ == word@),
{
    let w = chars_of(word);
    if t.len() != w.len() {
        return false;
    }
    let mut i: usize = 0;
    while i < w.len()
        invariant
            i <= w.len(),
            t.len() == w.len(),
            w@ == word@,
            t@.take(i as int) == w@.take(i as int),
        decreases w.len() - i,
    {
        if t[i] != w[i] {
            return false;
        }
        i += 1;
        assert(t@.take(i as int) == t@.take(i - 1).push(t@[i - 1]));
        assert(w@.take(i as int) == w@.take(i - 1).push(w@[i - 1]));
    }
    assert(t@.take(i as int) == t@);
    assert(w@.take(i as int) == w@);
    true
}

/// Whether `t` begins with the text of `word`.
pub fn has_prefix(t: &Vec<char>, word: &str) -> (found: bool)
    ensures
        found == starts_with(t@, word@),
{
    let w = chars_of(word);
    if t.len() < w.len() {
        return false;
    }
    let mut i: usize = 0;
    while i < w.len()
        invariant
            i <= w.len(),
            w.len() <= t.len(),
            w@ == word@,
            t@.take(i as int) == w@.take(i as int),
        decreases w.len() - i,
    {
        if t[i] != w[i] {
            assert(t@.take(w.len() as int)[i as int] != w@[i as int]);
            return false;
        }
        i += 1;
        assert(t@.take(i as int) == t@.take(i - 1).push(t@[i - 1]));
        assert(w@.take(i as int) == w@.take(i - 1).push(w@[i - 1]));
    }
    assert(w@.take(i as int) == w@);
    true
}

/// The lexical class of `t`.
pub fn classify(t: &Vec<char>) -> (s: Shape)
    ensures
        s == shape(t@),
{
    if t.len() >= 2 && t[0] == '-' {
        if t[1] != '-' {
            Shape::Short
        } else if t.len() == 2 {
            Shape::Escape
        } else {
            Shape::Long
        }
    } else {
        Shape::Word
    }
}

/// Reads a long option.
fn scan_long(t: &Vec<char>) -> (s: Scan)
    ensures
        s.meaning(t@) == long_effect(t@),
        s.within(t@),
{
    if is_text(t, "--verbose") {
        proof {
            reveal_strlit("--verbose");
        }
        Scan::Accept { verbose: 1, value: Value::Absent }
    } else if is_text(t, "--name") {
        Scan::Accept { verbose: 0, value: Value::Detached }
    } else if has_prefix(t, "--name=") {
        proof {
            reveal_strlit("--name=");
        }
        Scan::Accept { verbose: 0, value: Value::Attached { start: 7 } }
    } else if has_prefix(t, "--verbose=") {
        Scan::Reject(Reason::UnexpectedValue)
    } else {
        Scan::Reject(Reason::UnknownOption)
    }
}

/// Reads a bundle of short options.
fn scan_short(t: &Vec<char>) -> (s: Scan)
    requires
        t.len() >= 1,
    ensures
        s.meaning(t@) == short_effect(t@, 1),
        s.within(t@),
{
    let mut j: usize = 1;
    while j < t.len() && t[j] == 'v'
        invariant
            1 <= j <= t.len(),
            forall|k: int| 1 <= k < j ==> t@[k] == 'v',
        decreases t.len() - j,
    {
        j += 1;
    }
    let tail = if j == t.len() {
        Scan::Accept { verbose: 0, value: Value::Absent }
    } else if t[j] == 'n' {
        if j + 1 == t.len() {
            Scan::Accept { verbose: 0, value: Value::Detached }
        } else if t[j + 1] == '=' {
            Scan::Accept { verbose: 0, value: Value::Attached { start: j + 2 } }
        } else {
            Scan::Accept { verbose: 0, value: Value::Attached { start: j + 1 } }
        }
    } else {
        Scan::Reject(Reason::UnknownOption)
    };
    assert(tail.meaning(t@) == short_effect(t@, j as int));
    let found = match tail {
        Scan::Accept { verbose: _, value } => Scan::Accept { verbose: j - 1, value },
        Scan::Reject(reason) => Scan::Reject(reason),
    };
    proof {
        lemma_leading_flags(t@, 1, j as int);
    }
    found
}

/// The `v`s from `i` up to `j` each add one to what follows them.
proof fn lemma_leading_flags(t: Seq<char>, i: int, j: int)
    requires
        0 <= i <= j <= t.len(),
        forall|k: int| i <= k < j ==> t[k] == 'v',
    ensures
        short_effect(t, i) == match short_effect(t, j) {
            Effect::Accept { verbose, name } => Effect::Accept {
                verbose: verbose + (j - i) as nat,
                name,
            },
            Effect::Reject(reason) => Effect::Reject(reason),
        },
    decreases j - i,
{
    if i < j {
        lemma_leading_flags(t, i + 1, j);
    }
}

/// Reads an argument that stands where an option or the subcommand is
/// expected.
pub fn scan_option(t: &Vec<char>) -> (s: Scan)
    ensures
        s.meaning(t@) == effect(t@),
        s.within(t@),
{
    match classify(t) {
        Shape::Long => scan_long(t),
        Shape::Short => scan_short(t),
        Shape::Escape => Scan::Reject(Reason::UnknownOption),
        Shape::Word => Scan::Reject(Reason::UnknownSubcommand),
    }
}

/// Whether `t` is the text of `word` up to the case of ASCII letters;
/// `word` is in lower case.
fn is_text_folded(t: &Vec<char>, word: &str) -> (same: bool)
    ensures
        same == (t@.map_values(|c: char| ascii_lower(c)) == word@),
{
    let w = chars_of(word);
    let ghost folded = t@.map_values(|c: char| ascii_lower(c));
    if t.len() != w.len() {
        return false;
    }
    let mut i: usize = 0;
    while i < w.len()
        invariant
            i <= w.len(),
            t.len() == w.len(),
            w@ == word@,
            folded == t@.map_values(|c: char| ascii_lower(c)),
            folded.take(i as int) == w@.take(i as int),
        decreases w.len() - i,
    {
        if to_ascii_lower(t[i]) != w[i] {
            assert(folded[i as int] != w@[i as int]);
            return false;
        }
        i += 1;
        assert(folded.take(i as int) == folded.take(i - 1).push(folded[i - 1]));
        assert(w@.take(i as int) == w@.take(i - 1).push(w@[i - 1]));
    }
    assert(folded.take(i as int) == folded);
    assert(w@.take(i as int) == w@);
    true
}

/// The resource kind that `t` names, if any.
pub fn resource_kind(t: &Vec<char>) -> (kind: Option<ResourceKind>)
    ensures
        kind == kind_of(t@),
{
    if is_text_folded(t, "prtb") {
        Some(ResourceKind::PRTB)
    } else if is_text_folded(t, "crtb") {
        Some(ResourceKind::CRTB)
    } else {
        None
    }
}

} // verus!
