//! Building `sh -c` command lines: single-quote escaping of arguments and
//! `&&`-chaining of setup steps.

use vstd::prelude::*;
use vstd::string::*;
use crate::json::string_views;
use crate::text::{contains_char, push_char};

verus! {

/// Whether an argument is wrapped in single quotes. Evaluator containers
/// quote arguments holding a space or a quote; the agent sandbox also
/// quotes those holding `*` or `$` (`extended`).
pub open spec fn needs_quoting(s: Seq<char>, extended: bool) -> bool {
    s.contains(' ') || s.contains('"') || s.contains('\'') || (extended && (s.contains('*')
        || s.contains('$')))
}

/// What one character becomes inside single quotes: a quote closes the
/// quoting, is escaped with a backslash, and quoting reopens.
pub open spec fn escape_piece(c: char) -> Seq<char> {
    if c == '\'' {
        seq!['\'', '\\', '\'', '\'']
    } else {
        seq![c]
    }
}

/// Every character of `s` through `escape_piece`.
pub open spec fn escape_quotes(s: Seq<char>) -> Seq<char>
    decreases s.len(),
{
    if s.len() == 0 {
        Seq::empty()
    } else {
        escape_piece(s[0]) + escape_quotes(s.drop_first())
    }
}

/// An argument as it is written into the command line.
pub open spec fn quote(s: Seq<char>, extended: bool) -> Seq<char> {
    if needs_quoting(s, extended) {
        seq!['\''] + escape_quotes(s) + seq!['\'']
    } else {
        s
    }
}

/// `items` joined with `sep` between neighbours.
pub open spec fn join(items: Seq<Seq<char>>, sep: Seq<char>) -> Seq<char>
    decreases items.len(),
{
    if items.len() == 0 {
        Seq::empty()
    } else if items.len() == 1 {
        items[0]
    } else {
        join(items.drop_last(), sep) + sep + items.last()
    }
}

/// Characters that end or change an unquoted shell word.
pub open spec fn is_shell_special(c: char) -> bool {
    c == ' ' || c == '\t' || c == '\n' || c == ';' || c == '&' || c == '|' || c == '<' || c
        == '>' || c == '(' || c == ')' || c == '$' || c == '`' || c == '"' || c == '*' || c
        == '?' || c == '[' || c == '#' || c == '~' || c == '\'' || c == '\\'
}

/// `c` in front of an optional word value.
pub open spec fn prepend(c: Seq<char>, o: Option<Seq<char>>) -> Option<Seq<char>> {
    match o {
        Some(r) => Some(c + r),
        None => None,
    }
}

/// The value of the rest of a POSIX shell word read outside quotes:
/// a single quote opens quoting, a backslash takes the next character
/// literally, other special characters are not part of one plain word
/// (`None`).
pub open spec fn word_outside(w: Seq<char>) -> Option<Seq<char>>
    decreases w.len(), 1int,
{
    if w.len() == 0 {
        Some(Seq::empty())
    } else if w[0] == '\'' {
        word_inside(w.drop_first())
    } else if w[0] == '\\' {
        if w.len() >= 2 {
            prepend(seq![w[1]], word_outside(w.subrange(2, w.len() as int)))
        } else {
            None
        }
    } else if is_shell_special(w[0]) {
        None
    } else {
        prepend(seq![w[0]], word_outside(w.drop_first()))
    }
}

/// The value of the rest of a word read inside single quotes, which only
/// a single quote ends; an unterminated quote is `None`.
pub open spec fn word_inside(w: Seq<char>) -> Option<Seq<char>>
    decreases w.len(), 0int,
{
    if w.len() == 0 {
        None
    } else if w[0] == '\'' {
        word_outside(w.drop_first())
    } else {
        prepend(seq![w[0]], word_inside(w.drop_first()))
    }
}

/// The value `sh` gives a written word (`None` where it is not one word);
/// an empty word vanishes.
pub open spec fn shell_word_value(w: Seq<char>) -> Option<Seq<char>> {
    if w.len() == 0 {
        None
    } else {
        word_outside(w)
    }
}

proof fn lemma_inside_escape(s: Seq<char>, rest: Seq<char>)
    ensures
        word_inside(escape_quotes(s) + seq!['\''] + rest) == prepend(s, word_outside(rest)),
    decreases s.len(),
{
    let w = escape_quotes(s) + seq!['\''] + rest;
    if s.len() == 0 {
        assert(escape_quotes(s) =~= Seq::<char>::empty());
        assert(w =~= seq!['\''] + rest);
        assert(w[0] == '\'');
        assert(w.drop_first() =~= rest);
        assert(word_inside(w) == word_outside(rest));
        match word_outside(rest) {
            Some(r) => assert(s + r =~= r),
            None => {},
        }
    } else {
        let t = s.drop_first();
        let tail = escape_quotes(t) + seq!['\''] + rest;
        lemma_inside_escape(t, rest);
        assert(escape_quotes(s) == escape_piece(s[0]) + escape_quotes(t));
        if s[0] == '\'' {
            assert(w =~= seq!['\'', '\\', '\'', '\''] + tail);
            assert(w[0] == '\'');
            let w1 = w.drop_first();
            assert(w1 =~= seq!['\\', '\'', '\''] + tail);
            assert(word_inside(w) == word_outside(w1));
            assert(w1[0] == '\\');
            assert(w1[1] == '\'');
            let w2 = w1.subrange(2, w1.len() as int);
            assert(w2 =~= seq!['\''] + tail);
            assert(word_outside(w1) == prepend(seq!['\''], word_outside(w2)));
            assert(w2[0] == '\'');
            assert(w2.drop_first() =~= tail);
            assert(word_outside(w2) == word_inside(tail));
            match word_outside(rest) {
                Some(r) => assert(seq![s[0]] + (t + r) =~= s + r),
                None => {},
            }
        } else {
            assert(w =~= seq![s[0]] + tail);
            assert(w[0] == s[0]);
            assert(w.drop_first() =~= tail);
            assert(word_inside(w) == prepend(seq![s[0]], word_inside(tail)));
            match word_outside(rest) {
                Some(r) => assert(seq![s[0]] + (t + r) =~= s + r),
                None => {},
            }
        }
    }
}

proof fn lemma_plain_word(s: Seq<char>)
    requires
        forall|i: int| 0 <= i < s.len() ==> !is_shell_special(#[trigger] s[i]),
    ensures
        word_outside(s) == Some(s),
    decreases s.len(),
{
    if s.len() > 0 {
        let t = s.drop_first();
        assert forall|i: int| 0 <= i < t.len() implies !is_shell_special(#[trigger] t[i]) by {
            assert(t[i] == s[i + 1]);
        }
        lemma_plain_word(t);
        assert(!is_shell_special(s[0]));
        assert(seq![s[0]] + t =~= s);
    }
}

/// Quoting keeps the argument: the shell reads a quoted argument back as
/// exactly the given string. Arguments left unquoted come back intact
/// where they are non-empty and hold no shell-special character.
pub proof fn quoting_preserves_argument(s: Seq<char>, extended: bool)
    requires
        needs_quoting(s, extended) || (s.len() > 0 && forall|i: int|
            0 <= i < s.len() ==> !is_shell_special(#[trigger] s[i])),
    ensures
        shell_word_value(quote(s, extended)) == Some(s),
{
    if needs_quoting(s, extended) {
        let w = seq!['\''] + escape_quotes(s) + seq!['\''];
        lemma_inside_escape(s, Seq::empty());
        assert(w.drop_first() =~= escape_quotes(s) + seq!['\''] + Seq::<char>::empty());
        assert(s + Seq::<char>::empty() =~= s);
    } else {
        lemma_plain_word(s);
    }
}

proof fn lemma_escape_push(a: Seq<char>, c: char)
    ensures
        escape_quotes(a.push(c)) == escape_quotes(a) + escape_piece(c),
    decreases a.len(),
{
    if a.len() == 0 {
        let b = a.push(c);
        assert(b.drop_first() =~= Seq::<char>::empty());
        assert(escape_quotes(Seq::<char>::empty()) == Seq::<char>::empty());
        assert(b[0] == c);
        assert(escape_quotes(b) == escape_piece(c) + escape_quotes(b.drop_first()));
        assert(escape_quotes(b) =~= escape_piece(c));
        assert(escape_quotes(a) =~= Seq::<char>::empty());
    } else {
        lemma_escape_push(a.drop_first(), c);
        assert(a.push(c).drop_first() =~= a.drop_first().push(c));
        assert(a.push(c)[0] == a[0]);
    }
}

/// An argument as it is written into a `sh -c` command line (see `quote`).
pub fn quote_shell_arg(s: &str, extended: bool) -> (r: String)
    ensures
        r@ == quote(s@, extended),
{
    let needs = contains_char(s, ' ') || contains_char(s, '"') || contains_char(s, '\'') || (
    extended && (contains_char(s, '*') || contains_char(s, '$')));
    if !needs {
        return String::from_str(s);
    }
    let mut out = String::new();
    push_char(&mut out, '\'');
    let n = s.unicode_len();
    let mut i: usize = 0;
    while i < n
        invariant
            n == s@.len(),
            i <= n,
            out@ == seq!['\''] + escape_quotes(s@.subrange(0, i as int)),
        decreases n - i,
    {
        let c = s.get_char(i);
        proof {
            lemma_escape_push(s@.subrange(0, i as int), c);
            assert(s@.subrange(0, i + 1) =~= s@.subrange(0, i as int).push(c));
        }
        if c == '\'' {
            push_char(&mut out, '\'');
            push_char(&mut out, '\\');
            push_char(&mut out, '\'');
            push_char(&mut out, '\'');
        } else {
            push_char(&mut out, c);
        }
        assert(out@ =~= seq!['\''] + escape_quotes(s@.subrange(0, i + 1)));
        i += 1;
    }
    push_char(&mut out, '\'');
    assert(s@.subrange(0, n as int) =~= s@);
    out
}

/// `items` joined with `sep`.
pub fn join_strings(items: &[String], sep: &str) -> (r: String)
    ensures
        r@ == join(string_views(items@), sep@),
{
    let mut out = String::new();
    let n = items.len();
    let mut i: usize = 0;
    while i < n
        invariant
            n == items@.len(),
            i <= n,
            out@ == join(string_views(items@.subrange(0, i as int)), sep@),
        decreases n - i,
    {
        proof {
            let a = string_views(items@.subrange(0, i + 1));
            assert(a.drop_last() =~= string_views(items@.subrange(0, i as int)));
            assert(a.last() == items@[i as int]@);
        }
        if i > 0 {
            out.append(sep);
        }
        out.append(items[i].as_str());
        proof {
            let a = string_views(items@.subrange(0, i + 1));
            if i == 0 {
                assert(a.len() == 1);
                assert(out@ =~= a[0]);
            }
        }
        i += 1;
    }
    assert(items@.subrange(0, n as int) =~= items@);
    out
}

/// The quoted arguments, in order.
pub open spec fn quote_all(items: Seq<Seq<char>>, extended: bool) -> Seq<Seq<char>> {
    items.map_values(|s: Seq<char>| quote(s, extended))
}

/// The command line that runs the setup steps, then the command:
/// `step1 && step2 && ... && <quoted command words joined by spaces>`.
pub open spec fn setup_then_command(
    setup: Seq<Seq<char>>,
    command: Seq<Seq<char>>,
    extended: bool,
) -> Seq<char> {
    join(setup, " && "@) + " && "@ + join(quote_all(command, extended), " "@)
}

/// Builds `setup_then_command` for the given steps and command.
pub fn chain_setup_and_command(setup: &[String], command: &[String], extended: bool) -> (r:
    String)
    ensures
        r@ == setup_then_command(string_views(setup@), string_views(command@), extended),
{
    let mut quoted: Vec<String> = Vec::new();
    let n = command.len();
    let mut i: usize = 0;
    while i < n
        invariant
            n == command@.len(),
            i <= n,
            quoted@.len() == i,
            forall|j: int| 0 <= j < i ==> #[trigger] quoted@[j]@ == quote(command@[j]@, extended),
        decreases n - i,
    {
        let q = quote_shell_arg(command[i].as_str(), extended);
        quoted.push(q);
        i += 1;
    }
    assert(string_views(quoted@) =~= quote_all(string_views(command@), extended));
    let mut line = join_strings(setup, " && ");
    line.append(" && ");
    let words = join_strings(quoted.as_slice(), " ");
    line.append(words.as_str());
    line
}

proof fn lemma_join_cons(a: Seq<char>, rest: Seq<Seq<char>>, sep: Seq<char>)
    requires
        rest.len() > 0,
    ensures
        join(seq![a] + rest, sep) == a + sep + join(rest, sep),
    decreases rest.len(),
{
    let all = seq![a] + rest;
    assert(all.len() >= 2);
    assert(join(all, sep) == join(all.drop_last(), sep) + sep + all.last());
    assert(all.last() == rest.last());
    if rest.len() == 1 {
        assert(all.drop_last() =~= seq![a]);
        assert(join(seq![a], sep) == a);
        assert(join(rest, sep) == rest[0]);
        assert(rest.last() == rest[0]);
    } else {
        lemma_join_cons(a, rest.drop_last(), sep);
        assert(all.drop_last() =~= seq![a] + rest.drop_last());
        assert(join(rest, sep) == join(rest.drop_last(), sep) + sep + rest.last());
        assert(a + sep + join(rest.drop_last(), sep) + sep + rest.last() =~= a + sep + (join(
            rest.drop_last(),
            sep,
        ) + sep + rest.last()));
    }
}

/// Each setup step is its own `&&`-separated command: the line for steps
/// `a, s2, ..., sn` is `a && ` followed by the line for `s2, ..., sn`; for a
/// single step `a` it is `a && ` followed by the quoted command words.
pub proof fn setup_steps_are_chained(
    a: Seq<char>,
    rest: Seq<Seq<char>>,
    command: Seq<Seq<char>>,
    extended: bool,
)
    ensures
        rest.len() > 0 ==> setup_then_command(seq![a] + rest, command, extended) == a + " && "@
            + setup_then_command(rest, command, extended),
        setup_then_command(seq![a], command, extended) == a + " && "@ + join(
            quote_all(command, extended),
            " "@,
        ),
{
    if rest.len() > 0 {
        lemma_join_cons(a, rest, " && "@);
        assert(a + " && "@ + join(rest, " && "@) + " && "@ + join(quote_all(command, extended), " "@)
            =~= a + " && "@ + (join(rest, " && "@) + " && "@ + join(quote_all(command, extended), " "@)));
    }
    assert(join(seq![a], " && "@) == a);
}

} // verus!
