//! Command templates: a command line is cut into arguments the way a
//! restricted shell lexer would, and `%NAME` placeholders are filled in
//! from an environment.
//!
//! The grammar has no globs, pipes or redirections. Arguments are separated
//! by white space. An argument is a double-quoted string (with `\"` and
//! `\\` as escapes), a single-quoted string (with no escapes), or a bare
//! word that runs to the next white space or quote. Cutting stops, without
//! an error, at the first place where no argument can be read: at a quote
//! that is not closed, and at a quote that follows an argument with no
//! white space between them. What stands from there on is left out.

use crate::strmap::StringMap;
use crate::text::{
    ascii_letter, chars_of, in_class, is_ascii_letter, lemma_run_end, lemma_texts_push, run_end,
    scan_run, string_of, texts, CharClass,
};
use vstd::prelude::*;

verus! {

/// The environment that placeholders are filled in from.
pub type Env = StringMap;

/// A program, the arguments to start it with, the environment variables
/// to set for it and the directory to start it in.
#[derive(Debug, Clone)]
pub struct ExecutableCommand {
    pub program: String,
    pub args: Vec<String>,
    pub envs: StringMap,
    pub current_dir: Option<String>,
}

impl ExecutableCommand {
    /// The program to start.
    pub fn get_program(&self) -> (p: &str)
        ensures
            p@ == self.program@,
    {
        self.program.as_str()
    }

    /// The arguments, in order.
    pub fn get_args(&self) -> (a: &[String])
        ensures
            a@ == self.args@,
    {
        self.args.as_slice()
    }

    /// The command that starts `program` with no argument, in the
    /// environment and the directory of the caller.
    pub fn new(program: String) -> (c: ExecutableCommand)
        ensures
            c.program == program,
            c.args@.len() == 0,
            c.envs@ == Map::<Seq<char>, Seq<char>>::empty(),
            c.current_dir is None,
    {
        ExecutableCommand { program, args: Vec::new(), envs: StringMap::new(), current_dir: None }
    }

    /// Adds one argument behind those that the command has.
    pub fn arg(&mut self, argument: String)
        ensures
            final(self).args@ == old(self).args@.push(argument),
            final(self).program == old(self).program,
            final(self).envs == old(self).envs,
            final(self).current_dir == old(self).current_dir,
    {
        self.args.push(argument);
    }

    /// Adds `more` behind the arguments that the command has.
    pub fn args(&mut self, more: &Vec<String>)
        ensures
            final(self).args@ == old(self).args@ + more@,
            final(self).program == old(self).program,
            final(self).envs == old(self).envs,
            final(self).current_dir == old(self).current_dir,
    {
        let mut i: usize = 0;
        assert(self.args@ == old(self).args@ + more@.take(0));
        while i < more.len()
            invariant
                i <= more.len(),
                self.args@ == old(self).args@ + more@.take(i as int),
                self.program == old(self).program,
                self.envs == old(self).envs,
                self.current_dir == old(self).current_dir,
            decreases more.len() - i,
        {
            self.args.push(more[i].clone());
            i = i + 1;
            assert(self.args@ =~= old(self).args@ + more@.take(i as int));
        }
        assert(more@.take(more@.len() as int) == more@);
    }

    /// Sets the variable `name` to `value` for the program.
    pub fn env(&mut self, name: String, value: String)
        ensures
            final(self).envs@ == old(self).envs@.insert(name@, value@),
            final(self).program == old(self).program,
            final(self).args == old(self).args,
            final(self).current_dir == old(self).current_dir,
    {
        self.envs.insert(name, value);
    }

    /// Sets the directory that the program starts in.
    pub fn set_current_dir(&mut self, dir: String)
        ensures
            final(self).current_dir == Some(dir),
            final(self).program == old(self).program,
            final(self).args == old(self).args,
            final(self).envs == old(self).envs,
    {
        self.current_dir = Some(dir);
    }
}

/// `s` with the escapes `\"` and `\\` replaced by the character they stand
/// for. A backslash before anything else, or at the end, stays.
pub open spec fn unescaped(s: Seq<char>) -> Seq<char>
    decreases s.len(),
{
    if s.len() == 0 {
        s
    } else if s[0] == '\\' && s.len() >= 2 && (s[1] == '"' || s[1] == '\\') {
        seq![s[1]] + unescaped(s.skip(2))
    } else {
        seq![s[0]] + unescaped(s.skip(1))
    }
}

/// Where the double-quoted string whose content starts at `i` is closed:
/// the index of the first quote that no backslash escapes. A backslash
/// escapes a quote or a backslash that follows it, and is a character
/// like any other before anything else. `None` where the string is not
/// closed.
pub open spec fn closing_quote(s: Seq<char>, i: int) -> Option<int>
    decreases s.len() - i,
{
    if i < 0 || i >= s.len() {
        None
    } else if s[i] == '"' {
        Some(i)
    } else if s[i] == '\\' && i + 1 < s.len() && (s[i + 1] == '"' || s[i + 1] == '\\') {
        closing_quote(s, i + 2)
    } else {
        closing_quote(s, i + 1)
    }
}

/// The argument that starts at `p`, with the index just behind it; `None`
/// where no argument can be read there: at the end of the text, at white
/// space, and at a quote that is not closed. A quoted string may be
/// empty.
pub open spec fn argument_at(s: Seq<char>, p: int) -> Option<(Seq<char>, int)> {
    if p < 0 || p >= s.len() {
        None
    } else if s[p] == '"' {
        match closing_quote(s, p + 1) {
            Some(q) => Some((unescaped(s.subrange(p + 1, q)), q + 1)),
            None => None,
        }
    } else if s[p] == '\'' {
        let q = run_end(s, p + 1, CharClass::NotApostrophe);
        if q < s.len() {
            Some((s.subrange(p + 1, q), q + 1))
        } else {
            None
        }
    } else {
        let q = run_end(s, p, CharClass::Bare);
        if p < q {
            Some((s.subrange(p, q), q))
        } else {
            None
        }
    }
}

/// The closing quote lies within the text, at or behind the start.
pub proof fn lemma_closing_quote(s: Seq<char>, i: int)
    ensures
        closing_quote(s, i) matches Some(q) ==> i <= q < s.len() && s[q] == '"',
    decreases s.len() - i,
{
    if 0 <= i < s.len() && s[i] != '"' {
        if s[i] == '\\' && i + 1 < s.len() && (s[i + 1] == '"' || s[i + 1] == '\\') {
            lemma_closing_quote(s, i + 2);
        } else {
            lemma_closing_quote(s, i + 1);
        }
    }
}

/// An argument is never empty in the text: the index behind it lies past
/// its start, and within the text.
pub proof fn lemma_argument_advances(s: Seq<char>, p: int)
    ensures
        argument_at(s, p) matches Some((_, next)) ==> p < next <= s.len(),
{
    if 0 <= p < s.len() {
        if s[p] == '"' {
            lemma_closing_quote(s, p + 1);
        } else if s[p] == '\'' {
            lemma_run_end(s, p + 1, CharClass::NotApostrophe);
        } else {
            lemma_run_end(s, p, CharClass::Bare);
        }
    }
}

/// The arguments read from `p` on. The first argument may follow any
/// amount of white space, each later one needs some before it.
pub open spec fn arguments_from(s: Seq<char>, p: int, first: bool) -> Seq<Seq<char>>
    decreases s.len() - p,
    via arguments_from_decreases
{
    let q = run_end(s, p, CharClass::WhiteSpace);
    if p < 0 || p > s.len() || (!first && q == p) {
        Seq::empty()
    } else {
        match argument_at(s, q) {
            Some((argument, next)) => seq![argument] + arguments_from(s, next, false),
            None => Seq::empty(),
        }
    }
}

#[via_fn]
proof fn arguments_from_decreases(s: Seq<char>, p: int, first: bool) {
    let q = run_end(s, p, CharClass::WhiteSpace);
    if 0 <= p <= s.len() {
        lemma_run_end(s, p, CharClass::WhiteSpace);
        lemma_argument_advances(s, q);
    }
}

/// The arguments of the command line `s`.
pub open spec fn arguments_of(s: Seq<char>) -> Seq<Seq<char>> {
    arguments_from(s, 0, true)
}

/// Whether `c` holds neither a double quote nor a backslash.
pub open spec fn is_plain(c: Seq<char>) -> bool {
    forall|i: int| 0 <= i < c.len() ==> #[trigger] c[i] != '"' && c[i] != '\\'
}

/// Text without backslashes has no escapes to replace.
pub proof fn lemma_unescaped_plain(c: Seq<char>)
    requires
        is_plain(c),
    ensures
        unescaped(c) == c,
    decreases c.len(),
{
    if c.len() > 0 {
        assert(c[0] != '\\');
        assert(is_plain(c.skip(1))) by {
            assert forall|i: int| 0 <= i < c.skip(1).len() implies #[trigger] c.skip(1)[i] != '"'
                && c.skip(1)[i] != '\\' by {
                assert(c.skip(1)[i] == c[i + 1]);
            }
        }
        lemma_unescaped_plain(c.skip(1));
        assert(seq![c[0]] + c.skip(1) == c);
    }
}

/// The quote that closes a string is the first quote behind plain text.
pub proof fn lemma_closing_quote_plain(s: Seq<char>, i: int, q: int)
    requires
        0 <= i <= q < s.len(),
        s[q] == '"',
        is_plain(s.subrange(i, q)),
    ensures
        closing_quote(s, i) == Some(q),
    decreases q - i,
{
    if i < q {
        assert(s.subrange(i, q)[0] == s[i]);
        assert(is_plain(s.subrange(i + 1, q))) by {
            assert forall|j: int| 0 <= j < q - i - 1 implies #[trigger] s.subrange(i + 1, q)[j]
                != '"' && s.subrange(i + 1, q)[j] != '\\' by {
                assert(s.subrange(i + 1, q)[j] == s.subrange(i, q)[j + 1]);
            }
        }
        lemma_closing_quote_plain(s, i + 1, q);
    }
}

/// Plain text between double quotes is one argument, spaces and all, even
/// where it is empty: the command line that consists of it has this
/// argument and no other.
pub proof fn lemma_quoted_is_one_argument(c: Seq<char>)
    requires
        is_plain(c),
    ensures
        arguments_of(seq!['"'] + c + seq!['"']) == seq![c],
{
    let s = seq!['"'] + c + seq!['"'];
    let q = s.len() - 1;
    assert(s[0] == '"');
    assert(s[q] == '"');
    assert(s.subrange(1, q) == c);
    lemma_closing_quote_plain(s, 1, q);
    lemma_unescaped_plain(c);
    assert(run_end(s, 0, CharClass::WhiteSpace) == 0);
    assert(argument_at(s, 0) == Some((c, q + 1)));
    assert(run_end(s, q + 1, CharClass::WhiteSpace) == q + 1);
    assert(arguments_from(s, q + 1, false) == Seq::<Seq<char>>::empty());
    assert(seq![c] + Seq::<Seq<char>>::empty() == seq![c]);
}

/// Computes `unescaped` of `v[from..to]`.
fn unescape_range(v: &Vec<char>, from: usize, to: usize) -> (out: String)
    requires
        from <= to <= v.len(),
    ensures
        out@ == unescaped(v@.subrange(from as int, to as int)),
{
    let mut out = String::new();
    let mut i: usize = from;
    while i < to
        invariant
            from <= i <= to <= v.len(),
            out@ + unescaped(v@.subrange(i as int, to as int)) == unescaped(
                v@.subrange(from as int, to as int),
            ),
        decreases to - i,
    {
        let ghost rest = v@.subrange(i as int, to as int);
        let ghost before = out@;
        let c = v[i];
        assert(rest[0] == c);
        if c == '\\' && i + 1 < to && (v[i + 1] == '"' || v[i + 1] == '\\') {
            assert(rest[1] == v@[i + 1]);
            assert(rest.skip(2) == v@.subrange(i + 2, to as int));
            out.push(v[i + 1]);
            i = i + 2;
            assert(out@ + unescaped(v@.subrange(i as int, to as int)) == before + (seq![rest[1]]
                + unescaped(rest.skip(2))));
        } else {
            assert(rest.skip(1) == v@.subrange(i + 1, to as int));
            out.push(c);
            i = i + 1;
            assert(out@ + unescaped(v@.subrange(i as int, to as int)) == before + (seq![rest[0]]
                + unescaped(rest.skip(1))));
        }
    }
    assert(v@.subrange(to as int, to as int) == Seq::<char>::empty());
    assert(out@ + Seq::<char>::empty() == out@);
    out
}

/// Replaces the escapes `\"` and `\\` in `s` by the character they stand
/// for.
pub fn unescape_string(s: &str) -> (out: String)
    ensures
        out@ == unescaped(s@),
{
    let v = chars_of(s);
    assert(v@.subrange(0, v@.len() as int) == v@);
    unescape_range(&v, 0, v.len())
}

/// Computes `closing_quote`.
fn find_closing_quote(v: &Vec<char>, i: usize) -> (r: Option<usize>)
    requires
        i <= v.len(),
    ensures
        r is Some <==> closing_quote(v@, i as int) is Some,
        r matches Some(q) ==> closing_quote(v@, i as int) == Some(q as int) && i <= q < v.len(),
{
    let mut j: usize = i;
    while j < v.len()
        invariant
            i <= j <= v.len(),
            closing_quote(v@, i as int) == closing_quote(v@, j as int),
        decreases v.len() - j,
    {
        let c = v[j];
        if c == '"' {
            return Some(j);
        } else if c == '\\' && j + 1 < v.len() && (v[j + 1] == '"' || v[j + 1] == '\\') {
            j = j + 2;
        } else {
            j = j + 1;
        }
    }
    None
}

/// Reads the argument that starts at `p`.
fn read_argument(v: &Vec<char>, p: usize) -> (r: Option<(String, usize)>)
    requires
        p <= v.len(),
    ensures
        r is Some <==> argument_at(v@, p as int) is Some,
        r matches Some((text, next)) ==> argument_at(v@, p as int) == Some((text@, next as int))
            && p < next <= v.len(),
{
    proof {
        lemma_argument_advances(v@, p as int);
    }
    if p >= v.len() {
        return None;
    }
    let c = v[p];
    if c == '"' {
        match find_closing_quote(v, p + 1) {
            Some(q) => Some((unescape_range(v, p + 1, q), q + 1)),
            None => None,
        }
    } else if c == '\'' {
        let q = scan_run(v, p + 1, CharClass::NotApostrophe);
        if q < v.len() {
            Some((string_of(v, p + 1, q), q + 1))
        } else {
            None
        }
    } else {
        let q = scan_run(v, p, CharClass::Bare);
        if p < q {
            Some((string_of(v, p, q), q))
        } else {
            None
        }
    }
}

/// Cuts the command line `command` into its arguments.
pub fn split_arguments(command: &str) -> (parts: Vec<String>)
    ensures
        texts(parts@) == arguments_of(command@),
{
    let v = chars_of(command);
    let mut parts: Vec<String> = Vec::new();
    let mut p: usize = 0;
    let mut first = true;
    assert(texts(parts@) =~= Seq::<Seq<char>>::empty());
    loop
        invariant
            p <= v.len(),
            v@ == command@,
            texts(parts@) + arguments_from(v@, p as int, first) == arguments_of(v@),
        decreases v.len() - p,
    {
        let q = scan_run(&v, p, CharClass::WhiteSpace);
        if !first && q == p {
            assert(texts(parts@) + Seq::<Seq<char>>::empty() == texts(parts@));
            return parts;
        }
        match read_argument(&v, q) {
            Some((text, next)) => {
                proof {
                    lemma_texts_push(parts@, text);
                    assert(texts(parts@).push(text@) + arguments_from(v@, next as int, false)
                        == texts(parts@) + (seq![text@] + arguments_from(
                        v@,
                        next as int,
                        false,
                    )));
                }
                parts.push(text);
                p = next;
                first = false;
            },
            None => {
                assert(texts(parts@) + Seq::<Seq<char>>::empty() == texts(parts@));
                return parts;
            },
        }
    }
}

/// The token `t` from `i` on, with each placeholder `%NAME` replaced by the
/// value that `env` holds for `NAME`. A name starts with an ASCII letter
/// and runs over ASCII letters, digits and underscores. A placeholder
/// whose name `env` does not hold stays as it is written. A percent sign
/// that no letter follows is no placeholder: it stays, and so does what
/// stands behind it.
pub open spec fn substituted_from(t: Seq<char>, i: int, env: Map<Seq<char>, Seq<char>>) -> Seq<
    char,
>
    decreases t.len() - i,
    via substituted_from_decreases
{
    if i < 0 || i >= t.len() {
        Seq::empty()
    } else if t[i] == '%' {
        if i + 1 < t.len() && is_ascii_letter(t[i + 1]) {
            let e = run_end(t, i + 1, CharClass::Name);
            let name = t.subrange(i + 1, e);
            let value = if env.contains_key(name) {
                env[name]
            } else {
                t.subrange(i, e)
            };
            value + substituted_from(t, e, env)
        } else {
            seq![t[i]] + substituted_from(t, i + 1, env)
        }
    } else {
        let e = run_end(t, i, CharClass::NotPercent);
        t.subrange(i, e) + substituted_from(t, e, env)
    }
}

#[via_fn]
proof fn substituted_from_decreases(t: Seq<char>, i: int, env: Map<Seq<char>, Seq<char>>) {
    if 0 <= i < t.len() {
        lemma_run_end(t, i + 1, CharClass::Name);
        lemma_run_end(t, i, CharClass::NotPercent);
    }
}

/// The token `t` with its placeholders filled in from `env`.
pub open spec fn substituted(t: Seq<char>, env: Map<Seq<char>, Seq<char>>) -> Seq<char> {
    substituted_from(t, 0, env)
}

/// Each of `parts` with its placeholders filled in from `env`.
pub open spec fn substituted_all(parts: Seq<Seq<char>>, env: Map<Seq<char>, Seq<char>>) -> Seq<
    Seq<char>,
> {
    Seq::new(parts.len(), |i: int| substituted(parts[i], env))
}

/// A token without a percent sign comes out of the substitution as it is.
pub proof fn lemma_substituted_plain(t: Seq<char>, env: Map<Seq<char>, Seq<char>>)
    requires
        forall|i: int| 0 <= i < t.len() ==> t[i] != '%',
    ensures
        substituted(t, env) == t,
{
    if t.len() > 0 {
        lemma_run_end(t, 0, CharClass::NotPercent);
        let e = run_end(t, 0, CharClass::NotPercent);
        assert(e == t.len()) by {
            if e < t.len() {
                assert(t[e] != '%');
            }
        }
        assert(t.subrange(0, e) == t);
        assert(substituted_from(t, e, env) == Seq::<char>::empty());
        assert(t + Seq::<char>::empty() == t);
    } else {
        assert(t == Seq::<char>::empty());
    }
}

/// Whether `name` can stand behind a percent sign: it starts with an
/// ASCII letter and goes on with ASCII letters, digits and underscores.
pub open spec fn is_name(name: Seq<char>) -> bool {
    &&& name.len() > 0
    &&& is_ascii_letter(name[0])
    &&& forall|i: int| 0 <= i < name.len() ==> in_class(CharClass::Name, #[trigger] name[i])
}

/// A token that is one placeholder: where the environment holds the name
/// the token becomes its value, and where it does not the token stays as
/// it is written.
pub proof fn lemma_placeholder(name: Seq<char>, env: Map<Seq<char>, Seq<char>>)
    requires
        is_name(name),
    ensures
        substituted(seq!['%'] + name, env) == (if env.contains_key(name) {
            env[name]
        } else {
            seq!['%'] + name
        }),
{
    let t = seq!['%'] + name;
    assert(t[0] == '%');
    assert(t[1] == name[0]);
    lemma_run_end(t, 1, CharClass::Name);
    let e = run_end(t, 1, CharClass::Name);
    assert(e == t.len()) by {
        if e < t.len() {
            assert(t[e] == name[e - 1]);
        }
    }
    assert(t.subrange(1, e) == name);
    assert(t.subrange(0, e) == t);
    assert(substituted_from(t, e, env) == Seq::<char>::empty());
    assert(env[name] + Seq::<char>::empty() == env[name]);
    assert(t + Seq::<char>::empty() == t);
}

/// With nothing in the environment every token stays as it is written,
/// percent signs and all.
pub proof fn lemma_substituted_without_values(t: Seq<char>, i: int)
    requires
        0 <= i <= t.len(),
    ensures
        substituted_from(t, i, Map::empty()) == t.subrange(i, t.len() as int),
    decreases t.len() - i,
{
    let env = Map::<Seq<char>, Seq<char>>::empty();
    let n = t.len() as int;
    if i < n {
        if t[i] == '%' {
            if i + 1 < n && is_ascii_letter(t[i + 1]) {
                lemma_run_end(t, i + 1, CharClass::Name);
                let e = run_end(t, i + 1, CharClass::Name);
                lemma_substituted_without_values(t, e);
                assert(t.subrange(i, e) + t.subrange(e, n) == t.subrange(i, n));
            } else {
                lemma_substituted_without_values(t, i + 1);
                assert(seq![t[i]] + t.subrange(i + 1, n) == t.subrange(i, n));
            }
        } else {
            lemma_run_end(t, i, CharClass::NotPercent);
            let e = run_end(t, i, CharClass::NotPercent);
            lemma_substituted_without_values(t, e);
            assert(t.subrange(i, e) + t.subrange(e, n) == t.subrange(i, n));
        }
    } else {
        assert(t.subrange(i, n) == Seq::<char>::empty());
    }
}

/// Appends the characters `v[from..to]` to `out`.
fn push_range(out: &mut String, v: &Vec<char>, from: usize, to: usize)
    requires
        from <= to <= v.len(),
    ensures
        final(out)@ == old(out)@ + v@.subrange(from as int, to as int),
{
    let mut i: usize = from;
    assert(out@ + v@.subrange(from as int, from as int) == out@);
    while i < to
        invariant
            from <= i <= to <= v.len(),
            out@ == old(out)@ + v@.subrange(from as int, i as int),
        decreases to - i,
    {
        out.push(v[i]);
        i = i + 1;
        assert(old(out)@ + v@.subrange(from as int, i as int) == (old(out)@ + v@.subrange(
            from as int,
            i - 1,
        )).push(v@[i - 1]));
    }
}

/// Fills in the placeholders of one token.
pub fn substitute_token(token: &str, env: &Env) -> (out: String)
    ensures
        out@ == substituted(token@, env@),
{
    let v = chars_of(token);
    let mut out = String::new();
    let mut i: usize = 0;
    assert(out@ + substituted_from(v@, 0, env@) == substituted_from(v@, 0, env@));
    while i < v.len()
        invariant
            i <= v.len(),
            v@ == token@,
            out@ + substituted_from(v@, i as int, env@) == substituted(v@, env@),
        decreases v.len() - i,
    {
        let ghost before = out@;
        if v[i] == '%' {
            if i + 1 < v.len() && ascii_letter(v[i + 1]) {
                let e = scan_run(&v, i + 1, CharClass::Name);
                proof {
                    lemma_run_end(v@, i + 1, CharClass::Name);
                }
                let name = string_of(&v, i + 1, e);
                let ghost value;
                match env.get(name.as_str()) {
                    Some(found) => {
                        proof {
                            value = found@;
                        }
                        out.append(found.as_str());
                    },
                    None => {
                        proof {
                            value = v@.subrange(i as int, e as int);
                        }
                        push_range(&mut out, &v, i, e);
                    },
                }
                assert(out@ + substituted_from(v@, e as int, env@) == before + (value
                    + substituted_from(v@, e as int, env@)));
                i = e;
            } else {
                out.push(v[i]);
                assert(out@ + substituted_from(v@, i + 1, env@) == before + (seq![v@[i as int]]
                    + substituted_from(v@, i + 1, env@)));
                i = i + 1;
            }
        } else {
            let e = scan_run(&v, i, CharClass::NotPercent);
            proof {
                lemma_run_end(v@, i as int, CharClass::NotPercent);
            }
            push_range(&mut out, &v, i, e);
            assert(out@ + substituted_from(v@, e as int, env@) == before + (v@.subrange(
                i as int,
                e as int,
            ) + substituted_from(v@, e as int, env@)));
            i = e;
        }
    }
    assert(out@ + Seq::<char>::empty() == out@);
    out
}

/// Fills in the placeholders of each argument.
pub fn substitute_env_vars(parts: Vec<String>, env: &Env) -> (out: Vec<String>)
    ensures
        texts(out@) == substituted_all(texts(parts@), env@),
{
    let mut out: Vec<String> = Vec::new();
    let mut i: usize = 0;
    while i < parts.len()
        invariant
            i <= parts.len(),
            out.len() == i,
            forall|j: int| 0 <= j < i ==> (#[trigger] out[j])@ == substituted(parts[j]@, env@),
        decreases parts.len() - i,
    {
        out.push(substitute_token(parts[i].as_str(), env));
        i = i + 1;
    }
    assert(texts(out@) =~= substituted_all(texts(parts@), env@));
    out
}

impl ExecutableCommand {
    /// The program followed by the arguments, as texts.
    pub open spec fn parts(&self) -> Seq<Seq<char>> {
        seq![self.program@] + texts(self.args@)
    }

    /// The command whose program is the first of `parts` and whose
    /// arguments are the rest; the error `Empty command` where there is no
    /// first part.
    pub fn from_parts(parts: Vec<String>) -> (r: Result<ExecutableCommand, String>)
        ensures
            r is Err <==> parts.len() == 0,
            r matches Err(e) ==> e@ == "Empty command"@,
            r matches Ok(c) ==> c.parts() == texts(parts@) && c.envs@ == Map::<
                Seq<char>,
                Seq<char>,
            >::empty() && c.current_dir is None,
    {
        if parts.len() == 0 {
            return Err(String::from_str("Empty command"));
        }
        let mut args = parts;
        let program = args.remove(0);
        let command = ExecutableCommand {
            program,
            args,
            envs: StringMap::new(),
            current_dir: None,
        };
        assert(command.parts() =~= texts(parts@));
        Ok(command)
    }
}

/// Cuts `command` into a program and its arguments, with no placeholder
/// filled in. Fails, with `Empty command`, exactly when the command line
/// holds no argument.
pub fn parse_command(command: &str, _env: &Env) -> (r: Result<ExecutableCommand, String>)
    ensures
        r is Err <==> arguments_of(command@).len() == 0,
        r matches Err(e) ==> e@ == "Empty command"@,
        r matches Ok(c) ==> c.parts() == arguments_of(command@) && c.envs@ == Map::<
            Seq<char>,
            Seq<char>,
        >::empty() && c.current_dir is None,
{
    let parts = split_arguments(command);
    ExecutableCommand::from_parts(parts)
}

/// Cuts `command` into a program and its arguments and fills in the
/// placeholders of each from `env`. Fails, with `Empty command`, exactly
/// when the command line holds no argument.
pub fn parse_command_with_env(command: &str, env: &Env) -> (r: Result<ExecutableCommand, String>)
    ensures
        r is Err <==> arguments_of(command@).len() == 0,
        r matches Err(e) ==> e@ == "Empty command"@,
        r matches Ok(c) ==> c.parts() == substituted_all(arguments_of(command@), env@)
            && c.envs@ == Map::<Seq<char>, Seq<char>>::empty() && c.current_dir is None,
{
    let parts = split_arguments(command);
    if parts.len() == 0 {
        return Err(String::from_str("Empty command"));
    }
    let filled = substitute_env_vars(parts, env);
    assert(texts(filled@).len() == texts(parts@).len());
    ExecutableCommand::from_parts(filled)
}

} // verus!
