//! The parser of the shell's alias listing.
//!
//! The shell prints one `name=value` per line, the value quoted in one of
//! three styles. Lines that hold no definition are passed over.

use crate::text::{
    chars_of, find_char, index_of, is_blank, lines, replace_all, replaced, seqs_of, split_lines,
    string_of, subvec, trim, trimmed,
};
use vstd::prelude::*;

verus! {

// ---------------------------------------------------------------------------
// Escapes
// ---------------------------------------------------------------------------

/// What a backslash followed by `c` stands for inside `$'...'`.
pub open spec fn ansi_escape(c: char) -> Seq<char> {
    if c == 'n' {
        seq!['\n']
    } else if c == 't' {
        seq!['\t']
    } else if c == 'r' {
        seq!['\r']
    } else if c == '\\' {
        seq!['\\']
    } else if c == '\'' {
        seq!['\'']
    } else if c == '"' {
        seq!['"']
    } else if c == 'a' {
        seq!['\x07']
    } else if c == 'b' {
        seq!['\x08']
    } else if c == 'e' || c == 'E' {
        seq!['\x1b']
    } else if c == 'f' {
        seq!['\x0c']
    } else if c == 'v' {
        seq!['\x0b']
    } else {
        seq!['\\', c]
    }
}

/// The text that the body of a `$'...'` word stands for. A backslash that
/// ends the text is kept.
pub open spec fn unescape_ansi_c_spec(s: Seq<char>) -> Seq<char>
    decreases s.len(),
{
    if s.len() == 0 {
        Seq::empty()
    } else if s[0] != '\\' {
        seq![s[0]] + unescape_ansi_c_spec(s.drop_first())
    } else if s.len() == 1 {
        seq!['\\']
    } else {
        ansi_escape(s[1]) + unescape_ansi_c_spec(s.skip(2))
    }
}

/// What a backslash followed by `c` stands for inside `"..."`. A backslash
/// before a line feed joins two lines and stands for nothing.
pub open spec fn double_escape(c: char) -> Seq<char> {
    if c == '"' {
        seq!['"']
    } else if c == '\\' {
        seq!['\\']
    } else if c == '$' {
        seq!['$']
    } else if c == '`' {
        seq!['`']
    } else if c == '\n' {
        Seq::empty()
    } else {
        seq!['\\', c]
    }
}

/// The text that the body of a `"..."` word stands for.
pub open spec fn unescape_double_spec(s: Seq<char>) -> Seq<char>
    decreases s.len(),
{
    if s.len() == 0 {
        Seq::empty()
    } else if s[0] != '\\' {
        seq![s[0]] + unescape_double_spec(s.drop_first())
    } else if s.len() == 1 {
        seq!['\\']
    } else {
        double_escape(s[1]) + unescape_double_spec(s.skip(2))
    }
}

fn push_ansi_escape(out: &mut Vec<char>, c: char)
    ensures
        final(out)@ == old(out)@ + ansi_escape(c),
{
    if c == 'n' {
        out.push('\n');
    } else if c == 't' {
        out.push('\t');
    } else if c == 'r' {
        out.push('\r');
    } else if c == '\\' {
        out.push('\\');
    } else if c == '\'' {
        out.push('\'');
    } else if c == '"' {
        out.push('"');
    } else if c == 'a' {
        out.push('\x07');
    } else if c == 'b' {
        out.push('\x08');
    } else if c == 'e' || c == 'E' {
        out.push('\x1b');
    } else if c == 'f' {
        out.push('\x0c');
    } else if c == 'v' {
        out.push('\x0b');
    } else {
        out.push('\\');
        out.push(c);
    }
}

fn push_double_escape(out: &mut Vec<char>, c: char)
    ensures
        final(out)@ == old(out)@ + double_escape(c),
{
    if c == '"' {
        out.push('"');
    } else if c == '\\' {
        out.push('\\');
    } else if c == '$' {
        out.push('$');
    } else if c == '`' {
        out.push('`');
    } else if c == '\n' {
    } else {
        out.push('\\');
        out.push(c);
    }
}

/// Undoes the backslash escapes of ANSI-C quoting.
pub fn unescape_ansi_c(s: &Vec<char>) -> (r: Vec<char>)
    ensures
        r@ == unescape_ansi_c_spec(s@),
{
    let mut out: Vec<char> = Vec::new();
    let mut i: usize = 0;
    assert(s@.skip(0) == s@);
    while i < s.len()
        invariant
            i <= s.len(),
            out@ + unescape_ansi_c_spec(s@.skip(i as int)) == unescape_ansi_c_spec(s@),
        decreases s.len() - i,
    {
        let ghost rest = s@.skip(i as int);
        let c = s[i];
        if c != '\\' {
            assert(rest.drop_first() == s@.skip(i + 1));
            out.push(c);
            i += 1;
        } else if i + 1 == s.len() {
            out.push('\\');
            i += 1;
        } else {
            assert(rest.skip(2) == s@.skip(i + 2));
            push_ansi_escape(&mut out, s[i + 1]);
            i += 2;
        }
    }
    out
}

/// Undoes the backslash escapes of double quoting.
pub fn unescape_double(s: &Vec<char>) -> (r: Vec<char>)
    ensures
        r@ == unescape_double_spec(s@),
{
    let mut out: Vec<char> = Vec::new();
    let mut i: usize = 0;
    assert(s@.skip(0) == s@);
    while i < s.len()
        invariant
            i <= s.len(),
            out@ + unescape_double_spec(s@.skip(i as int)) == unescape_double_spec(s@),
        decreases s.len() - i,
    {
        let ghost rest = s@.skip(i as int);
        let c = s[i];
        if c != '\\' {
            assert(rest.drop_first() == s@.skip(i + 1));
            out.push(c);
            i += 1;
        } else if i + 1 == s.len() {
            out.push('\\');
            i += 1;
        } else {
            assert(rest.skip(2) == s@.skip(i + 2));
            push_double_escape(&mut out, s[i + 1]);
            i += 2;
        }
    }
    out
}

// ---------------------------------------------------------------------------
// Quoting
// ---------------------------------------------------------------------------

/// How a quote is written inside a single-quoted word: the word is closed, an
/// escaped quote follows, and the word is opened again.
pub open spec fn embedded_quote() -> Seq<char> {
    seq!['\'', '\\', '\'', '\'']
}

/// The command that a quoted value stands for.
///
/// The value is trimmed first. `$'...'` is ANSI-C quoting; `'...'` is single
/// quoting, in which only the embedded quote is special; `"..."` is double
/// quoting. The quotes may stand around nothing. Anything else is taken as
/// it stands.
pub open spec fn unquote_spec(raw: Seq<char>) -> Seq<char> {
    let s = trim(raw);
    if s.len() >= 3 && s[0] == '$' && s[1] == '\'' && s.last() == '\'' {
        unescape_ansi_c_spec(s.subrange(2, s.len() - 1))
    } else if s.len() >= 2 && s[0] == '\'' && s.last() == '\'' {
        replace_all(s.subrange(1, s.len() - 1), embedded_quote(), seq!['\''])
    } else if s.len() >= 2 && s[0] == '"' && s.last() == '"' {
        unescape_double_spec(s.subrange(1, s.len() - 1))
    } else {
        s
    }
}

/// Removes the surrounding quotes of a value and undoes its escapes.
pub fn unquote(raw: &Vec<char>) -> (r: Vec<char>)
    ensures
        r@ == unquote_spec(raw@),
{
    let s = trimmed(raw);
    let n = s.len();
    if n >= 3 && s[0] == '$' && s[1] == '\'' && s[n - 1] == '\'' {
        let inner = subvec(&s, 2, n - 1);
        return unescape_ansi_c(&inner);
    }
    if n >= 2 && s[0] == '\'' && s[n - 1] == '\'' {
        let inner = subvec(&s, 1, n - 1);
        let mut pat: Vec<char> = Vec::new();
        pat.push('\'');
        pat.push('\\');
        pat.push('\'');
        pat.push('\'');
        let mut rep: Vec<char> = Vec::new();
        rep.push('\'');
        assert(pat@ == embedded_quote());
        return replaced(&inner, &pat, &rep);
    }
    if n >= 2 && s[0] == '"' && s[n - 1] == '"' {
        let inner = subvec(&s, 1, n - 1);
        return unescape_double(&inner);
    }
    s
}

// ---------------------------------------------------------------------------
// Lines
// ---------------------------------------------------------------------------

/// The definition that a line holds, if it holds one: the name is the trimmed
/// text before the first `=`, and must not be empty; the command is what the
/// text after that `=` stands for.
pub open spec fn parse_one_alias_spec(line: Seq<char>) -> Option<(Seq<char>, Seq<char>)> {
    let eq = index_of(line, '=');
    if 0 <= eq < line.len() {
        let name = trim(line.take(eq));
        if name.len() == 0 {
            None
        } else {
            Some((name, unquote_spec(line.skip(eq + 1))))
        }
    } else {
        None
    }
}

/// The definition that a line of the listing holds, if any. White space around
/// the line does not count, and a blank line holds nothing.
pub open spec fn parse_line(line: Seq<char>) -> Option<(Seq<char>, Seq<char>)> {
    if is_blank(line) {
        None
    } else {
        parse_one_alias_spec(trim(line))
    }
}

/// [`parse_line`] as a function value.
pub open spec fn line_parser() -> spec_fn(Seq<char>) -> Option<(Seq<char>, Seq<char>)> {
    |line: Seq<char>| parse_line(line)
}

/// The definitions that a listing holds, in the order of its lines.
pub open spec fn parse_alias_lines_spec(output: Seq<char>) -> Seq<(Seq<char>, Seq<char>)> {
    lines(output).filter_map(line_parser())
}

/// Parses one line that holds `name=value`.
pub fn parse_one_alias(line: &Vec<char>) -> (r: Option<(String, String)>)
    ensures
        r.deep_view() == parse_one_alias_spec(line@),
{
    let eq_pos = find_char(line, '=');
    if eq_pos >= line.len() {
        return None;
    }
    let before = subvec(line, 0, eq_pos);
    let name = trimmed(&before);
    if name.len() == 0 {
        return None;
    }
    let rest = subvec(line, eq_pos + 1, line.len());
    let command = unquote(&rest);
    Some((string_of(&name), string_of(&command)))
}

/// Parses the shell's alias listing into (name, command) pairs.
///
/// Every line that holds a definition gives one pair, in the order of the
/// lines; every other line is passed over.
pub fn parse_alias_lines(output: &str) -> (results: Vec<(String, String)>)
    ensures
        results.deep_view() == parse_alias_lines_spec(output@),
{
    let text = chars_of(output);
    let all = split_lines(&text);
    let mut results: Vec<(String, String)> = Vec::new();
    let mut i: usize = 0;
    while i < all.len()
        invariant
            i <= all.len(),
            seqs_of(all@) == lines(output@),
            results.deep_view() == lines(output@).take(i as int).filter_map(line_parser()),
        decreases all.len() - i,
    {
        let line = trimmed(&all[i]);
        proof {
            lines(output@).lemma_filter_map_take_succ(line_parser(), i as int);
        }
        if line.len() > 0 {
            match parse_one_alias(&line) {
                Some(pair) => {
                    results.push(pair);
                },
                None => {},
            }
        }
        i += 1;
    }
    assert(lines(output@).take(all.len() as int) == lines(output@));
    results
}

} // verus!
