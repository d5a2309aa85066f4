//! What holds between the parts of the library: what the managed store
//! writes, the parser and the scanner read back.

use crate::alias::parser::{embedded_quote, parse_one_alias_spec};
use crate::alias::scanner::{fragments, keyword};
use crate::managed::{
    alias_line_spec, fragment_defines, is_unsafe_in_name, line_defines, quote_escaped,
    unsafe_in_name, validate_alias_name_spec,
};
use crate::text::{
    index_of, is_space, lemma_first_index, lemma_first_index_is, lemma_leading, lemma_leading_is,
    lemma_trailing_is, other_than, replace_all, trim, trim_start,
};
use vstd::prelude::*;

verus! {

/// A text that neither begins nor ends with white space is its own trim.
pub proof fn lemma_trim_of_tight(s: Seq<char>)
    requires
        s.len() > 0,
        !is_space(s[0]),
        !is_space(s.last()),
    ensures
        trim(s) == s,
        trim_start(s) == s,
{
    lemma_leading_is(s, |c: char| is_space(c), 0);
    lemma_trailing_is(s, |c: char| is_space(c), 0);
}

/// Undoing the escapes of a quoted text gives the text back.
pub proof fn lemma_unescape_of_escaped(command: Seq<char>)
    ensures
        replace_all(quote_escaped(command), embedded_quote(), seq!['\'']) == command,
    decreases command.len(),
{
    let quote = seq!['\''];
    let written = embedded_quote();
    let escaped = quote_escaped(command);
    if command.len() > 0 {
        let rest = command.drop_first();
        lemma_unescape_of_escaped(rest);
        let escaped_rest = quote_escaped(rest);
        if command[0] == '\'' {
            // The quote was written as an escape, which is read as a quote.
            assert(command.subrange(0, 1) =~= quote);
            assert(escaped.subrange(0, 4) =~= written);
            assert(escaped.skip(4) =~= escaped_rest);
        } else {
            // Any other character stands for itself, and begins no escape.
            assert(command.subrange(0, 1)[0] == command[0]);
            assert(escaped.drop_first() =~= escaped_rest);
        }
    }
}

/// A valid name holds no `=` and no white space, and is its own trim.
pub proof fn lemma_valid_name(name: Seq<char>)
    requires
        validate_alias_name_spec(name) is Ok,
    ensures
        name.len() > 0,
        forall|i: int| 0 <= i < name.len() ==> !is_unsafe_in_name(#[trigger] name[i]),
        index_of(name, '=') == name.len(),
        !name.contains(' '),
        trim(name) == name,
        name[0] != '-',
{
    lemma_first_index(name, unsafe_in_name());
    // A name that does not trim to nothing is not empty.
    lemma_leading(name, |c: char| is_space(c));
    lemma_leading_is(name, other_than('='), name.len() as int);
    lemma_trim_of_tight(name);
}

/// The shell lists an alias of the store as `name='command'`, with the quotes
/// of the command escaped. The parser reads that line back as the name and
/// the command.
pub proof fn lemma_listed_alias_reads_back(name: Seq<char>, command: Seq<char>)
    requires
        validate_alias_name_spec(name) is Ok,
    ensures
        parse_one_alias_spec(name + seq!['=', '\''] + quote_escaped(command) + seq!['\''])
            == Some((name, command)),
{
    lemma_valid_name(name);
    let value = seq!['\''] + quote_escaped(command) + seq!['\''];
    let line = name + seq!['=', '\''] + quote_escaped(command) + seq!['\''];
    // The first `=` is the one behind the name.
    lemma_leading_is(line, other_than('='), name.len() as int);
    assert(line.skip((name.len() + 1) as int) =~= value);
    // The value is a single-quoted word.
    lemma_trim_of_tight(value);
    assert(value.subrange(1, value.len() - 1) =~= quote_escaped(command));
    lemma_unescape_of_escaped(command);
}

/// The line that the store writes for an alias defines that alias, as the
/// scanner sees it.
pub proof fn lemma_written_alias_is_found(name: Seq<char>, command: Seq<char>)
    requires
        validate_alias_name_spec(name) is Ok,
    ensures
        line_defines(alias_line_spec(name, command), name),
{
    reveal_strlit("alias ");
    reveal_strlit("='");
    reveal_strlit("'");
    lemma_valid_name(name);
    let line = alias_line_spec(name, command);
    let after = name + "='"@ + quote_escaped(command) + "'"@;
    assert(line.subrange(0, 6) =~= keyword());
    assert(line.skip(6) =~= after);
    lemma_leading_is(after, |c: char| is_space(c), 0);
    assert(after.skip(0) =~= after);
    let all = fragments(line);
    // The fragment defines the name.
    lemma_leading_is(after, other_than('='), name.len() as int);
    assert(after.take(name.len() as int) =~= name);
    lemma_first_index_is(all, fragment_defines(name), 0);
}

} // verus!
