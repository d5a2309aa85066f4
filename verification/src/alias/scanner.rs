//! The scan of a shell file for alias definitions and the comments that
//! describe them.

use crate::alias::types::{AliasSource, SourceSpec};
use crate::text::{
    char_is_word, chars_of, find_char, find_from, find_seq, has_char, index_of, is_word_char, join,
    joined, lemma_find_from, lines, seqs_of, split_lines, starts_with, starts_with_char, string_of,
    strip_leading, stripped_leading, subvec, trim, trim_start, trimmed, trimmed_start,
};
use vstd::hash_map::StringHashMap;
use vstd::prelude::*;

verus! {

// ---------------------------------------------------------------------------
// Definitions
// ---------------------------------------------------------------------------

/// One alias definition found in a file: the name, the source that the file
/// stands for, and the description that the comments above it give.
#[derive(Debug, PartialEq, Eq)]
pub struct Definition {
    pub name: String,
    pub source: AliasSource,
    pub description: Option<String>,
}

/// The mathematical model of a [`Definition`].
pub struct DefinitionSpec {
    pub name: Seq<char>,
    pub source: SourceSpec,
    pub description: Option<Seq<char>>,
}

impl View for Definition {
    type V = DefinitionSpec;

    open spec fn view(&self) -> DefinitionSpec {
        DefinitionSpec {
            name: self.name@,
            source: self.source@,
            description: self.description.deep_view(),
        }
    }
}

impl DeepView for Definition {
    type V = DefinitionSpec;

    open spec fn deep_view(&self) -> DefinitionSpec {
        self@
    }
}

// ---------------------------------------------------------------------------
// The word `alias` and what follows it
// ---------------------------------------------------------------------------

/// The keyword that begins a definition, with the blank behind it.
pub open spec fn keyword() -> Seq<char> {
    seq!['a', 'l', 'i', 'a', 's', ' ']
}

/// Whether a word can begin at `pos`: at the start of the line, or behind a
/// character that is not part of a word.
pub open spec fn at_word_start(line: Seq<char>, pos: int) -> bool {
    pos == 0 || (0 < pos <= line.len() && !is_word_char(line[pos - 1]))
}

/// What follows each `alias ` that stands at a word start at or after `from`,
/// without leading white space; an `alias ` that nothing follows gives nothing.
pub open spec fn fragments_from(line: Seq<char>, from: int) -> Seq<Seq<char>>
    decreases line.len() - from,
{
    let pos = find_from(line, keyword(), from);
    if from <= pos && pos + 6 <= line.len() {
        let after = trim_start(line.skip(pos + 6));
        let rest = fragments_from(line, pos + 6);
        if at_word_start(line, pos) && after.len() > 0 {
            seq![after] + rest
        } else {
            rest
        }
    } else {
        Seq::empty()
    }
}

/// What follows each `alias ` of the line.
pub open spec fn fragments(line: Seq<char>) -> Seq<Seq<char>> {
    fragments_from(line, 0)
}

/// The part after each `alias ` keyword of a line, as in `&& alias gfa='...'`
/// or `alias -g foo=bar`.
pub fn extract_alias_fragments(line: &Vec<char>) -> (r: Vec<Vec<char>>)
    ensures
        seqs_of(r@) == fragments(line@),
{
    let mut results: Vec<Vec<char>> = Vec::new();
    let mut search_from: usize = 0;
    let mut word: Vec<char> = Vec::new();
    word.push('a');
    word.push('l');
    word.push('i');
    word.push('a');
    word.push('s');
    word.push(' ');
    loop
        invariant
            search_from <= line.len(),
            word@ == keyword(),
            seqs_of(results@) + fragments_from(line@, search_from as int) == fragments(line@),
        decreases line.len() - search_from,
    {
        proof {
            lemma_find_from(line@, keyword(), search_from as int);
        }
        match find_seq(line, &word, search_from) {
            None => {
                return results;
            },
            Some(abs_pos) => {
                let is_word_start = abs_pos == 0 || !char_is_word(line[abs_pos - 1]);
                let rest = subvec(line, abs_pos + 6, line.len());
                let after = trimmed_start(&rest);
                if is_word_start && after.len() > 0 {
                    results.push(after);
                }
                search_from = abs_pos + 6;
            },
        }
    }
}

/// The option that marks a global alias, with the blank behind it.
pub open spec fn global_marker() -> Seq<char> {
    seq!['-', 'g', ' ']
}

/// The name that a fragment defines: the trimmed text before its first `=`,
/// behind the marker of a global alias if there is one. It must not be empty
/// and must hold no blank.
pub open spec fn defined_name(fragment: Seq<char>) -> Option<Seq<char>> {
    let rest = if global_marker().is_prefix_of(fragment) {
        fragment.skip(3)
    } else {
        fragment
    };
    let eq = index_of(rest, '=');
    if 0 <= eq < rest.len() {
        let name = trim(rest.take(eq));
        if name.len() > 0 && !name.contains(' ') {
            Some(name)
        } else {
            None
        }
    } else {
        None
    }
}

/// The name that a fragment defines, if it defines one.
pub fn name_of_fragment(fragment: &Vec<char>) -> (r: Option<Vec<char>>)
    ensures
        match r {
            Some(n) => defined_name(fragment@) == Some(n@),
            None => defined_name(fragment@) is None,
        },
{
    let mut marker: Vec<char> = Vec::new();
    marker.push('-');
    marker.push('g');
    marker.push(' ');
    let rest = if starts_with(fragment, &marker) {
        let r = subvec(fragment, 3, fragment.len());
        r
    } else {
        subvec(fragment, 0, fragment.len())
    };
    assert(fragment@.subrange(0, fragment.len() as int) == fragment@);
    let eq_pos = find_char(&rest, '=');
    if eq_pos >= rest.len() {
        return None;
    }
    let before = subvec(&rest, 0, eq_pos);
    let name = trimmed(&before);
    if name.len() > 0 && !has_char(&name, ' ') {
        Some(name)
    } else {
        None
    }
}

// ---------------------------------------------------------------------------
// Descriptions
// ---------------------------------------------------------------------------

/// Whether the line is a comment: its first character that is not white space
/// is `#`.
pub open spec fn is_comment(line: Seq<char>) -> bool {
    trim(line).len() > 0 && trim(line)[0] == '#'
}

/// The text of a comment line: what follows its `#` characters, trimmed.
pub open spec fn comment_text(line: Seq<char>) -> Seq<char> {
    trim(strip_leading(trim(line), '#'))
}

/// The texts of the comment lines that stand directly above line `i`, from
/// the top down. Comments without text are passed over; the first line that
/// is no comment ends the run.
pub open spec fn comments_above(lines: Seq<Seq<char>>, i: int) -> Seq<Seq<char>>
    decreases i,
{
    if 0 < i <= lines.len() && is_comment(lines[i - 1]) {
        let above = comments_above(lines, i - 1);
        if comment_text(lines[i - 1]).len() > 0 {
            above.push(comment_text(lines[i - 1]))
        } else {
            above
        }
    } else {
        Seq::empty()
    }
}

/// The description of the definition on line `i`: the texts of the comments
/// above it, joined by single blanks; none where there is no such text.
pub open spec fn description_of(lines: Seq<Seq<char>>, i: int) -> Option<Seq<char>> {
    let texts = comments_above(lines, i);
    if texts.len() == 0 {
        None
    } else {
        Some(join(texts, seq![' ']))
    }
}

/// The description that the comments directly above a line give.
pub fn extract_description(lines: &Vec<Vec<char>>, alias_line: usize) -> (r: Option<String>)
    requires
        alias_line <= lines.len(),
    ensures
        r.deep_view() == description_of(seqs_of(lines@), alias_line as int),
{
    let ghost all = seqs_of(lines@);
    // The comment lines are met from the bottom up.
    let mut found: Vec<Vec<char>> = Vec::new();
    let mut j: usize = alias_line;
    loop
        invariant_except_break
            comments_above(all, alias_line as int) == comments_above(all, j as int) + seqs_of(
                found@,
            ).reverse(),
        invariant
            j <= alias_line <= lines.len(),
            all == seqs_of(lines@),
        ensures
            comments_above(all, alias_line as int) == seqs_of(found@).reverse(),
        decreases j,
    {
        if j == 0 {
            break ;
        }
        j -= 1;
        let t = trimmed(&lines[j]);
        if starts_with_char(&t, '#') {
            let text = trimmed(&stripped_leading(&t, '#'));
            if text.len() > 0 {
                let ghost before = seqs_of(found@);
                found.push(text);
            }
        } else {
            break ;
        }
    }
    if found.len() == 0 {
        return None;
    }
    // Turn them round, so that they read from the top down.
    let mut texts: Vec<Vec<char>> = Vec::new();
    let mut k: usize = found.len();
    while k > 0
        invariant
            k <= found.len(),
            seqs_of(texts@) == seqs_of(found@).reverse().take(found.len() - k),
        decreases k,
    {
        k -= 1;
        let ghost before = seqs_of(texts@);
        let text = subvec(&found[k], 0, found[k].len());
        assert(text@ == found@[k as int]@);
        assert(seqs_of(texts@.push(text)) == before.push(text@));
        texts.push(text);
    }
    assert(seqs_of(found@).reverse().take(found.len() as int) == seqs_of(found@).reverse());
    let mut blank: Vec<char> = Vec::new();
    blank.push(' ');
    Some(string_of(&joined(&texts, &blank)))
}

// ---------------------------------------------------------------------------
// The attribution table
// ---------------------------------------------------------------------------

/// The predicate "defines `name`" on definitions.
pub open spec fn defines(name: Seq<char>) -> spec_fn(DefinitionSpec) -> bool {
    |d: DefinitionSpec| d.name == name
}

/// What the attribution table holds for a name: the source that defines it,
/// and the description that the comments above the definition give.
pub type Entry = (AliasSource, Option<String>);

/// The mathematical model of an [`Entry`].
pub type EntrySpec = (SourceSpec, Option<Seq<char>>);

/// The attribution table: a hash map from the name of an alias to what was
/// found of it.
pub type Table = StringHashMap<Entry>;

/// The mathematical model of a [`Table`].
pub type TableSpec = Map<Seq<char>, EntrySpec>;

/// The model of an entry, as a function value.
pub open spec fn entry_view() -> spec_fn(Entry) -> EntrySpec {
    |e: Entry| (e.0@, e.1.deep_view())
}

/// The model of a table: under each name the model of its entry.
pub open spec fn table_view(table: Map<Seq<char>, Entry>) -> TableSpec {
    table.map_values(entry_view())
}

/// What the table holds for `name`, if it holds anything.
pub open spec fn looked_up(table: TableSpec, name: Seq<char>) -> Option<EntrySpec> {
    if table.contains_key(name) {
        Some(table[name])
    } else {
        None
    }
}

/// The table with `d` taken in, unless the table defines that name already:
/// the first definition of a name is the one that counts.
pub open spec fn recorded(table: TableSpec, d: DefinitionSpec) -> TableSpec {
    if table.contains_key(d.name) {
        table
    } else {
        table.insert(d.name, (d.source, d.description))
    }
}

/// The table with the definitions `found` taken in, one after the other.
pub open spec fn recorded_all(table: TableSpec, found: Seq<DefinitionSpec>) -> TableSpec
    decreases found.len(),
{
    if found.len() == 0 {
        table
    } else {
        recorded(recorded_all(table, found.drop_last()), found.last())
    }
}

/// The definition that a fragment of line `i` makes, if it makes one.
pub open spec fn definition_in(
    lines: Seq<Seq<char>>,
    i: int,
    source: SourceSpec,
    fragment: Seq<char>,
) -> Option<DefinitionSpec> {
    match defined_name(fragment) {
        Some(name) => Some(DefinitionSpec { name, source, description: description_of(lines, i) }),
        None => None,
    }
}

/// The definitions that the first `n` fragments of line `i` make.
pub open spec fn line_definitions_upto(
    lines: Seq<Seq<char>>,
    i: int,
    source: SourceSpec,
    n: int,
) -> Seq<DefinitionSpec>
    decreases n,
{
    if n <= 0 {
        Seq::empty()
    } else {
        let before = line_definitions_upto(lines, i, source, n - 1);
        match definition_in(lines, i, source, fragments(lines[i])[n - 1]) {
            Some(d) => before.push(d),
            None => before,
        }
    }
}

/// The definitions that line `i` makes, in their order on the line.
pub open spec fn line_definitions(lines: Seq<Seq<char>>, i: int, source: SourceSpec) -> Seq<
    DefinitionSpec,
> {
    line_definitions_upto(lines, i, source, fragments(lines[i]).len() as int)
}

/// The definitions that the first `n` lines make.
pub open spec fn definitions_upto(lines: Seq<Seq<char>>, source: SourceSpec, n: int) -> Seq<
    DefinitionSpec,
>
    decreases n,
{
    if n <= 0 {
        Seq::empty()
    } else {
        definitions_upto(lines, source, n - 1) + line_definitions(lines, n - 1, source)
    }
}

/// The definitions that a file makes, in their order in the file.
pub open spec fn file_definitions(content: Seq<char>, source: SourceSpec) -> Seq<DefinitionSpec> {
    definitions_upto(lines(content), source, lines(content).len() as int)
}

/// Taking in a definition after others is taking it into what they left.
pub proof fn lemma_recorded_all_push(
    table: TableSpec,
    found: Seq<DefinitionSpec>,
    d: DefinitionSpec,
)
    ensures
        recorded_all(table, found.push(d)) == recorded(recorded_all(table, found), d),
{
    assert(found.push(d).drop_last() =~= found);
}

/// Taking in two runs of definitions is taking in the first, then the second.
pub proof fn lemma_recorded_all_concat(
    table: TableSpec,
    a: Seq<DefinitionSpec>,
    b: Seq<DefinitionSpec>,
)
    ensures
        recorded_all(table, a + b) == recorded_all(recorded_all(table, a), b),
    decreases b.len(),
{
    if b.len() > 0 {
        lemma_recorded_all_concat(table, a, b.drop_last());
        assert((a + b).drop_last() =~= a + b.drop_last());
    }
}

/// Takes a definition into the table, unless the table defines the name
/// already.
pub fn record(table: &mut Table, d: Definition)
    ensures
        table_view(final(table)@) == recorded(table_view(old(table)@), d@),
{
    if !table.contains_key(d.name.as_str()) {
        table.insert(d.name, (d.source, d.description));
    }
}

/// What the table holds for `name`, if it holds anything.
pub fn look_up<'a>(table: &'a Table, name: &str) -> (r: Option<&'a Entry>)
    ensures
        match r {
            Some(e) => looked_up(table_view(table@), name@) == Some(entry_view()(*e)),
            None => looked_up(table_view(table@), name@) is None,
        },
{
    table.get(name)
}

/// Scans the text of a file for `alias name=...` definitions, and takes each
/// into the table under `source`, with the description that the comments above
/// it give.
pub fn scan_file_for_aliases(content: &str, table: &mut Table, source: &AliasSource)
    ensures
        table_view(final(table)@) == recorded_all(
            table_view(old(table)@),
            file_definitions(content@, source@),
        ),
{
    let all = split_lines(&chars_of(content));
    let ghost ls = lines(content@);
    let ghost start = table_view(table@);
    let mut i: usize = 0;
    while i < all.len()
        invariant
            i <= all.len(),
            ls == lines(content@),
            seqs_of(all@) == ls,
            table_view(table@) == recorded_all(start, definitions_upto(ls, source@, i as int)),
        decreases all.len() - i,
    {
        let found = extract_alias_fragments(&all[i]);
        let ghost before_line = definitions_upto(ls, source@, i as int);
        let mut k: usize = 0;
        while k < found.len()
            invariant
                k <= found.len(),
                i < all.len(),
                ls == lines(content@),
                seqs_of(all@) == ls,
                seqs_of(found@) == fragments(ls[i as int]),
                before_line == definitions_upto(ls, source@, i as int),
                table_view(table@) == recorded_all(
                    start,
                    before_line + line_definitions_upto(ls, i as int, source@, k as int),
                ),
            decreases found.len() - k,
        {
            let ghost done = line_definitions_upto(ls, i as int, source@, k as int);
            match name_of_fragment(&found[k]) {
                Some(name) => {
                    let description = extract_description(&all, i);
                    let d = Definition {
                        name: string_of(&name),
                        source: source.clone(),
                        description,
                    };
                    proof {
                        lemma_recorded_all_push(start, before_line + done, d@);
                    }
                    record(table, d);
                },
                None => {},
            }
            k += 1;
        }
        i += 1;
    }
}

} // verus!
