//! What holds of every parse and of every attribution.

use crate::alias::categorizer::{
    arrange, attributed, buckets, definitions_of_files, definitions_of_plugins, enabled_plugins,
    file_named, grouped, shows, source_of_file, Directory, ScannedFileSpec, ShellConfigSpec,
};
use crate::alias::parser::{line_parser, parse_alias_lines_spec, parse_line};
use crate::alias::scanner::{
    defines, definitions_upto, file_definitions, fragments, line_definitions_upto, looked_up,
    recorded_all, DefinitionSpec, EntrySpec, TableSpec,
};
use crate::alias::sorting::{alias_key, group_key};
use crate::alias::types::{AliasSpec, GroupSpec, SourceSpec};
use crate::order::{
    is_strictly_sorted, keys_differ, lemma_insertion_point, lemma_sort_is_strict, lemma_sort_sorted,
    stable_sort, SortKey,
};
use crate::text::{
    first_index, index_of, is_blank, lemma_first_index, lemma_first_index_is, lemma_leading,
    lemma_leading_is, lines, other_than,
};
use vstd::prelude::*;

verus! {

/// What holds of every item holds of every item after sorting.
pub proof fn lemma_sort_keeps_property<T>(
    s: Seq<T>,
    key: spec_fn(T) -> SortKey,
    p: spec_fn(T) -> bool,
)
    requires
        forall|i: int| 0 <= i < s.len() ==> p(#[trigger] s[i]),
    ensures
        forall|i: int| 0 <= i < stable_sort(s, key).len() ==> p(#[trigger] stable_sort(s, key)[i]),
    decreases s.len(),
{
    if s.len() > 0 {
        let t = s.drop_last();
        lemma_sort_keeps_property(t, key, p);
        let st = stable_sort(t, key);
        lemma_insertion_point(st, key(s.last()), key);
    }
}

// ---------------------------------------------------------------------------
// The parser
// ---------------------------------------------------------------------------

/// The predicate "is not blank" on lines.
pub open spec fn non_blank() -> spec_fn(Seq<char>) -> bool {
    |line: Seq<char>| !is_blank(line)
}

/// The definitions that some lines hold, in the order of the lines.
pub open spec fn parse_each(ls: Seq<Seq<char>>) -> Seq<(Seq<char>, Seq<char>)> {
    ls.filter_map(line_parser())
}

/// Every line is parsed by itself: the pairs of two runs of lines are the
/// pairs of the first run, then those of the second.
pub proof fn lemma_lines_are_independent(a: Seq<Seq<char>>, b: Seq<Seq<char>>)
    ensures
        parse_each(a + b) == parse_each(a) + parse_each(b),
    decreases b.len(),
{
    if b.len() > 0 {
        lemma_lines_are_independent(a, b.drop_last());
        assert((a + b).drop_last() =~= a + b.drop_last());
    }
}

/// The lines of a text that ends with the end of a line, and of what follows
/// it, are the lines of the first, then those of the second.
pub proof fn lemma_lines_of_joined_texts(a: Seq<char>, b: Seq<char>)
    requires
        a.len() == 0 || a.last() == '\n',
    ensures
        lines(a + b) == lines(a) + lines(b),
    decreases a.len(),
{
    if a.len() == 0 {
        assert(a + b =~= b);
        assert(lines(a) + lines(b) =~= lines(b));
    } else {
        let joined = a + b;
        let stop = other_than('\n');
        lemma_leading(a, stop);
        let n = index_of(a, '\n');
        assert forall|i: int| 0 <= i < n implies stop(#[trigger] joined[i]) by {
            assert(joined[i] == a[i]);
        }
        assert(joined[n] == a[n]);
        lemma_leading_is(joined, stop, n);
        let rest = a.skip(n + 1);
        assert(joined.take(n) =~= a.take(n));
        assert(joined.skip(n + 1) =~= rest + b);
        if rest.len() > 0 {
            assert(rest.last() == a.last());
        }
        lemma_lines_of_joined_texts(rest, b);
        assert(lines(joined) =~= lines(a) + lines(b));
    }
}

/// A listing is parsed line by line: where a text ends with the end of a
/// line, the pairs of the text and of what follows it are the pairs of the
/// first, then those of the second. So a definition is found whatever stands
/// on the lines before it and after it.
pub proof fn lemma_texts_are_independent(a: Seq<char>, b: Seq<char>)
    requires
        a.len() == 0 || a.last() == '\n',
    ensures
        parse_alias_lines_spec(a + b) == parse_alias_lines_spec(a) + parse_alias_lines_spec(b),
{
    lemma_lines_of_joined_texts(a, b);
    lemma_lines_are_independent(lines(a), lines(b));
}

/// A blank line gives no pair.
pub proof fn lemma_blank_line_gives_nothing(line: Seq<char>)
    requires
        is_blank(line),
    ensures
        parse_line(line) is None,
        parse_each(seq![line]) == Seq::<(Seq<char>, Seq<char>)>::empty(),
{
    Seq::lemma_filter_map_singleton(line, line_parser());
}

/// What a line that holds a definition gives.
pub open spec fn pair_of() -> spec_fn(Seq<char>) -> (Seq<char>, Seq<char>) {
    |line: Seq<char>| parse_line(line)->0
}

/// Where every line that is not blank holds a definition, the pairs are those
/// of the lines that are not blank, one for one and in their order; so there
/// are as many pairs as such lines.
pub proof fn lemma_one_pair_per_line(ls: Seq<Seq<char>>)
    requires
        forall|i: int|
            0 <= i < ls.len() && !is_blank(ls[i]) ==> parse_line(#[trigger] ls[i]) is Some,
    ensures
        parse_each(ls) == ls.filter(non_blank()).map_values(pair_of()),
        parse_each(ls).len() == ls.filter(non_blank()).len(),
    decreases ls.len(),
{
    reveal(Seq::filter);
    if ls.len() > 0 {
        lemma_one_pair_per_line(ls.drop_last());
    }
}

/// In a listing of which every line that is not blank holds a definition,
/// every such line gives one pair, in the order of the lines, and blank lines
/// give nothing.
pub proof fn lemma_parser_line_independence(output: Seq<char>)
    requires
        forall|i: int|
            0 <= i < lines(output).len() && !is_blank(lines(output)[i]) ==> parse_line(
                #[trigger] lines(output)[i],
            ) is Some,
    ensures
        parse_alias_lines_spec(output) == lines(output).filter(non_blank()).map_values(pair_of()),
        parse_alias_lines_spec(output).len() == lines(output).filter(non_blank()).len(),
{
    lemma_one_pair_per_line(lines(output));
}

// ---------------------------------------------------------------------------
// The attribution
// ---------------------------------------------------------------------------

/// The first definition of `name` among `found`, if there is one.
pub open spec fn first_definition(found: Seq<DefinitionSpec>, name: Seq<char>) -> Option<
    DefinitionSpec,
> {
    let i = first_index(found, defines(name));
    if 0 <= i < found.len() {
        Some(found[i])
    } else {
        None
    }
}

/// The first definition of a name, after one more definition was appended.
pub proof fn lemma_first_definition_push(
    found: Seq<DefinitionSpec>,
    d: DefinitionSpec,
    name: Seq<char>,
)
    ensures
        first_definition(found.push(d), name) == match first_definition(found, name) {
            Some(x) => Some(x),
            None => if d.name == name {
                Some(d)
            } else {
                None
            },
        },
{
    let i = first_index(found, defines(name));
    lemma_first_index(found, defines(name));
    let longer = found.push(d);
    if i < found.len() {
        lemma_first_index_is(longer, defines(name), i);
    } else {
        if d.name == name {
            lemma_first_index_is(longer, defines(name), found.len() as int);
        } else {
            lemma_first_index_is(longer, defines(name), longer.len() as int);
        }
    }
}

/// What the table holds of a definition: its source and its description.
pub open spec fn entry_of(d: Option<DefinitionSpec>) -> Option<EntrySpec> {
    match d {
        Some(d) => Some((d.source, d.description)),
        None => None,
    }
}

/// The table gives for each name the definition that was scanned first: that
/// of the table as it was, or else the first among what was taken in.
pub proof fn lemma_first_definition_wins(
    table: TableSpec,
    found: Seq<DefinitionSpec>,
    name: Seq<char>,
)
    ensures
        looked_up(recorded_all(table, found), name) == match looked_up(table, name) {
            Some(x) => Some(x),
            None => entry_of(first_definition(found, name)),
        },
    decreases found.len(),
{
    if found.len() == 0 {
        lemma_first_index(found, defines(name));
    } else {
        let rest = found.drop_last();
        let d = found.last();
        lemma_first_definition_wins(table, rest, name);
        assert(found =~= rest.push(d));
        lemma_first_definition_push(rest, d, name);
        if d.name != name {
            // Taking in `d` changes nothing under another name.
            lemma_first_definition_wins(table, rest, d.name);
        }
    }
}

/// The phase in which definitions of a source are scanned: the library files
/// of the framework first, then its plugins, its custom directory, the
/// startup file, the managed store's own aliases, and the extensions.
pub open spec fn phase_of(source: SourceSpec) -> int {
    match source {
        SourceSpec::OhMyZshLib(_) => 1,
        SourceSpec::OhMyZshPlugin(_) => 2,
        SourceSpec::OhMyZshCustom(_) => 3,
        SourceSpec::Zshrc => 4,
        SourceSpec::ZamCustom => 5,
        SourceSpec::ZamExtension(_) => 6,
        _ => 7,
    }
}

/// Whether every definition belongs to phase `phase`.
pub open spec fn all_of_phase(found: Seq<DefinitionSpec>, phase: int) -> bool {
    forall|i: int| 0 <= i < found.len() ==> phase_of((#[trigger] found[i]).source) == phase
}

/// The definitions of a file all have the source of the file.
pub proof fn lemma_file_definitions_source(content: Seq<char>, source: SourceSpec)
    ensures
        all_of_phase(file_definitions(content, source), phase_of(source)),
{
    let ls = lines(content);
    lemma_definitions_upto_source(ls, source, ls.len() as int);
}

proof fn lemma_line_definitions_source(ls: Seq<Seq<char>>, i: int, source: SourceSpec, n: int)
    ensures
        all_of_phase(line_definitions_upto(ls, i, source, n), phase_of(source)),
    decreases n,
{
    if n > 0 {
        lemma_line_definitions_source(ls, i, source, n - 1);
    }
}

proof fn lemma_definitions_upto_source(ls: Seq<Seq<char>>, source: SourceSpec, n: int)
    ensures
        all_of_phase(definitions_upto(ls, source, n), phase_of(source)),
    decreases n,
{
    if n > 0 {
        lemma_definitions_upto_source(ls, source, n - 1);
        lemma_line_definitions_source(ls, n - 1, source, fragments(ls[n - 1]).len() as int);
    }
}

/// The phase of the files of a directory.
pub open spec fn phase_of_directory(dir: Directory) -> int {
    match dir {
        Directory::Lib => 1,
        Directory::Custom => 3,
        Directory::ZamAliases => 6,
    }
}

proof fn lemma_directory_phase(dir: Directory, files: Seq<ScannedFileSpec>, n: int)
    ensures
        all_of_phase(definitions_of_files(dir, files, n), phase_of_directory(dir)),
    decreases n,
{
    if n > 0 {
        lemma_directory_phase(dir, files, n - 1);
        let f = files[n - 1];
        match (source_of_file(dir, f.file_name), f.content) {
            (Some(source), Some(content)) => {
                lemma_file_definitions_source(content, source);
            },
            _ => {},
        }
    }
}

proof fn lemma_plugin_phase(files: Seq<ScannedFileSpec>, plugins: Seq<Seq<char>>, n: int)
    ensures
        all_of_phase(definitions_of_plugins(files, plugins, n), 2),
    decreases n,
{
    if n > 0 {
        lemma_plugin_phase(files, plugins, n - 1);
        let i = first_index(files, file_named(plugins[n - 1]));
        if 0 <= i < files.len() {
            match files[i].content {
                Some(content) => {
                    lemma_file_definitions_source(
                        content,
                        SourceSpec::OhMyZshPlugin(plugins[n - 1]),
                    );
                },
                None => {},
            }
        }
    }
}

/// The definitions are scanned phase by phase: none of a later phase comes
/// before one of an earlier phase.
pub proof fn lemma_phases_are_in_order(config: ShellConfigSpec)
    ensures
        forall|i: int, j: int|
            0 <= i <= j < config.all_definitions().len() ==> phase_of(
                (#[trigger] config.all_definitions()[i]).source,
            ) <= phase_of((#[trigger] config.all_definitions()[j]).source),
{
    lemma_directory_phase(Directory::Lib, config.lib_files, config.lib_files.len() as int);
    lemma_plugin_phase(
        config.plugin_files,
        enabled_plugins(config),
        enabled_plugins(config).len() as int,
    );
    lemma_directory_phase(Directory::Custom, config.custom_files, config.custom_files.len() as int);
    match config.zshrc {
        Some(c) => {
            lemma_file_definitions_source(c, SourceSpec::Zshrc);
        },
        None => {},
    }
    match config.zam_custom {
        Some(c) => {
            lemma_file_definitions_source(c, SourceSpec::ZamCustom);
        },
        None => {},
    }
    lemma_directory_phase(
        Directory::ZamAliases,
        config.zam_alias_files,
        config.zam_alias_files.len() as int,
    );
}

/// A name that several sources define is attributed to the one scanned
/// first: the alias gets the source and the description of the first
/// definition of its name, and no definition of the name belongs to an
/// earlier phase than that source.
pub proof fn lemma_earliest_source_wins(
    config: ShellConfigSpec,
    name: Seq<char>,
    command: Seq<char>,
    k: int,
)
    requires
        0 <= k < config.all_definitions().len(),
        config.all_definitions()[k].name == name,
    ensures
        ({
            let alias = attributed(config.attribution(), (name, command));
            let first = first_index(config.all_definitions(), defines(name));
            &&& config.attribution().contains_key(name)
            &&& 0 <= first <= k
            &&& alias.source == config.all_definitions()[first].source
            &&& alias.description == config.all_definitions()[first].description
            &&& phase_of(alias.source) <= phase_of(config.all_definitions()[k].source)
        }),
{
    let all = config.all_definitions();
    lemma_first_index(all, defines(name));
    lemma_first_definition_wins(Map::empty(), all, name);
    lemma_phases_are_in_order(config);
}

// ---------------------------------------------------------------------------
// The groups
// ---------------------------------------------------------------------------

/// No two sources show the same display name.
pub proof fn lemma_display_name_is_unique(a: SourceSpec, b: SourceSpec)
    requires
        a.display_name() == b.display_name(),
    ensures
        a == b,
{
    reveal_strlit("oh-my-zsh plugin: ");
    reveal_strlit("oh-my-zsh lib: ");
    reveal_strlit("oh-my-zsh custom: ");
    reveal_strlit("~/.zshrc");
    reveal_strlit("zam ext: ");
    reveal_strlit("zam custom");
    reveal_strlit("zam override: ");
    reveal_strlit("Unknown");
    let x = a.display_name();
    let y = b.display_name();
    // Names of different kinds differ in one of their first eleven characters.
    assert(x[4] == y[4]);
    if x[0] == 'o' {
        assert(x[10] == y[10]);
    }
    // Names of one kind differ in their parameters.
    match (a, b) {
        (SourceSpec::OhMyZshPlugin(n), SourceSpec::OhMyZshPlugin(m)) => {
            assert(n =~= x.skip(18));
            assert(m =~= y.skip(18));
        },
        (SourceSpec::OhMyZshLib(n), SourceSpec::OhMyZshLib(m)) => {
            assert(n =~= x.skip(15));
            assert(m =~= y.skip(15));
        },
        (SourceSpec::OhMyZshCustom(n), SourceSpec::OhMyZshCustom(m)) => {
            assert(n =~= x.skip(18));
            assert(m =~= y.skip(18));
        },
        (SourceSpec::ZamExtension(n), SourceSpec::ZamExtension(m)) => {
            assert(n =~= x.skip(9));
            assert(m =~= y.skip(9));
        },
        (SourceSpec::ZamOverride(n), SourceSpec::ZamOverride(m)) => {
            assert(n =~= x.skip(14));
            assert(m =~= y.skip(14));
        },
        _ => {},
    }
}

/// Whether a group holds an alias, and every alias of it has the source of
/// the group.
pub open spec fn is_uniform(g: GroupSpec) -> bool {
    g.aliases.len() > 0 && forall|j: int|
        0 <= j < g.aliases.len() ==> (#[trigger] g.aliases[j]).source == g.source
}

/// [`is_uniform`] as a function value.
pub open spec fn uniform() -> spec_fn(GroupSpec) -> bool {
    |g: GroupSpec| is_uniform(g)
}

/// The predicate "has the source `source`" on aliases.
pub open spec fn of_source(source: SourceSpec) -> spec_fn(AliasSpec) -> bool {
    |a: AliasSpec| a.source == source
}

proof fn lemma_buckets_are_uniform(
    table: TableSpec,
    raw: Seq<(Seq<char>, Seq<char>)>,
    n: int,
)
    ensures
        forall|i: int|
            0 <= i < buckets(table, raw, n).len() ==> is_uniform(#[trigger] buckets(table, raw, n)[i]),
    decreases n,
{
    if n > 0 {
        lemma_buckets_are_uniform(table, raw, n - 1);
        let before = buckets(table, raw, n - 1);
        let a = attributed(table, raw[n - 1]);
        let after = buckets(table, raw, n);
        let at = first_index(before, shows(a.source.display_name()));
        lemma_first_index(before, shows(a.source.display_name()));
        assert forall|i: int| 0 <= i < after.len() implies is_uniform(#[trigger] after[i]) by {
            // The alias joins a group only where the display names agree.
            if at < before.len() && i == at {
                lemma_display_name_is_unique(before[at].source, a.source);
            }
        }
    }
}

/// Every group of a categorization holds at least one alias, and all its
/// aliases have the source of the group: grouping by display name is grouping
/// by source.
pub proof fn lemma_groups_are_uniform(table: TableSpec, raw: Seq<(Seq<char>, Seq<char>)>)
    ensures
        forall|i: int|
            0 <= i < grouped(table, raw).len() ==> is_uniform(#[trigger] grouped(table, raw)[i]),
{
    let found = buckets(table, raw, raw.len() as int);
    lemma_buckets_are_uniform(table, raw, raw.len() as int);
    let shown = found.map_values(arrange());
    assert forall|i: int| 0 <= i < shown.len() implies uniform()(#[trigger] shown[i]) by {
        let g = found[i];
        assert forall|j: int| 0 <= j < g.aliases.len() implies of_source(g.source)(
            #[trigger] g.aliases[j],
        ) by {}
        lemma_sort_keeps_property(g.aliases, alias_key(), of_source(g.source));
        lemma_sort_sorted(g.aliases, alias_key());
    }
    lemma_sort_keeps_property(shown, group_key(), uniform());
}

/// No two sources have the same sort key.
pub proof fn lemma_sort_key_is_unique(a: SourceSpec, b: SourceSpec)
    requires
        a.priority() == b.priority(),
        a.parameter() == b.parameter(),
    ensures
        a == b,
{
}

proof fn lemma_buckets_differ(table: TableSpec, raw: Seq<(Seq<char>, Seq<char>)>, n: int)
    ensures
        forall|i: int, j: int|
            0 <= i < buckets(table, raw, n).len() && 0 <= j < buckets(table, raw, n).len() && i
                != j ==> (#[trigger] buckets(table, raw, n)[i]).source != (#[trigger] buckets(
                table,
                raw,
                n,
            )[j]).source,
    decreases n,
{
    if n > 0 {
        lemma_buckets_differ(table, raw, n - 1);
        let before = buckets(table, raw, n - 1);
        let a = attributed(table, raw[n - 1]);
        lemma_first_index(before, shows(a.source.display_name()));
    }
}

/// The groups of a categorization come in strictly ascending order of
/// priority, then parameter: no two groups have the same source, so the order
/// of the groups is the only one that there is.
pub proof fn lemma_groups_strictly_ascend(
    table: TableSpec,
    raw: Seq<(Seq<char>, Seq<char>)>,
)
    ensures
        is_strictly_sorted(grouped(table, raw), group_key()),
{
    let found = buckets(table, raw, raw.len() as int);
    lemma_buckets_differ(table, raw, raw.len() as int);
    lemma_buckets_are_uniform(table, raw, raw.len() as int);
    let shown = found.map_values(arrange());
    // Arranging a group keeps its source.
    assert forall|i: int| 0 <= i < shown.len() implies (#[trigger] shown[i]).source
        == found[i].source by {
        let g = found[i];
        assert forall|j: int| 0 <= j < g.aliases.len() implies of_source(g.source)(
            #[trigger] g.aliases[j],
        ) by {}
        lemma_sort_keeps_property(g.aliases, alias_key(), of_source(g.source));
        lemma_sort_sorted(g.aliases, alias_key());
    }
    assert(keys_differ(shown, group_key())) by {
        assert forall|i: int, j: int|
            0 <= i < shown.len() && 0 <= j < shown.len() && i != j implies #[trigger] group_key()(
            shown[i],
        ) != #[trigger] group_key()(shown[j]) by {
            if group_key()(shown[i]) == group_key()(shown[j]) {
                lemma_sort_key_is_unique(shown[i].source, shown[j].source);
            }
        }
    }
    lemma_sort_is_strict(shown, group_key());
}

} // verus!
