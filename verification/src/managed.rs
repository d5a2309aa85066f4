//! The rules of the managed store: what a valid alias name is, and the text of
//! the files that the store keeps.

use crate::alias::parser::embedded_quote;
use crate::alias::scanner::{defined_name, extract_alias_fragments, fragments, name_of_fragment};
use crate::alias::types::{AliasSource, ManagedError, ManagedErrorSpec, SourceSpec};
use crate::text::{
    append_chars, char_is_space, chars_of, concat2, concat3, first_index, is_blank, is_space,
    lemma_first_index_is, lines, replace_all, replaced, same_chars, seqs_of, split_lines, string_of,
    trim, trimmed,
};
use vstd::prelude::*;

verus! {

/// The characters that the shell reads as syntax, and that an alias name
/// therefore cannot hold: quotes, the backslash, and the characters of
/// expansion, redirection, grouping, globbing, history and comments.
pub open spec fn is_shell_syntax(c: char) -> bool {
    c == '\'' || c == '"' || c == '`' || c == '\\' || c == '$' || c == ';' || c == '&' || c == '|'
        || c == '<' || c == '>' || c == '(' || c == ')' || c == '{' || c == '}' || c == '#' || c
        == '*' || c == '?' || c == '[' || c == ']' || c == '~' || c == '!'
}

/// The characters that an alias name cannot hold: white space, `=`, control
/// characters and the shell's syntax.
pub open spec fn is_unsafe_in_name(c: char) -> bool {
    is_space(c) || c == '=' || (c as u32) < 0x20 || (c as u32) == 0x7F || is_shell_syntax(c)
}

/// [`is_unsafe_in_name`] as a function value.
pub open spec fn unsafe_in_name() -> spec_fn(char) -> bool {
    |c: char| is_unsafe_in_name(c)
}

/// Whether `name` can be the name of a managed alias: it is not blank, holds
/// no unsafe character, and does not begin like an option of `alias`.
pub open spec fn validate_alias_name_spec(name: Seq<char>) -> Result<(), ManagedErrorSpec> {
    if is_blank(name) {
        Err(ManagedErrorSpec::EmptyName)
    } else if first_index(name, unsafe_in_name()) < name.len() || name[0] == '-' || name[0]
        == '+' {
        Err(ManagedErrorSpec::InvalidName(name))
    } else {
        Ok(())
    }
}

fn char_is_unsafe_in_name(c: char) -> (r: bool)
    ensures
        r == is_unsafe_in_name(c),
{
    let n: u32 = c as u32;
    char_is_space(c) || c == '=' || n < 0x20 || n == 0x7F || c == '\'' || c == '"' || c == '`'
        || c == '\\' || c == '$' || c == ';' || c == '&' || c == '|' || c == '<' || c == '>' || c
        == '(' || c == ')' || c == '{' || c == '}' || c == '#' || c == '*' || c == '?' || c == '['
        || c == ']' || c == '~' || c == '!'
}

/// Checks that `name` can be the name of a managed alias.
pub fn validate_alias_name(name: &str) -> (r: Result<(), ManagedError>)
    ensures
        match r {
            Ok(_) => validate_alias_name_spec(name@) is Ok,
            Err(e) => validate_alias_name_spec(name@) == Err::<(), ManagedErrorSpec>(e@),
        },
{
    let chars = chars_of(name);
    if trimmed(&chars).len() == 0 {
        return Err(ManagedError::EmptyName);
    }
    let mut i: usize = 0;
    while i < chars.len() && !char_is_unsafe_in_name(chars[i])
        invariant
            i <= chars.len(),
            forall|k: int| 0 <= k < i ==> !unsafe_in_name()(#[trigger] chars@[k]),
        decreases chars.len() - i,
    {
        i += 1;
    }
    proof {
        lemma_first_index_is(chars@, unsafe_in_name(), i as int);
    }
    if i < chars.len() || chars[0] == '-' || chars[0] == '+' {
        return Err(ManagedError::InvalidName(name.to_owned()));
    }
    Ok(())
}

// ---------------------------------------------------------------------------
// Alias files
// ---------------------------------------------------------------------------

/// The text with every quote written as the shell reads it inside single
/// quotes: the quotes are closed, an escaped quote follows, and they are
/// opened again.
pub open spec fn quote_escaped(s: Seq<char>) -> Seq<char> {
    replace_all(s, seq!['\''], embedded_quote())
}

/// The line that defines an alias: `alias name='command'`.
pub open spec fn alias_line_spec(name: Seq<char>, command: Seq<char>) -> Seq<char> {
    "alias "@ + name + "='"@ + quote_escaped(command) + "'"@
}

/// The line that defines an alias of a bundle: the definition, two blanks, and
/// the description as a comment.
pub open spec fn described_line_spec(
    name: Seq<char>,
    command: Seq<char>,
    description: Seq<char>,
) -> Seq<char> {
    alias_line_spec(name, command) + "  # "@ + description
}

/// The predicate "defines `name`" on fragments.
pub open spec fn fragment_defines(name: Seq<char>) -> spec_fn(Seq<char>) -> bool {
    |fragment: Seq<char>| defined_name(fragment) == Some(name)
}

/// Whether a line of a shell file defines the alias `name`.
pub open spec fn line_defines(line: Seq<char>, name: Seq<char>) -> bool {
    first_index(fragments(line), fragment_defines(name)) < fragments(line).len()
}

/// The predicate "does not define `name`" on lines.
pub open spec fn keeps(name: Seq<char>) -> spec_fn(Seq<char>) -> bool {
    |line: Seq<char>| !line_defines(line, name)
}

/// The text of a file with these lines, each ended by a line feed.
pub open spec fn unlines(ls: Seq<Seq<char>>) -> Seq<char>
    decreases ls.len(),
{
    if ls.len() == 0 {
        Seq::empty()
    } else {
        unlines(ls.drop_last()) + ls.last() + seq!['\n']
    }
}

/// The text of an alias file after `name` was set to `command`: the lines
/// that define `name` are gone, and the new definition is the last line.
pub open spec fn with_alias_line(content: Seq<char>, name: Seq<char>, command: Seq<char>) -> Seq<
    char,
> {
    unlines(lines(content).filter(keeps(name)).push(alias_line_spec(name, command)))
}

/// The text of an alias file after `name` was deleted: the lines that define
/// `name` are gone.
pub open spec fn without_alias_line(content: Seq<char>, name: Seq<char>) -> Seq<char> {
    unlines(lines(content).filter(keeps(name)))
}

/// The characters of the line that defines an alias.
fn alias_line_chars(name: &str, command: &str) -> (r: Vec<char>)
    ensures
        r@ == alias_line_spec(name@, command@),
{
    let mut quote: Vec<char> = Vec::new();
    quote.push('\'');
    let mut escaped: Vec<char> = Vec::new();
    escaped.push('\'');
    escaped.push('\\');
    escaped.push('\'');
    escaped.push('\'');
    assert(escaped@ == embedded_quote());
    let body = replaced(&chars_of(command), &quote, &escaped);
    let mut out = chars_of("alias ");
    append_chars(&mut out, &chars_of(name));
    append_chars(&mut out, &chars_of("='"));
    append_chars(&mut out, &body);
    append_chars(&mut out, &chars_of("'"));
    out
}

/// The line that defines an alias, as the managed store writes it.
pub fn alias_line(name: &str, command: &str) -> (r: String)
    ensures
        r@ == alias_line_spec(name@, command@),
{
    string_of(&alias_line_chars(name, command))
}

/// Whether a line of a shell file defines the alias `name`.
pub fn defines_alias(line: &Vec<char>, name: &Vec<char>) -> (r: bool)
    ensures
        r == line_defines(line@, name@),
{
    let found = extract_alias_fragments(line);
    let ghost all = fragments(line@);
    let mut k: usize = 0;
    while k < found.len()
        invariant
            k <= found.len(),
            seqs_of(found@) == all,
            all == fragments(line@),
            forall|j: int| 0 <= j < k ==> !fragment_defines(name@)(#[trigger] all[j]),
        decreases found.len() - k,
    {
        let hit = match name_of_fragment(&found[k]) {
            Some(n) => same_chars(&n, name),
            None => false,
        };
        if hit {
            proof {
                lemma_first_index_is(all, fragment_defines(name@), k as int);
            }
            return true;
        }
        k += 1;
    }
    proof {
        lemma_first_index_is(all, fragment_defines(name@), all.len() as int);
    }
    false
}

/// The lines of a file that do not define `name`, each ended by a line feed.
fn kept_lines(content: &str, name: &Vec<char>) -> (r: Vec<char>)
    ensures
        r@ == without_alias_line(content@, name@),
{
    let all = split_lines(&chars_of(content));
    let ghost ls = lines(content@);
    let mut out: Vec<char> = Vec::new();
    let mut i: usize = 0;
    proof {
        reveal(Seq::filter);
    }
    while i < all.len()
        invariant
            i <= all.len(),
            seqs_of(all@) == ls,
            out@ == unlines(ls.take(i as int).filter(keeps(name@))),
        decreases all.len() - i,
    {
        proof {
            assert(ls.take(i + 1) == ls.take(i as int).push(ls[i as int]));
            ls.take(i as int).lemma_filter_push(ls[i as int], keeps(name@));
            let kept = ls.take(i as int).filter(keeps(name@));
            assert(kept.push(ls[i as int]).drop_last() =~= kept);
        }
        if !defines_alias(&all[i], name) {
            append_chars(&mut out, &all[i]);
            out.push('\n');
        }
        i += 1;
    }
    assert(ls.take(all.len() as int) == ls);
    out
}

/// The text of an alias file after `name` was set to `command`.
pub fn set_alias_line(content: &str, name: &str, command: &str) -> (r: String)
    ensures
        r@ == with_alias_line(content@, name@, command@),
{
    let mut out = kept_lines(content, &chars_of(name));
    proof {
        let kept = lines(content@).filter(keeps(name@));
        assert(kept.push(alias_line_spec(name@, command@)).drop_last() =~= kept);
    }
    append_chars(&mut out, &alias_line_chars(name, command));
    out.push('\n');
    string_of(&out)
}

/// The text of an alias file after `name` was deleted.
pub fn remove_alias_line(content: &str, name: &str) -> (r: String)
    ensures
        r@ == without_alias_line(content@, name@),
{
    string_of(&kept_lines(content, &chars_of(name)))
}

/// What becomes of an override file when the override of `name` is deleted:
/// its new text, or nothing where no line is left and the file is to go.
pub fn remove_override_line(content: &str, name: &str) -> (r: Option<String>)
    ensures
        r.deep_view() == if without_alias_line(content@, name@).len() == 0 {
            None
        } else {
            Some(without_alias_line(content@, name@))
        },
{
    let left = kept_lines(content, &chars_of(name));
    if left.len() == 0 {
        None
    } else {
        Some(string_of(&left))
    }
}

/// The text of the file of an installed bundle: one described line for each
/// of the first `n` aliases, in their order.
pub open spec fn extension_file_spec(aliases: Seq<(Seq<char>, Seq<char>, Seq<char>)>, n: int) -> Seq<
    char,
>
    decreases n,
{
    if n <= 0 {
        Seq::empty()
    } else {
        extension_file_spec(aliases, n - 1) + described_line_spec(
            aliases[n - 1].0,
            aliases[n - 1].1,
            aliases[n - 1].2,
        ) + seq!['\n']
    }
}

/// The text of the file of an installed bundle.
pub fn extension_file(aliases: &Vec<(&'static str, &'static str, &'static str)>) -> (r: String)
    ensures
        r@ == extension_file_spec(aliases.deep_view(), aliases.len() as int),
{
    let mut out: Vec<char> = Vec::new();
    let mut i: usize = 0;
    let ghost all = aliases.deep_view();
    while i < aliases.len()
        invariant
            i <= aliases.len(),
            all == aliases.deep_view(),
            out@ == extension_file_spec(all, i as int),
        decreases aliases.len() - i,
    {
        let (name, command, description) = aliases[i];
        append_chars(&mut out, &alias_line_chars(name, command));
        append_chars(&mut out, &chars_of("  # "));
        append_chars(&mut out, &chars_of(description));
        out.push('\n');
        i += 1;
    }
    string_of(&out)
}

// ---------------------------------------------------------------------------
// Override files
// ---------------------------------------------------------------------------

/// A character of a file name: an ASCII letter or digit, `_` or `-`.
pub open spec fn is_slug_char(c: char) -> bool {
    ('a' <= c <= 'z') || ('A' <= c <= 'Z') || ('0' <= c <= '9') || c == '_' || c == '-'
}

/// The text with every character that no file name should hold turned into
/// a `-`.
pub open spec fn slugified(s: Seq<char>) -> Seq<char> {
    s.map_values(|c: char| if is_slug_char(c) { c } else { '-' })
}

/// The name, without extension, of the file that holds the overrides of the
/// aliases of a source.
pub open spec fn source_slug_spec(source: SourceSpec) -> Seq<char> {
    match source {
        SourceSpec::OhMyZshPlugin(n) => "omz-plugin-"@ + slugified(n),
        SourceSpec::OhMyZshLib(n) => "omz-lib-"@ + slugified(n),
        SourceSpec::OhMyZshCustom(n) => "omz-custom-"@ + slugified(n),
        SourceSpec::Zshrc => "zshrc"@,
        SourceSpec::ZamExtension(n) => "ext-"@ + slugified(n),
        SourceSpec::ZamCustom => "custom"@,
        SourceSpec::ZamOverride(slug) => slugified(slug),
        SourceSpec::Unknown => "unknown"@,
    }
}

fn slug_of(s: &str) -> (r: String)
    ensures
        r@ == slugified(s@),
{
    let chars = chars_of(s);
    let mut out: Vec<char> = Vec::new();
    let mut i: usize = 0;
    while i < chars.len()
        invariant
            i <= chars.len(),
            out@ == slugified(chars@.take(i as int)),
        decreases chars.len() - i,
    {
        let c = chars[i];
        let ok = ('a' <= c && c <= 'z') || ('A' <= c && c <= 'Z') || ('0' <= c && c <= '9') || c
            == '_' || c == '-';
        out.push(if ok { c } else { '-' });
        i += 1;
    }
    string_of(&out)
}

/// The name, without extension, of the override file of a source.
pub fn source_slug(source: &AliasSource) -> (r: String)
    ensures
        r@ == source_slug_spec(source@),
{
    match source {
        AliasSource::OhMyZshPlugin(n) => concat2("omz-plugin-", slug_of(n.as_str()).as_str()),
        AliasSource::OhMyZshLib(n) => concat2("omz-lib-", slug_of(n.as_str()).as_str()),
        AliasSource::OhMyZshCustom(n) => concat2("omz-custom-", slug_of(n.as_str()).as_str()),
        AliasSource::Zshrc => "zshrc".to_owned(),
        AliasSource::ZamExtension(n) => concat2("ext-", slug_of(n.as_str()).as_str()),
        AliasSource::ZamCustom => "custom".to_owned(),
        AliasSource::ZamOverride(slug) => slug_of(slug.as_str()),
        AliasSource::Unknown => "unknown".to_owned(),
    }
}

// ---------------------------------------------------------------------------
// The loader and the startup file
// ---------------------------------------------------------------------------

/// The loader: it sources every alias file, then every override file, so
/// that the overrides win.
pub open spec fn loader_spec() -> Seq<char> {
    "# zam: sources the managed aliases, then the overrides\nfor f in ~/.config/zam/aliases/*.zsh(N); do source \"$f\"; done\nfor f in ~/.config/zam/overrides/*.zsh(N); do source \"$f\"; done\n"@
}

/// The text of `init.zsh`.
pub fn loader() -> (r: String)
    ensures
        r@ == loader_spec(),
{
    "# zam: sources the managed aliases, then the overrides\nfor f in ~/.config/zam/aliases/*.zsh(N); do source \"$f\"; done\nfor f in ~/.config/zam/overrides/*.zsh(N); do source \"$f\"; done\n".to_owned()
}

/// The line of the startup file that sources the loader.
pub open spec fn source_line_spec() -> Seq<char> {
    "[ -f ~/.config/zam/init.zsh ] && source ~/.config/zam/init.zsh"@
}

/// The predicate "is the line that sources the loader" on lines.
pub open spec fn is_source_line() -> spec_fn(Seq<char>) -> bool {
    |line: Seq<char>| trim(line) == source_line_spec()
}

/// The predicate "is not the line that sources the loader" on lines.
pub open spec fn is_other_line() -> spec_fn(Seq<char>) -> bool {
    |line: Seq<char>| trim(line) != source_line_spec()
}

/// The text of the startup file after initialization: as it was where it
/// sources the loader already; else with the line that does as its last line.
pub open spec fn with_source_line(zshrc: Seq<char>) -> Seq<char> {
    if first_index(lines(zshrc), is_source_line()) < lines(zshrc).len() {
        zshrc
    } else {
        unlines(lines(zshrc).push(source_line_spec()))
    }
}

/// The text of the startup file after removal: without the lines that source
/// the loader.
pub open spec fn without_source_line(zshrc: Seq<char>) -> Seq<char> {
    unlines(lines(zshrc).filter(is_other_line()))
}

/// The line of the startup file that sources the loader.
pub fn source_line() -> (r: String)
    ensures
        r@ == source_line_spec(),
{
    "[ -f ~/.config/zam/init.zsh ] && source ~/.config/zam/init.zsh".to_owned()
}

/// The text of the startup file with the line that sources the loader.
pub fn add_source_line(zshrc: &str) -> (r: String)
    ensures
        r@ == with_source_line(zshrc@),
{
    let all = split_lines(&chars_of(zshrc));
    let wanted = chars_of("[ -f ~/.config/zam/init.zsh ] && source ~/.config/zam/init.zsh");
    let ghost ls = lines(zshrc@);
    let mut out: Vec<char> = Vec::new();
    let mut i: usize = 0;
    while i < all.len()
        invariant
            i <= all.len(),
            seqs_of(all@) == ls,
            ls == lines(zshrc@),
            wanted@ == source_line_spec(),
            out@ == unlines(ls.take(i as int)),
            forall|k: int| 0 <= k < i ==> !is_source_line()(#[trigger] ls[k]),
        decreases all.len() - i,
    {
        if same_chars(&trimmed(&all[i]), &wanted) {
            proof {
                lemma_first_index_is(ls, is_source_line(), i as int);
            }
            return zshrc.to_owned();
        }
        assert(ls.take(i + 1).drop_last() =~= ls.take(i as int));
        append_chars(&mut out, &all[i]);
        out.push('\n');
        i += 1;
    }
    proof {
        lemma_first_index_is(ls, is_source_line(), ls.len() as int);
        assert(ls.take(all.len() as int) == ls);
        assert(ls.push(source_line_spec()).drop_last() =~= ls);
    }
    append_chars(&mut out, &wanted);
    out.push('\n');
    string_of(&out)
}

/// The text of the startup file without the lines that source the loader.
pub fn remove_source_line(zshrc: &str) -> (r: String)
    ensures
        r@ == without_source_line(zshrc@),
{
    let all = split_lines(&chars_of(zshrc));
    let wanted = chars_of("[ -f ~/.config/zam/init.zsh ] && source ~/.config/zam/init.zsh");
    let ghost ls = lines(zshrc@);
    let mut out: Vec<char> = Vec::new();
    let mut i: usize = 0;
    proof {
        reveal(Seq::filter);
    }
    while i < all.len()
        invariant
            i <= all.len(),
            seqs_of(all@) == ls,
            wanted@ == source_line_spec(),
            out@ == unlines(ls.take(i as int).filter(is_other_line())),
        decreases all.len() - i,
    {
        proof {
            assert(ls.take(i + 1) == ls.take(i as int).push(ls[i as int]));
            ls.take(i as int).lemma_filter_push(ls[i as int], is_other_line());
            let kept = ls.take(i as int).filter(is_other_line());
            assert(kept.push(ls[i as int]).drop_last() =~= kept);
        }
        if !same_chars(&trimmed(&all[i]), &wanted) {
            append_chars(&mut out, &all[i]);
            out.push('\n');
        }
        i += 1;
    }
    assert(ls.take(all.len() as int) == ls);
    string_of(&out)
}

// ---------------------------------------------------------------------------
// The files of the store
// ---------------------------------------------------------------------------

/// The directory of the store, from the home directory.
pub open spec fn store_dir_spec() -> Seq<char> {
    ".config/zam"@
}

/// The file of the loader, from the directory of the store.
pub open spec fn loader_file_spec() -> Seq<char> {
    "init.zsh"@
}

/// The file of the store's own aliases, from the directory of the store.
pub open spec fn custom_file_spec() -> Seq<char> {
    "aliases/custom.zsh"@
}

/// The file of an installed bundle, from the directory of the store.
pub open spec fn extension_file_name_spec(name: Seq<char>) -> Seq<char> {
    "aliases/"@ + name + ".zsh"@
}

/// The file of the overrides of a source, from the directory of the store.
pub open spec fn override_file_name_spec(source: SourceSpec) -> Seq<char> {
    "overrides/"@ + source_slug_spec(source) + ".zsh"@
}

/// The directory of the store, from the home directory.
pub fn store_dir() -> (r: &'static str)
    ensures
        r@ == store_dir_spec(),
{
    ".config/zam"
}

/// The file of the loader, from the directory of the store.
pub fn loader_file() -> (r: &'static str)
    ensures
        r@ == loader_file_spec(),
{
    "init.zsh"
}

/// The file of the store's own aliases, from the directory of the store.
pub fn custom_file() -> (r: &'static str)
    ensures
        r@ == custom_file_spec(),
{
    "aliases/custom.zsh"
}

/// The file of an installed bundle, from the directory of the store.
pub fn extension_file_name(name: &str) -> (r: String)
    ensures
        r@ == extension_file_name_spec(name@),
{
    concat3("aliases/", name, ".zsh")
}

/// The file of the overrides of a source, from the directory of the store.
pub fn override_file_name(source: &AliasSource) -> (r: String)
    ensures
        r@ == override_file_name_spec(source@),
{
    concat3("overrides/", source_slug(source).as_str(), ".zsh")
}

} // verus!
