//! The rows of the list, derived from the groups and the search query.

use crate::alias::types::{Alias, AliasGroup};
use crate::app::ListItem;
use crate::app::model::{
    alias_shown, entry_of, group_rows, kept, needle_of, rows_given, rows_upto, search_field_of,
    shown, visible_rows, SearchField,
};
use crate::text::{
    chars_of, contains, contains_seq, lowercase, lowered, starts_with_char, string_of, subvec,
    trimmed,
};
use vstd::prelude::*;

verus! {

/// The field that the query searches.
pub fn field_of_query(query: &Vec<char>) -> (r: SearchField)
    ensures
        r == search_field_of(query@),
{
    if starts_with_char(query, '=') {
        SearchField::Command
    } else if starts_with_char(query, '@') {
        SearchField::Group
    } else {
        SearchField::Name
    }
}

/// The text that the query searches for.
pub fn needle_of_query(query: &Vec<char>) -> (r: Vec<char>)
    ensures
        r@ == needle_of(query@),
{
    let body = match field_of_query(query) {
        SearchField::Name => trimmed(query),
        _ => {
            let rest = subvec(query, 1, query.len());
            trimmed(&rest)
        },
    };
    chars_of(lowercase(string_of(&body).as_str()).as_str())
}

/// Whether `text`, in lower case, holds `needle`.
fn lowered_contains(text: &str, needle: &Vec<char>) -> (r: bool)
    ensures
        r == contains(lowered(text@), needle@),
{
    contains_seq(&chars_of(lowercase(text).as_str()), needle)
}

/// Whether the alias passes the filter.
pub fn alias_is_shown(a: &Alias, field: SearchField, needle: &Vec<char>) -> (r: bool)
    ensures
        r == alias_shown(a@, field, needle@),
{
    if needle.len() == 0 {
        return true;
    }
    match field {
        SearchField::Name => lowered_contains(a.name.as_str(), needle),
        SearchField::Command => lowered_contains(a.command.as_str(), needle),
        SearchField::Group => true,
    }
}

/// The aliases that are marked.
fn kept_aliases(aliases: &Vec<Alias>, marks: &Vec<bool>) -> (r: Vec<Alias>)
    ensures
        r.deep_view() == kept(aliases.deep_view(), marks@),
{
    let mut matching: Vec<Alias> = Vec::new();
    let mut j: usize = 0;
    let ghost all = aliases.deep_view();
    while j < aliases.len()
        invariant
            j <= aliases.len(),
            all == aliases.deep_view(),
            matching.deep_view() == kept(all.take(j as int), marks@),
        decreases aliases.len() - j,
    {
        proof {
            assert(all.take(j + 1).drop_last() == all.take(j as int));
        }
        if j < marks.len() && marks[j] {
            matching.push(aliases[j].clone());
        }
        j += 1;
    }
    assert(all.take(aliases.len() as int) == all);
    matching
}

/// Appends the rows of one group, given what the search found: `hits[i]`
/// tells whether the `i`-th alias of the group was hit.
pub fn push_rows_given(
    out: &mut Vec<ListItem>,
    g: &AliasGroup,
    gi: usize,
    filtering: bool,
    by_group: bool,
    group_hit: bool,
    hits: &Vec<bool>,
)
    ensures
        final(out).deep_view() == old(out).deep_view() + rows_given(
            g@,
            gi as int,
            filtering,
            by_group,
            group_hit,
            hits@,
        ),
{
    let ghost start = out.deep_view();
    let matching = kept_aliases(&g.aliases, hits);
    let is_shown = !filtering || if by_group {
        group_hit
    } else {
        matching.len() > 0
    };
    if !is_shown {
        return ;
    }
    let header = ListItem::GroupHeader {
        group_index: gi,
        display_name: g.source.display_name(),
        alias_count: matching.len(),
        collapsed: g.collapsed,
    };
    let ghost head = header@;
    out.push(header);
    if !g.collapsed || filtering {
        let mut k: usize = 0;
        let ghost found = matching.deep_view();
        while k < matching.len()
            invariant
                k <= matching.len(),
                found == matching.deep_view(),
                out.deep_view() =~= start + seq![head] + found.take(k as int).map_values(
                    entry_of(gi as int),
                ),
            decreases matching.len() - k,
        {
            let ghost before = out.deep_view();
            let item = ListItem::AliasEntry { group_index: gi, alias: matching[k].clone() };
            out.push(item);
            assert(out.deep_view() =~= before.push(entry_of(gi as int)(found[k as int])));
            k += 1;
        }
    }
}

/// Which aliases of the group pass the filter.
fn hits_of(g: &AliasGroup, field: SearchField, needle: &Vec<char>) -> (r: Vec<bool>)
    ensures
        r@ == g@.aliases.map_values(shown(field, needle@)),
{
    let mut hits: Vec<bool> = Vec::new();
    let ghost all = g.aliases.deep_view();
    let mut j: usize = 0;
    while j < g.aliases.len()
        invariant
            j <= g.aliases.len(),
            all == g.aliases.deep_view(),
            hits@ == all.take(j as int).map_values(shown(field, needle@)),
        decreases g.aliases.len() - j,
    {
        let hit = alias_is_shown(&g.aliases[j], field, needle);
        hits.push(hit);
        j += 1;
    }
    hits
}

/// Appends the rows of one group under a search.
fn push_group_rows(
    out: &mut Vec<ListItem>,
    g: &AliasGroup,
    gi: usize,
    field: SearchField,
    needle: &Vec<char>,
)
    ensures
        final(out).deep_view() == old(out).deep_view() + group_rows(
            g@,
            gi as int,
            field,
            needle@,
        ),
{
    let filtering = needle.len() > 0;
    let by_group = field == SearchField::Group;
    let group_hit = lowered_contains(g.source.display_name().as_str(), needle);
    let hits = hits_of(g, field, needle);
    push_rows_given(out, g, gi, filtering, by_group, group_hit, &hits);
}

/// The rows of the list for these groups and this search query.
pub fn build_rows(groups: &Vec<AliasGroup>, query: &str) -> (r: Vec<ListItem>)
    ensures
        r.deep_view() == visible_rows(groups.deep_view(), query@),
{
    let q = chars_of(query);
    let field = field_of_query(&q);
    let needle = needle_of_query(&q);
    let mut out: Vec<ListItem> = Vec::new();
    let mut gi: usize = 0;
    let ghost all = groups.deep_view();
    while gi < groups.len()
        invariant
            gi <= groups.len(),
            all == groups.deep_view(),
            out.deep_view() == rows_upto(all, gi as int, field, needle@),
        decreases groups.len() - gi,
    {
        push_group_rows(&mut out, &groups[gi], gi, field, &needle);
        gi += 1;
    }
    out
}

} // verus!
