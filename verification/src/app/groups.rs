//! The changes that a create, an edit and a delete make to the groups.

use crate::alias::sorting::{sort_aliases, sort_groups};
use crate::alias::types::{clone_aliases, Alias, AliasGroup, AliasSource};
use crate::app::model::{
    custom_alias, is_custom, non_empty, not_named, with_edit, with_new_alias, without_alias,
    without_name,
};
use crate::collision::{holds, named, position_of_alias, position_of_holder};
use crate::text::{first_index, lemma_first_index, lemma_first_index_is, str_eq};
use vstd::prelude::*;

verus! {

/// The position of the first group of the managed store's own aliases, or the
/// number of groups.
fn position_of_custom(groups: &Vec<AliasGroup>) -> (r: usize)
    ensures
        r == first_index(groups.deep_view(), is_custom()),
        r <= groups.len(),
{
    let mut i: usize = 0;
    while i < groups.len() && !groups[i].source.is_zam_custom()
        invariant
            i <= groups.len(),
            forall|k: int| 0 <= k < i ==> !is_custom()(#[trigger] groups.deep_view()[k]),
        decreases groups.len() - i,
    {
        i += 1;
    }
    proof {
        lemma_first_index_is(groups.deep_view(), is_custom(), i as int);
    }
    i
}

/// Takes a newly created alias into the groups.
pub fn apply_new_alias(groups: &mut Vec<AliasGroup>, name: &str, command: &str)
    ensures
        final(groups).deep_view() == with_new_alias(old(groups).deep_view(), name@, command@),
{
    let alias = Alias {
        name: name.to_owned(),
        command: command.to_owned(),
        source: AliasSource::ZamCustom,
        description: None,
    };
    let ghost before = groups.deep_view();
    let i = position_of_custom(groups);
    if i < groups.len() {
        let mut aliases = clone_aliases(&groups[i].aliases);
        aliases.push(alias);
        assert(aliases.deep_view() =~= before[i as int].aliases.push(custom_alias(name@, command@)));
        let sorted = sort_aliases(&aliases);
        groups[i].aliases = sorted;
    } else {
        let mut aliases: Vec<Alias> = Vec::new();
        aliases.push(alias);
        assert(aliases.deep_view() =~= seq![custom_alias(name@, command@)]);
        let group = AliasGroup { source: AliasSource::ZamCustom, aliases, collapsed: false };
        let ghost g = group@;
        groups.push(group);
        assert(groups.deep_view() =~= before.push(g));
        let sorted = sort_groups(groups);
        *groups = sorted;
    }
}

/// Takes an edit into the groups: the first alias named `old_name` gets the
/// new name and command.
pub fn apply_edit_to_groups(
    groups: &mut Vec<AliasGroup>,
    old_name: &str,
    new_name: &str,
    new_command: &str,
)
    ensures
        final(groups).deep_view() == with_edit(
            old(groups).deep_view(),
            old_name@,
            new_name@,
            new_command@,
        ),
{
    let ghost before = groups.deep_view();
    let gi = position_of_holder(groups, old_name);
    if gi < groups.len() {
        proof {
            lemma_first_index(before, holds(old_name@));
        }
        let ai = position_of_alias(&groups[gi].aliases, old_name);
        groups[gi].aliases[ai].name = new_name.to_owned();
        groups[gi].aliases[ai].command = new_command.to_owned();
        assert(groups.deep_view()[gi as int].aliases =~= with_edit(
            before,
            old_name@,
            new_name@,
            new_command@,
        )[gi as int].aliases);
    }
}

/// The aliases that are not named `name`.
fn aliases_without(aliases: &Vec<Alias>, name: &str) -> (r: Vec<Alias>)
    ensures
        r.deep_view() == aliases.deep_view().filter(not_named(name@)),
{
    let mut kept: Vec<Alias> = Vec::new();
    let mut j: usize = 0;
    let ghost all = aliases.deep_view();
    proof {
        reveal(Seq::filter);
    }
    while j < aliases.len()
        invariant
            j <= aliases.len(),
            all == aliases.deep_view(),
            kept.deep_view() == all.take(j as int).filter(not_named(name@)),
        decreases aliases.len() - j,
    {
        proof {
            assert(all.take(j + 1) == all.take(j as int).push(all[j as int]));
            all.take(j as int).lemma_filter_push(all[j as int], not_named(name@));
        }
        if !str_eq(aliases[j].name.as_str(), name) {
            kept.push(aliases[j].clone());
        }
        j += 1;
    }
    assert(all.take(aliases.len() as int) == all);
    kept
}

/// Takes a deleted alias out of the groups, and with it every group that it
/// leaves empty.
pub fn remove_alias_from_groups(groups: &mut Vec<AliasGroup>, name: &str)
    ensures
        final(groups).deep_view() == without_alias(old(groups).deep_view(), name@),
{
    let mut kept: Vec<AliasGroup> = Vec::new();
    let mut i: usize = 0;
    let ghost all = groups.deep_view();
    let ghost mapped = all.map_values(without_name(name@));
    proof {
        reveal(Seq::filter);
    }
    while i < groups.len()
        invariant
            i <= groups.len(),
            all == groups.deep_view(),
            mapped == all.map_values(without_name(name@)),
            kept.deep_view() == mapped.take(i as int).filter(non_empty()),
        decreases groups.len() - i,
    {
        let aliases = aliases_without(&groups[i].aliases, name);
        proof {
            assert(mapped.take(i + 1) == mapped.take(i as int).push(mapped[i as int]));
            mapped.take(i as int).lemma_filter_push(mapped[i as int], non_empty());
        }
        if aliases.len() > 0 {
            let group = AliasGroup {
                source: groups[i].source.clone(),
                aliases,
                collapsed: groups[i].collapsed,
            };
            kept.push(group);
        }
        i += 1;
    }
    assert(mapped.take(groups.len() as int) == mapped);
    *groups = kept;
}

} // verus!
