//! Sorting aliases by name and groups by source.

use crate::alias::types::{Alias, AliasGroup, AliasSpec, GroupSpec};
use crate::order::{chars_less, is_sorted, key_less, lemma_insertion_point_is, stable_sort, SortKey};
use crate::text::chars_of;
use vstd::prelude::*;

verus! {

/// The key by which the aliases of a group are ordered: the name.
pub open spec fn alias_key() -> spec_fn(AliasSpec) -> SortKey {
    |a: AliasSpec| (0int, a.name)
}

/// The key by which groups are ordered: the priority of the source, then its
/// parameter.
pub open spec fn group_key() -> spec_fn(GroupSpec) -> SortKey {
    |g: GroupSpec| (g.source.priority(), g.source.parameter())
}

/// Whether the aliases stand in ascending order of their names.
pub open spec fn names_ascend(aliases: Seq<AliasSpec>) -> bool {
    is_sorted(aliases, alias_key())
}

/// Whether the groups stand in ascending order of priority, then parameter.
pub open spec fn groups_ascend(groups: Seq<GroupSpec>) -> bool {
    is_sorted(groups, group_key())
}

/// The aliases sorted by name; aliases of one name keep their order.
pub fn sort_aliases(v: &Vec<Alias>) -> (r: Vec<Alias>)
    ensures
        r.deep_view() == stable_sort(v.deep_view(), alias_key()),
{
    let mut out: Vec<Alias> = Vec::new();
    let mut i: usize = 0;
    let ghost all = v.deep_view();
    while i < v.len()
        invariant
            i <= v.len(),
            all == v.deep_view(),
            out.deep_view() == stable_sort(all.take(i as int), alias_key()),
        decreases v.len() - i,
    {
        let x = v[i].clone();
        let name = chars_of(x.name.as_str());
        let ghost sorted = out.deep_view();
        let mut p: usize = 0;
        while p < out.len() && !chars_less(&name, &chars_of(out[p].name.as_str()))
            invariant
                p <= out.len(),
                sorted == out.deep_view(),
                name@ == x@.name,
                forall|j: int|
                    0 <= j < p ==> !key_less(alias_key()(x@), #[trigger] alias_key()(sorted[j])),
            decreases out.len() - p,
        {
            p += 1;
        }
        proof {
            lemma_insertion_point_is(sorted, alias_key()(x@), alias_key(), p as int);
            assert(all.take(i + 1).drop_last() == all.take(i as int));
        }
        out.insert(p, x);
        i += 1;
    }
    assert(all.take(v.len() as int) == all);
    out
}

/// The groups sorted by priority, then parameter; groups of one key keep
/// their order.
pub fn sort_groups(v: &Vec<AliasGroup>) -> (r: Vec<AliasGroup>)
    ensures
        r.deep_view() == stable_sort(v.deep_view(), group_key()),
{
    let mut out: Vec<AliasGroup> = Vec::new();
    let mut i: usize = 0;
    let ghost all = v.deep_view();
    while i < v.len()
        invariant
            i <= v.len(),
            all == v.deep_view(),
            out.deep_view() == stable_sort(all.take(i as int), group_key()),
        decreases v.len() - i,
    {
        let x = v[i].clone();
        let (rank, param) = x.source.sort_key();
        let param = chars_of(param.as_str());
        let ghost sorted = out.deep_view();
        let mut p: usize = 0;
        while p < out.len() && !group_before(rank, &param, &out[p])
            invariant
                p <= out.len(),
                sorted == out.deep_view(),
                (rank as int, param@) == group_key()(x@),
                forall|j: int|
                    0 <= j < p ==> !key_less(group_key()(x@), #[trigger] group_key()(sorted[j])),
            decreases out.len() - p,
        {
            p += 1;
        }
        proof {
            lemma_insertion_point_is(sorted, group_key()(x@), group_key(), p as int);
            assert(all.take(i + 1).drop_last() == all.take(i as int));
        }
        out.insert(p, x);
        i += 1;
    }
    assert(all.take(v.len() as int) == all);
    out
}

/// Whether the key `(rank, param)` comes strictly before the key of `g`.
fn group_before(rank: u8, param: &Vec<char>, g: &AliasGroup) -> (r: bool)
    ensures
        r == key_less((rank as int, param@), group_key()(g@)),
{
    let (other_rank, other_param) = g.source.sort_key();
    if rank != other_rank {
        rank < other_rank
    } else {
        chars_less(param, &chars_of(other_param.as_str()))
    }
}

} // verus!
