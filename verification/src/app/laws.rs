//! What holds of every run of the state machine.

use crate::action::Action;
use crate::alias::categorizer::{arrange, buckets, grouped, well_sorted};
use crate::alias::laws::{is_uniform, lemma_groups_are_uniform, lemma_sort_keeps_property};
use crate::alias::scanner::TableSpec;
use crate::alias::sorting::{alias_key, group_key};
use crate::alias::types::{AliasSpec, GroupSpec, ManagedErrorSpec, SourceSpec};
use crate::app::{
    AppSpec, AwaitingSpec, EditSpec, InputMode, ItemSpec, PendingSpec, ReplySpec, RequestSpec,
};
use crate::app::model::{
    alias_count, all_rows, bound_in, custom_alias, entry_of, group_index_of, group_rows, is_custom,
    kept, needle_of, non_empty, not_named, plain_rows_upto, rows_given, rows_upto, search_field_of,
    searched_text, shown, status_ticks, total_of, visible_rows, well_formed, with_new_alias,
    without_alias, without_name, SearchField,
};
use crate::collision::{alias_collision_spec, named};
use crate::event::{binding, KeyPress};
use crate::managed::validate_alias_name_spec;
use crate::order::{
    insertion_point, is_sorted, key_less, lemma_insertion_point, lemma_sort_keeps_sum,
    lemma_sort_of_sorted, lemma_sort_permutes, lemma_sort_sorted, stable_sort, sum_by, SortKey,
};
use crate::text::{contains, first_index, lemma_first_index, lemma_first_index_is, lowered};
use vstd::prelude::*;

verus! {

// ---------------------------------------------------------------------------
// The rows and the selection
// ---------------------------------------------------------------------------

/// Clamping leaves the selection on a row, or on 0 where there is no row, and
/// changes nothing else.
pub proof fn lemma_clamped(s: AppSpec)
    requires
        0 <= s.selected_index,
    ensures
        s.clamped().selection_in_bounds(),
        s.consistent() ==> s.clamped().consistent(),
{
}

/// No action makes the selection negative, and every action leaves the rows
/// those of the groups and the query, if they were.
pub proof fn lemma_acted(s: AppSpec, action: Action)
    requires
        0 <= s.selected_index,
    ensures
        0 <= s.acted(action).0.selected_index,
        s.consistent() ==> s.acted(action).0.consistent(),
{
    if action == Action::SaveEdit {
        lemma_saved(s);
    }
}

/// Saving moves no selection and changes neither groups, query nor rows.
proof fn lemma_saved(s: AppSpec)
    ensures
        s.saved().0.selected_index == s.selected_index,
        s.saved().0.groups == s.groups,
        s.saved().0.search_query == s.search_query,
        s.saved().0.visible_items == s.visible_items,
{
}

/// No reply makes the selection negative, and every reply leaves the rows
/// those of the groups and the query, if they were.
pub proof fn lemma_replied(s: AppSpec, reply: ReplySpec)
    requires
        0 <= s.selected_index,
    ensures
        0 <= s.replied(reply).0.selected_index,
        s.consistent() ==> s.replied(reply).0.consistent(),
{
}

/// Every action leaves the rows those of the groups and the query, if they
/// were; and an action that asks nothing of the driver leaves the selection
/// on a row, or on 0 where there is no row.
pub proof fn lemma_action_keeps_invariants(s: AppSpec, action: Action)
    requires
        0 <= s.selected_index,
    ensures
        s.consistent() ==> s.after_action(action).0.consistent(),
        s.after_action(action).1 is None ==> s.after_action(action).0.selection_in_bounds(),
{
    let idle = AppSpec { awaiting: None, ..s };
    lemma_acted(idle, action);
    lemma_clamped(idle.acted(action).0);
}

/// Every reply leaves the rows those of the groups and the query, if they
/// were; and a reply that asks nothing more of the driver leaves the
/// selection on a row, or on 0 where there is no row.
pub proof fn lemma_reply_keeps_invariants(s: AppSpec, reply: ReplySpec)
    requires
        0 <= s.selected_index,
    ensures
        s.consistent() ==> s.after_reply(reply).0.consistent(),
        s.after_reply(reply).1 is None ==> s.after_reply(reply).0.selection_in_bounds(),
{
    lemma_replied(s, reply);
    lemma_clamped(s.replied(reply).0);
}

/// Whether every row belongs to one of the first `n` groups.
pub open spec fn rows_indexed(rows: Seq<ItemSpec>, n: int) -> bool {
    forall|i: int| 0 <= i < rows.len() ==> 0 <= group_index_of(#[trigger] rows[i]) < n
}

/// The rows of a group all belong to that group.
pub proof fn lemma_group_rows_are_indexed(
    g: GroupSpec,
    gi: int,
    filtering: bool,
    by_group: bool,
    group_hit: bool,
    hits: Seq<bool>,
)
    ensures
        forall|i: int|
            0 <= i < rows_given(g, gi, filtering, by_group, group_hit, hits).len()
                ==> group_index_of(
                #[trigger] rows_given(g, gi, filtering, by_group, group_hit, hits)[i],
            ) == gi,
{
}

proof fn lemma_rows_upto_are_indexed(
    groups: Seq<GroupSpec>,
    n: int,
    field: SearchField,
    needle: Seq<char>,
)
    requires
        n <= groups.len(),
    ensures
        rows_indexed(rows_upto(groups, n, field, needle), n),
    decreases n,
{
    if n > 0 {
        lemma_rows_upto_are_indexed(groups, n - 1, field, needle);
        let g = groups[n - 1];
        lemma_group_rows_are_indexed(
            g,
            n - 1,
            needle.len() > 0,
            field == SearchField::Group,
            contains(lowered(g.source.display_name()), needle),
            g.aliases.map_values(shown(field, needle)),
        );
    }
}

/// Every row of the list belongs to one of the groups.
pub proof fn lemma_rows_are_indexed(groups: Seq<GroupSpec>, query: Seq<char>)
    ensures
        rows_indexed(visible_rows(groups, query), groups.len() as int),
{
    lemma_rows_upto_are_indexed(groups, groups.len() as int, search_field_of(query), needle_of(query));
}

/// Keeping the items that are marked where the predicate holds is filtering
/// by the predicate.
pub proof fn lemma_kept_is_filter<T>(items: Seq<T>, marks: Seq<bool>, p: spec_fn(T) -> bool)
    requires
        items.len() <= marks.len(),
        forall|i: int| 0 <= i < items.len() ==> marks[i] == p(#[trigger] items[i]),
    ensures
        kept(items, marks) == items.filter(p),
    decreases items.len(),
{
    reveal(Seq::filter);
    if items.len() > 0 {
        lemma_kept_is_filter(items.drop_last(), marks, p);
    }
}

/// What a search shows of a group.
///
/// A search by group shows a group whose display name, in lower case, holds
/// the needle, and shows it whole, whether or not an alias matches. A search
/// by name or command shows a group of which an alias passes the filter, and
/// of it the aliases that pass, in their order. The header counts the aliases
/// that are shown; a group that is collapsed is shown like any other.
pub proof fn lemma_search_shows_the_hits(
    g: GroupSpec,
    gi: int,
    field: SearchField,
    needle: Seq<char>,
)
    requires
        needle.len() > 0,
    ensures
        ({
            let hits = g.aliases.filter(shown(field, needle));
            let is_shown = if field == SearchField::Group {
                contains(lowered(g.source.display_name()), needle)
            } else {
                hits.len() > 0
            };
            &&& field == SearchField::Group ==> hits == g.aliases
            &&& group_rows(g, gi, field, needle) == if is_shown {
                seq![
                    ItemSpec::GroupHeader {
                        group_index: gi,
                        display_name: g.source.display_name(),
                        alias_count: hits.len() as int,
                        collapsed: g.collapsed,
                    },
                ] + hits.map_values(entry_of(gi))
            } else {
                Seq::empty()
            }
        }),
{
    let p = shown(field, needle);
    lemma_kept_is_filter(g.aliases, g.aliases.map_values(p), p);
    if field == SearchField::Group {
        lemma_filter_all(g.aliases, p);
    }
}

/// Where every item has a mark that holds, every item is kept.
pub proof fn lemma_kept_all<T>(items: Seq<T>, marks: Seq<bool>)
    requires
        items.len() <= marks.len(),
        forall|i: int| 0 <= i < items.len() ==> marks[i],
    ensures
        kept(items, marks) == items,
    decreases items.len(),
{
    if items.len() > 0 {
        lemma_kept_all(items.drop_last(), marks);
    }
}

/// Without a needle the rows of the first `n` groups are those that are shown
/// when nothing is filtered.
proof fn lemma_no_needle_rows_upto(groups: Seq<GroupSpec>, n: int, field: SearchField)
    requires
        n <= groups.len(),
    ensures
        rows_upto(groups, n, field, Seq::empty()) == plain_rows_upto(groups, n),
    decreases n,
{
    if n > 0 {
        lemma_no_needle_rows_upto(groups, n - 1, field);
        let g = groups[n - 1];
        let needle = Seq::<char>::empty();
        lemma_kept_all(g.aliases, g.aliases.map_values(shown(field, needle)));
    }
}

/// A query that holds nothing to search for filters nothing: the list shows
/// every group in order, each with its header and, unless it is collapsed,
/// all its aliases.
pub proof fn lemma_empty_search_shows_everything(groups: Seq<GroupSpec>, query: Seq<char>)
    requires
        searched_text(query).len() == 0,
    ensures
        visible_rows(groups, query) == all_rows(groups),
{
    lemma_no_needle_rows_upto(groups, groups.len() as int, search_field_of(query));
}

/// A session starts with every group shown.
pub proof fn lemma_new_session_shows_everything(groups: Seq<GroupSpec>)
    ensures
        AppSpec::initial(groups).visible_items == all_rows(groups),
{
    lemma_empty_search_shows_everything(groups, Seq::empty());
}

/// The state after the same action was taken `n` times.
pub open spec fn repeated(s: AppSpec, action: Action, n: nat) -> AppSpec
    decreases n,
{
    if n == 0 {
        s
    } else {
        repeated(s, action, (n - 1) as nat).after_action(action).0
    }
}

/// Scrolling up or down, however often, changes no row and never leaves the
/// rows: where there are rows, the selection stays between the first and the
/// last of them.
pub proof fn lemma_scrolling_stays_in_bounds(s: AppSpec, up: bool, n: nat)
    requires
        s.visible_items.len() > 0,
        0 <= s.selected_index,
        n > 0,
    ensures
        ({
            let action = if up {
                Action::ScrollUp
            } else {
                Action::ScrollDown
            };
            let t = repeated(s, action, n);
            t.visible_items == s.visible_items && 0 <= t.selected_index < t.visible_items.len()
        }),
    decreases n,
{
    let action = if up {
        Action::ScrollUp
    } else {
        Action::ScrollDown
    };
    if n > 1 {
        lemma_scrolling_stays_in_bounds(s, up, (n - 1) as nat);
    }
    // One more step from where the steps before led.
    assert(repeated(s, action, n) == repeated(s, action, (n - 1) as nat).after_action(action).0);
}

// ---------------------------------------------------------------------------
// The status message
// ---------------------------------------------------------------------------

/// The state `n` polls later.
pub open spec fn ticked_times(s: AppSpec, n: nat) -> AppSpec
    decreases n,
{
    if n == 0 {
        s
    } else {
        ticked_times(s, (n - 1) as nat).ticked()
    }
}

/// A status message stays for [`status_ticks`] polls: it is there after fewer
/// polls, and gone after that many and ever after.
pub proof fn lemma_status_countdown(s: AppSpec, msg: Seq<char>, n: nat)
    ensures
        s.with_status(msg).status_tick == status_ticks(),
        s.with_status(msg).status_message == Some(msg),
        n < status_ticks() ==> ticked_times(s.with_status(msg), n).status_message == Some(msg),
        n >= status_ticks() ==> ticked_times(s.with_status(msg), n).status_message is None,
        ticked_times(s.with_status(msg), n).status_tick == if n < status_ticks() {
            status_ticks() - n
        } else {
            0
        },
    decreases n,
{
    if n > 0 {
        lemma_status_countdown(s, msg, (n - 1) as nat);
    }
}

// ---------------------------------------------------------------------------
// A write that fails
// ---------------------------------------------------------------------------

/// A write that the store fails loses nothing: the reason becomes the
/// status, and the mode and the groups stay. What was tried is there to be
/// tried again or given up: an edit that was confirmed in spite of a
/// collision awaits confirmation again, and confirming asks the store for
/// the same write; any other edit is back in the form, with its active field.
pub proof fn lemma_failed_write_keeps_the_edit(
    s: AppSpec,
    form: EditSpec,
    collision: Option<Seq<char>>,
    reason: ManagedErrorSpec,
)
    requires
        well_formed(s),
        s.awaiting == Some(AwaitingSpec::Write { edit_state: form, collision }),
    ensures
        ({
            let failed = s.after_reply(ReplySpec::Finished(Err(reason)));
            let t = failed.0;
            &&& failed.1 is None
            &&& t.mode == s.mode
            &&& t.groups == s.groups
            &&& t.visible_items == s.visible_items
            &&& t.status_message == Some(reason.message())
            &&& t.status_tick == status_ticks()
            &&& t.awaiting is None
            &&& well_formed(t)
            &&& match collision {
                Some(desc) => {
                    &&& t.mode == InputMode::Confirm
                    &&& t.pending_action == Some(
                        PendingSpec::CollisionOverride { edit_state: form, collision_desc: desc },
                    )
                    &&& t.after_action(Action::ConfirmYes).1 == Some(form.write_request())
                },
                None => {
                    &&& t.mode == InputMode::Editing { field: form.active_field }
                    &&& t.edit_state == Some(form)
                },
            }
        }),
{
}

// ---------------------------------------------------------------------------
// Renaming onto a name that is taken
// ---------------------------------------------------------------------------

/// Saving an edit that gives the alias the name of another alias writes
/// nothing: it asks for confirmation. Declining brings back the form with the
/// name and the command that were tried; confirming asks the store to write
/// them.
pub proof fn lemma_rename_onto_alias_is_gated(s: AppSpec, form: EditSpec)
    requires
        s.edit_state == Some(form),
        validate_alias_name_spec(form.trimmed().name) is Ok,
        form.trimmed().command.len() > 0,
        form.trimmed().renames(),
        alias_collision_spec(form.trimmed().name, s.groups) is Some,
    ensures
        ({
            let e = form.trimmed();
            let saved = s.after_action(Action::SaveEdit);
            let declined = saved.0.after_action(Action::ConfirmNo);
            let confirmed = saved.0.after_action(Action::ConfirmYes);
            &&& saved.1 is None
            &&& saved.0.groups == s.groups
            &&& saved.0.mode == InputMode::Confirm
            &&& saved.0.pending_action == Some(
                PendingSpec::CollisionOverride {
                    edit_state: e,
                    collision_desc: alias_collision_spec(e.name, s.groups)->0.description(),
                },
            )
            &&& declined.1 is None
            &&& declined.0.mode == InputMode::Editing { field: e.active_field }
            &&& declined.0.edit_state == Some(e)
            &&& declined.0.groups == s.groups
            &&& confirmed.1 == Some(e.write_request())
        }),
{
}

// ---------------------------------------------------------------------------
// Creating and deleting
// ---------------------------------------------------------------------------

/// 1 where `p` holds, 0 where it does not.
pub open spec fn indicator(p: spec_fn(AliasSpec) -> bool) -> spec_fn(AliasSpec) -> int {
    |a: AliasSpec| if p(a) { 1int } else { 0int }
}

/// The number of aliases of a group that are not named `name`.
pub open spec fn kept_count(name: Seq<char>) -> spec_fn(GroupSpec) -> int {
    |g: GroupSpec| g.aliases.filter(not_named(name)).len() as int
}

/// Whether no alias of the groups is named `name`.
pub open spec fn unused(groups: Seq<GroupSpec>, name: Seq<char>) -> bool {
    forall|i: int, j: int|
        0 <= i < groups.len() && 0 <= j < groups[i].aliases.len() ==> (
        #[trigger] groups[i].aliases[j]).name != name
}

/// The items that satisfy a predicate are as many as the sum of its indicator.
pub proof fn lemma_filter_len_is_sum(s: Seq<AliasSpec>, p: spec_fn(AliasSpec) -> bool)
    ensures
        s.filter(p).len() == sum_by(s, indicator(p)),
    decreases s.len(),
{
    reveal(Seq::filter);
    if s.len() > 0 {
        lemma_filter_len_is_sum(s.drop_last(), p);
    }
}

/// Sorting changes the number of items that satisfy a predicate as little as
/// it changes the number of items.
pub proof fn lemma_sort_keeps_filter_len(
    s: Seq<AliasSpec>,
    key: spec_fn(AliasSpec) -> SortKey,
    p: spec_fn(AliasSpec) -> bool,
)
    ensures
        stable_sort(s, key).filter(p).len() == s.filter(p).len(),
{
    lemma_filter_len_is_sum(s, p);
    lemma_filter_len_is_sum(stable_sort(s, key), p);
    lemma_sort_keeps_sum(s, key, indicator(p));
}

/// A sum changes with one of its items by the difference of the shares.
pub proof fn lemma_sum_update<T>(s: Seq<T>, i: int, x: T, f: spec_fn(T) -> int)
    requires
        0 <= i < s.len(),
    ensures
        sum_by(s.update(i, x), f) == sum_by(s, f) - f(s[i]) + f(x),
    decreases s.len(),
{
    let r = s.update(i, x);
    if i == s.len() - 1 {
        assert(r.drop_last() =~= s.drop_last());
    } else {
        lemma_sum_update(s.drop_last(), i, x, f);
        assert(r.drop_last() =~= s.drop_last().update(i, x));
    }
}

/// Filtering a sequence of which every item passes leaves it as it is.
pub proof fn lemma_filter_all<T>(s: Seq<T>, p: spec_fn(T) -> bool)
    requires
        forall|i: int| 0 <= i < s.len() ==> p(#[trigger] s[i]),
    ensures
        s.filter(p) == s,
    decreases s.len(),
{
    reveal(Seq::filter);
    if s.len() > 0 {
        lemma_filter_all(s.drop_last(), p);
    }
}

/// After a deletion as many aliases are left as were not named so.
pub proof fn lemma_total_after_delete(groups: Seq<GroupSpec>, name: Seq<char>)
    ensures
        total_of(without_alias(groups, name)) == sum_by(groups, kept_count(name)),
    decreases groups.len(),
{
    reveal(Seq::filter);
    let mapped = groups.map_values(without_name(name));
    if groups.len() > 0 {
        let rest = groups.drop_last();
        lemma_total_after_delete(rest, name);
        assert(mapped.drop_last() =~= rest.map_values(without_name(name)));
        if non_empty()(mapped.last()) {
            assert(mapped.filter(non_empty()).drop_last() =~= mapped.drop_last().filter(
                non_empty(),
            ));
        }
    }
}

/// Where no alias is named `name`, all aliases are not named so.
pub proof fn lemma_kept_is_total(groups: Seq<GroupSpec>, name: Seq<char>)
    requires
        unused(groups, name),
    ensures
        sum_by(groups, kept_count(name)) == total_of(groups),
    decreases groups.len(),
{
    if groups.len() > 0 {
        let rest = groups.drop_last();
        assert(unused(rest, name));
        lemma_kept_is_total(rest, name);
        let g = groups.last();
        lemma_filter_all(g.aliases, not_named(name));
    }
}

/// A new alias counts for nothing among the aliases that are not named like it.
pub proof fn lemma_create_keeps_others(groups: Seq<GroupSpec>, name: Seq<char>, command: Seq<char>)
    ensures
        sum_by(with_new_alias(groups, name, command), kept_count(name)) == sum_by(
            groups,
            kept_count(name),
        ),
{
    reveal(Seq::filter);
    let new = custom_alias(name, command);
    let i = first_index(groups, is_custom());
    lemma_first_index(groups, is_custom());
    if i < groups.len() {
        let old = groups[i].aliases;
        let sorted = stable_sort(old.push(new), alias_key());
        lemma_sort_keeps_filter_len(old.push(new), alias_key(), not_named(name));
        old.lemma_filter_push(new, not_named(name));
        lemma_sum_update(groups, i, GroupSpec { aliases: sorted, ..groups[i] }, kept_count(name));
    } else {
        let g = GroupSpec { source: SourceSpec::ZamCustom, aliases: seq![new], collapsed: false };
        lemma_sort_keeps_sum(groups.push(g), group_key(), kept_count(name));
        assert(groups.push(g).drop_last() =~= groups);
        Seq::<AliasSpec>::empty().lemma_filter_push(new, not_named(name));
    }
}

/// Creating an alias under a name that no alias has, and deleting it again,
/// leaves as many aliases as there were.
pub proof fn lemma_create_then_delete_keeps_total(
    groups: Seq<GroupSpec>,
    name: Seq<char>,
    command: Seq<char>,
)
    requires
        unused(groups, name),
    ensures
        total_of(with_new_alias(groups, name, command)) == total_of(groups) + 1,
        total_of(without_alias(with_new_alias(groups, name, command), name)) == total_of(groups),
{
    lemma_total_after_delete(with_new_alias(groups, name, command), name);
    lemma_create_keeps_others(groups, name, command);
    lemma_kept_is_total(groups, name);
    // The total after the creation.
    let new = custom_alias(name, command);
    let i = first_index(groups, is_custom());
    lemma_first_index(groups, is_custom());
    if i < groups.len() {
        let sorted = stable_sort(groups[i].aliases.push(new), alias_key());
        lemma_sort_sorted(groups[i].aliases.push(new), alias_key());
        lemma_sum_update(groups, i, GroupSpec { aliases: sorted, ..groups[i] }, alias_count());
    } else {
        let g = GroupSpec { source: SourceSpec::ZamCustom, aliases: seq![new], collapsed: false };
        lemma_sort_keeps_sum(groups.push(g), group_key(), alias_count());
        assert(groups.push(g).drop_last() =~= groups);
    }
}

/// An item that fails the predicate can be put in anywhere: the filter drops
/// it again.
pub proof fn lemma_filter_insert<T>(s: Seq<T>, at: int, x: T, p: spec_fn(T) -> bool)
    requires
        0 <= at <= s.len(),
        !p(x),
    ensures
        s.insert(at, x).filter(p) == s.filter(p),
{
    let head = s.take(at);
    let tail = s.skip(at);
    assert(s.insert(at, x) =~= head.push(x) + tail);
    assert(s =~= head + tail);
    head.lemma_filter_push(x, p);
    Seq::filter_distributes_over_add(head.push(x), tail, p);
    Seq::filter_distributes_over_add(head, tail, p);
}

/// The predicate "holds an alias, and has its aliases in the order of their
/// names" on groups.
pub open spec fn settled_group() -> spec_fn(GroupSpec) -> bool {
    |g: GroupSpec| g.aliases.len() > 0 && is_sorted(g.aliases, alias_key())
}

/// Whether the groups are as they are when they were loaded: in the order in
/// which they are shown, each holding an alias and having its aliases in the
/// order of their names.
pub open spec fn settled_groups(groups: Seq<GroupSpec>) -> bool {
    &&& is_sorted(groups, group_key())
    &&& forall|i: int| 0 <= i < groups.len() ==> settled_group()(#[trigger] groups[i])
}

/// The groups that a categorization under a configuration gives are in the
/// order in which they are shown, and each holds an alias and has its
/// aliases in the order of their names.
pub proof fn lemma_loaded_groups_are_settled(table: TableSpec, raw: Seq<(Seq<char>, Seq<char>)>)
    ensures
        settled_groups(grouped(table, raw)),
{
    let found = buckets(table, raw, raw.len() as int);
    let shown = found.map_values(arrange());
    let groups = grouped(table, raw);
    assert forall|i: int| 0 <= i < shown.len() implies well_sorted()(#[trigger] shown[i]) by {
        lemma_sort_sorted(found[i].aliases, alias_key());
    }
    lemma_sort_sorted(shown, group_key());
    lemma_sort_keeps_property(shown, group_key(), well_sorted());
    lemma_groups_are_uniform(table, raw);
    assert forall|i: int| 0 <= i < groups.len() implies settled_group()(#[trigger] groups[i]) by {
        assert(well_sorted()(groups[i]));
        assert(is_uniform(groups[i]));
    }
}

/// What is left of a sorted sequence by a filter is sorted.
pub proof fn lemma_filter_keeps_sorted<T>(
    s: Seq<T>,
    key: spec_fn(T) -> SortKey,
    p: spec_fn(T) -> bool,
)
    requires
        is_sorted(s, key),
    ensures
        is_sorted(s.filter(p), key),
    decreases s.len(),
{
    reveal(Seq::filter);
    if s.len() > 0 {
        let rest = s.drop_last();
        let left = rest.filter(p);
        lemma_filter_keeps_sorted(rest, key, p);
        if p(s.last()) {
            let all = s.filter(p);
            assert forall|i: int, j: int| 0 <= i < j < all.len() implies !key_less(
                #[trigger] key(all[j]),
                #[trigger] key(all[i]),
            ) by {
                if j == left.len() {
                    assert(left.contains(left[i]));
                    rest.lemma_filter_contains_rev(p, left[i]);
                    let k = choose|k: int| 0 <= k < rest.len() && rest[k] == left[i];
                    assert(s[k] == left[i]);
                    assert(!key_less(key(s[s.len() - 1]), key(s[k])));
                } else {
                    assert(all[i] == left[i] && all[j] == left[j]);
                }
            }
        }
    }
}

/// Creating an alias leaves the groups as they are when they were loaded.
pub proof fn lemma_create_keeps_settled(
    groups: Seq<GroupSpec>,
    name: Seq<char>,
    command: Seq<char>,
)
    requires
        settled_groups(groups),
    ensures
        settled_groups(with_new_alias(groups, name, command)),
{
    let new = custom_alias(name, command);
    let i = first_index(groups, is_custom());
    lemma_first_index(groups, is_custom());
    let after = with_new_alias(groups, name, command);
    if i < groups.len() {
        lemma_sort_sorted(groups[i].aliases.push(new), alias_key());
        assert forall|a: int, b: int| 0 <= a < b < after.len() implies !key_less(
            #[trigger] group_key()(after[b]),
            #[trigger] group_key()(after[a]),
        ) by {
            assert(group_key()(after[a]) == group_key()(groups[a]));
            assert(group_key()(after[b]) == group_key()(groups[b]));
        }
        assert forall|j: int| 0 <= j < after.len() implies settled_group()(#[trigger] after[j]) by {
            assert(settled_group()(groups[j]));
        }
    } else {
        let made = GroupSpec { source: SourceSpec::ZamCustom, aliases: seq![new], collapsed: false };
        let longer = groups.push(made);
        assert forall|j: int| 0 <= j < longer.len() implies settled_group()(#[trigger] longer[j]) by {
            if j < groups.len() {
                assert(settled_group()(groups[j]));
            }
        }
        lemma_sort_keeps_property(longer, group_key(), settled_group());
        lemma_sort_sorted(longer, group_key());
    }
}

/// Deleting an alias leaves the groups as they are when they were loaded.
pub proof fn lemma_delete_keeps_settled(groups: Seq<GroupSpec>, name: Seq<char>)
    requires
        settled_groups(groups),
    ensures
        settled_groups(without_alias(groups, name)),
{
    let mapped = groups.map_values(without_name(name));
    let left = without_alias(groups, name);
    assert forall|a: int, b: int| 0 <= a < b < mapped.len() implies !key_less(
        #[trigger] group_key()(mapped[b]),
        #[trigger] group_key()(mapped[a]),
    ) by {
        assert(group_key()(mapped[a]) == group_key()(groups[a]));
        assert(group_key()(mapped[b]) == group_key()(groups[b]));
    }
    lemma_filter_keeps_sorted(mapped, group_key(), non_empty());
    assert forall|j: int| 0 <= j < left.len() implies settled_group()(#[trigger] left[j]) by {
        assert(left.contains(left[j]));
        mapped.lemma_filter_contains_rev(non_empty(), left[j]);
        let k = choose|k: int| 0 <= k < mapped.len() && mapped[k] == left[j];
        assert(settled_group()(groups[k]));
        lemma_filter_keeps_sorted(groups[k].aliases, alias_key(), not_named(name));
    }
}

/// Creating an alias under a name that no alias has, and deleting it again,
/// gives back the groups as they were: the same groups in the same order,
/// each with the same aliases in the same order. A group of the managed
/// store's own aliases is there afterwards exactly where it was there before.
pub proof fn lemma_create_then_delete_restores(
    groups: Seq<GroupSpec>,
    name: Seq<char>,
    command: Seq<char>,
)
    requires
        unused(groups, name),
        settled_groups(groups),
    ensures
        without_alias(with_new_alias(groups, name, command), name) == groups,
{
    let new = custom_alias(name, command);
    let i = first_index(groups, is_custom());
    lemma_first_index(groups, is_custom());
    let after = with_new_alias(groups, name, command);
    let mapped = after.map_values(without_name(name));
    if i < groups.len() {
        let before = groups[i].aliases;
        assert(settled_group()(groups[i]));
        assert(before.push(new).drop_last() =~= before);
        lemma_sort_of_sorted(before, alias_key());
        lemma_insertion_point(before, alias_key()(new), alias_key());
        lemma_filter_insert(
            before,
            insertion_point(before, alias_key()(new), alias_key()),
            new,
            not_named(name),
        );
        assert forall|j: int| 0 <= j < groups.len() implies #[trigger] mapped[j] == groups[j] by {
            lemma_filter_all(groups[j].aliases, not_named(name));
        }
        assert(mapped =~= groups);
    } else {
        let made = GroupSpec { source: SourceSpec::ZamCustom, aliases: seq![new], collapsed: false };
        let hollow = GroupSpec { aliases: Seq::empty(), ..made };
        assert(groups.push(made).drop_last() =~= groups);
        lemma_sort_of_sorted(groups, group_key());
        lemma_insertion_point(groups, group_key()(made), group_key());
        let at = insertion_point(groups, group_key()(made), group_key());
        assert(after == groups.insert(at, made));
        assert(seq![new].filter(not_named(name)) =~= Seq::<AliasSpec>::empty()) by {
            reveal_with_fuel(Seq::filter, 2);
        }
        assert(without_name(name)(made) == hollow);
        assert forall|j: int| 0 <= j < mapped.len() implies #[trigger] mapped[j] == groups.insert(
            at,
            hollow,
        )[j] by {
            if j < at {
                lemma_filter_all(groups[j].aliases, not_named(name));
            } else if j > at {
                lemma_filter_all(groups[j - 1].aliases, not_named(name));
            }
        }
        assert(mapped =~= groups.insert(at, hollow));
        lemma_filter_insert(groups, at, hollow, non_empty());
    }
    assert forall|j: int| 0 <= j < groups.len() implies non_empty()(#[trigger] groups[j]) by {
        assert(settled_group()(groups[j]));
    }
    lemma_filter_all(groups, non_empty());
}

/// In a session, creating an alias under a name that no alias has and
/// deleting it again gives back what was shown: the groups, the rows of the
/// list and the number of aliases are as they were before the creation, and
/// in between there is one alias more.
pub proof fn lemma_create_then_delete_restores_view(s: AppSpec, form: EditSpec)
    requires
        form.is_new,
        unused(s.groups, form.name),
        settled_groups(s.groups),
        s.consistent(),
    ensures
        ({
            let created = s.after_written(form, None, Ok(()));
            let deleted = created.after_removed(form.name, Ok(()));
            &&& created.total_aliases() == s.total_aliases() + 1
            &&& deleted.groups == s.groups
            &&& deleted.visible_items == s.visible_items
            &&& deleted.total_aliases() == s.total_aliases()
            &&& deleted.search_query == s.search_query
        }),
{
    lemma_create_then_delete_keeps_total(s.groups, form.name, form.command);
    lemma_create_then_delete_restores(s.groups, form.name, form.command);
}

/// A deletion leaves no alias of that name and no group without aliases.
pub proof fn lemma_delete_is_thorough(groups: Seq<GroupSpec>, name: Seq<char>)
    ensures
        unused(without_alias(groups, name), name),
        forall|i: int|
            0 <= i < without_alias(groups, name).len() ==> (#[trigger] without_alias(
                groups,
                name,
            )[i]).aliases.len() > 0,
{
    broadcast use vstd::seq_lib::group_filter_ensures;

    let mapped = groups.map_values(without_name(name));
    let left = without_alias(groups, name);
    assert forall|i: int| 0 <= i < left.len() implies (#[trigger] left[i]).aliases.len() > 0 && (
    forall|j: int| 0 <= j < left[i].aliases.len() ==> (#[trigger] left[i].aliases[j]).name
        != name) by {
        mapped.lemma_filter_pred(non_empty(), i);
        mapped.lemma_filter_contains_rev(non_empty(), left[i]);
        let k = choose|k: int| 0 <= k < mapped.len() && mapped[k] == left[i];
        assert forall|j: int| 0 <= j < left[i].aliases.len() implies (
        #[trigger] left[i].aliases[j]).name != name by {
            groups[k].aliases.lemma_filter_pred(not_named(name), j);
        }
    }
}

/// After a creation the first group of the managed store's own aliases holds
/// the new alias; and where no alias had that name, this group holds exactly
/// one alias of that name, with that command.
pub proof fn lemma_created_alias_is_held(groups: Seq<GroupSpec>, name: Seq<char>, command: Seq<char>)
    ensures
        ({
            let after = with_new_alias(groups, name, command);
            let i = first_index(after, is_custom());
            &&& 0 <= i < after.len()
            &&& after[i].source == SourceSpec::ZamCustom
            &&& after[i].aliases.contains(custom_alias(name, command))
            &&& unused(groups, name) ==> after[i].aliases.filter(named(name)) == seq![
                custom_alias(name, command),
            ]
        }),
{
    broadcast use vstd::seq_lib::group_to_multiset_ensures;

    let new = custom_alias(name, command);
    let after = with_new_alias(groups, name, command);
    let at = first_index(groups, is_custom());
    lemma_first_index(groups, is_custom());
    // The group that took the alias, before it was sorted.
    let taken: Seq<AliasSpec> = if at < groups.len() {
        groups[at].aliases.push(new)
    } else {
        seq![new]
    };
    let sorted = stable_sort(taken, alias_key());
    lemma_sort_permutes(taken, alias_key());
    assert(sorted.to_multiset().count(new) > 0);
    if at < groups.len() {
        lemma_first_index_is(after, is_custom(), at);
    } else {
        let g = GroupSpec { source: SourceSpec::ZamCustom, aliases: seq![new], collapsed: false };
        lemma_sort_permutes(groups.push(g), group_key());
        // The new group is among the sorted groups.
        assert(after.to_multiset().count(g) > 0);
        lemma_first_index(after, is_custom());
        let i = first_index(after, is_custom());
        // Every group of the store's own aliases is the new one.
        assert(after[i] == g) by {
            assert(after.to_multiset().count(after[i]) > 0);
        }
        lemma_sort_of_sorted(seq![new], alias_key());
    }
    if unused(groups, name) {
        // Exactly one alias of the group is named so, and it is the new one.
        lemma_held_once(groups, name, command);
    }
}

/// Where no alias had the name, the group that took the new alias holds
/// exactly one alias of that name: the new one.
proof fn lemma_held_once(groups: Seq<GroupSpec>, name: Seq<char>, command: Seq<char>)
    requires
        unused(groups, name),
    ensures
        ({
            let at = first_index(groups, is_custom());
            let taken: Seq<AliasSpec> = if 0 <= at < groups.len() {
                groups[at].aliases.push(custom_alias(name, command))
            } else {
                seq![custom_alias(name, command)]
            };
            stable_sort(taken, alias_key()).filter(named(name)) == seq![
                custom_alias(name, command),
            ]
        }),
{
    broadcast use vstd::seq_lib::group_filter_ensures;

    reveal(Seq::filter);
    let new = custom_alias(name, command);
    let at = first_index(groups, is_custom());
    lemma_first_index(groups, is_custom());
    let old: Seq<AliasSpec> = if at < groups.len() {
        groups[at].aliases
    } else {
        Seq::empty()
    };
    let taken = old.push(new);
    let sorted = stable_sort(taken, alias_key());
    // Among what was taken, only the new alias has the name.
    lemma_sort_keeps_property(taken, alias_key(), |a: AliasSpec| a.name == name ==> a == new);
    lemma_sort_keeps_filter_len(taken, alias_key(), named(name));
    old.lemma_filter_push(new, named(name));
    old.lemma_all_neg_filter_empty(named(name));
    let only = sorted.filter(named(name));
    sorted.lemma_filter_contains_rev(named(name), only[0]);
    sorted.lemma_filter_pred(named(name), 0);
}

// ---------------------------------------------------------------------------
// The modes
// ---------------------------------------------------------------------------

/// A session starts well-formed.
pub proof fn lemma_initial_is_well_formed(groups: Seq<GroupSpec>)
    ensures
        well_formed(AppSpec::initial(groups)),
        AppSpec::initial(groups).consistent(),
        AppSpec::initial(groups).selection_in_bounds(),
{
}

/// Every key stands for an action of its mode, or for none.
pub proof fn lemma_bindings_are_of_the_mode(press: KeyPress, mode: InputMode)
    ensures
        match binding(press, mode) {
            Some(action) => bound_in(action, mode),
            None => true,
        },
{
}

/// Clamping the selection keeps the session well-formed.
proof fn lemma_settled_keeps_well_formed(step: (AppSpec, Option<RequestSpec>))
    requires
        well_formed(step.0),
    ensures
        well_formed(AppSpec::settled(step).0),
{
}

proof fn lemma_search_keys(s: AppSpec, action: Action)
    requires
        well_formed(s),
        s.awaiting is None,
        s.mode == InputMode::Search,
        bound_in(action, s.mode),
    ensures
        well_formed(s.acted(action).0),
{
}

proof fn lemma_normal_keys(s: AppSpec, action: Action)
    requires
        well_formed(s),
        s.awaiting is None,
        s.mode is Normal,
        bound_in(action, s.mode),
    ensures
        well_formed(s.acted(action).0),
{
}

proof fn lemma_editing_keys(s: AppSpec, action: Action)
    requires
        well_formed(s),
        s.awaiting is None,
        s.mode is Editing,
        bound_in(action, s.mode),
    ensures
        well_formed(s.acted(action).0),
{
    if action == Action::SaveEdit {
        lemma_save_keeps_well_formed(s);
    }
}

proof fn lemma_save_keeps_well_formed(s: AppSpec)
    requires
        well_formed(s),
        s.awaiting is None,
        s.mode is Editing,
    ensures
        well_formed(s.saved().0),
{
}

proof fn lemma_confirm_keys(s: AppSpec, action: Action)
    requires
        well_formed(s),
        s.awaiting is None,
        s.mode == InputMode::Confirm,
        bound_in(action, s.mode),
    ensures
        well_formed(s.acted(action).0),
{
}

proof fn lemma_other_keys(s: AppSpec, action: Action)
    requires
        well_formed(s),
        s.awaiting is None,
        s.mode == InputMode::ResultPopup || s.mode == InputMode::Help,
        bound_in(action, s.mode),
    ensures
        well_formed(s.acted(action).0),
{
}

/// The actions of a mode keep the session well-formed.
pub proof fn lemma_actions_keep_well_formed(s: AppSpec, action: Action)
    requires
        well_formed(s),
        bound_in(action, s.mode),
    ensures
        well_formed(s.after_action(action).0),
{
    let idle = AppSpec { awaiting: None, ..s };
    match s.mode {
        InputMode::Normal { .. } => {
            lemma_normal_keys(idle, action);
        },
        InputMode::Search => {
            lemma_search_keys(idle, action);
        },
        InputMode::Editing { .. } => {
            lemma_editing_keys(idle, action);
        },
        InputMode::Confirm => {
            lemma_confirm_keys(idle, action);
        },
        InputMode::ResultPopup => {
            lemma_other_keys(idle, action);
        },
        InputMode::Help => {
            lemma_other_keys(idle, action);
        },
    }
    lemma_settled_keeps_well_formed(idle.acted(action));
}

/// The keys of a mode keep the session well-formed: whatever key is pressed,
/// the action that it stands for in the current mode leads to a well-formed
/// state again.
pub proof fn lemma_keys_keep_well_formed(s: AppSpec, press: KeyPress, action: Action)
    requires
        well_formed(s),
        binding(press, s.mode) == Some(action),
    ensures
        well_formed(s.after_action(action).0),
{
    lemma_bindings_are_of_the_mode(press, s.mode);
    lemma_actions_keep_well_formed(s, action);
}

/// Every reply of the driver keeps the session well-formed.
pub proof fn lemma_replies_keep_well_formed(s: AppSpec, reply: ReplySpec)
    requires
        well_formed(s),
    ensures
        well_formed(s.after_reply(reply).0),
{
}

/// A tick keeps the session well-formed.
pub proof fn lemma_ticks_keep_well_formed(s: AppSpec)
    requires
        well_formed(s),
        0 <= s.status_tick,
    ensures
        well_formed(s.ticked()),
{
}

} // verus!
