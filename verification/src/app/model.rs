//! The mathematical model of the state machine: what every step does to the
//! state, over the models of the data.

use crate::action::Action;
use crate::alias::sorting::{alias_key, group_key};
use crate::alias::types::{AliasSpec, GroupSpec, ManagedErrorSpec, SourceSpec};
use crate::app::{
    AppSpec, AwaitingSpec, EditField, EditSpec, InputMode, ItemSpec, PanelFocus, PendingSpec,
    ReplySpec, RequestSpec, TextEdit,
};
use crate::collision::{alias_collision_spec, check_shell_spec, holds, named};
use crate::managed::validate_alias_name_spec;
use crate::order::{stable_sort, sum_by};
use crate::text::{contains, first_index, lowered, trim};
use vstd::prelude::*;

verus! {

// ---------------------------------------------------------------------------
// The rows of the list
// ---------------------------------------------------------------------------

/// The field that a search query is matched against.
#[derive(Debug, Clone, Copy, PartialEq, Eq, Structural)]
pub enum SearchField {
    Name,
    Command,
    Group,
}

/// The field that `query` searches: the command after `=`, the group after
/// `@`, the name otherwise.
pub open spec fn search_field_of(query: Seq<char>) -> SearchField {
    if query.len() > 0 && query[0] == '=' {
        SearchField::Command
    } else if query.len() > 0 && query[0] == '@' {
        SearchField::Group
    } else {
        SearchField::Name
    }
}

/// The text of `query` that is searched for: what follows the prefix,
/// trimmed.
pub open spec fn searched_text(query: Seq<char>) -> Seq<char> {
    if search_field_of(query) == SearchField::Name {
        trim(query)
    } else {
        trim(query.skip(1))
    }
}

/// The text that `query` searches for, in lower case. An empty needle means
/// that nothing is filtered.
pub open spec fn needle_of(query: Seq<char>) -> Seq<char> {
    lowered(searched_text(query))
}

/// Whether an alias passes the filter.
pub open spec fn alias_shown(a: AliasSpec, field: SearchField, needle: Seq<char>) -> bool {
    needle.len() == 0 || match field {
        SearchField::Name => contains(lowered(a.name), needle),
        SearchField::Command => contains(lowered(a.command), needle),
        SearchField::Group => true,
    }
}

/// [`alias_shown`] as a function value.
pub open spec fn shown(field: SearchField, needle: Seq<char>) -> spec_fn(AliasSpec) -> bool {
    |a: AliasSpec| alias_shown(a, field, needle)
}

/// The items that are marked by `marks`: item `i` is kept where `marks[i]`
/// holds. An item without a mark is not kept.
pub open spec fn kept<T>(items: Seq<T>, marks: Seq<bool>) -> Seq<T>
    decreases items.len(),
{
    if items.len() == 0 {
        Seq::empty()
    } else {
        let before = kept(items.drop_last(), marks);
        if items.len() <= marks.len() && marks[items.len() - 1] {
            before.push(items.last())
        } else {
            before
        }
    }
}

/// The row of an alias of group `gi`.
pub open spec fn entry_of(gi: int) -> spec_fn(AliasSpec) -> ItemSpec {
    |a: AliasSpec| ItemSpec::AliasEntry { group_index: gi, alias: a }
}

/// The rows of one group, given what the search found: whether anything is
/// filtered, whether the search is by group and the group was hit, and which
/// aliases were hit.
///
/// Without a filter the group is shown: its header, and its aliases unless it
/// is collapsed. With a filter, a search by group shows a group that was hit,
/// any other search a group of which an alias was hit: its header, then the
/// aliases that were hit, collapsed or not. The header counts the aliases
/// that were hit.
pub open spec fn rows_given(
    g: GroupSpec,
    gi: int,
    filtering: bool,
    by_group: bool,
    group_hit: bool,
    hits: Seq<bool>,
) -> Seq<ItemSpec> {
    let matching = kept(g.aliases, hits);
    let is_shown = !filtering || if by_group {
        group_hit
    } else {
        matching.len() > 0
    };
    if !is_shown {
        Seq::empty()
    } else {
        let header = ItemSpec::GroupHeader {
            group_index: gi,
            display_name: g.source.display_name(),
            alias_count: matching.len() as int,
            collapsed: g.collapsed,
        };
        if !g.collapsed || filtering {
            seq![header] + matching.map_values(entry_of(gi))
        } else {
            seq![header]
        }
    }
}

/// The rows of one group under a search: an alias is hit where it passes the
/// filter, and the group where its display name, in lower case, holds the
/// needle.
pub open spec fn group_rows(g: GroupSpec, gi: int, field: SearchField, needle: Seq<char>) -> Seq<
    ItemSpec,
> {
    rows_given(
        g,
        gi,
        needle.len() > 0,
        field == SearchField::Group,
        contains(lowered(g.source.display_name()), needle),
        g.aliases.map_values(shown(field, needle)),
    )
}

/// The rows of the first `n` groups.
pub open spec fn rows_upto(groups: Seq<GroupSpec>, n: int, field: SearchField, needle: Seq<char>) -> Seq<
    ItemSpec,
>
    decreases n,
{
    if n <= 0 {
        Seq::empty()
    } else {
        rows_upto(groups, n - 1, field, needle) + group_rows(groups[n - 1], n - 1, field, needle)
    }
}

/// The rows of the list for these groups and this search query.
pub open spec fn visible_rows(groups: Seq<GroupSpec>, query: Seq<char>) -> Seq<ItemSpec> {
    rows_upto(groups, groups.len() as int, search_field_of(query), needle_of(query))
}

/// The rows of one group when nothing is filtered: its header, which counts
/// its aliases, and after it the aliases unless the group is collapsed.
pub open spec fn plain_rows(g: GroupSpec, gi: int) -> Seq<ItemSpec> {
    let header = ItemSpec::GroupHeader {
        group_index: gi,
        display_name: g.source.display_name(),
        alias_count: g.aliases.len() as int,
        collapsed: g.collapsed,
    };
    if g.collapsed {
        seq![header]
    } else {
        seq![header] + g.aliases.map_values(entry_of(gi))
    }
}

/// The rows of the first `n` groups when nothing is filtered.
pub open spec fn plain_rows_upto(groups: Seq<GroupSpec>, n: int) -> Seq<ItemSpec>
    decreases n,
{
    if n <= 0 {
        Seq::empty()
    } else {
        plain_rows_upto(groups, n - 1) + plain_rows(groups[n - 1], n - 1)
    }
}

/// The rows of the list when nothing is filtered: every group, in order.
pub open spec fn all_rows(groups: Seq<GroupSpec>) -> Seq<ItemSpec> {
    plain_rows_upto(groups, groups.len() as int)
}

/// The predicate "is the row of an alias" on rows.
pub open spec fn is_alias_row() -> spec_fn(ItemSpec) -> bool {
    |i: ItemSpec| i is AliasEntry
}

/// The group that a row belongs to.
pub open spec fn group_index_of(item: ItemSpec) -> int {
    match item {
        ItemSpec::GroupHeader { group_index, .. } => group_index,
        ItemSpec::AliasEntry { group_index, .. } => group_index,
    }
}

// ---------------------------------------------------------------------------
// Changes to the groups
// ---------------------------------------------------------------------------

/// The predicate "is the group of the managed store's own aliases".
pub open spec fn is_custom() -> spec_fn(GroupSpec) -> bool {
    |g: GroupSpec| g.source == SourceSpec::ZamCustom
}

/// The alias that the store's own alias file gives for `name` and `command`.
pub open spec fn custom_alias(name: Seq<char>, command: Seq<char>) -> AliasSpec {
    AliasSpec { name, command, source: SourceSpec::ZamCustom, description: None }
}

/// The groups after a new alias was created: it joins the first group of the
/// managed store's own aliases, which is sorted by name again; where there is
/// no such group, one is made, and the groups are sorted again.
pub open spec fn with_new_alias(groups: Seq<GroupSpec>, name: Seq<char>, command: Seq<char>) -> Seq<
    GroupSpec,
> {
    let i = first_index(groups, is_custom());
    if i < groups.len() {
        groups.update(
            i,
            GroupSpec {
                aliases: stable_sort(groups[i].aliases.push(custom_alias(name, command)), alias_key()),
                ..groups[i]
            },
        )
    } else {
        stable_sort(
            groups.push(
                GroupSpec {
                    source: SourceSpec::ZamCustom,
                    aliases: seq![custom_alias(name, command)],
                    collapsed: false,
                },
            ),
            group_key(),
        )
    }
}

/// The groups after an alias was edited: the first alias named `old_name`, in
/// the order of the groups, takes the new name and command where it stands.
pub open spec fn with_edit(
    groups: Seq<GroupSpec>,
    old_name: Seq<char>,
    new_name: Seq<char>,
    new_command: Seq<char>,
) -> Seq<GroupSpec> {
    let gi = first_index(groups, holds(old_name));
    if gi < groups.len() {
        let g = groups[gi];
        let ai = first_index(g.aliases, named(old_name));
        groups.update(
            gi,
            GroupSpec {
                aliases: g.aliases.update(
                    ai,
                    AliasSpec { name: new_name, command: new_command, ..g.aliases[ai] },
                ),
                ..g
            },
        )
    } else {
        groups
    }
}

/// The predicate "is not named `name`" on aliases.
pub open spec fn not_named(name: Seq<char>) -> spec_fn(AliasSpec) -> bool {
    |a: AliasSpec| a.name != name
}

/// A group without its aliases named `name`.
pub open spec fn without_name(name: Seq<char>) -> spec_fn(GroupSpec) -> GroupSpec {
    |g: GroupSpec| GroupSpec { aliases: g.aliases.filter(not_named(name)), ..g }
}

/// The predicate "holds an alias" on groups.
pub open spec fn non_empty() -> spec_fn(GroupSpec) -> bool {
    |g: GroupSpec| g.aliases.len() > 0
}

/// The groups after an alias was deleted: every alias of that name is gone,
/// and so is every group that holds no alias.
pub open spec fn without_alias(groups: Seq<GroupSpec>, name: Seq<char>) -> Seq<GroupSpec> {
    groups.map_values(without_name(name)).filter(non_empty())
}

// ---------------------------------------------------------------------------
// Messages
// ---------------------------------------------------------------------------

/// The status shown when the managed store does not exist.
pub open spec fn not_initialized_message() -> Seq<char> {
    "Not initialized — run `zam --init` first"@
}

/// The status shown when the command of an edit is empty.
pub open spec fn empty_command_message() -> Seq<char> {
    "Command cannot be empty"@
}

/// The result shown after an alias was created.
pub open spec fn created_message(name: Seq<char>, command: Seq<char>) -> Seq<char> {
    "Created alias: "@ + name + "="@ + command
}

/// The result shown after an alias was edited.
pub open spec fn updated_message(name: Seq<char>, command: Seq<char>) -> Seq<char> {
    "Updated alias: "@ + name + "="@ + command
}

/// The result shown after an alias was deleted.
pub open spec fn deleted_message(name: Seq<char>) -> Seq<char> {
    "Deleted alias: "@ + name
}

/// The number of polls for which a status message stays.
pub open spec fn status_ticks() -> int {
    30
}

/// The rows that a page key moves the selection by.
pub open spec fn page_size() -> int {
    10
}

// ---------------------------------------------------------------------------
// The edit form
// ---------------------------------------------------------------------------

/// The other field of the form.
pub open spec fn other_field(f: EditField) -> EditField {
    match f {
        EditField::Name => EditField::Command,
        EditField::Command => EditField::Name,
    }
}

impl EditSpec {
    /// The form for a new alias.
    pub open spec fn blank() -> EditSpec {
        EditSpec {
            name: Seq::empty(),
            command: Seq::empty(),
            active_field: EditField::Name,
            is_new: true,
            original_name: None,
            original_source: None,
        }
    }

    /// The form for an existing alias.
    pub open spec fn of_alias(a: AliasSpec) -> EditSpec {
        EditSpec {
            name: a.name,
            command: a.command,
            active_field: EditField::Command,
            is_new: false,
            original_name: Some(a.name),
            original_source: Some(a.source),
        }
    }

    /// The form with `edit` made to the active field.
    pub open spec fn with_edit(self, edit: TextEdit) -> EditSpec {
        match self.active_field {
            EditField::Name => EditSpec { name: edit.apply(self.name), ..self },
            EditField::Command => EditSpec { command: edit.apply(self.command), ..self },
        }
    }

    /// The form with both fields trimmed.
    pub open spec fn trimmed(self) -> EditSpec {
        EditSpec { name: trim(self.name), command: trim(self.command), ..self }
    }

    /// Whether saving gives the alias a name that it did not have.
    pub open spec fn renames(self) -> bool {
        self.original_name != Some(self.name)
    }

    /// The source that an edit is routed by; an edit that lost its origin is
    /// one of an alias of unknown source.
    pub open spec fn route(self) -> SourceSpec {
        match self.original_source {
            Some(s) => s,
            None => SourceSpec::Unknown,
        }
    }

    /// The name under which the edited alias stands in the groups; an edit
    /// that lost its origin stands under its own name.
    pub open spec fn target(self) -> Seq<char> {
        match self.original_name {
            Some(n) => n,
            None => self.name,
        }
    }

    /// The request that writes the form to the managed store: a new alias and
    /// one of the store's own go to its alias file, any other to an override.
    pub open spec fn write_request(self) -> RequestSpec {
        if self.is_new || self.route() == SourceSpec::ZamCustom {
            RequestSpec::WriteCustomAlias { name: self.name, command: self.command }
        } else {
            RequestSpec::WriteOverride {
                name: self.name,
                command: self.command,
                source: self.route(),
            }
        }
    }
}

/// `s` without its last character.
pub open spec fn without_last(s: Seq<char>) -> Seq<char> {
    if s.len() > 0 {
        s.drop_last()
    } else {
        s
    }
}

impl TextEdit {
    /// The text after the edit.
    pub open spec fn apply(self, s: Seq<char>) -> Seq<char> {
        match self {
            TextEdit::Push(c) => s.push(c),
            TextEdit::Pop => without_last(s),
            TextEdit::Clear => Seq::empty(),
        }
    }
}

// ---------------------------------------------------------------------------
// The steps
// ---------------------------------------------------------------------------

impl AppSpec {
    /// The state that a session starts in.
    pub open spec fn initial(groups: Seq<GroupSpec>) -> AppSpec {
        AppSpec {
            groups,
            visible_items: visible_rows(groups, Seq::empty()),
            selected_index: 0,
            search_query: Seq::empty(),
            mode: InputMode::Normal { focus: PanelFocus::List },
            should_quit: false,
            list_scroll_offset: 0,
            edit_state: None,
            pending_action: None,
            result_message: None,
            status_message: None,
            status_tick: 0,
            awaiting: None,
        }
    }

    /// Whether the rows are those of the groups and the query.
    pub open spec fn consistent(self) -> bool {
        self.visible_items == visible_rows(self.groups, self.search_query)
    }

    /// Whether the selection is a row, or 0 where there is no row.
    pub open spec fn selection_in_bounds(self) -> bool {
        0 <= self.selected_index && (self.selected_index < self.visible_items.len()
            || self.selected_index == 0)
    }

    /// The state with its rows derived anew.
    pub open spec fn rebuilt(self) -> AppSpec {
        AppSpec { visible_items: visible_rows(self.groups, self.search_query), ..self }
    }

    /// The state with the selection brought back into the rows.
    pub open spec fn clamped(self) -> AppSpec {
        if self.visible_items.len() == 0 {
            AppSpec { selected_index: 0, ..self }
        } else if self.selected_index >= self.visible_items.len() {
            AppSpec { selected_index: self.visible_items.len() - 1, ..self }
        } else {
            self
        }
    }

    /// The state with the selection moved by `delta` rows, stopping at the
    /// first and the last row.
    pub open spec fn moved(self, delta: int) -> AppSpec {
        if self.visible_items.len() == 0 {
            self
        } else if delta < 0 {
            AppSpec {
                selected_index: if self.selected_index + delta < 0 {
                    0
                } else {
                    self.selected_index + delta
                },
                ..self
            }
        } else {
            AppSpec {
                selected_index: if self.selected_index + delta > self.visible_items.len() - 1 {
                    self.visible_items.len() - 1
                } else {
                    self.selected_index + delta
                },
                ..self
            }
        }
    }

    /// The state with the group of the selected row collapsed or expanded.
    pub open spec fn toggled(self) -> AppSpec {
        if 0 <= self.selected_index < self.visible_items.len() {
            let gi = group_index_of(self.visible_items[self.selected_index]);
            if 0 <= gi < self.groups.len() {
                AppSpec {
                    groups: self.groups.update(
                        gi,
                        GroupSpec { collapsed: !self.groups[gi].collapsed, ..self.groups[gi] },
                    ),
                    ..self
                }.rebuilt()
            } else {
                self.rebuilt()
            }
        } else {
            self
        }
    }

    /// The state with a new search query: the rows are derived anew and the
    /// first row is selected.
    pub open spec fn searching(self, query: Seq<char>) -> AppSpec {
        AppSpec { selected_index: 0, ..AppSpec { search_query: query, ..self }.rebuilt() }
    }

    /// The state with a status message, which stays for [`status_ticks`] polls.
    pub open spec fn with_status(self, msg: Seq<char>) -> AppSpec {
        AppSpec { status_message: Some(msg), status_tick: status_ticks(), ..self }
    }

    /// The state that shows a result.
    pub open spec fn with_result(self, msg: Seq<char>) -> AppSpec {
        AppSpec { result_message: Some(msg), mode: InputMode::ResultPopup, ..self }
    }

    /// The state one poll later: the countdown of the status message goes
    /// down by one, and the message goes when it reaches 0.
    pub open spec fn ticked(self) -> AppSpec {
        if self.status_tick > 0 {
            if self.status_tick == 1 {
                AppSpec { status_tick: 0, status_message: None, ..self }
            } else {
                AppSpec { status_tick: self.status_tick - 1, ..self }
            }
        } else {
            self
        }
    }

    /// The alias that the selection stands for: the alias of an alias row; the
    /// first alias of the group of a header row.
    pub open spec fn selected_alias(self) -> Option<AliasSpec> {
        if 0 <= self.selected_index < self.visible_items.len() {
            match self.visible_items[self.selected_index] {
                ItemSpec::AliasEntry { alias, .. } => Some(alias),
                ItemSpec::GroupHeader { group_index, .. } => {
                    if 0 <= group_index < self.groups.len() && self.groups[group_index].aliases.len()
                        > 0 {
                        Some(self.groups[group_index].aliases[0])
                    } else {
                        None
                    }
                },
            }
        } else {
            None
        }
    }

    /// The state with the scroll offset moved as little as brings the
    /// selection into a window of `height` rows; a window of no rows sets the
    /// offset to 0.
    pub open spec fn scrolled(self, height: int) -> AppSpec {
        if height == 0 {
            AppSpec { list_scroll_offset: 0, ..self }
        } else if self.selected_index < self.list_scroll_offset {
            AppSpec { list_scroll_offset: self.selected_index, ..self }
        } else if self.selected_index >= self.list_scroll_offset + height {
            AppSpec { list_scroll_offset: self.selected_index - height + 1, ..self }
        } else {
            self
        }
    }

    // -- create, edit, delete ------------------------------------------------

    /// What the answer to "does the store exist?" leads to.
    pub open spec fn after_initialized(self, wanted: AwaitingSpec, initialized: bool) -> AppSpec {
        if !initialized {
            self.with_status(not_initialized_message())
        } else {
            match wanted {
                AwaitingSpec::Create => AppSpec {
                    edit_state: Some(EditSpec::blank()),
                    mode: InputMode::Editing { field: EditField::Name },
                    ..self
                },
                AwaitingSpec::Edit => match self.selected_alias() {
                    Some(a) => AppSpec {
                        edit_state: Some(EditSpec::of_alias(a)),
                        mode: InputMode::Editing { field: EditField::Command },
                        ..self
                    },
                    None => self,
                },
                AwaitingSpec::Delete => match self.selected_alias() {
                    Some(a) => AppSpec {
                        pending_action: Some(
                            PendingSpec::Delete { alias_name: a.name, alias_source: a.source },
                        ),
                        mode: InputMode::Confirm,
                        ..self
                    },
                    None => self,
                },
                _ => self,
            }
        }
    }

    /// The state with `edit` made to the active field of the form; without a
    /// form nothing changes.
    pub open spec fn edited(self, edit: TextEdit) -> AppSpec {
        match self.edit_state {
            Some(e) => AppSpec { edit_state: Some(e.with_edit(edit)), ..self },
            None => self,
        }
    }

    /// The state with the other field of the form active.
    pub open spec fn field_toggled(self) -> AppSpec {
        match self.edit_state {
            Some(e) => AppSpec {
                edit_state: Some(EditSpec { active_field: other_field(e.active_field), ..e }),
                mode: InputMode::Editing { field: other_field(e.active_field) },
                ..self
            },
            None => self,
        }
    }

    /// What writing the form `e` begins with: the request to the store, and
    /// the state that waits for its answer. `collision` describes the
    /// collision in spite of which the write was confirmed, if it was.
    pub open spec fn writing(self, e: EditSpec, collision: Option<Seq<char>>) -> (
        AppSpec,
        Option<RequestSpec>,
    ) {
        (
            AppSpec { awaiting: Some(AwaitingSpec::Write { edit_state: e, collision }), ..self },
            Some(e.write_request()),
        )
    }

    /// The state that asks for confirmation to save `e` in spite of a
    /// collision described by `desc`.
    pub open spec fn confirming_collision(self, e: EditSpec, desc: Seq<char>) -> AppSpec {
        AppSpec {
            pending_action: Some(
                PendingSpec::CollisionOverride { edit_state: e, collision_desc: desc },
            ),
            mode: InputMode::Confirm,
            ..self
        }
    }

    /// What saving the form does.
    ///
    /// An invalid name or an empty command gives a status message and leaves
    /// the form as it is. A name that the alias did not have is checked for a
    /// collision: with an alias in memory it leads to the confirmation at
    /// once, otherwise the shell is asked. An unchanged name is written.
    pub open spec fn saved(self) -> (AppSpec, Option<RequestSpec>) {
        match self.edit_state {
            None => (self, None),
            Some(form) => {
                let e = form.trimmed();
                let taken = AppSpec { edit_state: None, ..self };
                match validate_alias_name_spec(e.name) {
                    Err(err) => (self.with_status(err.message()), None),
                    Ok(_) => {
                        if e.command.len() == 0 {
                            (self.with_status(empty_command_message()), None)
                        } else if e.renames() {
                            match alias_collision_spec(e.name, self.groups) {
                                Some(c) => (taken.confirming_collision(e, c.description()), None),
                                None => (
                                    AppSpec {
                                        awaiting: Some(AwaitingSpec::Classify { edit_state: e }),
                                        ..taken
                                    },
                                    Some(RequestSpec::ClassifyWord { name: e.name }),
                                ),
                            }
                        } else {
                            taken.writing(e, None)
                        }
                    },
                }
            },
        }
    }

    /// What the shell's classification of the new name leads to: a
    /// confirmation where it is a collision, the write where it is none.
    pub open spec fn after_classified(self, e: EditSpec, output: Seq<char>) -> (
        AppSpec,
        Option<RequestSpec>,
    ) {
        match check_shell_spec(output) {
            Some(c) => (self.confirming_collision(e, c.description()), None),
            None => self.writing(e, None),
        }
    }

    /// The state after the store wrote the form `e`, or failed to.
    ///
    /// A failure becomes the status, and the mode stays, so that the write
    /// can be tried again or given up: an edit that was confirmed in spite of
    /// a collision awaits confirmation again, any other is back in the form.
    pub open spec fn after_written(
        self,
        e: EditSpec,
        collision: Option<Seq<char>>,
        outcome: Result<(), ManagedErrorSpec>,
    ) -> AppSpec {
        match outcome {
            Err(err) => match collision {
                Some(desc) => AppSpec {
                    pending_action: Some(
                        PendingSpec::CollisionOverride { edit_state: e, collision_desc: desc },
                    ),
                    ..self.with_status(err.message())
                },
                None => AppSpec { edit_state: Some(e), ..self.with_status(err.message()) },
            },
            Ok(_) => {
                if e.is_new {
                    AppSpec {
                        groups: with_new_alias(self.groups, e.name, e.command),
                        ..self
                    }.with_result(created_message(e.name, e.command)).rebuilt()
                } else {
                    AppSpec {
                        groups: with_edit(self.groups, e.target(), e.name, e.command),
                        ..self
                    }.with_result(updated_message(e.name, e.command)).rebuilt()
                }
            },
        }
    }

    /// The state after the store deleted the alias `name`, or failed to.
    pub open spec fn after_removed(self, name: Seq<char>, outcome: Result<(), ManagedErrorSpec>) -> AppSpec {
        match outcome {
            Err(err) => AppSpec {
                mode: InputMode::Normal { focus: PanelFocus::List },
                ..self.with_status(err.message())
            }.rebuilt(),
            Ok(_) => AppSpec { groups: without_alias(self.groups, name), ..self }.with_result(
                deleted_message(name),
            ).rebuilt(),
        }
    }

    /// What confirming does: the pending deletion is asked of the store, the
    /// pending edit is written.
    pub open spec fn confirmed(self) -> (AppSpec, Option<RequestSpec>) {
        let taken = AppSpec { pending_action: None, ..self };
        match self.pending_action {
            None => (self, None),
            Some(PendingSpec::Delete { alias_name, alias_source }) => (
                AppSpec { awaiting: Some(AwaitingSpec::Remove { alias_name }), ..taken },
                Some(
                    if alias_source == SourceSpec::ZamCustom {
                        RequestSpec::DeleteCustomAlias { name: alias_name }
                    } else {
                        RequestSpec::DeleteOverride { name: alias_name, source: alias_source }
                    },
                ),
            ),
            Some(PendingSpec::CollisionOverride { edit_state, collision_desc }) => taken.writing(
                edit_state,
                Some(collision_desc),
            ),
        }
    }

    /// What declining does: a pending edit goes back into the form, anything
    /// else is dropped.
    pub open spec fn declined(self) -> AppSpec {
        match self.pending_action {
            Some(PendingSpec::CollisionOverride { edit_state, .. }) => AppSpec {
                pending_action: None,
                edit_state: Some(edit_state),
                mode: InputMode::Editing { field: edit_state.active_field },
                ..self
            },
            _ => AppSpec {
                pending_action: None,
                mode: InputMode::Normal { focus: PanelFocus::List },
                ..self
            },
        }
    }

    /// The state with the mode set.
    pub open spec fn in_mode(self, mode: InputMode) -> AppSpec {
        AppSpec { mode, ..self }
    }

    /// What an action does before the selection is clamped.
    pub open spec fn acted(self, action: Action) -> (AppSpec, Option<RequestSpec>) {
        let list = InputMode::Normal { focus: PanelFocus::List };
        match action {
            Action::Quit => (AppSpec { should_quit: true, ..self }, None),
            Action::ScrollUp => (self.moved(-1), None),
            Action::ScrollDown => (self.moved(1), None),
            Action::PageUp => (self.moved(-page_size()), None),
            Action::PageDown => (self.moved(page_size()), None),
            Action::GoToTop => (AppSpec { selected_index: 0, ..self }, None),
            Action::GoToBottom => (
                if self.visible_items.len() > 0 {
                    AppSpec { selected_index: self.visible_items.len() - 1, ..self }
                } else {
                    self
                },
                None,
            ),
            Action::ToggleCollapse => (self.toggled(), None),
            Action::FocusSearch => (self.in_mode(InputMode::Search), None),
            Action::ExitSearch => (self.in_mode(list), None),
            Action::SwitchFocus => (
                self.in_mode(
                    InputMode::Normal {
                        focus: match self.mode.spec_panel_focus() {
                            PanelFocus::List => PanelFocus::Detail,
                            PanelFocus::Detail => PanelFocus::List,
                        },
                    },
                ),
                None,
            ),
            Action::SearchInput(c) => (
                self.searching(TextEdit::Push(c).apply(self.search_query)),
                None,
            ),
            Action::SearchBackspace => (
                self.searching(TextEdit::Pop.apply(self.search_query)),
                None,
            ),
            Action::SearchClear => (self.searching(TextEdit::Clear.apply(self.search_query)), None),
            Action::CreateAlias => (
                AppSpec { awaiting: Some(AwaitingSpec::Create), ..self },
                Some(RequestSpec::IsInitialized),
            ),
            Action::EditAlias => (
                AppSpec { awaiting: Some(AwaitingSpec::Edit), ..self },
                Some(RequestSpec::IsInitialized),
            ),
            Action::DeleteAlias => (
                AppSpec { awaiting: Some(AwaitingSpec::Delete), ..self },
                Some(RequestSpec::IsInitialized),
            ),
            Action::EditInput(c) => (self.edited(TextEdit::Push(c)), None),
            Action::EditBackspace => (self.edited(TextEdit::Pop), None),
            Action::EditClear => (self.edited(TextEdit::Clear), None),
            Action::EditNextField => (self.field_toggled(), None),
            Action::EditPrevField => (self.field_toggled(), None),
            Action::SaveEdit => self.saved(),
            Action::CancelEdit => (AppSpec { edit_state: None, ..self }.in_mode(list), None),
            Action::ConfirmYes => self.confirmed(),
            Action::ConfirmNo => (self.declined(), None),
            Action::DismissResult => (AppSpec { result_message: None, ..self }.in_mode(list), None),
            Action::ShowHelp => (self.in_mode(InputMode::Help), None),
            Action::CloseHelp => (self.in_mode(list), None),
        }
    }

    /// What a reply does before the selection is clamped. A reply that nothing
    /// waits for, or of another kind than awaited, changes nothing.
    pub open spec fn replied(self, reply: ReplySpec) -> (AppSpec, Option<RequestSpec>) {
        let idle = AppSpec { awaiting: None, ..self };
        match (self.awaiting, reply) {
            (Some(AwaitingSpec::Create), ReplySpec::Initialized(b)) => (
                idle.after_initialized(AwaitingSpec::Create, b),
                None,
            ),
            (Some(AwaitingSpec::Edit), ReplySpec::Initialized(b)) => (
                idle.after_initialized(AwaitingSpec::Edit, b),
                None,
            ),
            (Some(AwaitingSpec::Delete), ReplySpec::Initialized(b)) => (
                idle.after_initialized(AwaitingSpec::Delete, b),
                None,
            ),
            (Some(AwaitingSpec::Classify { edit_state }), ReplySpec::WordClass(output)) => idle.after_classified(
                edit_state,
                output,
            ),
            (Some(AwaitingSpec::Write { edit_state, collision }), ReplySpec::Finished(outcome)) => (
                idle.after_written(edit_state, collision, outcome),
                None,
            ),
            (Some(AwaitingSpec::Remove { alias_name }), ReplySpec::Finished(outcome)) => (
                idle.after_removed(alias_name, outcome),
                None,
            ),
            _ => (idle, None),
        }
    }

    /// The end of a step: where nothing is asked of the driver the selection
    /// is clamped; where something is, that waits for the reply.
    pub open spec fn settled(step: (AppSpec, Option<RequestSpec>)) -> (
        AppSpec,
        Option<RequestSpec>,
    ) {
        match step.1 {
            None => (step.0.clamped(), None),
            Some(r) => step,
        }
    }

    /// What [`crate::app::AppState::handle_action`] does: a request that
    /// was not answered is forgotten, then the action is taken.
    pub open spec fn after_action(self, action: Action) -> (AppSpec, Option<RequestSpec>) {
        Self::settled(AppSpec { awaiting: None, ..self }.acted(action))
    }

    /// What [`crate::app::AppState::handle_reply`] does.
    pub open spec fn after_reply(self, reply: ReplySpec) -> (AppSpec, Option<RequestSpec>) {
        Self::settled(self.replied(reply))
    }

    /// The number of aliases in all groups.
    pub open spec fn total_aliases(self) -> int {
        total_of(self.groups)
    }

    /// The number of alias rows.
    pub open spec fn visible_alias_count(self) -> int {
        self.visible_items.filter(is_alias_row()).len() as int
    }

    /// The label of the field that the query searches.
    pub open spec fn search_field(self) -> Seq<char> {
        match search_field_of(self.search_query) {
            SearchField::Command => "Command"@,
            SearchField::Group => "Group"@,
            SearchField::Name => "Search"@,
        }
    }
}

/// The number of aliases of a group, as a function value.
pub open spec fn alias_count() -> spec_fn(GroupSpec) -> int {
    |g: GroupSpec| g.aliases.len() as int
}

/// The number of aliases in `groups`.
pub open spec fn total_of(groups: Seq<GroupSpec>) -> int {
    sum_by(groups, alias_count())
}

// ---------------------------------------------------------------------------
// The shapes of a session
// ---------------------------------------------------------------------------

/// Whether the state is one that a session can be in: the form is there only
/// while it is edited, and then its active field is that of the mode; what
/// is pending is there only while it awaits confirmation; a result is shown
/// just as long as the mode says so; the countdown runs just as long as there
/// is a status; and while the driver owes a reply, the form and what was
/// pending are taken, and the mode is the one that they go back to should
/// the store fail.
pub open spec fn well_formed(s: AppSpec) -> bool {
    &&& match s.edit_state {
        Some(e) => s.mode == InputMode::Editing { field: e.active_field },
        None => true,
    }
    &&& (s.pending_action is Some ==> s.mode == InputMode::Confirm)
    &&& (s.result_message is Some <==> s.mode == InputMode::ResultPopup)
    &&& (s.status_message is Some <==> s.status_tick > 0)
    &&& match s.awaiting {
        None => true,
        Some(AwaitingSpec::Create) | Some(AwaitingSpec::Edit) | Some(AwaitingSpec::Delete) => {
            s.mode is Normal
        },
        Some(AwaitingSpec::Classify { edit_state }) => s.mode == InputMode::Editing {
            field: edit_state.active_field,
        } && s.edit_state is None,
        Some(AwaitingSpec::Write { edit_state, collision }) => s.mode == match collision {
            Some(_) => InputMode::Confirm,
            None => InputMode::Editing { field: edit_state.active_field },
        } && s.edit_state is None && s.pending_action is None,
        Some(AwaitingSpec::Remove { .. }) => s.mode == InputMode::Confirm
            && s.pending_action is None,
    }
}

/// Whether an action is one that a key of the mode stands for.
pub open spec fn bound_in(action: Action, mode: InputMode) -> bool {
    action == Action::Quit || match mode {
        InputMode::Search => action == Action::ExitSearch || action == Action::SearchBackspace
            || action == Action::SwitchFocus || action == Action::SearchClear
            || action is SearchInput,
        InputMode::Normal { .. } => action == Action::FocusSearch || action == Action::ScrollDown
            || action == Action::ScrollUp || action == Action::ToggleCollapse || action
            == Action::SwitchFocus || action == Action::GoToTop || action == Action::GoToBottom
            || action == Action::PageDown || action == Action::PageUp || action
            == Action::CreateAlias || action == Action::EditAlias || action == Action::DeleteAlias
            || action == Action::ShowHelp,
        InputMode::Editing { .. } => action == Action::CancelEdit || action == Action::SaveEdit
            || action == Action::EditNextField || action == Action::EditPrevField || action
            == Action::EditBackspace || action == Action::EditClear || action is EditInput,
        InputMode::Confirm => action == Action::ConfirmYes || action == Action::ConfirmNo,
        InputMode::ResultPopup => action == Action::DismissResult,
        InputMode::Help => action == Action::CloseHelp,
    }
}

} // verus!
