//! The state of an interactive session, and the state machine that drives it.
//!
//! The machine decides; it does not touch the disk or the shell. Where a step
//! needs the managed store or the shell, [`AppState::handle_action`] returns a
//! [`Request`]. The driver carries it out and hands the [`Reply`] to
//! [`AppState::handle_reply`], which goes on from there.

pub mod laws;
pub mod groups;
pub mod model;
pub mod rows;
pub mod state;

use crate::alias::types::{
    clone_opt_string, Alias, AliasGroup, AliasSource, AliasSpec, GroupSpec, ManagedError,
    ManagedErrorSpec, SourceSpec,
};
use vstd::prelude::*;

verus! {

/// Which panel has focus in normal mode.
#[derive(Debug, Clone, Copy, PartialEq, Eq, Structural)]
pub enum PanelFocus {
    List,
    Detail,
}

/// Which field of the edit form is active.
#[derive(Debug, Clone, Copy, PartialEq, Eq, Structural)]
pub enum EditField {
    Name,
    Command,
}

/// The current input mode.
#[derive(Debug, Clone, Copy, PartialEq, Eq, Structural)]
pub enum InputMode {
    Normal { focus: PanelFocus },
    Search,
    Editing { field: EditField },
    Confirm,
    ResultPopup,
    Help,
}

impl InputMode {
    /// Whether the search bar has the keys.
    pub open spec fn spec_is_search(self) -> bool {
        self is Search
    }

    /// Whether the search bar has the keys.
    #[verifier::when_used_as_spec(spec_is_search)]
    pub fn is_search(self) -> (r: bool)
        ensures
            r == (self is Search),
    {
        match self {
            InputMode::Search => true,
            _ => false,
        }
    }

    /// The panel that has focus: the one of normal mode, else the list.
    pub open spec fn spec_panel_focus(self) -> PanelFocus {
        match self {
            InputMode::Normal { focus } => focus,
            _ => PanelFocus::List,
        }
    }

    /// The panel that has focus: the one of normal mode, else the list.
    #[verifier::when_used_as_spec(spec_panel_focus)]
    pub fn panel_focus(self) -> (r: PanelFocus)
        ensures
            r == self.spec_panel_focus(),
    {
        match self {
            InputMode::Normal { focus } => focus,
            _ => PanelFocus::List,
        }
    }
}

/// An edit of a line of text at its end.
#[derive(Debug, Clone, Copy, PartialEq, Eq, Structural)]
pub enum TextEdit {
    /// Append a character.
    Push(char),
    /// Remove the last character, if there is one.
    Pop,
    /// Remove everything.
    Clear,
}

// ---------------------------------------------------------------------------
// The edit form
// ---------------------------------------------------------------------------

/// The state of the edit form, for a new alias or an existing one.
#[derive(Debug, PartialEq, Eq)]
pub struct EditState {
    pub name: String,
    pub command: String,
    pub active_field: EditField,
    pub is_new: bool,
    /// For edits: the name and the source that the alias had when editing began.
    pub original_name: Option<String>,
    pub original_source: Option<AliasSource>,
}

/// The mathematical model of an [`EditState`].
pub struct EditSpec {
    pub name: Seq<char>,
    pub command: Seq<char>,
    pub active_field: EditField,
    pub is_new: bool,
    pub original_name: Option<Seq<char>>,
    pub original_source: Option<SourceSpec>,
}

impl View for EditState {
    type V = EditSpec;

    open spec fn view(&self) -> EditSpec {
        EditSpec {
            name: self.name@,
            command: self.command@,
            active_field: self.active_field,
            is_new: self.is_new,
            original_name: self.original_name.deep_view(),
            original_source: self.original_source.deep_view(),
        }
    }
}

impl DeepView for EditState {
    type V = EditSpec;

    open spec fn deep_view(&self) -> EditSpec {
        self@
    }
}

/// A copy of an optional source.
pub fn clone_opt_source(s: &Option<AliasSource>) -> (r: Option<AliasSource>)
    ensures
        r == *s,
{
    match s {
        Some(t) => Some(t.clone()),
        None => None,
    }
}

impl Clone for EditState {
    fn clone(&self) -> (r: Self)
        ensures
            r == *self,
    {
        EditState {
            name: self.name.clone(),
            command: self.command.clone(),
            active_field: self.active_field,
            is_new: self.is_new,
            original_name: clone_opt_string(&self.original_name),
            original_source: clone_opt_source(&self.original_source),
        }
    }
}

// ---------------------------------------------------------------------------
// What awaits confirmation
// ---------------------------------------------------------------------------

/// A change that the user must confirm before it is made.
#[derive(Debug, PartialEq, Eq)]
pub enum PendingAction {
    Delete { alias_name: String, alias_source: AliasSource },
    CollisionOverride { edit_state: EditState, collision_desc: String },
}

/// The mathematical model of a [`PendingAction`].
pub enum PendingSpec {
    Delete { alias_name: Seq<char>, alias_source: SourceSpec },
    CollisionOverride { edit_state: EditSpec, collision_desc: Seq<char> },
}

impl View for PendingAction {
    type V = PendingSpec;

    open spec fn view(&self) -> PendingSpec {
        match self {
            PendingAction::Delete { alias_name, alias_source } => PendingSpec::Delete {
                alias_name: alias_name@,
                alias_source: alias_source@,
            },
            PendingAction::CollisionOverride {
                edit_state,
                collision_desc,
            } => PendingSpec::CollisionOverride {
                edit_state: edit_state@,
                collision_desc: collision_desc@,
            },
        }
    }
}

impl DeepView for PendingAction {
    type V = PendingSpec;

    open spec fn deep_view(&self) -> PendingSpec {
        self@
    }
}

impl Clone for PendingAction {
    fn clone(&self) -> (r: Self)
        ensures
            r == *self,
    {
        match self {
            PendingAction::Delete { alias_name, alias_source } => PendingAction::Delete {
                alias_name: alias_name.clone(),
                alias_source: alias_source.clone(),
            },
            PendingAction::CollisionOverride {
                edit_state,
                collision_desc,
            } => PendingAction::CollisionOverride {
                edit_state: edit_state.clone(),
                collision_desc: collision_desc.clone(),
            },
        }
    }
}

// ---------------------------------------------------------------------------
// The rows of the list
// ---------------------------------------------------------------------------

/// One row of the list in the left panel.
#[derive(Debug, PartialEq, Eq)]
pub enum ListItem {
    GroupHeader { group_index: usize, display_name: String, alias_count: usize, collapsed: bool },
    AliasEntry { group_index: usize, alias: Alias },
}

/// The mathematical model of a [`ListItem`].
pub enum ItemSpec {
    GroupHeader { group_index: int, display_name: Seq<char>, alias_count: int, collapsed: bool },
    AliasEntry { group_index: int, alias: AliasSpec },
}

impl View for ListItem {
    type V = ItemSpec;

    open spec fn view(&self) -> ItemSpec {
        match self {
            ListItem::GroupHeader {
                group_index,
                display_name,
                alias_count,
                collapsed,
            } => ItemSpec::GroupHeader {
                group_index: *group_index as int,
                display_name: display_name@,
                alias_count: *alias_count as int,
                collapsed: *collapsed,
            },
            ListItem::AliasEntry { group_index, alias } => ItemSpec::AliasEntry {
                group_index: *group_index as int,
                alias: alias@,
            },
        }
    }
}

impl DeepView for ListItem {
    type V = ItemSpec;

    open spec fn deep_view(&self) -> ItemSpec {
        self@
    }
}

impl Clone for ListItem {
    fn clone(&self) -> (r: Self)
        ensures
            r == *self,
    {
        match self {
            ListItem::GroupHeader {
                group_index,
                display_name,
                alias_count,
                collapsed,
            } => ListItem::GroupHeader {
                group_index: *group_index,
                display_name: display_name.clone(),
                alias_count: *alias_count,
                collapsed: *collapsed,
            },
            ListItem::AliasEntry { group_index, alias } => ListItem::AliasEntry {
                group_index: *group_index,
                alias: alias.clone(),
            },
        }
    }
}

// ---------------------------------------------------------------------------
// Requests to the driver, and its replies
// ---------------------------------------------------------------------------

/// What the driver has to do before the machine can go on.
#[derive(Debug, PartialEq, Eq)]
pub enum Request {
    /// Find out whether the managed store exists; answer with
    /// [`Reply::Initialized`].
    IsInitialized,
    /// Ask the shell what `name` is (`whence -w`); answer with
    /// [`Reply::WordClass`].
    ClassifyWord { name: String },
    /// Write the alias to the store's own alias file; answer with
    /// [`Reply::Finished`].
    WriteCustomAlias { name: String, command: String },
    /// Write an override of an alias of `source`; answer with
    /// [`Reply::Finished`].
    WriteOverride { name: String, command: String, source: AliasSource },
    /// Delete the alias from the store's own alias file; answer with
    /// [`Reply::Finished`].
    DeleteCustomAlias { name: String },
    /// Delete the override of an alias of `source`; answer with
    /// [`Reply::Finished`].
    DeleteOverride { name: String, source: AliasSource },
}

/// The mathematical model of a [`Request`].
pub enum RequestSpec {
    IsInitialized,
    ClassifyWord { name: Seq<char> },
    WriteCustomAlias { name: Seq<char>, command: Seq<char> },
    WriteOverride { name: Seq<char>, command: Seq<char>, source: SourceSpec },
    DeleteCustomAlias { name: Seq<char> },
    DeleteOverride { name: Seq<char>, source: SourceSpec },
}

impl View for Request {
    type V = RequestSpec;

    open spec fn view(&self) -> RequestSpec {
        match self {
            Request::IsInitialized => RequestSpec::IsInitialized,
            Request::ClassifyWord { name } => RequestSpec::ClassifyWord { name: name@ },
            Request::WriteCustomAlias { name, command } => RequestSpec::WriteCustomAlias {
                name: name@,
                command: command@,
            },
            Request::WriteOverride { name, command, source } => RequestSpec::WriteOverride {
                name: name@,
                command: command@,
                source: source@,
            },
            Request::DeleteCustomAlias { name } => RequestSpec::DeleteCustomAlias { name: name@ },
            Request::DeleteOverride { name, source } => RequestSpec::DeleteOverride {
                name: name@,
                source: source@,
            },
        }
    }
}

impl DeepView for Request {
    type V = RequestSpec;

    open spec fn deep_view(&self) -> RequestSpec {
        self@
    }
}

/// What the driver found or did.
#[derive(Debug, PartialEq, Eq)]
pub enum Reply {
    /// Whether the managed store exists.
    Initialized(bool),
    /// What `whence -w` printed; empty where the shell could not be run.
    WordClass(String),
    /// How the write or the deletion ended.
    Finished(Result<(), ManagedError>),
}

/// The mathematical model of a [`Reply`].
pub enum ReplySpec {
    Initialized(bool),
    WordClass(Seq<char>),
    Finished(Result<(), ManagedErrorSpec>),
}

impl View for Reply {
    type V = ReplySpec;

    open spec fn view(&self) -> ReplySpec {
        match self {
            Reply::Initialized(b) => ReplySpec::Initialized(*b),
            Reply::WordClass(s) => ReplySpec::WordClass(s@),
            Reply::Finished(r) => ReplySpec::Finished(
                match r {
                    Ok(_) => Ok(()),
                    Err(e) => Err(e@),
                },
            ),
        }
    }
}

/// What the machine will do with the next reply.
#[derive(Debug, PartialEq, Eq)]
pub enum Awaiting {
    /// Open the form for a new alias, if the store exists.
    Create,
    /// Open the form for the selected alias, if the store exists.
    Edit,
    /// Ask for confirmation to delete the selected alias, if the store exists.
    Delete,
    /// Save the edit, unless the shell knows the name.
    Classify { edit_state: EditState },
    /// Take the edit into the groups, once it is written. Where the edit was
    /// confirmed in spite of a collision, `collision` is its description:
    /// should the write fail, the edit awaits confirmation again; an edit
    /// that came from the form goes back into the form.
    Write { edit_state: EditState, collision: Option<String> },
    /// Take the alias out of the groups, once it is deleted.
    Remove { alias_name: String },
}

/// The mathematical model of an [`Awaiting`].
pub enum AwaitingSpec {
    Create,
    Edit,
    Delete,
    Classify { edit_state: EditSpec },
    Write { edit_state: EditSpec, collision: Option<Seq<char>> },
    Remove { alias_name: Seq<char> },
}

impl View for Awaiting {
    type V = AwaitingSpec;

    open spec fn view(&self) -> AwaitingSpec {
        match self {
            Awaiting::Create => AwaitingSpec::Create,
            Awaiting::Edit => AwaitingSpec::Edit,
            Awaiting::Delete => AwaitingSpec::Delete,
            Awaiting::Classify { edit_state } => AwaitingSpec::Classify {
                edit_state: edit_state@,
            },
            Awaiting::Write { edit_state, collision } => AwaitingSpec::Write {
                edit_state: edit_state@,
                collision: collision.deep_view(),
            },
            Awaiting::Remove { alias_name } => AwaitingSpec::Remove { alias_name: alias_name@ },
        }
    }
}

impl DeepView for Awaiting {
    type V = AwaitingSpec;

    open spec fn deep_view(&self) -> AwaitingSpec {
        self@
    }
}

// ---------------------------------------------------------------------------
// The session
// ---------------------------------------------------------------------------

/// The state of one interactive session.
pub struct AppState {
    /// The groups of aliases; what everything else is derived from.
    pub groups: Vec<AliasGroup>,
    /// The rows of the list, derived from the groups and the search query.
    pub visible_items: Vec<ListItem>,
    pub selected_index: usize,
    pub search_query: String,
    pub mode: InputMode,
    pub should_quit: bool,
    pub list_scroll_offset: usize,
    pub edit_state: Option<EditState>,
    pub pending_action: Option<PendingAction>,
    pub result_message: Option<String>,
    pub status_message: Option<String>,
    /// The polls for which the status message still stays.
    pub status_tick: u8,
    /// What the next reply of the driver is for.
    pub awaiting: Option<Awaiting>,
}

/// The mathematical model of an [`AppState`].
pub struct AppSpec {
    pub groups: Seq<GroupSpec>,
    pub visible_items: Seq<ItemSpec>,
    pub selected_index: int,
    pub search_query: Seq<char>,
    pub mode: InputMode,
    pub should_quit: bool,
    pub list_scroll_offset: int,
    pub edit_state: Option<EditSpec>,
    pub pending_action: Option<PendingSpec>,
    pub result_message: Option<Seq<char>>,
    pub status_message: Option<Seq<char>>,
    pub status_tick: int,
    pub awaiting: Option<AwaitingSpec>,
}

impl View for AppState {
    type V = AppSpec;

    open spec fn view(&self) -> AppSpec {
        AppSpec {
            groups: self.groups.deep_view(),
            visible_items: self.visible_items.deep_view(),
            selected_index: self.selected_index as int,
            search_query: self.search_query@,
            mode: self.mode,
            should_quit: self.should_quit,
            list_scroll_offset: self.list_scroll_offset as int,
            edit_state: self.edit_state.deep_view(),
            pending_action: self.pending_action.deep_view(),
            result_message: self.result_message.deep_view(),
            status_message: self.status_message.deep_view(),
            status_tick: self.status_tick as int,
            awaiting: self.awaiting.deep_view(),
        }
    }
}

} // verus!
