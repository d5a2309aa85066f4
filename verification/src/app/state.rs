//! The executable state machine.

use crate::action::Action;
use crate::alias::types::{Alias, AliasGroup, AliasSource, GroupSpec, ManagedError, SourceSpec};
use crate::app::{
    groups, AppSpec, AppState, Awaiting, AwaitingSpec, EditField, EditSpec, EditState, InputMode,
    ListItem, PanelFocus, PendingAction, PendingSpec, Reply, Request, RequestSpec, TextEdit,
};
use crate::app::laws::{
    lemma_action_keeps_invariants, lemma_actions_keep_well_formed, lemma_delete_is_thorough,
    lemma_empty_search_shows_everything, lemma_replies_keep_well_formed,
    lemma_reply_keeps_invariants, unused,
};
use crate::app::model::{
    alias_count, all_rows, bound_in, created_message, deleted_message, is_alias_row,
    updated_message, well_formed, with_edit, with_new_alias, without_alias, SearchField,
};
use crate::app::rows::{build_rows, field_of_query};
use crate::collision::{alias_collision, alias_collision_spec, check_shell};
use crate::managed::{validate_alias_name, validate_alias_name_spec};
use crate::order::sum_by;
use crate::text::{chars_of, concat2, concat3, str_eq, string_of, subvec, trim, trimmed};
use vstd::prelude::*;

verus! {

/// The number of polls for which a status message stays: about three seconds
/// at ten polls a second.
pub const STATUS_TICKS: u8 = 30;

/// The rows that a page key moves the selection by.
pub const PAGE_SIZE: usize = 10;

/// The text after an edit at its end.
pub fn edit_text(s: &String, edit: TextEdit) -> (r: String)
    ensures
        r@ == edit.apply(s@),
{
    match edit {
        TextEdit::Push(c) => {
            let mut t = s.clone();
            t.push(c);
            t
        },
        TextEdit::Pop => {
            let chars = chars_of(s.as_str());
            if chars.len() > 0 {
                string_of(&subvec(&chars, 0, chars.len() - 1))
            } else {
                s.clone()
            }
        },
        TextEdit::Clear => String::new(),
    }
}

/// `s` without the white space around it.
fn trimmed_string(s: &String) -> (r: String)
    ensures
        r@ == trim(s@),
{
    string_of(&trimmed(&chars_of(s.as_str())))
}

impl EditState {
    /// The form for a new alias.
    pub fn blank() -> (r: EditState)
        ensures
            r@ == EditSpec::blank(),
    {
        EditState {
            name: String::new(),
            command: String::new(),
            active_field: EditField::Name,
            is_new: true,
            original_name: None,
            original_source: None,
        }
    }

    /// The form for an existing alias.
    pub fn of_alias(alias: &Alias) -> (r: EditState)
        ensures
            r@ == EditSpec::of_alias(alias@),
    {
        EditState {
            name: alias.name.clone(),
            command: alias.command.clone(),
            active_field: EditField::Command,
            is_new: false,
            original_name: Some(alias.name.clone()),
            original_source: Some(alias.source.clone()),
        }
    }

    /// The request that writes the form to the managed store.
    pub fn write_request(&self) -> (r: Request)
        ensures
            r@ == self@.write_request(),
    {
        let source = match &self.original_source {
            Some(s) => s.clone(),
            None => AliasSource::Unknown,
        };
        if self.is_new || source.is_zam_custom() {
            Request::WriteCustomAlias { name: self.name.clone(), command: self.command.clone() }
        } else {
            Request::WriteOverride {
                name: self.name.clone(),
                command: self.command.clone(),
                source,
            }
        }
    }
}

impl AppState {
    /// The state that a session starts in: the list has the keys, nothing is
    /// searched, every group is shown, and the first row is selected.
    pub fn new(groups: Vec<AliasGroup>) -> (state: Self)
        ensures
            state@ == AppSpec::initial(groups.deep_view()),
            state@.visible_items == all_rows(groups.deep_view()),
            state@.consistent(),
            state@.selection_in_bounds(),
            well_formed(state@),
    {
        let visible_items = build_rows(&groups, "");
        proof {
            reveal_strlit("");
            assert(""@ =~= Seq::<char>::empty());
            assert(trim(Seq::<char>::empty()).len() == 0);
            lemma_empty_search_shows_everything(groups.deep_view(), Seq::empty());
        }
        let search_query = String::new();
        AppState {
            groups,
            visible_items,
            selected_index: 0,
            search_query,
            mode: InputMode::Normal { focus: PanelFocus::List },
            should_quit: false,
            list_scroll_offset: 0,
            edit_state: None,
            pending_action: None,
            result_message: None,
            status_message: None,
            status_tick: 0,
            awaiting: None,
        }
    }

    /// Takes one action of the user.
    ///
    /// Where the action needs the managed store or the shell, the request is
    /// returned and the state waits for [`AppState::handle_reply`]. Where it
    /// needs neither, the selection ends on a row, or on 0 where there is none.
    pub fn handle_action(&mut self, action: Action) -> (request: Option<Request>)
        ensures
            (final(self)@, request.deep_view()) == old(self)@.after_action(action),
            old(self)@.consistent() ==> final(self)@.consistent(),
            request is None ==> final(self)@.selection_in_bounds(),
            well_formed(old(self)@) && bound_in(action, old(self).mode) ==> well_formed(
                final(self)@,
            ),
    {
        proof {
            lemma_action_keeps_invariants(self@, action);
            if well_formed(self@) && bound_in(action, self.mode) {
                lemma_actions_keep_well_formed(self@, action);
            }
        }
        self.awaiting = None;
        let request = match action {
            Action::Quit => {
                self.should_quit = true;
                None
            },
            Action::ScrollUp => {
                self.move_selection(1, true);
                None
            },
            Action::ScrollDown => {
                self.move_selection(1, false);
                None
            },
            Action::PageUp => {
                self.move_selection(PAGE_SIZE, true);
                None
            },
            Action::PageDown => {
                self.move_selection(PAGE_SIZE, false);
                None
            },
            Action::GoToTop => {
                self.selected_index = 0;
                None
            },
            Action::GoToBottom => {
                if self.visible_items.len() > 0 {
                    self.selected_index = self.visible_items.len() - 1;
                }
                None
            },
            Action::ToggleCollapse => {
                self.toggle_selected_group();
                None
            },
            Action::FocusSearch => {
                self.mode = InputMode::Search;
                None
            },
            Action::ExitSearch => {
                self.mode = InputMode::Normal { focus: PanelFocus::List };
                None
            },
            Action::SwitchFocus => {
                let new_focus = match self.mode.panel_focus() {
                    PanelFocus::List => PanelFocus::Detail,
                    PanelFocus::Detail => PanelFocus::List,
                };
                self.mode = InputMode::Normal { focus: new_focus };
                None
            },
            Action::SearchInput(c) => {
                self.edit_search(TextEdit::Push(c));
                None
            },
            Action::SearchBackspace => {
                self.edit_search(TextEdit::Pop);
                None
            },
            Action::SearchClear => {
                self.edit_search(TextEdit::Clear);
                None
            },
            Action::CreateAlias => {
                self.awaiting = Some(Awaiting::Create);
                Some(Request::IsInitialized)
            },
            Action::EditAlias => {
                self.awaiting = Some(Awaiting::Edit);
                Some(Request::IsInitialized)
            },
            Action::DeleteAlias => {
                self.awaiting = Some(Awaiting::Delete);
                Some(Request::IsInitialized)
            },
            Action::EditInput(c) => {
                self.edit_input(c);
                None
            },
            Action::EditBackspace => {
                self.edit_backspace();
                None
            },
            Action::EditClear => {
                self.edit_clear();
                None
            },
            Action::EditNextField | Action::EditPrevField => {
                self.edit_toggle_field();
                None
            },
            Action::SaveEdit => self.save_edit(),
            Action::CancelEdit => {
                self.cancel_edit();
                None
            },
            Action::ConfirmYes => self.execute_pending(),
            Action::ConfirmNo => {
                self.cancel_confirm();
                None
            },
            Action::DismissResult => {
                self.result_message = None;
                self.mode = InputMode::Normal { focus: PanelFocus::List };
                None
            },
            Action::ShowHelp => {
                self.mode = InputMode::Help;
                None
            },
            Action::CloseHelp => {
                self.mode = InputMode::Normal { focus: PanelFocus::List };
                None
            },
        };
        if request.is_none() {
            self.clamp_selection();
        }
        request
    }

    /// Takes the driver's answer to the last request and goes on with the step
    /// that waited for it.
    pub fn handle_reply(&mut self, reply: Reply) -> (request: Option<Request>)
        ensures
            (final(self)@, request.deep_view()) == old(self)@.after_reply(reply@),
            old(self)@.consistent() ==> final(self)@.consistent(),
            request is None ==> final(self)@.selection_in_bounds(),
            well_formed(old(self)@) ==> well_formed(final(self)@),
    {
        proof {
            lemma_reply_keeps_invariants(self@, reply@);
            if well_formed(self@) {
                lemma_replies_keep_well_formed(self@, reply@);
            }
        }
        let awaited = self.awaiting.take();
        let request = match (awaited, reply) {
            (Some(Awaiting::Create), Reply::Initialized(b)) => {
                self.start_create(b);
                None
            },
            (Some(Awaiting::Edit), Reply::Initialized(b)) => {
                self.start_edit(b);
                None
            },
            (Some(Awaiting::Delete), Reply::Initialized(b)) => {
                self.start_delete(b);
                None
            },
            (Some(Awaiting::Classify { edit_state }), Reply::WordClass(output)) => {
                match check_shell(output.as_str()) {
                    Some(c) => {
                        self.confirm_collision(edit_state, c.description());
                        None
                    },
                    None => Some(self.do_write(edit_state, None)),
                }
            },
            (Some(Awaiting::Write { edit_state, collision }), Reply::Finished(outcome)) => {
                self.finish_write(edit_state, collision, outcome);
                None
            },
            (Some(Awaiting::Remove { alias_name }), Reply::Finished(outcome)) => {
                self.finish_delete(alias_name, outcome);
                None
            },
            _ => None,
        };
        if request.is_none() {
            self.clamp_selection();
        }
        request
    }

    // -- create, edit, delete ------------------------------------------------

    /// Opens the form for a new alias, where the managed store exists.
    pub fn start_create(&mut self, initialized: bool)
        ensures
            final(self)@ == old(self)@.after_initialized(
                AwaitingSpec::Create,
                initialized,
            ),
    {
        if !initialized {
            self.set_status("Not initialized — run `zam --init` first");
            return ;
        }
        self.edit_state = Some(EditState::blank());
        self.mode = InputMode::Editing { field: EditField::Name };
    }

    /// Opens the form for the selected alias, where the managed store exists.
    pub fn start_edit(&mut self, initialized: bool)
        ensures
            final(self)@ == old(self)@.after_initialized(
                AwaitingSpec::Edit,
                initialized,
            ),
    {
        if !initialized {
            self.set_status("Not initialized — run `zam --init` first");
            return ;
        }
        let form = match self.selected_alias() {
            Some(alias) => EditState::of_alias(alias),
            None => {
                return ;
            },
        };
        self.edit_state = Some(form);
        self.mode = InputMode::Editing { field: EditField::Command };
    }

    /// Asks for confirmation to delete the selected alias, where the managed
    /// store exists.
    pub fn start_delete(&mut self, initialized: bool)
        ensures
            final(self)@ == old(self)@.after_initialized(
                AwaitingSpec::Delete,
                initialized,
            ),
    {
        if !initialized {
            self.set_status("Not initialized — run `zam --init` first");
            return ;
        }
        let pending = match self.selected_alias() {
            Some(alias) => PendingAction::Delete {
                alias_name: alias.name.clone(),
                alias_source: alias.source.clone(),
            },
            None => {
                return ;
            },
        };
        self.pending_action = Some(pending);
        self.mode = InputMode::Confirm;
    }

    /// Appends a character to the active field of the form.
    pub fn edit_input(&mut self, c: char)
        ensures
            final(self)@ == old(self)@.edited(TextEdit::Push(c)),
    {
        self.edit_field(TextEdit::Push(c));
    }

    /// Removes the last character of the active field of the form.
    pub fn edit_backspace(&mut self)
        ensures
            final(self)@ == old(self)@.edited(TextEdit::Pop),
    {
        self.edit_field(TextEdit::Pop);
    }

    /// Empties the active field of the form.
    pub fn edit_clear(&mut self)
        ensures
            final(self)@ == old(self)@.edited(TextEdit::Clear),
    {
        self.edit_field(TextEdit::Clear);
    }

    /// Makes an edit to the active field of the form.
    pub fn edit_field(&mut self, edit: TextEdit)
        ensures
            final(self)@ == old(self)@.edited(edit),
    {
        let form = self.edit_state.take();
        match form {
            Some(mut state) => {
                match state.active_field {
                    EditField::Name => {
                        state.name = edit_text(&state.name, edit);
                    },
                    EditField::Command => {
                        state.command = edit_text(&state.command, edit);
                    },
                }
                self.edit_state = Some(state);
            },
            None => {},
        }
    }

    /// Makes the other field of the form the active one.
    pub fn edit_toggle_field(&mut self)
        ensures
            final(self)@ == old(self)@.field_toggled(),
    {
        let form = self.edit_state.take();
        match form {
            Some(mut state) => {
                state.active_field = match state.active_field {
                    EditField::Name => EditField::Command,
                    EditField::Command => EditField::Name,
                };
                self.mode = InputMode::Editing { field: state.active_field };
                self.edit_state = Some(state);
            },
            None => {},
        }
    }

    /// Saves the form.
    ///
    /// An invalid name or an empty command gives a status message and leaves
    /// the form as it is. A name that the alias did not have and that an alias
    /// in memory has is not written: the groups stay as they are, and the edit
    /// awaits confirmation, with the description of the collision. A name
    /// that the alias did not have and that no alias in memory has is asked
    /// of the shell. An unchanged name is written.
    pub fn save_edit(&mut self) -> (request: Option<Request>)
        ensures
            (final(self)@, request.deep_view()) == old(self)@.saved(),
            final(self)@.groups == old(self)@.groups,
            final(self)@.visible_items == old(self)@.visible_items,
            match old(self)@.edit_state {
                Some(form) => {
                    let e = form.trimmed();
                    validate_alias_name_spec(e.name) is Ok && e.command.len() > 0 && e.renames()
                        ==> match alias_collision_spec(e.name, old(self)@.groups) {
                        Some(c) => {
                            &&& request is None
                            &&& final(self)@.mode == InputMode::Confirm
                            &&& final(self)@.edit_state is None
                            &&& final(self)@.pending_action == Some(
                                PendingSpec::CollisionOverride {
                                    edit_state: e,
                                    collision_desc: c.description(),
                                },
                            )
                        },
                        None => request.deep_view() == Some(
                            RequestSpec::ClassifyWord { name: e.name },
                        ),
                    }
                },
                None => request is None && final(self)@ == old(self)@,
            },
    {
        let state = match self.edit_state.take() {
            Some(state) => state,
            None => {
                return None;
            },
        };
        let name = trimmed_string(&state.name);
        let command = trimmed_string(&state.command);

        match validate_alias_name(name.as_str()) {
            Err(e) => {
                self.set_status(e.message().as_str());
                self.edit_state = Some(state);
                return None;
            },
            Ok(_) => {},
        }
        if command.as_str().is_empty() {
            self.set_status("Command cannot be empty");
            self.edit_state = Some(state);
            return None;
        }
        // A name that the alias did not have may collide.
        let name_changed = match &state.original_name {
            Some(original) => !str_eq(original.as_str(), name.as_str()),
            None => true,
        };
        let collision = if name_changed {
            alias_collision(name.as_str(), &self.groups)
        } else {
            None
        };
        let ask_name = name.clone();
        let state = EditState {
            name,
            command,
            active_field: state.active_field,
            is_new: state.is_new,
            original_name: state.original_name,
            original_source: state.original_source,
        };
        if name_changed {
            match collision {
                Some(c) => {
                    self.confirm_collision(state, c.description());
                    None
                },
                None => {
                    self.awaiting = Some(Awaiting::Classify { edit_state: state });
                    Some(Request::ClassifyWord { name: ask_name })
                },
            }
        } else {
            Some(self.do_write(state, None))
        }
    }

    /// Stages the edit for confirmation in spite of a collision.
    pub fn confirm_collision(&mut self, state: EditState, description: String)
        ensures
            final(self)@ == old(self)@.confirming_collision(state@, description@),
    {
        self.pending_action = Some(
            PendingAction::CollisionOverride { edit_state: state, collision_desc: description },
        );
        self.mode = InputMode::Confirm;
    }

    /// Begins the write of the form: the request is for the driver, the state
    /// waits for its answer. `collision` describes the collision in spite of
    /// which the write was confirmed, if it was.
    pub fn do_write(&mut self, state: EditState, collision: Option<String>) -> (request: Request)
        ensures
            (final(self)@, Some(request@)) == old(self)@.writing(state@, collision.deep_view()),
            request@ == state@.write_request(),
            final(self)@ == (AppSpec {
                awaiting: Some(
                    AwaitingSpec::Write { edit_state: state@, collision: collision.deep_view() },
                ),
                ..old(self)@
            }),
    {
        let request = state.write_request();
        self.awaiting = Some(Awaiting::Write { edit_state: state, collision });
        request
    }

    /// Ends the write of the form: on success the groups take the change and
    /// the result is shown. On failure the reason becomes the status, and
    /// nothing else is lost: the mode and the groups stay, an edit that was
    /// confirmed in spite of a collision awaits confirmation again, and any
    /// other is back in the form.
    pub fn finish_write(
        &mut self,
        state: EditState,
        collision: Option<String>,
        outcome: Result<(), ManagedError>,
    )
        ensures
            final(self)@ == old(self)@.after_written(
                state@,
                collision.deep_view(),
                match outcome {
                    Ok(_) => Ok(()),
                    Err(e) => Err(e@),
                },
            ),
            match outcome {
                Ok(_) => {
                    &&& final(self)@.consistent()
                    &&& final(self)@.mode == InputMode::ResultPopup
                    &&& final(self)@.groups == if state.is_new {
                        with_new_alias(old(self)@.groups, state@.name, state@.command)
                    } else {
                        with_edit(old(self)@.groups, state@.target(), state@.name, state@.command)
                    }
                    &&& final(self)@.result_message == Some(
                        if state.is_new {
                            created_message(state@.name, state@.command)
                        } else {
                            updated_message(state@.name, state@.command)
                        },
                    )
                },
                Err(e) => {
                    &&& final(self)@.groups == old(self)@.groups
                    &&& final(self)@.visible_items == old(self)@.visible_items
                    &&& final(self)@.mode == old(self)@.mode
                    &&& final(self)@.status_message == Some(e@.message())
                    &&& final(self).status_tick == STATUS_TICKS
                    &&& match collision {
                        Some(desc) => {
                            &&& final(self)@.pending_action == Some(
                                PendingSpec::CollisionOverride {
                                    edit_state: state@,
                                    collision_desc: desc@,
                                },
                            )
                            &&& final(self)@.edit_state == old(self)@.edit_state
                        },
                        None => {
                            &&& final(self)@.edit_state == Some(state@)
                            &&& final(self)@.pending_action == old(self)@.pending_action
                        },
                    }
                },
            },
    {
        match outcome {
            Err(e) => {
                self.set_status(e.message().as_str());
                match collision {
                    Some(collision_desc) => {
                        self.pending_action = Some(
                            PendingAction::CollisionOverride { edit_state: state, collision_desc },
                        );
                    },
                    None => {
                        self.edit_state = Some(state);
                    },
                }
                return ;
            },
            Ok(_) => {},
        }
        let name = state.name.as_str();
        let command = state.command.as_str();
        if state.is_new {
            groups::apply_new_alias(&mut self.groups, name, command);
            let head = concat3("Created alias: ", name, "=");
            self.show_result(concat2(head.as_str(), command));
        } else {
            let target = match &state.original_name {
                Some(n) => n.as_str(),
                None => name,
            };
            groups::apply_edit_to_groups(&mut self.groups, target, name, command);
            let head = concat3("Updated alias: ", name, "=");
            self.show_result(concat2(head.as_str(), command));
        }
        self.rebuild_visible();
    }

    /// Gives up the form: the list has the keys again.
    pub fn cancel_edit(&mut self)
        ensures
            final(self)@ == (AppSpec { edit_state: None, ..old(self)@ }).in_mode(
                InputMode::Normal { focus: PanelFocus::List },
            ),
    {
        self.edit_state = None;
        self.mode = InputMode::Normal { focus: PanelFocus::List };
    }

    /// Goes on with what awaited confirmation: a deletion is asked of the
    /// store, of its own alias file for one of its own aliases and of the
    /// overrides of the alias's source for any other; an edit is written.
    /// The groups change only when the store has answered.
    pub fn execute_pending(&mut self) -> (request: Option<Request>)
        ensures
            (final(self)@, request.deep_view()) == old(self)@.confirmed(),
            final(self)@.groups == old(self)@.groups,
            final(self)@.pending_action is None,
            match old(self)@.pending_action {
                Some(PendingSpec::Delete { alias_name, alias_source }) => {
                    &&& final(self)@.awaiting == Some(AwaitingSpec::Remove { alias_name })
                    &&& request.deep_view() == Some(
                        if alias_source == SourceSpec::ZamCustom {
                            RequestSpec::DeleteCustomAlias { name: alias_name }
                        } else {
                            RequestSpec::DeleteOverride { name: alias_name, source: alias_source }
                        },
                    )
                },
                Some(PendingSpec::CollisionOverride { edit_state, collision_desc }) => {
                    &&& final(self)@.awaiting == Some(
                        AwaitingSpec::Write { edit_state, collision: Some(collision_desc) },
                    )
                    &&& request.deep_view() == Some(edit_state.write_request())
                },
                None => request is None && final(self)@ == old(self)@,
            },
    {
        let pending = match self.pending_action.take() {
            Some(pending) => pending,
            None => {
                return None;
            },
        };
        match pending {
            PendingAction::Delete { alias_name, alias_source } => {
                let request = if alias_source.is_zam_custom() {
                    Request::DeleteCustomAlias { name: alias_name.clone() }
                } else {
                    Request::DeleteOverride { name: alias_name.clone(), source: alias_source }
                };
                self.awaiting = Some(Awaiting::Remove { alias_name });
                Some(request)
            },
            PendingAction::CollisionOverride { edit_state, collision_desc } => Some(
                self.do_write(edit_state, Some(collision_desc)),
            ),
        }
    }

    /// Ends a deletion: on success the groups lose the alias and the result is
    /// shown, on failure the reason becomes the status.
    pub fn finish_delete(&mut self, alias_name: String, outcome: Result<(), ManagedError>)
        ensures
            final(self)@ == old(self)@.after_removed(
                alias_name@,
                match outcome {
                    Ok(_) => Ok(()),
                    Err(e) => Err(e@),
                },
            ),
            final(self)@.consistent(),
            match outcome {
                Ok(_) => {
                    &&& final(self)@.groups == without_alias(old(self)@.groups, alias_name@)
                    &&& unused(final(self)@.groups, alias_name@)
                    &&& final(self)@.mode == InputMode::ResultPopup
                    &&& final(self)@.result_message == Some(deleted_message(alias_name@))
                },
                Err(e) => {
                    &&& final(self)@.groups == old(self)@.groups
                    &&& final(self)@.mode == InputMode::Normal { focus: PanelFocus::List }
                    &&& final(self)@.status_message == Some(e@.message())
                    &&& final(self).status_tick == STATUS_TICKS
                },
            },
    {
        proof {
            lemma_delete_is_thorough(self@.groups, alias_name@);
        }
        match outcome {
            Err(e) => {
                self.set_status(e.message().as_str());
                self.mode = InputMode::Normal { focus: PanelFocus::List };
            },
            Ok(_) => {
                groups::remove_alias_from_groups(&mut self.groups, alias_name.as_str());
                self.show_result(concat2("Deleted alias: ", alias_name.as_str()));
            },
        }
        self.rebuild_visible();
    }

    /// Drops what awaited confirmation: an edit goes back into the form, with
    /// the name and the command that were tried; after anything else the list
    /// has the keys again. The groups stay as they are.
    pub fn cancel_confirm(&mut self)
        ensures
            final(self)@ == old(self)@.declined(),
            final(self)@.groups == old(self)@.groups,
            final(self)@.pending_action is None,
            match old(self)@.pending_action {
                Some(PendingSpec::CollisionOverride { edit_state, .. }) => {
                    &&& final(self)@.edit_state == Some(edit_state)
                    &&& final(self)@.mode == InputMode::Editing { field: edit_state.active_field }
                },
                _ => {
                    &&& final(self)@.edit_state == old(self)@.edit_state
                    &&& final(self)@.mode == InputMode::Normal { focus: PanelFocus::List }
                },
            },
    {
        let pending = self.pending_action.take();
        match pending {
            Some(PendingAction::CollisionOverride { edit_state, collision_desc }) => {
                let field = edit_state.active_field;
                self.edit_state = Some(edit_state);
                self.mode = InputMode::Editing { field };
            },
            _ => {
                self.mode = InputMode::Normal { focus: PanelFocus::List };
            },
        }
    }

    /// Shows a status message, which stays for [`STATUS_TICKS`] polls.
    /// Nothing else changes.
    pub fn set_status(&mut self, msg: &str)
        ensures
            final(self)@ == old(self)@.with_status(msg@),
            final(self)@ == (AppSpec {
                status_message: Some(msg@),
                status_tick: 30,
                ..old(self)@
            }),
    {
        self.status_message = Some(msg.to_owned());
        self.status_tick = STATUS_TICKS;
    }

    /// Shows the result of a change in a box over everything else.
    pub fn show_result(&mut self, msg: String)
        ensures
            final(self)@ == old(self)@.with_result(msg@),
    {
        self.result_message = Some(msg);
        self.mode = InputMode::ResultPopup;
    }

    /// Counts down the status message; called once per poll.
    pub fn tick(&mut self)
        ensures
            final(self)@ == old(self)@.ticked(),
            well_formed(old(self)@) ==> well_formed(final(self)@),
    {
        if self.status_tick > 0 {
            self.status_tick -= 1;
            if self.status_tick == 0 {
                self.status_message = None;
            }
        }
    }

    // -- the list ------------------------------------------------------------

    /// The alias that the selection stands for.
    pub fn selected_alias(&self) -> (r: Option<&Alias>)
        ensures
            r.deep_view() == self@.selected_alias(),
    {
        if self.selected_index >= self.visible_items.len() {
            return None;
        }
        match &self.visible_items[self.selected_index] {
            ListItem::AliasEntry { group_index, alias } => Some(alias),
            ListItem::GroupHeader { group_index, display_name, alias_count, collapsed } => {
                if *group_index < self.groups.len() && self.groups[*group_index].aliases.len() > 0 {
                    Some(&self.groups[*group_index].aliases[0])
                } else {
                    None
                }
            },
        }
    }

    /// Derives the rows of the list anew from the groups and the search query.
    pub fn rebuild_visible(&mut self)
        ensures
            final(self)@ == old(self)@.rebuilt(),
            final(self)@.consistent(),
    {
        self.visible_items = build_rows(&self.groups, self.search_query.as_str());
    }

    /// Moves the scroll offset as little as brings the selection into a window
    /// of `visible_height` rows.
    pub fn compute_scroll(&mut self, visible_height: usize)
        ensures
            final(self)@ == old(self)@.scrolled(visible_height as int),
            visible_height > 0 ==> final(self).list_scroll_offset <= final(self).selected_index
                < final(self).list_scroll_offset + visible_height,
            visible_height == 0 ==> final(self).list_scroll_offset == 0,
    {
        if visible_height == 0 {
            self.list_scroll_offset = 0;
            return ;
        }
        if self.selected_index < self.list_scroll_offset {
            self.list_scroll_offset = self.selected_index;
        } else if self.selected_index - self.list_scroll_offset >= visible_height {
            self.list_scroll_offset = self.selected_index - visible_height + 1;
        }
    }

    /// The number of aliases in all groups; `usize::MAX` where that number
    /// does not fit.
    pub fn total_aliases(&self) -> (r: usize)
        ensures
            r == if self@.total_aliases() <= usize::MAX {
                self@.total_aliases()
            } else {
                usize::MAX as int
            },
    {
        let mut total: usize = 0;
        let mut i: usize = 0;
        let ghost all = self.groups.deep_view();
        let ghost count = alias_count();
        while i < self.groups.len()
            invariant
                i <= self.groups.len(),
                all == self.groups.deep_view(),
                count == alias_count(),
                0 <= sum_by(all.take(i as int), count),
                total == if sum_by(all.take(i as int), count) <= usize::MAX {
                    sum_by(all.take(i as int), count)
                } else {
                    usize::MAX as int
                },
            decreases self.groups.len() - i,
        {
            proof {
                assert(all.take(i + 1).drop_last() == all.take(i as int));
            }
            let n = self.groups[i].aliases.len();
            total = if total > usize::MAX - n {
                usize::MAX
            } else {
                total + n
            };
            i += 1;
        }
        assert(all.take(self.groups.len() as int) == all);
        total
    }

    /// The number of alias rows.
    pub fn visible_alias_count(&self) -> (r: usize)
        ensures
            r == self@.visible_alias_count(),
    {
        let mut count: usize = 0;
        let mut i: usize = 0;
        let ghost all = self.visible_items.deep_view();
        proof {
            reveal(Seq::filter);
        }
        while i < self.visible_items.len()
            invariant
                i <= self.visible_items.len(),
                all == self.visible_items.deep_view(),
                count == all.take(i as int).filter(is_alias_row()).len(),
                count <= i,
            decreases self.visible_items.len() - i,
        {
            proof {
                assert(all.take(i + 1) == all.take(i as int).push(all[i as int]));
                all.take(i as int).lemma_filter_push(all[i as int], is_alias_row());
            }
            match &self.visible_items[i] {
                ListItem::AliasEntry { group_index, alias } => {
                    count += 1;
                },
                _ => {
                },
            }
            i += 1;
        }
        assert(all.take(self.visible_items.len() as int) == all);
        count
    }

    /// The label of the field that the query searches.
    pub fn search_field(&self) -> (r: &'static str)
        ensures
            r@ == self@.search_field(),
    {
        match field_of_query(&chars_of(self.search_query.as_str())) {
            SearchField::Command => "Command",
            SearchField::Group => "Group",
            SearchField::Name => "Search",
        }
    }

    /// The search query as the user typed it.
    pub fn search_display(&self) -> (r: &str)
        ensures
            r@ == self@.search_query,
    {
        self.search_query.as_str()
    }

    /// Makes an edit to the search query, derives the rows anew and selects
    /// the first.
    pub fn edit_search(&mut self, edit: TextEdit)
        ensures
            final(self)@ == old(self)@.searching(edit.apply(old(self)@.search_query)),
    {
        self.search_query = edit_text(&self.search_query, edit);
        self.rebuild_visible();
        self.selected_index = 0;
    }

    /// Moves the selection by `rows` rows, up or down, stopping at the first
    /// and the last row. A move by no row brings a selection behind the last
    /// row back onto it.
    pub fn move_selection(&mut self, rows: usize, up: bool)
        ensures
            final(self)@ == old(self)@.moved(
                if up {
                    -(rows as int)
                } else {
                    rows as int
                },
            ),
    {
        if self.visible_items.len() == 0 {
            return ;
        }
        let max = self.visible_items.len() - 1;
        if up && rows > 0 {
            self.selected_index = if self.selected_index < rows {
                0
            } else {
                self.selected_index - rows
            };
        } else {
            self.selected_index = if self.selected_index >= max || max - self.selected_index
                < rows {
                max
            } else {
                self.selected_index + rows
            };
        }
    }

    /// Brings the selection back onto a row, or to 0 where there is none.
    pub fn clamp_selection(&mut self)
        ensures
            final(self)@ == old(self)@.clamped(),
    {
        if self.visible_items.len() == 0 {
            self.selected_index = 0;
        } else if self.selected_index >= self.visible_items.len() {
            self.selected_index = self.visible_items.len() - 1;
        }
    }

    /// Collapses or expands the group of the selected row.
    pub fn toggle_selected_group(&mut self)
        ensures
            final(self)@ == old(self)@.toggled(),
    {
        if self.selected_index >= self.visible_items.len() {
            return ;
        }
        let group_index = match &self.visible_items[self.selected_index] {
            ListItem::GroupHeader { group_index, display_name, alias_count, collapsed } => {
                *group_index
            },
            ListItem::AliasEntry { group_index, alias } => *group_index,
        };
        if group_index < self.groups.len() {
            let ghost before = self.groups.deep_view();
            let collapsed = self.groups[group_index].collapsed;
            self.groups[group_index].collapsed = !collapsed;
            assert(self.groups.deep_view() =~= before.update(
                group_index as int,
                GroupSpec {
                    collapsed: !before[group_index as int].collapsed,
                    ..before[group_index as int]
                },
            ));
        }
        self.rebuild_visible();
    }
}

} // verus!
