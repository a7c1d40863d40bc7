//! What each key does in each mode: a step from the state and a key to the
//! next state and a request to the world outside, which the caller carries out
//! and, for a request to the store, answers through [`AppState::finish_add`],
//! [`AppState::finish_update`] or [`AppState::finish_delete`].

use crate::app_state::{blank_fields, AppState, AppStateView, Mode};
use crate::reminder::ReminderView;
use crate::validation::{check_draft, is_valid_time, validate_draft, ValidationError};
use vstd::prelude::*;

verus! {

/// A key press, as far as the interface tells keys apart.
#[derive(Debug, Clone, Copy, PartialEq, Eq, Structural)]
pub enum Key {
    Char(char),
    Backspace,
    Tab,
    /// Shift-Tab.
    BackTab,
    Esc,
    Enter,
    Up,
    Down,
    /// Any other key.
    Other,
}

/// What a key press asks of the world outside.
#[derive(Debug, Clone, PartialEq, Eq)]
pub enum Action {
    /// Nothing.
    Nothing,
    /// End the program.
    Quit,
    /// Ask the store to add a reminder with these fields.
    Add { title: String, description: String, time: String },
    /// Ask the store to overwrite the fields of the reminder `id`.
    Update { id: i32, title: String, description: String, time: String },
    /// Ask the store to delete the reminder `id`.
    Delete { id: i32 },
}

/// The mathematical value of an [`Action`].
pub enum ActionView {
    Nothing,
    Quit,
    Add { title: Seq<char>, description: Seq<char>, time: Seq<char> },
    Update { id: i32, title: Seq<char>, description: Seq<char>, time: Seq<char> },
    Delete { id: i32 },
}

impl View for Action {
    type V = ActionView;

    open spec fn view(&self) -> ActionView {
        match self {
            Action::Nothing => ActionView::Nothing,
            Action::Quit => ActionView::Quit,
            Action::Add { title, description, time } => ActionView::Add {
                title: title@,
                description: description@,
                time: time@,
            },
            Action::Update { id, title, description, time } => ActionView::Update {
                id: *id,
                title: title@,
                description: description@,
                time: time@,
            },
            Action::Delete { id } => ActionView::Delete { id: *id },
        }
    }
}

/// A key in list mode. `q` quits; `a` opens a blank form to add; `e` opens a
/// blank form to edit and `d` asks for confirmation to delete, both only while
/// the list is not empty; Up and Down move the selection. Any other key does
/// nothing.
pub open spec fn list_step(s: AppStateView, key: Key) -> (AppStateView, ActionView) {
    match key {
        Key::Char(c) => if c == 'q' {
            (s, ActionView::Quit)
        } else if c == 'a' {
            (s.open_form(Mode::Add), ActionView::Nothing)
        } else if c == 'e' && s.reminders.len() > 0 {
            (s.open_form(Mode::Edit), ActionView::Nothing)
        } else if c == 'd' && s.reminders.len() > 0 {
            (s.with_mode(Mode::Delete), ActionView::Nothing)
        } else {
            (s, ActionView::Nothing)
        },
        Key::Up => (s.select_prev(), ActionView::Nothing),
        Key::Down => (s.select_next(), ActionView::Nothing),
        _ => (s, ActionView::Nothing),
    }
}

/// The form submitted. The typed text is committed to the active field, then
/// the draft is validated. A draft that fails leaves its message in the state
/// and asks nothing of the store. A draft that passes is handed to the store:
/// to add when `is_add`, else to update the selected reminder. The state
/// changes no further until the store has answered.
pub open spec fn submit(s: AppStateView, is_add: bool) -> (AppStateView, ActionView) {
    let committed = s.commit_input();
    let title = committed.form_fields[0];
    let description = committed.form_fields[1];
    let time = committed.form_fields[2];
    match check_draft(title, description, time) {
        Err(failure) => (
            AppStateView { error_msg: Some(failure.message_text()), ..committed },
            ActionView::Nothing,
        ),
        Ok(_) => if is_add {
            (committed, ActionView::Add { title, description, time })
        } else if committed.has_selection() {
            (
                committed,
                ActionView::Update {
                    id: committed.reminders[committed.selected_idx].id,
                    title,
                    description,
                    time,
                },
            )
        } else {
            (committed, ActionView::Nothing)
        },
    }
}

/// A key in a form. A character is appended to the typed text and Backspace
/// removes its last character; Tab and Shift-Tab change the field; Esc returns
/// to list mode; Enter submits. Any other key does nothing.
pub open spec fn form_step(s: AppStateView, key: Key, is_add: bool) -> (AppStateView, ActionView) {
    match key {
        Key::Char(c) => (AppStateView { input: s.input.push(c), ..s }, ActionView::Nothing),
        Key::Backspace => (
            AppStateView {
                input: if s.input.len() > 0 {
                    s.input.drop_last()
                } else {
                    s.input
                },
                ..s
            },
            ActionView::Nothing,
        ),
        Key::Tab => (s.next_field(), ActionView::Nothing),
        Key::BackTab => (s.prev_field(), ActionView::Nothing),
        Key::Esc => (s.with_mode(Mode::List), ActionView::Nothing),
        Key::Enter => submit(s, is_add),
        _ => (s, ActionView::Nothing),
    }
}

/// A key while a deletion awaits confirmation. `y` asks the store to delete
/// the selected reminder, if there is one; `n` and Esc return to list mode.
/// Any other key does nothing.
pub open spec fn delete_step(s: AppStateView, key: Key) -> (AppStateView, ActionView) {
    match key {
        Key::Char(c) => if c == 'y' {
            if s.has_selection() {
                (s, ActionView::Delete { id: s.reminders[s.selected_idx].id })
            } else {
                (s, ActionView::Nothing)
            }
        } else if c == 'n' {
            (s.with_mode(Mode::List), ActionView::Nothing)
        } else {
            (s, ActionView::Nothing)
        },
        Key::Esc => (s.with_mode(Mode::List), ActionView::Nothing),
        _ => (s, ActionView::Nothing),
    }
}

/// A key in whatever mode the state is in.
pub open spec fn step(s: AppStateView, key: Key) -> (AppStateView, ActionView) {
    match s.mode {
        Mode::List => list_step(s, key),
        Mode::Add => form_step(s, key, true),
        Mode::Edit => form_step(s, key, false),
        Mode::Delete => delete_step(s, key),
    }
}

/// Handles a key in list mode.
pub fn handle_list_input(key: Key, app: &mut AppState) -> (action: Action)
    requires
        old(app).wf(),
    ensures
        (final(app)@, action@) == list_step(old(app)@, key),
        final(app).wf(),
{
    match key {
        Key::Char('q') => {
            return Action::Quit;
        },
        Key::Char('a') => {
            open_form(app, Mode::Add);
        },
        Key::Char('e') if !app.reminders.is_empty() => {
            open_form(app, Mode::Edit);
        },
        Key::Char('d') if !app.reminders.is_empty() => {
            app.mode = Mode::Delete;
        },
        Key::Up => app.prev(),
        Key::Down => app.next(),
        _ => {},
    }
    Action::Nothing
}

/// Opens a blank form in `mode`.
fn open_form(app: &mut AppState, mode: Mode)
    requires
        old(app).wf(),
    ensures
        final(app)@ == old(app)@.open_form(mode),
        final(app).wf(),
{
    app.mode = mode;
    app.input = String::new();
    app.input_field = 0;
    app.form_fields = [String::new(), String::new(), String::new()];
    app.error_msg = None;
    assert(app@.form_fields =~= blank_fields());
}

/// Handles a key in a form: the form to add when `is_add`, else the form to
/// edit the selected reminder.
pub fn handle_form_input(key: Key, app: &mut AppState, is_add: bool) -> (action: Action)
    requires
        old(app).wf(),
    ensures
        (final(app)@, action@) == form_step(old(app)@, key, is_add),
        final(app).wf(),
{
    match key {
        Key::Char(c) => app.input.push(c),
        Key::Backspace => {
            app.input.pop();
        },
        Key::Tab => app.next_field(),
        Key::BackTab => app.prev_field(),
        Key::Esc => app.mode = Mode::List,
        Key::Enter => {
            app.form_fields[app.input_field] = app.input.clone();
            assert(app@.form_fields =~= old(app)@.commit_input().form_fields);
            match validate_draft(&app.form_fields) {
                Err(failure) => {
                    app.error_msg = Some(failure.message());
                },
                Ok(_) => {
                    let title = app.form_fields[0].clone();
                    let description = app.form_fields[1].clone();
                    let time = app.form_fields[2].clone();
                    if is_add {
                        return Action::Add { title, description, time };
                    } else if app.selected_idx < app.reminders.len() {
                        let id: i32 = app.reminders[app.selected_idx].id;
                        return Action::Update { id, title, description, time };
                    }
                },
            }
        },
        _ => {},
    }
    Action::Nothing
}

/// Handles a key while a deletion awaits confirmation.
pub fn handle_delete_input(key: Key, app: &mut AppState) -> (action: Action)
    requires
        old(app).wf(),
    ensures
        (final(app)@, action@) == delete_step(old(app)@, key),
        final(app).wf(),
{
    match key {
        Key::Char('y') => {
            if app.selected_idx < app.reminders.len() {
                return Action::Delete { id: app.reminders[app.selected_idx].id };
            }
        },
        Key::Char('n') | Key::Esc => app.mode = Mode::List,
        _ => {},
    }
    Action::Nothing
}

/// Handles a key in the mode the interface is in.
pub fn handle_key(key: Key, app: &mut AppState) -> (action: Action)
    requires
        old(app).wf(),
    ensures
        (final(app)@, action@) == step(old(app)@, key),
        final(app).wf(),
{
    match app.mode {
        Mode::List => handle_list_input(key, app),
        Mode::Add => handle_form_input(key, app, true),
        Mode::Edit => handle_form_input(key, app, false),
        Mode::Delete => handle_delete_input(key, app),
    }
}

/// Every key leaves a well-formed state well-formed: whatever is pressed, in
/// whatever mode, the selection stays inside the list and the active field
/// inside the form. So do the store's answers.
pub proof fn lemma_steps_keep_wf(s: AppStateView, key: Key, is_add: bool)
    requires
        s.wf(),
    ensures
        step(s, key).0.wf(),
        list_step(s, key).0.wf(),
        form_step(s, key, is_add).0.wf(),
        delete_step(s, key).0.wf(),
        forall|stored: Option<ReminderView>| (#[trigger] s.after_add(stored)).wf(),
        forall|stored: bool| (#[trigger] s.after_update(stored)).wf(),
        forall|stored: bool| (#[trigger] s.after_delete(stored)).wf(),
{
}

/// Only a submitted form, a confirmed deletion and `q` in list mode ask
/// anything of the world outside, and a request to the store leaves the cached
/// list as it was: the cache changes only when the store has answered.
pub proof fn lemma_requests(s: AppStateView, key: Key)
    requires
        s.wf(),
    ensures
        step(s, key).0.reminders == s.reminders,
        step(s, key).1 is Quit <==> s.mode == Mode::List && key == Key::Char('q'),
        step(s, key).1 is Add ==> s.mode == Mode::Add && key == Key::Enter,
        step(s, key).1 is Update ==> s.mode == Mode::Edit && key == Key::Enter,
        step(s, key).1 is Delete ==> s.mode == Mode::Delete && key == Key::Char('y'),
        step(s, key).1 is Update ==> s.has_selection() && step(s, key).1->Update_id
            == s.reminders[s.selected_idx].id,
        step(s, key).1 is Delete ==> s.has_selection() && step(s, key).1->Delete_id
            == s.reminders[s.selected_idx].id,
{
}

/// Esc in a form discards the draft: the interface is back in list mode with
/// the cached list and the selection as they were, nothing is asked of the
/// store, and whichever form is opened next starts blank, without text being
/// typed and without an error.
pub proof fn lemma_escape_discards_draft(s: AppStateView, is_add: bool, next: Key)
    requires
        s.wf(),
    ensures
        form_step(s, Key::Esc, is_add).1 is Nothing,
        form_step(s, Key::Esc, is_add).0.mode == Mode::List,
        form_step(s, Key::Esc, is_add).0.reminders == s.reminders,
        form_step(s, Key::Esc, is_add).0.selected_idx == s.selected_idx,
        list_step(form_step(s, Key::Esc, is_add).0, next).0.in_form() ==> ({
            let opened = list_step(form_step(s, Key::Esc, is_add).0, next).0;
            &&& opened.form_fields == blank_fields()
            &&& opened.input == Seq::<char>::empty()
            &&& opened.input_field == 0
            &&& opened.error_msg == None::<Seq<char>>
        }),
{
}

/// A form submitted with three filled fields and a time of day in the form
/// `HH:MM` asks the store to add exactly those three values, and once the
/// store has returned the record, the cached list ends with that record and
/// the interface is back in list mode without an error.
pub proof fn lemma_valid_draft_is_added(s: AppStateView, stored: ReminderView)
    requires
        s.wf(),
        s.commit_input().form_fields[0].len() > 0,
        s.commit_input().form_fields[1].len() > 0,
        is_valid_time(s.commit_input().form_fields[2]),
    ensures
        submit(s, true) == (
            s.commit_input(),
            (ActionView::Add {
                title: s.commit_input().form_fields[0],
                description: s.commit_input().form_fields[1],
                time: s.commit_input().form_fields[2],
            }),
        ),
        submit(s, true).0.after_add(Some(stored)).reminders == s.reminders.push(stored),
        submit(s, true).0.after_add(Some(stored)).mode == Mode::List,
        submit(s, true).0.after_add(Some(stored)).error_msg == None::<Seq<char>>,
        submit(s, true).0.after_add(None) == submit(s, true).0,
{
}

/// An edit form submitted with three filled fields and a time of day in the
/// form `HH:MM` asks the store to update the selected reminder, by its id,
/// with exactly those three values, and once the store has done so, the cached
/// list shows them for that entry and is otherwise as it was.
pub proof fn lemma_valid_draft_is_updated(s: AppStateView)
    requires
        s.wf(),
        s.has_selection(),
        s.commit_input().form_fields[0].len() > 0,
        s.commit_input().form_fields[1].len() > 0,
        is_valid_time(s.commit_input().form_fields[2]),
    ensures
        submit(s, false) == (
            s.commit_input(),
            (ActionView::Update {
                id: s.reminders[s.selected_idx].id,
                title: s.commit_input().form_fields[0],
                description: s.commit_input().form_fields[1],
                time: s.commit_input().form_fields[2],
            }),
        ),
        submit(s, false).0.after_update(true).reminders == s.reminders.update(
            s.selected_idx,
            (ReminderView {
                id: s.reminders[s.selected_idx].id,
                title: s.commit_input().form_fields[0],
                description: s.commit_input().form_fields[1],
                time: s.commit_input().form_fields[2],
                created_at: s.reminders[s.selected_idx].created_at,
            }),
        ),
        submit(s, false).0.after_update(true).mode == Mode::List,
        submit(s, false).0.after_update(false) == submit(s, false).0,
{
}

/// A form submitted with an empty field, or with a time that is no time of
/// day, asks nothing of the store: the form stays open in its mode, the cached
/// list is untouched, and the state holds the message of the failure. An
/// empty field is reported whatever the time field holds.
pub proof fn lemma_invalid_draft_is_kept(s: AppStateView, is_add: bool)
    requires
        s.wf(),
        check_draft(
            s.commit_input().form_fields[0],
            s.commit_input().form_fields[1],
            s.commit_input().form_fields[2],
        ) is Err,
    ensures
        submit(s, is_add).1 is Nothing,
        submit(s, is_add).0.mode == s.mode,
        submit(s, is_add).0.reminders == s.reminders,
        submit(s, is_add).0.form_fields == s.commit_input().form_fields,
        (s.commit_input().form_fields[0].len() == 0 || s.commit_input().form_fields[1].len() == 0
            || s.commit_input().form_fields[2].len() == 0) ==> submit(s, is_add).0.error_msg
            == Some(ValidationError::EmptyField.message_text()),
        (s.commit_input().form_fields[0].len() > 0 && s.commit_input().form_fields[1].len() > 0
            && s.commit_input().form_fields[2].len() > 0) ==> submit(s, is_add).0.error_msg
            == Some(ValidationError::InvalidTime.message_text()),
{
}

} // verus!
