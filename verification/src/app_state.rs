//! The state of the interface: the mode, the cached list with its selection,
//! and the form being filled in.

use crate::reminder::{reminder_views, Reminder, ReminderView};
use vstd::arithmetic::div_mod::{lemma_mod_self_0, lemma_small_mod};
use vstd::prelude::*;

verus! {

/// Which keys are live and what they do.
#[derive(Debug, Clone, Copy, PartialEq, Eq, Structural)]
pub enum Mode {
    List,
    Add,
    Edit,
    Delete,
}

/// The interface's state. The form has three fields: title, description and
/// time, in that order.
pub struct AppState {
    pub mode: Mode,
    /// The cached list, as the store last gave it and as later changes left it.
    pub reminders: Vec<Reminder>,
    /// The selected entry of `reminders`; 0 while the list is empty.
    pub selected_idx: usize,
    /// The text being typed into the active field.
    pub input: String,
    /// The active field of the form, 0 to 2.
    pub input_field: usize,
    /// What has been committed to each field of the form so far.
    pub form_fields: [String; 3],
    /// The last validation failure, until a form is opened or an addition or
    /// an update is stored.
    pub error_msg: Option<String>,
}

/// The mathematical value of an [`AppState`].
pub struct AppStateView {
    pub mode: Mode,
    pub reminders: Seq<ReminderView>,
    pub selected_idx: int,
    pub input: Seq<char>,
    pub input_field: int,
    pub form_fields: Seq<Seq<char>>,
    pub error_msg: Option<Seq<char>>,
}

/// The three fields of a form that nothing has been typed into.
pub open spec fn blank_fields() -> Seq<Seq<char>> {
    seq![Seq::<char>::empty(), Seq::<char>::empty(), Seq::<char>::empty()]
}

impl AppStateView {
    /// The selection points into the list, or at 0 while the list is empty, and
    /// the active field is one of the form's three.
    pub open spec fn wf(self) -> bool {
        &&& 0 <= self.input_field < 3
        &&& self.form_fields.len() == 3
        &&& 0 <= self.selected_idx
        &&& (self.selected_idx < self.reminders.len() || (self.reminders.len() == 0
            && self.selected_idx == 0))
    }

    /// Whether an entry is selected, which is so whenever the list is not empty.
    pub open spec fn has_selection(self) -> bool {
        0 <= self.selected_idx < self.reminders.len()
    }

    /// Whether a form is open.
    pub open spec fn in_form(self) -> bool {
        self.mode == Mode::Add || self.mode == Mode::Edit
    }

    /// The state at startup, with the list that the store gave.
    pub open spec fn initial(reminders: Seq<ReminderView>) -> AppStateView {
        AppStateView {
            mode: Mode::List,
            reminders,
            selected_idx: 0,
            input: Seq::empty(),
            input_field: 0,
            form_fields: blank_fields(),
            error_msg: None,
        }
    }

    /// The selection moved one entry down, from the last entry to the first.
    /// Nothing moves outside list mode or on an empty list.
    pub open spec fn select_next(self) -> AppStateView {
        if self.mode == Mode::List && self.reminders.len() > 0 {
            AppStateView {
                selected_idx: if self.selected_idx + 1 >= self.reminders.len() {
                    0
                } else {
                    self.selected_idx + 1
                },
                ..self
            }
        } else {
            self
        }
    }

    /// The selection moved one entry up, from the first entry to the last.
    /// Nothing moves outside list mode or on an empty list.
    pub open spec fn select_prev(self) -> AppStateView {
        if self.mode == Mode::List && self.reminders.len() > 0 {
            AppStateView {
                selected_idx: if self.selected_idx == 0 {
                    self.reminders.len() - 1
                } else {
                    self.selected_idx - 1
                },
                ..self
            }
        } else {
            self
        }
    }

    /// The typed text committed to the active field.
    pub open spec fn commit_input(self) -> AppStateView {
        AppStateView { form_fields: self.form_fields.update(self.input_field, self.input), ..self }
    }

    /// The typed text committed, and `field` made the active field, with what
    /// was committed to it before as the text being typed.
    pub open spec fn switch_field(self, field: int) -> AppStateView {
        let committed = self.commit_input();
        AppStateView { input_field: field, input: committed.form_fields[field], ..committed }
    }

    /// The form moved to the field after the active one, from the last to the
    /// first. Nothing changes unless a form is open.
    pub open spec fn next_field(self) -> AppStateView {
        if self.in_form() {
            self.switch_field((self.input_field + 1) % 3)
        } else {
            self
        }
    }

    /// The form moved to the field before the active one, from the first to the
    /// last. Nothing changes unless a form is open.
    pub open spec fn prev_field(self) -> AppStateView {
        if self.in_form() {
            self.switch_field(if self.input_field == 0 { 2 } else { self.input_field - 1 })
        } else {
            self
        }
    }

    /// A blank form opened in `mode`, with the first field active and no error.
    /// The form does not start from the selected reminder's values.
    pub open spec fn open_form(self, mode: Mode) -> AppStateView {
        AppStateView {
            mode,
            input: Seq::empty(),
            input_field: 0,
            form_fields: blank_fields(),
            error_msg: None,
            ..self
        }
    }

    /// The state in `mode`, all else as it was.
    pub open spec fn with_mode(self, mode: Mode) -> AppStateView {
        AppStateView { mode, ..self }
    }

    /// The selected entry with the form's three fields in place of its own. The
    /// id and the creation stamp stay.
    pub open spec fn edited_selection(self) -> ReminderView {
        ReminderView {
            title: self.form_fields[0],
            description: self.form_fields[1],
            time: self.form_fields[2],
            ..self.reminders[self.selected_idx]
        }
    }

    /// Where the selection stands once the selected entry is gone: one up if
    /// it was the last entry and not the only one, else where it was.
    pub open spec fn selection_after_removal(self) -> int {
        if self.selected_idx > 0 && self.selected_idx >= self.reminders.len() - 1 {
            self.selected_idx - 1
        } else {
            self.selected_idx
        }
    }

    /// The state after the store answered a request to add. On success the new
    /// record goes to the end of the cached list and the form closes; on
    /// failure nothing changes.
    pub open spec fn after_add(self, stored: Option<ReminderView>) -> AppStateView {
        match stored {
            Some(reminder) => AppStateView {
                reminders: self.reminders.push(reminder),
                mode: Mode::List,
                error_msg: None,
                ..self
            },
            None => self,
        }
    }

    /// The state after the store answered a request to update the selected
    /// entry with the form's fields. On success the cached entry takes the
    /// three fields and the form closes; on failure, or with nothing selected,
    /// nothing changes.
    pub open spec fn after_update(self, stored: bool) -> AppStateView {
        if stored && self.has_selection() {
            AppStateView {
                reminders: self.reminders.update(self.selected_idx, self.edited_selection()),
                mode: Mode::List,
                error_msg: None,
                ..self
            }
        } else {
            self
        }
    }

    /// The state after the store answered a request to delete the selected
    /// entry. On success the entry leaves the cached list, the selection stays
    /// inside the list, and the mode is list mode; on failure, or with nothing
    /// selected, nothing changes.
    pub open spec fn after_delete(self, stored: bool) -> AppStateView {
        if stored && self.has_selection() {
            AppStateView {
                reminders: self.reminders.remove(self.selected_idx),
                selected_idx: self.selection_after_removal(),
                mode: Mode::List,
                ..self
            }
        } else {
            self
        }
    }
}

impl View for AppState {
    type V = AppStateView;

    open spec fn view(&self) -> AppStateView {
        AppStateView {
            mode: self.mode,
            reminders: reminder_views(self.reminders@),
            selected_idx: self.selected_idx as int,
            input: self.input@,
            input_field: self.input_field as int,
            form_fields: self.form_fields@.map_values(|s: String| s@),
            error_msg: match self.error_msg {
                Some(msg) => Some(msg@),
                None => None,
            },
        }
    }
}

impl AppState {
    /// Well-formedness of the state: see [`AppStateView::wf`].
    pub open spec fn wf(&self) -> bool {
        self@.wf()
    }

    /// Whether the state is well-formed, for callers that cannot prove it.
    pub fn is_well_formed(&self) -> (ok: bool)
        ensures
            ok == self.wf(),
    {
        let len: usize = self.reminders.len();
        self.input_field < 3 && (self.selected_idx < len || (len == 0 && self.selected_idx == 0))
    }

    /// The state at startup: list mode, the first entry selected, no form.
    pub fn new(reminders: Vec<Reminder>) -> (app: AppState)
        ensures
            app@ == AppStateView::initial(reminder_views(reminders@)),
            app.wf(),
    {
        let app = AppState {
            mode: Mode::List,
            reminders,
            selected_idx: 0,
            input: String::new(),
            input_field: 0,
            form_fields: [String::new(), String::new(), String::new()],
            error_msg: None,
        };
        assert(app@.form_fields =~= blank_fields());
        app
    }

    /// Moves the selection one entry down, wrapping from the last to the first.
    pub fn next(&mut self)
        requires
            old(self).wf(),
        ensures
            final(self)@ == old(self)@.select_next(),
            final(self).wf(),
    {
        let len: usize = self.reminders.len();
        if self.mode == Mode::List && len > 0 {
            proof {
                if self.selected_idx + 1 < len {
                    lemma_small_mod((self.selected_idx + 1) as nat, len as nat);
                } else {
                    lemma_mod_self_0(len as int);
                }
            }
            self.selected_idx = (self.selected_idx + 1) % len;
        }
    }

    /// Moves the selection one entry up, wrapping from the first to the last.
    pub fn prev(&mut self)
        requires
            old(self).wf(),
        ensures
            final(self)@ == old(self)@.select_prev(),
            final(self).wf(),
    {
        let len: usize = self.reminders.len();
        if self.mode == Mode::List && len > 0 {
            self.selected_idx = if self.selected_idx == 0 {
                len - 1
            } else {
                self.selected_idx - 1
            };
        }
    }

    /// Commits the typed text to the active field and moves to the next field.
    pub fn next_field(&mut self)
        requires
            old(self).wf(),
        ensures
            final(self)@ == old(self)@.next_field(),
            final(self).wf(),
    {
        if self.mode == Mode::Add || self.mode == Mode::Edit {
            self.form_fields[self.input_field] = self.input.clone();
            self.input_field = (self.input_field + 1) % 3;
            self.input = self.form_fields[self.input_field].clone();
            assert(self@.form_fields =~= old(self)@.next_field().form_fields);
        }
    }

    /// Commits the typed text to the active field and moves to the field before.
    pub fn prev_field(&mut self)
        requires
            old(self).wf(),
        ensures
            final(self)@ == old(self)@.prev_field(),
            final(self).wf(),
    {
        if self.mode == Mode::Add || self.mode == Mode::Edit {
            self.form_fields[self.input_field] = self.input.clone();
            self.input_field = if self.input_field == 0 {
                2
            } else {
                self.input_field - 1
            };
            self.input = self.form_fields[self.input_field].clone();
            assert(self@.form_fields =~= old(self)@.prev_field().form_fields);
        }
    }

    /// Takes in the store's answer to a request to add: the stored record, or
    /// `None` if the store failed.
    pub fn finish_add(&mut self, stored: Option<Reminder>)
        requires
            old(self).wf(),
        ensures
            final(self)@ == old(self)@.after_add(
                match stored {
                    Some(reminder) => Some(reminder@),
                    None => None,
                },
            ),
            final(self).wf(),
    {
        if let Some(reminder) = stored {
            self.reminders.push(reminder);
            self.mode = Mode::List;
            self.error_msg = None;
            assert(self@.reminders =~= old(self)@.reminders.push(reminder@));
        }
    }

    /// Takes in the store's answer to a request to update the selected entry
    /// with the form's fields: whether the store succeeded.
    pub fn finish_update(&mut self, stored: bool)
        requires
            old(self).wf(),
        ensures
            final(self)@ == old(self)@.after_update(stored),
            final(self).wf(),
    {
        if stored && self.selected_idx < self.reminders.len() {
            let title = self.form_fields[0].clone();
            let description = self.form_fields[1].clone();
            let time = self.form_fields[2].clone();
            let entry = &mut self.reminders[self.selected_idx];
            entry.title = title;
            entry.description = description;
            entry.time = time;
            self.mode = Mode::List;
            self.error_msg = None;
            assert(self@.reminders =~= old(self)@.reminders.update(
                old(self)@.selected_idx,
                old(self)@.edited_selection(),
            ));
        }
    }

    /// Takes in the store's answer to a request to delete the selected entry:
    /// whether the store succeeded.
    pub fn finish_delete(&mut self, stored: bool)
        requires
            old(self).wf(),
        ensures
            final(self)@ == old(self)@.after_delete(stored),
            final(self).wf(),
    {
        if stored && self.selected_idx < self.reminders.len() {
            self.reminders.remove(self.selected_idx);
            if self.selected_idx > 0 && self.selected_idx >= self.reminders.len() {
                self.selected_idx -= 1;
            }
            self.mode = Mode::List;
            assert(self@.reminders =~= old(self)@.reminders.remove(old(self)@.selected_idx));
        }
    }
}

/// No two entries of the list have the same id.
pub open spec fn distinct_ids(reminders: Seq<ReminderView>) -> bool {
    forall|i: int, j: int|
        #![trigger reminders[i], reminders[j]]
        0 <= i < j < reminders.len() ==> reminders[i].id != reminders[j].id
}

/// Moving the selection wraps around the list: up from the first entry is the
/// last entry, down from the last entry is the first, and on an empty list
/// neither moves anything. Everywhere else each moves by one, the selection
/// stays inside the list, and each undoes the other.
pub proof fn lemma_selection_wraps(s: AppStateView)
    requires
        s.wf(),
        s.mode == Mode::List,
    ensures
        s.reminders.len() == 0 ==> s.select_next() == s && s.select_prev() == s,
        s.has_selection() && s.selected_idx == 0 ==> s.select_prev().selected_idx
            == s.reminders.len() - 1,
        s.has_selection() && s.selected_idx > 0 ==> s.select_prev().selected_idx == s.selected_idx
            - 1,
        s.has_selection() && s.selected_idx == s.reminders.len() - 1
            ==> s.select_next().selected_idx == 0,
        s.has_selection() && s.selected_idx < s.reminders.len() - 1
            ==> s.select_next().selected_idx == s.selected_idx + 1,
        s.select_next().wf(),
        s.select_prev().wf(),
        s.select_next().select_prev() == s,
        s.select_prev().select_next() == s,
{
}

/// Changing the field of an open form wraps around its three fields, and the
/// two directions undo each other as far as the active field goes.
pub proof fn lemma_field_switch_wraps(s: AppStateView)
    requires
        s.wf(),
        s.in_form(),
    ensures
        s.next_field().input_field == (if s.input_field == 2 {
            0
        } else {
            s.input_field + 1
        }),
        s.prev_field().input_field == (if s.input_field == 0 {
            2
        } else {
            s.input_field - 1
        }),
        s.next_field().wf(),
        s.prev_field().wf(),
        s.next_field().prev_field().input_field == s.input_field,
        s.prev_field().next_field().input_field == s.input_field,
        s.next_field().form_fields == s.commit_input().form_fields,
        s.prev_field().form_fields == s.commit_input().form_fields,
{
}

/// A stored addition shows at the end of the cached list with exactly the
/// record that the store returned, and leaves every other entry and the
/// selection as they were.
pub proof fn lemma_add_appends(s: AppStateView, stored: ReminderView)
    requires
        s.wf(),
    ensures
        s.after_add(Some(stored)).reminders.len() == s.reminders.len() + 1,
        s.after_add(Some(stored)).reminders.last() == stored,
        forall|i: int|
            0 <= i < s.reminders.len() ==> s.after_add(Some(stored)).reminders[i] == s.reminders[i],
        s.after_add(Some(stored)).selected_idx == s.selected_idx,
        s.after_add(Some(stored)).mode == Mode::List,
        s.after_add(Some(stored)).wf(),
        s.after_add(None) == s,
{
}

/// A stored update shows in the cached list with the form's three fields for
/// the selected entry, which keeps its id and its creation stamp, and leaves
/// every other entry, the length of the list and the selection as they were.
pub proof fn lemma_update_changes_only_selected(s: AppStateView)
    requires
        s.wf(),
        s.has_selection(),
    ensures
        s.after_update(true).reminders.len() == s.reminders.len(),
        s.after_update(true).reminders[s.selected_idx] == (ReminderView {
            id: s.reminders[s.selected_idx].id,
            title: s.form_fields[0],
            description: s.form_fields[1],
            time: s.form_fields[2],
            created_at: s.reminders[s.selected_idx].created_at,
        }),
        forall|i: int|
            0 <= i < s.reminders.len() && i != s.selected_idx ==> s.after_update(true).reminders[i]
                == s.reminders[i],
        s.after_update(true).selected_idx == s.selected_idx,
        s.after_update(true).mode == Mode::List,
        s.after_update(true).wf(),
        s.after_update(false) == s,
{
}

/// A stored deletion takes the selected entry, and nothing else, out of the
/// cached list: the entries before it stay and those after it move up by one.
/// Where ids are distinct, the deleted id is then nowhere in the list. The
/// selection stays where it was unless the last entry was deleted; then it
/// moves up by one, or stays at 0 if that entry was the only one. Either way
/// it is inside the list again, unless the list is now empty.
pub proof fn lemma_delete_removes_selected(s: AppStateView)
    requires
        s.wf(),
        s.has_selection(),
    ensures
        s.after_delete(true).reminders.len() == s.reminders.len() - 1,
        forall|i: int|
            0 <= i < s.selected_idx ==> s.after_delete(true).reminders[i] == s.reminders[i],
        forall|i: int|
            s.selected_idx <= i < s.reminders.len() - 1 ==> s.after_delete(true).reminders[i]
                == s.reminders[i + 1],
        distinct_ids(s.reminders) ==> forall|i: int|
            0 <= i < s.reminders.len() - 1 ==> (#[trigger] s.after_delete(true).reminders[i]).id
                != s.reminders[s.selected_idx].id,
        s.selected_idx == s.reminders.len() - 1 && s.selected_idx > 0 ==> s.after_delete(
            true,
        ).selected_idx == s.selected_idx - 1,
        s.selected_idx == s.reminders.len() - 1 && s.selected_idx == 0 ==> s.after_delete(
            true,
        ).selected_idx == 0,
        s.selected_idx < s.reminders.len() - 1 ==> s.after_delete(true).selected_idx
            == s.selected_idx,
        s.after_delete(true).reminders.len() > 0 ==> s.after_delete(true).has_selection(),
        s.after_delete(true).mode == Mode::List,
        s.after_delete(true).wf(),
        s.after_delete(false) == s,
{
    let t = s.after_delete(true);
    if distinct_ids(s.reminders) {
        assert forall|i: int| 0 <= i < s.reminders.len() - 1 implies (#[trigger] t.reminders[i]).id
            != s.reminders[s.selected_idx].id by {
            if i < s.selected_idx {
                assert(t.reminders[i] == s.reminders[i]);
            } else {
                assert(t.reminders[i] == s.reminders[i + 1]);
            }
        }
    }
}

/// Ids stay distinct in the cached list: an addition keeps them so if the
/// store's record has an id that no cached entry has, and an update and a
/// deletion keep them so always.
pub proof fn lemma_ids_stay_distinct(s: AppStateView, stored: ReminderView)
    requires
        s.wf(),
        distinct_ids(s.reminders),
    ensures
        (forall|i: int| 0 <= i < s.reminders.len() ==> (#[trigger] s.reminders[i]).id != stored.id)
            ==> distinct_ids(s.after_add(Some(stored)).reminders),
        distinct_ids(s.after_update(true).reminders),
        distinct_ids(s.after_delete(true).reminders),
{
    let deleted = s.after_delete(true).reminders;
    assert forall|i: int, j: int| 0 <= i < j < deleted.len() implies deleted[i].id
        != deleted[j].id by {
        let before_i = if i < s.selected_idx {
            i
        } else {
            i + 1
        };
        let before_j = if j < s.selected_idx {
            j
        } else {
            j + 1
        };
        assert(deleted[i] == s.reminders[before_i]);
        assert(deleted[j] == s.reminders[before_j]);
    }
}

} // verus!
