//! The reminder record, and how one comes to be from a confirmed draft.

use crate::clock::local_now_rfc3339;
use crate::validation::is_digit;
use vstd::prelude::*;

verus! {

/// A reminder as the store holds it.
#[derive(Debug, Clone, PartialEq, Eq)]
pub struct Reminder {
    /// Assigned by the store when the reminder is created; never changed.
    pub id: i32,
    pub title: String,
    pub description: String,
    /// The time of day, `HH:MM`, at which the reminder is due every day.
    pub time: String,
    /// When the reminder was created. Kept for the record only.
    pub created_at: String,
}

/// The mathematical value of a [`Reminder`].
pub struct ReminderView {
    pub id: i32,
    pub title: Seq<char>,
    pub description: Seq<char>,
    pub time: Seq<char>,
    pub created_at: Seq<char>,
}

impl View for Reminder {
    type V = ReminderView;

    open spec fn view(&self) -> ReminderView {
        ReminderView {
            id: self.id,
            title: self.title@,
            description: self.description@,
            time: self.time@,
            created_at: self.created_at@,
        }
    }
}

/// The values of a sequence of reminders, in the same order.
pub open spec fn reminder_views(reminders: Seq<Reminder>) -> Seq<ReminderView> {
    reminders.map_values(|r: Reminder| r@)
}

/// What every creation stamp looks like: a date and time of at least nineteen
/// characters, then the offset from UTC as a sign, two digits of hours, a
/// colon and two digits of minutes.
pub open spec fn ends_with_offset(s: Seq<char>) -> bool {
    &&& s.len() >= 25
    &&& (s[s.len() - 6] == '+' || s[s.len() - 6] == '-')
    &&& is_digit(s[s.len() - 5])
    &&& is_digit(s[s.len() - 4])
    &&& s[s.len() - 3] == ':'
    &&& is_digit(s[s.len() - 2])
    &&& is_digit(s[s.len() - 1])
}

/// The id of the record that the store holds in row `row_id`: the row id
/// itself. A row id that does not fit in 32 bits gives no id.
pub open spec fn id_of_row(row_id: i64) -> Option<i32> {
    if i32::MIN <= row_id <= i32::MAX {
        Some(row_id as i32)
    } else {
        None
    }
}

/// What the store is given to persist for a new reminder: the three fields of
/// the draft and the moment of creation. The store answers with a row id.
#[derive(Debug, Clone, PartialEq, Eq)]
pub struct NewReminder {
    pub title: String,
    pub description: String,
    pub time: String,
    pub created_at: String,
}

impl NewReminder {
    /// Stamps the three fields with the current local time. The fields are
    /// kept as given; the stamp is the clock's reading as a date and time with
    /// its offset from UTC. Which reading is not claimed.
    pub fn stamped(title: String, description: String, time: String) -> (new: NewReminder)
        ensures
            new.title@ == title@,
            new.description@ == description@,
            new.time@ == time@,
            ends_with_offset(new.created_at@),
    {
        let created_at = local_now_rfc3339();
        NewReminder { title, description, time, created_at }
    }

    /// The record of this reminder once the store has inserted it as row
    /// `row_id`: the row id as the id, and the stamped values. A row id that
    /// does not fit in 32 bits is refused, so that no two rows share an id.
    pub fn into_reminder(self, row_id: i64) -> (stored: Option<Reminder>)
        ensures
            stored is Some <==> i32::MIN <= row_id <= i32::MAX,
            stored is Some <==> id_of_row(row_id) is Some,
            stored matches Some(reminder) ==> reminder.id == row_id,
            stored matches Some(reminder) ==> reminder@ == (ReminderView {
                id: id_of_row(row_id)->0,
                title: self.title@,
                description: self.description@,
                time: self.time@,
                created_at: self.created_at@,
            }),
    {
        if row_id < i32::MIN as i64 || row_id > i32::MAX as i64 {
            return None;
        }
        let id: i32 = row_id as i32;
        Some(
            Reminder {
                id,
                title: self.title,
                description: self.description,
                time: self.time,
                created_at: self.created_at,
            },
        )
    }
}

/// Records keep the order and the distinctness of their rows: of two rows
/// whose ids fit, the later row has the greater id, and two different rows
/// never have the same id.
pub proof fn lemma_ids_follow_rows(first: i64, second: i64)
    requires
        id_of_row(first) is Some,
        id_of_row(second) is Some,
    ensures
        first < second <==> id_of_row(first)->0 < id_of_row(second)->0,
        first != second <==> id_of_row(first)->0 != id_of_row(second)->0,
        id_of_row(first)->0 == first,
{
}

} // verus!
