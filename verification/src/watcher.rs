//! The rule of the background watcher: a reminder is notified when the clock
//! shows its time of day, once for as long as the process lives.

use crate::clock::local_now_as;
use crate::reminder::{Reminder, ReminderView};
use crate::validation::{is_valid_time, lemma_time_names_one_minute, minute_of_day};
use std::collections::HashSet;
use vstd::prelude::*;

verus! {

/// The ids of the reminders that have been notified. Ids only ever join the
/// set.
pub struct NotifiedIds {
    ids: HashSet<i32>,
}

impl View for NotifiedIds {
    type V = Set<i32>;

    closed spec fn view(&self) -> Set<i32> {
        self.ids@
    }
}

impl NotifiedIds {
    /// The empty set: nothing has been notified yet.
    pub fn new() -> (notified: NotifiedIds)
        ensures
            notified@ == Set::<i32>::empty(),
    {
        NotifiedIds { ids: HashSet::new() }
    }

    /// Whether the reminder `id` has been notified.
    pub fn has(&self, id: i32) -> (found: bool)
        ensures
            found == self@.contains(id),
    {
        self.ids.contains(&id)
    }

    /// Records that the reminder `id` has been notified.
    pub fn mark(&mut self, id: i32)
        ensures
            final(self)@ == old(self)@.insert(id),
    {
        self.ids.insert(id);
    }

    /// Takes in the outcome of an attempt to notify the reminder `id`. A
    /// delivery is recorded; after a failure the set is as it was, so that the
    /// reminder is tried again.
    pub fn record_delivery(&mut self, id: i32, delivered: bool)
        ensures
            final(self)@ == after_attempt(old(self)@, id, delivered),
    {
        if delivered {
            self.mark(id);
        }
    }
}

/// The notified ids after an attempt to notify the reminder `id`: with `id` if
/// the notification was delivered, unchanged if it was not.
pub open spec fn after_attempt(notified: Set<i32>, id: i32, delivered: bool) -> Set<i32> {
    if delivered {
        notified.insert(id)
    } else {
        notified
    }
}

/// Whether a reminder is to be notified when the clock shows `now`: its time
/// of day is exactly `now`, and it has not been notified before.
pub open spec fn is_due(reminder: ReminderView, now: Seq<char>, notified: Set<i32>) -> bool {
    reminder.time == now && !notified.contains(reminder.id)
}

/// Whether `reminder` is to be notified when the clock shows `now`.
pub fn should_notify(reminder: &Reminder, now: &String, notified: &NotifiedIds) -> (due: bool)
    ensures
        due == is_due(reminder@, now@, notified@),
{
    reminder.time == *now && !notified.has(reminder.id)
}

/// The time of day that the local clock shows, to the minute, as `HH:MM`.
pub fn current_minute() -> (now: String)
    ensures
        is_valid_time(now@),
{
    local_now_as("%H:%M")
}

/// A reminder is notified once. At the first reading of the clock that shows
/// its time of day it is due, since it has not been notified; at any other
/// reading it is not. Once a delivery has been recorded it is due at no reading
/// of the clock, whichever other ids have been recorded since. After a failed
/// delivery it is still due.
pub proof fn lemma_notified_once(
    reminder: ReminderView,
    now: Seq<char>,
    notified: Set<i32>,
    later: Seq<char>,
    since: Set<i32>,
)
    ensures
        reminder.time == now && !notified.contains(reminder.id) ==> is_due(reminder, now, notified),
        reminder.time != now ==> !is_due(reminder, now, notified),
        !is_due(reminder, later, after_attempt(notified, reminder.id, true).union(since)),
        is_due(reminder, now, notified) ==> is_due(
            reminder,
            now,
            after_attempt(notified, reminder.id, false),
        ),
{
}

/// A reminder whose time is a time of day is due at a reading of the clock
/// exactly when the clock shows its minute of the day and it has not been
/// notified before.
pub proof fn lemma_due_at_its_minute(reminder: ReminderView, now: Seq<char>, notified: Set<i32>)
    requires
        is_valid_time(reminder.time),
        is_valid_time(now),
    ensures
        is_due(reminder, now, notified) <==> minute_of_day(reminder.time) == minute_of_day(now)
            && !notified.contains(reminder.id),
{
    lemma_time_names_one_minute(reminder.time, now);
}

/// The set of notified ids only grows: whatever the outcome of an attempt,
/// every id that was in the set is still in it, and no id but the attempted
/// one has joined.
pub proof fn lemma_notified_grows(notified: Set<i32>, id: i32, delivered: bool)
    ensures
        notified.subset_of(after_attempt(notified, id, delivered)),
        after_attempt(notified, id, delivered).subset_of(notified.insert(id)),
{
}

} // verus!
