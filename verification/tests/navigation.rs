use reminders::app_state::{AppState, Mode};
use reminders::input::{handle_key, handle_list_input, Action, Key};
use reminders::reminder::Reminder;

fn entry(id: i32, time: &str) -> Reminder {
    Reminder {
        id,
        title: format!("title {}", id),
        description: format!("description {}", id),
        time: time.to_string(),
        created_at: "2024-05-01T08:00:00+02:00".to_string(),
    }
}

fn three_entries() -> AppState {
    AppState::new(vec![entry(1, "07:00"), entry(2, "09:00"), entry(3, "21:30")])
}

#[test]
fn starts_in_list_mode_at_the_first_entry() {
    let app = three_entries();
    assert_eq!(app.mode, Mode::List);
    assert_eq!(app.selected_idx, 0);
    assert_eq!(app.reminders.len(), 3);
    assert_eq!(app.reminders[1], entry(2, "09:00"));
    assert_eq!(app.input, "");
    assert_eq!(app.input_field, 0);
    assert_eq!(app.form_fields, [String::new(), String::new(), String::new()]);
    assert_eq!(app.error_msg, None);
    assert!(app.is_well_formed());
}

#[test]
fn starts_well_formed_on_an_empty_list() {
    let app = AppState::new(Vec::new());
    assert_eq!(app.selected_idx, 0);
    assert!(app.reminders.is_empty());
    assert!(app.is_well_formed());
}

#[test]
fn next_steps_down_and_wraps_to_the_first() {
    let mut app = three_entries();
    app.next();
    assert_eq!(app.selected_idx, 1);
    app.next();
    assert_eq!(app.selected_idx, 2);
    app.next();
    assert_eq!(app.selected_idx, 0);
}

#[test]
fn prev_wraps_to_the_last_and_steps_up() {
    let mut app = three_entries();
    app.prev();
    assert_eq!(app.selected_idx, 2);
    app.prev();
    assert_eq!(app.selected_idx, 1);
    app.prev();
    assert_eq!(app.selected_idx, 0);
}

#[test]
fn next_and_prev_do_nothing_on_an_empty_list() {
    let mut app = AppState::new(Vec::new());
    app.next();
    assert_eq!(app.selected_idx, 0);
    app.prev();
    assert_eq!(app.selected_idx, 0);
    assert_eq!(app.mode, Mode::List);
}

#[test]
fn next_and_prev_stay_put_on_a_single_entry() {
    let mut app = AppState::new(vec![entry(7, "12:00")]);
    app.next();
    assert_eq!(app.selected_idx, 0);
    app.prev();
    assert_eq!(app.selected_idx, 0);
}

#[test]
fn next_and_prev_undo_each_other() {
    for start in 0..3 {
        let mut app = three_entries();
        app.selected_idx = start;
        app.next();
        app.prev();
        assert_eq!(app.selected_idx, start);
        app.prev();
        app.next();
        assert_eq!(app.selected_idx, start);
    }
}

#[test]
fn next_and_prev_do_nothing_outside_list_mode() {
    for mode in [Mode::Add, Mode::Edit, Mode::Delete] {
        let mut app = three_entries();
        app.selected_idx = 1;
        app.mode = mode;
        app.next();
        assert_eq!(app.selected_idx, 1);
        app.prev();
        assert_eq!(app.selected_idx, 1);
        assert_eq!(app.mode, mode);
    }
}

#[test]
fn arrow_keys_move_the_selection() {
    let mut app = three_entries();
    assert_eq!(handle_list_input(Key::Down, &mut app), Action::Nothing);
    assert_eq!(app.selected_idx, 1);
    assert_eq!(handle_list_input(Key::Up, &mut app), Action::Nothing);
    assert_eq!(app.selected_idx, 0);
    assert_eq!(handle_key(Key::Up, &mut app), Action::Nothing);
    assert_eq!(app.selected_idx, 2);
    assert_eq!(handle_key(Key::Down, &mut app), Action::Nothing);
    assert_eq!(app.selected_idx, 0);
}

#[test]
fn q_asks_to_quit_and_changes_nothing() {
    let mut app = three_entries();
    app.selected_idx = 2;
    assert_eq!(handle_list_input(Key::Char('q'), &mut app), Action::Quit);
    assert_eq!(app.mode, Mode::List);
    assert_eq!(app.selected_idx, 2);
    assert_eq!(app.reminders.len(), 3);
}

#[test]
fn other_keys_do_nothing_in_list_mode() {
    for key in [
        Key::Char('x'),
        Key::Char('Q'),
        Key::Char('y'),
        Key::Enter,
        Key::Esc,
        Key::Tab,
        Key::BackTab,
        Key::Backspace,
        Key::Other,
    ] {
        let mut app = three_entries();
        app.selected_idx = 1;
        assert_eq!(handle_list_input(key, &mut app), Action::Nothing);
        assert_eq!(app.mode, Mode::List);
        assert_eq!(app.selected_idx, 1);
        assert_eq!(app.input, "");
        assert_eq!(app.reminders.len(), 3);
    }
}

#[test]
fn d_asks_for_confirmation_only_with_something_to_delete() {
    let mut app = three_entries();
    assert_eq!(handle_list_input(Key::Char('d'), &mut app), Action::Nothing);
    assert_eq!(app.mode, Mode::Delete);

    let mut empty = AppState::new(Vec::new());
    assert_eq!(handle_list_input(Key::Char('d'), &mut empty), Action::Nothing);
    assert_eq!(empty.mode, Mode::List);
}

#[test]
fn well_formedness_is_told_at_run_time() {
    let mut app = three_entries();
    app.selected_idx = 3;
    assert!(!app.is_well_formed());
    app.selected_idx = 2;
    assert!(app.is_well_formed());
    app.input_field = 3;
    assert!(!app.is_well_formed());
    app.input_field = 2;
    assert!(app.is_well_formed());

    let mut empty = AppState::new(Vec::new());
    empty.selected_idx = 1;
    assert!(!empty.is_well_formed());
}
