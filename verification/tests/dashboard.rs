use flow::app::{ActiveTab, App, StoreChange};
use flow::keys::{action_for, Action, Key, KeyInput};
use flow::task::{Task, TaskStore};

fn task(id: usize, title: &str, completed: bool) -> Task {
    Task { id, title: title.to_string(), completed, created_at: String::new() }
}

fn app_with(tasks: Vec<Task>) -> App {
    App::new(TaskStore::new(Some(tasks)))
}

fn press(code: Key) -> KeyInput {
    KeyInput { code, ctrl: false, press: true }
}

fn ch(c: char) -> KeyInput {
    press(Key::Char(c))
}

/// Presses a key and, when it changed the list, finishes the step as if saving succeeded.
fn step(app: &mut App, key: KeyInput) -> Option<StoreChange> {
    let a = action_for(app.show_add_popup, app.active_tab, key);
    assert!(app.allows(a));
    let change = app.handle_key(key);
    if let Some(c) = change {
        assert!(app.can_complete(c, true));
        app.complete(c, true);
    }
    change
}

#[test]
fn tab_index_roundtrip() {
    for t in [ActiveTab::Dashboard, ActiveTab::Tasks, ActiveTab::SystemInfo] {
        assert_eq!(ActiveTab::from_index(t.index()), t);
    }
    assert_eq!(ActiveTab::Dashboard.index(), 0);
    assert_eq!(ActiveTab::Tasks.index(), 1);
    assert_eq!(ActiveTab::SystemInfo.index(), 2);
    assert_eq!(ActiveTab::from_index(7), ActiveTab::SystemInfo);
}

#[test]
fn new_app_starts_on_dashboard() {
    let app = app_with(vec![task(1, "a", false)]);
    assert_eq!(app.active_tab, ActiveTab::Dashboard);
    assert!(!app.should_quit);
    assert_eq!(app.selected_task_index, 0);
    assert!(!app.show_add_popup);
    assert!(app.input_text.is_empty());
    assert_eq!(app.session_completions, 0);
}

#[test]
fn tabs_wrap_both_ways_and_reset_selection() {
    let mut app = app_with(vec![task(1, "a", false), task(2, "b", false)]);
    app.active_tab = ActiveTab::Tasks;
    app.selected_task_index = 1;
    app.next_tab();
    assert_eq!(app.active_tab, ActiveTab::SystemInfo);
    assert_eq!(app.selected_task_index, 0);
    app.next_tab();
    assert_eq!(app.active_tab, ActiveTab::Dashboard);
    app.prev_tab();
    assert_eq!(app.active_tab, ActiveTab::SystemInfo);
    app.prev_tab();
    assert_eq!(app.active_tab, ActiveTab::Tasks);
}

#[test]
fn list_selection_wraps() {
    let mut app = app_with(vec![task(1, "a", false), task(2, "b", false), task(3, "c", false)]);
    app.list_prev();
    assert_eq!(app.selected_task_index, 2);
    app.list_next();
    assert_eq!(app.selected_task_index, 0);
    app.list_next();
    assert_eq!(app.selected_task_index, 1);
    let mut empty = app_with(vec![]);
    empty.list_next();
    empty.list_prev();
    assert_eq!(empty.selected_task_index, 0);
}

#[test]
fn quit_keys() {
    for key in [ch('q'), press(Key::Esc), KeyInput { code: Key::Char('c'), ctrl: true, press: true }] {
        let mut app = app_with(vec![]);
        step(&mut app, key);
        assert!(app.should_quit);
    }
    let mut app = app_with(vec![]);
    step(&mut app, ch('c'));
    assert!(!app.should_quit);
}

#[test]
fn releases_are_ignored() {
    let mut app = app_with(vec![]);
    step(&mut app, KeyInput { code: Key::Char('q'), ctrl: false, press: false });
    assert!(!app.should_quit);
}

#[test]
fn number_keys_pick_tabs_without_touching_selection() {
    let mut app = app_with(vec![task(1, "a", false), task(2, "b", false)]);
    app.selected_task_index = 1;
    step(&mut app, ch('2'));
    assert_eq!(app.active_tab, ActiveTab::Tasks);
    assert_eq!(app.selected_task_index, 1);
    step(&mut app, ch('3'));
    assert_eq!(app.active_tab, ActiveTab::SystemInfo);
    step(&mut app, ch('1'));
    assert_eq!(app.active_tab, ActiveTab::Dashboard);
    step(&mut app, press(Key::Tab));
    assert_eq!(app.active_tab, ActiveTab::Tasks);
    assert_eq!(app.selected_task_index, 0);
}

#[test]
fn list_keys_only_work_on_task_tab() {
    let mut app = app_with(vec![task(1, "a", false), task(2, "b", false)]);
    step(&mut app, ch('j'));
    assert_eq!(app.selected_task_index, 0);
    step(&mut app, ch('2'));
    step(&mut app, ch('j'));
    assert_eq!(app.selected_task_index, 1);
    step(&mut app, press(Key::Down));
    assert_eq!(app.selected_task_index, 0);
    step(&mut app, press(Key::Up));
    assert_eq!(app.selected_task_index, 1);
    step(&mut app, ch('k'));
    assert_eq!(app.selected_task_index, 0);
}

#[test]
fn space_toggles_and_counts_completions() {
    let mut app = app_with(vec![task(1, "a", false), task(2, "b", false)]);
    step(&mut app, ch(' '));
    assert!(!app.store.tasks[0].completed);
    step(&mut app, ch('2'));
    let change = step(&mut app, ch(' '));
    assert_eq!(change, Some(StoreChange::Toggled(1)));
    assert!(app.store.tasks[0].completed);
    assert_eq!(app.session_completions, 1);
    step(&mut app, ch(' '));
    assert!(!app.store.tasks[0].completed);
    assert_eq!(app.session_completions, 1);
}

#[test]
fn failed_save_of_toggle_counts_nothing() {
    let mut app = app_with(vec![task(1, "a", false)]);
    let change = app.toggle_selected_task();
    assert_eq!(change, Some(1));
    app.complete(StoreChange::Toggled(1), false);
    assert!(app.store.tasks[0].completed);
    assert_eq!(app.session_completions, 0);
}

#[test]
fn delete_keeps_selection_on_list() {
    let mut app = app_with(vec![task(1, "a", false), task(2, "b", false), task(3, "c", false)]);
    step(&mut app, ch('2'));
    app.selected_task_index = 2;
    let change = step(&mut app, ch('d'));
    assert_eq!(change, Some(StoreChange::Deleted));
    assert_eq!(app.store.tasks.len(), 2);
    assert_eq!(app.selected_task_index, 1);
    step(&mut app, press(Key::Delete));
    step(&mut app, ch('d'));
    assert!(app.store.tasks.is_empty());
    assert_eq!(app.selected_task_index, 0);
    assert_eq!(step(&mut app, ch('d')), None);
}

#[test]
fn failed_save_of_delete_leaves_selection() {
    let mut app = app_with(vec![task(1, "a", false), task(2, "b", false)]);
    app.selected_task_index = 1;
    assert!(app.delete_selected_task());
    app.complete_delete(false);
    assert_eq!(app.store.tasks.len(), 1);
    assert_eq!(app.selected_task_index, 1);
}

#[test]
fn popup_typing_and_submit() {
    let mut app = app_with(vec![task(4, "a", false)]);
    step(&mut app, ch('a'));
    assert!(!app.show_add_popup);
    step(&mut app, ch('2'));
    step(&mut app, ch('a'));
    assert!(app.show_add_popup);
    for c in " new!x".chars() {
        step(&mut app, ch(c));
    }
    assert_eq!(app.input_text, " new!x");
    step(&mut app, press(Key::Backspace));
    assert_eq!(app.input_text, " new!");
    step(&mut app, ch('q'));
    assert!(!app.should_quit);
    assert_eq!(app.input_text, " new!q");
    let change = step(&mut app, press(Key::Enter));
    assert_eq!(change, Some(StoreChange::Added));
    assert_eq!(app.store.tasks.len(), 2);
    assert_eq!(app.store.tasks[1].id, 5);
    assert_eq!(app.store.tasks[1].title, "new!q");
    assert!(!app.show_add_popup);
    assert!(app.input_text.is_empty());
    assert_eq!(app.selected_task_index, 1);
}

#[test]
fn blank_submit_only_closes_popup() {
    let mut app = app_with(vec![]);
    app.active_tab = ActiveTab::Tasks;
    app.show_add_popup = true;
    step(&mut app, ch(' '));
    let change = step(&mut app, press(Key::Enter));
    assert_eq!(change, None);
    assert!(!app.show_add_popup);
    assert_eq!(app.input_text, " ");
    assert!(app.store.tasks.is_empty());
}

#[test]
fn escape_cancels_popup() {
    let mut app = app_with(vec![]);
    app.show_add_popup = true;
    step(&mut app, ch('h'));
    step(&mut app, press(Key::Esc));
    assert!(!app.show_add_popup);
    assert!(app.input_text.is_empty());
    assert!(!app.should_quit);
}

#[test]
fn failed_save_of_add_keeps_popup() {
    let mut app = app_with(vec![]);
    app.show_add_popup = true;
    app.input_text = "x".to_string();
    assert!(app.add_task_from_input());
    app.complete(StoreChange::Added, false);
    assert!(app.show_add_popup);
    assert_eq!(app.input_text, "x");
    assert_eq!(app.store.tasks.len(), 1);
}

#[test]
fn backspace_on_empty_input_does_nothing() {
    let mut app = app_with(vec![]);
    app.show_add_popup = true;
    step(&mut app, press(Key::Backspace));
    assert!(app.input_text.is_empty());
}

#[test]
fn actions_for_keys() {
    assert_eq!(action_for(false, ActiveTab::Dashboard, press(Key::Other)), Action::Ignore);
    assert_eq!(action_for(true, ActiveTab::Tasks, press(Key::Tab)), Action::Ignore);
    assert_eq!(action_for(true, ActiveTab::Tasks, ch('q')), Action::InsertChar('q'));
    assert_eq!(action_for(false, ActiveTab::Tasks, ch('d')), Action::DeleteSelected);
    assert_eq!(action_for(false, ActiveTab::Dashboard, ch('d')), Action::Ignore);
    assert_eq!(action_for(false, ActiveTab::SystemInfo, ch('3')), Action::ShowTab(ActiveTab::SystemInfo));
}

#[test]
fn out_of_range_selection_is_refused() {
    let mut app = app_with(vec![task(1, "a", false)]);
    app.selected_task_index = 3;
    assert!(!app.allows(Action::ToggleSelected));
    assert!(!app.allows(Action::DeleteSelected));
    assert!(app.allows(Action::SelectNext));
}

#[test]
fn erase_right_after_typing_restores_text() {
    let mut app = app_with(vec![]);
    app.show_add_popup = true;
    app.input_text = "abc".to_string();
    step(&mut app, ch('é'));
    assert_eq!(app.input_text, "abcé");
    step(&mut app, press(Key::Backspace));
    assert_eq!(app.input_text, "abc");
}

#[test]
fn keys_that_report_no_change_keep_tasks() {
    let mut app = app_with(vec![task(1, "a", false), task(2, "b", true)]);
    for key in [ch('d'), ch(' '), press(Key::Delete), ch('x'), press(Key::Tab), ch('j')] {
        let before: Vec<(usize, bool)> = app.store.tasks.iter().map(|t| (t.id, t.completed)).collect();
        let change = step(&mut app, key);
        if change.is_none() {
            let after: Vec<(usize, bool)> = app.store.tasks.iter().map(|t| (t.id, t.completed)).collect();
            assert_eq!(before, after);
        }
    }
}

#[test]
fn started_at_keeps_the_given_start() {
    let start = flow::clock::Timestamp { secs: 1_234, nanos: 5 };
    let app = App::started_at(TaskStore::new(None), start);
    assert_eq!(app.start_time, start);
    assert_eq!(app.active_tab, ActiveTab::Dashboard);
    assert_eq!(app.session_completions, 0);
    let now = App::new(TaskStore::new(None));
    assert!(now.start_time.secs > 1_600_000_000 && now.start_time.nanos < 1_000_000_000);
}
