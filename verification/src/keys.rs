//! What each key press does to the dashboard.

use vstd::prelude::*;

use crate::app::{
    after_delete_selected, after_list_next, after_list_prev, after_next_tab,
    after_toggle_selected, appended_from_input, selection_valid, ActiveTab, App, AppView,
    StoreChange,
};
use crate::task::max_id;
use crate::text::{pop_char, push_char, trim};

verus! {

/// The keys the dashboard reacts to; every other key is `Other`.
#[derive(Clone, Copy, Debug, PartialEq, Eq, Structural)]
pub enum Key {
    Enter,
    Esc,
    Backspace,
    Tab,
    Up,
    Down,
    Delete,
    Char(char),
    Other,
}

/// A keyboard event: the key, whether Control was held, and whether it is a press (as opposed
/// to a release or a repeat).
#[derive(Clone, Copy, Debug, PartialEq, Eq, Structural)]
pub struct KeyInput {
    pub code: Key,
    pub ctrl: bool,
    pub press: bool,
}

/// What a key press asks of the dashboard.
#[derive(Clone, Copy, Debug, PartialEq, Eq, Structural)]
pub enum Action {
    /// Nothing.
    Ignore,
    /// Add the typed task.
    SubmitInput,
    /// Close the popup and forget the typed text.
    CancelInput,
    /// Erase the last typed character.
    EraseChar,
    /// Type a character.
    InsertChar(char),
    /// Leave the program.
    Quit,
    /// Go to the next tab.
    NextTab,
    /// Go to this tab.
    ShowTab(ActiveTab),
    /// Highlight the next task.
    SelectNext,
    /// Highlight the previous task.
    SelectPrev,
    /// Flip the highlighted task.
    ToggleSelected,
    /// Delete the highlighted task.
    DeleteSelected,
    /// Open the add-task popup.
    OpenAddPopup,
}

/// The action of `key` while the popup is open (`popup`) or not, with `tab` on show.
pub open spec fn key_action(popup: bool, tab: ActiveTab, key: KeyInput) -> Action {
    if !key.press {
        Action::Ignore
    } else if popup {
        match key.code {
            Key::Enter => Action::SubmitInput,
            Key::Esc => Action::CancelInput,
            Key::Backspace => Action::EraseChar,
            Key::Char(c) => Action::InsertChar(c),
            _ => Action::Ignore,
        }
    } else {
        let on_tasks = tab == ActiveTab::Tasks;
        match key.code {
            Key::Esc => Action::Quit,
            Key::Char(c) => if c == 'q' || (c == 'c' && key.ctrl) {
                Action::Quit
            } else if c == '1' {
                Action::ShowTab(ActiveTab::Dashboard)
            } else if c == '2' {
                Action::ShowTab(ActiveTab::Tasks)
            } else if c == '3' {
                Action::ShowTab(ActiveTab::SystemInfo)
            } else if c == 'j' && on_tasks {
                Action::SelectNext
            } else if c == 'k' && on_tasks {
                Action::SelectPrev
            } else if c == ' ' && on_tasks {
                Action::ToggleSelected
            } else if c == 'd' && on_tasks {
                Action::DeleteSelected
            } else if c == 'a' && on_tasks {
                Action::OpenAddPopup
            } else {
                Action::Ignore
            },
            Key::Tab => Action::NextTab,
            Key::Down => if on_tasks {
                Action::SelectNext
            } else {
                Action::Ignore
            },
            Key::Up => if on_tasks {
                Action::SelectPrev
            } else {
                Action::Ignore
            },
            Key::Delete => if on_tasks {
                Action::DeleteSelected
            } else {
                Action::Ignore
            },
            _ => Action::Ignore,
        }
    }
}

/// The action of `key` while the popup is open (`popup`) or not, with `tab` on show.
pub fn action_for(popup: bool, tab: ActiveTab, key: KeyInput) -> (a: Action)
    ensures
        a == key_action(popup, tab, key),
{
    if !key.press {
        return Action::Ignore;
    }
    if popup {
        match key.code {
            Key::Enter => Action::SubmitInput,
            Key::Esc => Action::CancelInput,
            Key::Backspace => Action::EraseChar,
            Key::Char(c) => Action::InsertChar(c),
            _ => Action::Ignore,
        }
    } else {
        let on_tasks = tab == ActiveTab::Tasks;
        match key.code {
            Key::Char('q') | Key::Esc => Action::Quit,
            Key::Char('c') if key.ctrl => Action::Quit,
            Key::Tab => Action::NextTab,
            Key::Char('1') => Action::ShowTab(ActiveTab::Dashboard),
            Key::Char('2') => Action::ShowTab(ActiveTab::Tasks),
            Key::Char('3') => Action::ShowTab(ActiveTab::SystemInfo),
            Key::Down | Key::Char('j') => if on_tasks {
                Action::SelectNext
            } else {
                Action::Ignore
            },
            Key::Up | Key::Char('k') => if on_tasks {
                Action::SelectPrev
            } else {
                Action::Ignore
            },
            Key::Char(' ') => if on_tasks {
                Action::ToggleSelected
            } else {
                Action::Ignore
            },
            Key::Delete | Key::Char('d') => if on_tasks {
                Action::DeleteSelected
            } else {
                Action::Ignore
            },
            Key::Char('a') => if on_tasks {
                Action::OpenAddPopup
            } else {
                Action::Ignore
            },
            _ => Action::Ignore,
        }
    }
}

/// Carrying out `a` in the state `v` does not overflow or index past the task list.
pub open spec fn action_allowed(v: AppView, a: Action) -> bool {
    match a {
        Action::SubmitInput => trim(v.input).len() > 0 ==> max_id(v.tasks) < usize::MAX,
        Action::SelectNext => v.tasks.len() > 0 ==> v.selected < usize::MAX,
        Action::ToggleSelected => selection_valid(v),
        Action::DeleteSelected => selection_valid(v),
        _ => true,
    }
}

/// `w` and `change` are the state and the pending change after carrying out `a` in `v`.
pub open spec fn action_result(v: AppView, a: Action, w: AppView, change: Option<StoreChange>) -> bool {
    match a {
        Action::Ignore => w == v && change is None,
        Action::SubmitInput => if trim(v.input).len() == 0 {
            w == AppView { show_add_popup: false, ..v } && change is None
        } else {
            appended_from_input(v, w) && change == Some(StoreChange::Added)
        },
        Action::CancelInput => w == AppView {
            show_add_popup: false,
            input: Seq::<char>::empty(),
            ..v
        } && change is None,
        Action::EraseChar => w == AppView {
            input: if v.input.len() == 0 {
                v.input
            } else {
                v.input.drop_last()
            },
            ..v
        } && change is None,
        Action::InsertChar(c) => w == AppView { input: v.input.push(c), ..v } && change is None,
        Action::Quit => w == AppView { should_quit: true, ..v } && change is None,
        Action::NextTab => w == after_next_tab(v) && change is None,
        Action::ShowTab(t) => w == AppView { active_tab: t, ..v } && change is None,
        Action::SelectNext => w == after_list_next(v) && change is None,
        Action::SelectPrev => w == after_list_prev(v) && change is None,
        Action::ToggleSelected => w == after_toggle_selected(v) && change == (if v.tasks.len()
            == 0 {
            None::<StoreChange>
        } else {
            Some(StoreChange::Toggled(v.tasks[v.selected as int].id))
        }),
        Action::DeleteSelected => w == after_delete_selected(v) && change == (if v.tasks.len()
            == 0 {
            None::<StoreChange>
        } else {
            Some(StoreChange::Deleted)
        }),
        Action::OpenAddPopup => w == AppView { show_add_popup: true, ..v } && change is None,
    }
}

impl App {
    /// Whether carrying out `a` now is within `apply`'s bounds.
    pub fn allows(&self, a: Action) -> (ok: bool)
        ensures
            ok == action_allowed(self@, a),
    {
        match a {
            Action::SubmitInput => crate::text::is_blank(self.input_text.as_str())
                || self.store.max_id() < usize::MAX,
            Action::SelectNext => self.store.tasks.is_empty() || self.selected_task_index
                < usize::MAX,
            Action::ToggleSelected | Action::DeleteSelected => self.store.tasks.is_empty()
                || self.selected_task_index < self.store.tasks.len(),
            _ => true,
        }
    }

    /// Carries out `a`. Returns the change to the task list that now has to be saved, if any.
    pub fn apply(&mut self, a: Action) -> (change: Option<StoreChange>)
        requires
            action_allowed(old(self)@, a),
        ensures
            action_result(old(self)@, a, final(self)@, change),
    {
        match a {
            Action::Ignore => None,
            Action::SubmitInput => {
                if self.add_task_from_input() {
                    Some(StoreChange::Added)
                } else {
                    None
                }
            },
            Action::CancelInput => {
                self.show_add_popup = false;
                self.input_text = String::new();
                None
            },
            Action::EraseChar => {
                pop_char(&mut self.input_text);
                None
            },
            Action::InsertChar(c) => {
                push_char(&mut self.input_text, c);
                None
            },
            Action::Quit => {
                self.quit();
                None
            },
            Action::NextTab => {
                self.next_tab();
                None
            },
            Action::ShowTab(t) => {
                self.active_tab = t;
                None
            },
            Action::SelectNext => {
                self.list_next();
                None
            },
            Action::SelectPrev => {
                self.list_prev();
                None
            },
            Action::ToggleSelected => {
                match self.toggle_selected_task() {
                    Some(id) => Some(StoreChange::Toggled(id)),
                    None => None,
                }
            },
            Action::DeleteSelected => {
                if self.delete_selected_task() {
                    Some(StoreChange::Deleted)
                } else {
                    None
                }
            },
            Action::OpenAddPopup => {
                self.show_add_popup = true;
                None
            },
        }
    }

    /// Handles one keyboard event. Returns the change to the task list that now has to be
    /// saved, if any; `complete` finishes the step once saving was tried.
    pub fn handle_key(&mut self, key: KeyInput) -> (change: Option<StoreChange>)
        requires
            action_allowed(old(self)@, key_action(old(self)@.show_add_popup, old(self)@.active_tab, key)),
        ensures
            action_result(
                old(self)@,
                key_action(old(self)@.show_add_popup, old(self)@.active_tab, key),
                final(self)@,
                change,
            ),
    {
        let a = action_for(self.show_add_popup, self.active_tab, key);
        self.apply(a)
    }
}

} // verus!
