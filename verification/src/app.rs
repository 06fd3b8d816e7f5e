//! The dashboard's state and how it moves: tabs, list selection, the add-task popup,
//! and the keys that drive them.

use vstd::prelude::*;

use crate::clock::{now_timestamp, Timestamp};
use crate::laws::{deletes_highlighted, toggles_highlighted};
use crate::task::{appended_task, first_index, has_id, max_id, toggled, without_id, Task, TaskStore};
use crate::text::{is_blank, pop_char, push_char, trim};

verus! {

/// The sections (tabs) of the dashboard, in display order.
#[derive(Clone, Copy, Debug, PartialEq, Eq, Structural)]
pub enum ActiveTab {
    Dashboard,
    Tasks,
    SystemInfo,
}

/// The position of `t` among the tabs.
pub open spec fn tab_number(t: ActiveTab) -> nat {
    match t {
        ActiveTab::Dashboard => 0,
        ActiveTab::Tasks => 1,
        ActiveTab::SystemInfo => 2,
    }
}

/// The tab at position `i`; every position past the second is the last tab.
pub open spec fn tab_at(i: nat) -> ActiveTab {
    if i == 0 {
        ActiveTab::Dashboard
    } else if i == 1 {
        ActiveTab::Tasks
    } else {
        ActiveTab::SystemInfo
    }
}

impl ActiveTab {
    /// The position of this tab among the tabs.
    pub fn index(self) -> (i: usize)
        ensures
            i == tab_number(self),
    {
        match self {
            ActiveTab::Dashboard => 0,
            ActiveTab::Tasks => 1,
            ActiveTab::SystemInfo => 2,
        }
    }

    /// The tab at position `index`; every position past the second gives the last tab.
    pub fn from_index(index: usize) -> (t: ActiveTab)
        ensures
            t == tab_at(index as nat),
    {
        match index {
            0 => ActiveTab::Dashboard,
            1 => ActiveTab::Tasks,
            _ => ActiveTab::SystemInfo,
        }
    }
}

/// The tab to the right of `t`, wrapping around.
pub open spec fn tab_after(t: ActiveTab) -> ActiveTab {
    tab_at(((tab_number(t) + 1) % 3) as nat)
}

/// The tab to the left of `t`, wrapping around.
pub open spec fn tab_before(t: ActiveTab) -> ActiveTab {
    if tab_number(t) == 0 {
        tab_at(2)
    } else {
        tab_at((tab_number(t) - 1) as nat)
    }
}

/// The whole dashboard state.
pub struct App {
    /// The tasks.
    pub store: TaskStore,
    /// The tab on show.
    pub active_tab: ActiveTab,
    /// Whether the user asked to leave.
    pub should_quit: bool,
    /// The position of the highlighted task in the task list.
    pub selected_task_index: usize,
    /// Whether the add-task popup is open.
    pub show_add_popup: bool,
    /// What has been typed into the popup.
    pub input_text: String,
    /// How many tasks were marked completed during this run.
    pub session_completions: u32,
    /// When this run started.
    pub start_time: Timestamp,
}

/// The state of an `App` as plain values.
#[verifier::ext_equal]
pub struct AppView {
    pub tasks: Seq<Task>,
    pub active_tab: ActiveTab,
    pub should_quit: bool,
    pub selected: usize,
    pub show_add_popup: bool,
    pub input: Seq<char>,
    pub session_completions: u32,
    pub start_time: Timestamp,
}

impl View for App {
    type V = AppView;

    open spec fn view(&self) -> AppView {
        AppView {
            tasks: self.store.tasks@,
            active_tab: self.active_tab,
            should_quit: self.should_quit,
            selected: self.selected_task_index,
            show_add_popup: self.show_add_popup,
            input: self.input_text@,
            session_completions: self.session_completions,
            start_time: self.start_time,
        }
    }
}

/// `v` after moving to the next tab: the selection goes back to the top.
pub open spec fn after_next_tab(v: AppView) -> AppView {
    AppView { active_tab: tab_after(v.active_tab), selected: 0, ..v }
}

/// `v` after moving to the previous tab: the selection goes back to the top.
pub open spec fn after_prev_tab(v: AppView) -> AppView {
    AppView { active_tab: tab_before(v.active_tab), selected: 0, ..v }
}

/// `v` after moving the selection down one row, wrapping to the top.
pub open spec fn after_list_next(v: AppView) -> AppView {
    if v.tasks.len() == 0 {
        v
    } else {
        AppView { selected: ((v.selected + 1) % (v.tasks.len() as int)) as usize, ..v }
    }
}

/// `v` after moving the selection up one row, wrapping to the bottom.
pub open spec fn after_list_prev(v: AppView) -> AppView {
    if v.tasks.len() == 0 {
        v
    } else if v.selected == 0 {
        AppView { selected: (v.tasks.len() - 1) as usize, ..v }
    } else {
        AppView { selected: (v.selected - 1) as usize, ..v }
    }
}

/// `v` after toggling the highlighted task (the first task carrying its id).
pub open spec fn after_toggle_selected(v: AppView) -> AppView {
    if v.tasks.len() == 0 {
        v
    } else {
        AppView { tasks: toggled(v.tasks, v.tasks[v.selected as int].id), ..v }
    }
}

/// `v` after deleting every task that carries the id of the highlighted one.
pub open spec fn after_delete_selected(v: AppView) -> AppView {
    if v.tasks.len() == 0 {
        v
    } else {
        AppView { tasks: without_id(v.tasks, v.tasks[v.selected as int].id), ..v }
    }
}

/// The selection points at a task whenever there is one.
pub open spec fn selection_valid(v: AppView) -> bool {
    v.tasks.len() > 0 ==> v.selected < v.tasks.len()
}

/// `w` is `v` after a task titled with the trimmed input was appended, with an id one
/// above the largest and not completed; everything else is as it was.
pub open spec fn appended_from_input(v: AppView, w: AppView) -> bool {
    &&& appended_task(v.tasks, w.tasks, v.input)
    &&& w == AppView { tasks: w.tasks, ..v }
}

impl App {
    /// A fresh dashboard over `store` that started at `start_time`: first tab, top row, no
    /// popup, nothing typed, no completions yet.
    pub fn started_at(store: TaskStore, start_time: Timestamp) -> (app: App)
        ensures
            app.store.tasks@ == store.tasks@,
            app.active_tab == ActiveTab::Dashboard,
            !app.should_quit,
            app.selected_task_index == 0,
            !app.show_add_popup,
            app.input_text@ == Seq::<char>::empty(),
            app.session_completions == 0,
            app.start_time == start_time,
    {
        App {
            store,
            active_tab: ActiveTab::Dashboard,
            should_quit: false,
            selected_task_index: 0,
            show_add_popup: false,
            input_text: String::new(),
            session_completions: 0,
            start_time,
        }
    }

    /// A fresh dashboard over `store`, started now: first tab, top row, no popup, nothing
    /// typed, no completions yet.
    pub fn new(store: TaskStore) -> (app: App)
        ensures
            app.store.tasks@ == store.tasks@,
            app.active_tab == ActiveTab::Dashboard,
            !app.should_quit,
            app.selected_task_index == 0,
            !app.show_add_popup,
            app.input_text@ == Seq::<char>::empty(),
            app.session_completions == 0,
            app.start_time.secs >= 0,
            app.start_time.nanos < 1_000_000_000,
    {
        App::started_at(store, now_timestamp())
    }

    /// Asks the main loop to stop.
    pub fn quit(&mut self)
        ensures
            final(self)@ == (AppView { should_quit: true, ..old(self)@ }),
    {
        self.should_quit = true;
    }

    /// Moves to the tab on the right, wrapping around, and puts the selection back on top.
    pub fn next_tab(&mut self)
        ensures
            final(self)@ == after_next_tab(old(self)@),
    {
        let current: usize = self.active_tab.index();
        let next: usize = (current + 1) % 3;
        self.active_tab = ActiveTab::from_index(next);
        self.selected_task_index = 0;
    }

    /// Moves to the tab on the left, wrapping around, and puts the selection back on top.
    pub fn prev_tab(&mut self)
        ensures
            final(self)@ == after_prev_tab(old(self)@),
    {
        let current: usize = self.active_tab.index();
        let prev: usize = if current == 0 {
            2
        } else {
            current - 1
        };
        self.active_tab = ActiveTab::from_index(prev);
        self.selected_task_index = 0;
    }

    /// Moves the selection down one row, wrapping to the top.
    pub fn list_next(&mut self)
        requires
            old(self)@.tasks.len() > 0 ==> old(self)@.selected < usize::MAX,
        ensures
            final(self)@ == after_list_next(old(self)@),
    {
        if self.store.tasks.is_empty() {
            return;
        }
        self.selected_task_index = (self.selected_task_index + 1) % self.store.tasks.len();
    }

    /// Moves the selection up one row, wrapping to the bottom.
    pub fn list_prev(&mut self)
        ensures
            final(self)@ == after_list_prev(old(self)@),
    {
        if self.store.tasks.is_empty() {
            return;
        }
        self.selected_task_index = if self.selected_task_index == 0 {
            self.store.tasks.len() - 1
        } else {
            self.selected_task_index - 1
        };
    }
}


/// A change to the task list that a step made and that the caller now has to save; once
/// the save is done or has failed, `App::complete` finishes the step.
#[derive(Clone, Copy, Debug, PartialEq, Eq, Structural)]
pub enum StoreChange {
    /// The task with this id had its completion flipped.
    Toggled(usize),
    /// Tasks were deleted.
    Deleted,
    /// A task was appended.
    Added,
}

/// `v` once the toggle of the task `id` has been saved (`saved`) or not: a successful save
/// of a toggle that completed the task counts one more completion.
pub open spec fn after_toggle_saved(v: AppView, id: usize, saved: bool) -> AppView {
    if saved && has_id(v.tasks, id) && v.tasks[first_index(v.tasks, id)].completed {
        AppView { session_completions: (v.session_completions + 1) as u32, ..v }
    } else {
        v
    }
}

/// `v` once a deletion has been saved or not: after a successful save the selection is
/// pulled back onto the last task when it fell off the end, and put on top when no task is left.
pub open spec fn after_delete_saved(v: AppView, saved: bool) -> AppView {
    if saved && v.selected >= v.tasks.len() && v.tasks.len() > 0 {
        AppView { selected: (v.tasks.len() - 1) as usize, ..v }
    } else if saved && v.tasks.len() == 0 {
        AppView { selected: 0, ..v }
    } else {
        v
    }
}

/// `v` once an added task has been saved or not: after a successful save the popup closes,
/// its text is cleared and the selection moves to the new, last task.
pub open spec fn after_add_saved(v: AppView, saved: bool) -> AppView {
    if saved {
        AppView {
            input: Seq::<char>::empty(),
            show_add_popup: false,
            selected: (v.tasks.len() - 1) as usize,
            ..v
        }
    } else {
        v
    }
}

/// `v` once `change` has been saved (`saved`) or not.
pub open spec fn after_saved(v: AppView, change: StoreChange, saved: bool) -> AppView {
    match change {
        StoreChange::Toggled(id) => after_toggle_saved(v, id, saved),
        StoreChange::Deleted => after_delete_saved(v, saved),
        StoreChange::Added => after_add_saved(v, saved),
    }
}

/// Finishing `change` with the outcome `saved` in the state `v` does not overflow or look up
/// a missing task.
pub open spec fn completion_allowed(v: AppView, change: StoreChange, saved: bool) -> bool {
    match change {
        StoreChange::Toggled(id) => saved ==> {
            &&& has_id(v.tasks, id)
            &&& v.tasks[first_index(v.tasks, id)].completed ==> v.session_completions < u32::MAX
        },
        StoreChange::Deleted => true,
        StoreChange::Added => saved ==> v.tasks.len() > 0,
    }
}

impl App {
    /// Flips the completion of the highlighted task (of the first task with its id) and
    /// returns that id, or does nothing and returns `None` when the list is empty.
    pub fn toggle_selected_task(&mut self) -> (toggled_id: Option<usize>)
        requires
            selection_valid(old(self)@),
        ensures
            final(self)@ == after_toggle_selected(old(self)@),
            toggled_id == (if old(self)@.tasks.len() == 0 {
                None::<usize>
            } else {
                Some(old(self)@.tasks[old(self)@.selected as int].id)
            }),
            old(self)@.tasks.len() > 0 ==> toggles_highlighted(old(self)@, final(self)@),
    {
        if self.store.tasks.is_empty() {
            return None;
        }
        let task_id: usize = self.store.tasks[self.selected_task_index].id;
        self.store.toggle_task(task_id);
        proof {
            crate::laws::law_toggle_selected_flips_highlighted(old(self)@);
        }
        Some(task_id)
    }

    /// Finishes a toggle of the task `task_id` once saving was tried: when it was saved and
    /// the task is now completed, one more completion is counted.
    pub fn complete_toggle(&mut self, task_id: usize, saved: bool)
        requires
            completion_allowed(old(self)@, StoreChange::Toggled(task_id), saved),
        ensures
            final(self)@ == after_toggle_saved(old(self)@, task_id, saved),
    {
        if saved {
            match self.store.position_of(task_id) {
                Some(i) => {
                    proof {
                        crate::task::lemma_first_index(self.store.tasks@, task_id, i as int);
                    }
                    if self.store.tasks[i].completed {
                        self.session_completions = self.session_completions + 1;
                    }
                },
                None => {},
            }
        }
    }

    /// Deletes every task carrying the id of the highlighted one; returns whether the list
    /// was nonempty (and so changed).
    pub fn delete_selected_task(&mut self) -> (deleted: bool)
        requires
            selection_valid(old(self)@),
        ensures
            final(self)@ == after_delete_selected(old(self)@),
            deleted == (old(self)@.tasks.len() > 0),
            old(self)@.tasks.len() > 0 ==> deletes_highlighted(old(self)@, final(self)@),
    {
        if self.store.tasks.is_empty() {
            return false;
        }
        let task_id: usize = self.store.tasks[self.selected_task_index].id;
        self.store.delete_task(task_id);
        proof {
            crate::laws::law_delete_selected_removes_highlighted(old(self)@);
        }
        true
    }

    /// Finishes a deletion once saving was tried: after a successful save the selection is
    /// brought back onto the list.
    pub fn complete_delete(&mut self, saved: bool)
        ensures
            final(self)@ == after_delete_saved(old(self)@, saved),
    {
        if saved {
            if self.selected_task_index >= self.store.tasks.len() && !self.store.tasks.is_empty() {
                self.selected_task_index = self.store.tasks.len() - 1;
            } else if self.store.tasks.is_empty() {
                self.selected_task_index = 0;
            }
        }
    }

    /// Appends a task titled with the popup's text, trimmed, and returns `true`; when the
    /// text is blank it only closes the popup and returns `false`.
    pub fn add_task_from_input(&mut self) -> (added: bool)
        requires
            trim(old(self)@.input).len() > 0 ==> max_id(old(self)@.tasks) < usize::MAX,
        ensures
            added == (trim(old(self)@.input).len() > 0),
            !added ==> final(self)@ == (AppView { show_add_popup: false, ..old(self)@ }),
            added ==> appended_from_input(old(self)@, final(self)@),
    {
        if is_blank(self.input_text.as_str()) {
            self.show_add_popup = false;
            return false;
        }
        let title = self.input_text.clone();
        self.store.add_task(title);
        true
    }

    /// Finishes an addition once saving was tried: after a successful save the popup closes,
    /// its text is cleared and the new task is selected.
    pub fn complete_add(&mut self, saved: bool)
        requires
            saved ==> old(self)@.tasks.len() > 0,
        ensures
            final(self)@ == after_add_saved(old(self)@, saved),
    {
        if saved {
            self.input_text = String::new();
            self.show_add_popup = false;
            self.selected_task_index = self.store.tasks.len() - 1;
        }
    }

    /// Finishes the step that made `change`, given whether saving it succeeded.
    pub fn complete(&mut self, change: StoreChange, saved: bool)
        requires
            completion_allowed(old(self)@, change, saved),
        ensures
            final(self)@ == after_saved(old(self)@, change, saved),
    {
        match change {
            StoreChange::Toggled(id) => self.complete_toggle(id, saved),
            StoreChange::Deleted => self.complete_delete(saved),
            StoreChange::Added => self.complete_add(saved),
        }
    }

    /// Whether finishing `change` with the outcome `saved` is within `complete`'s bounds.
    pub fn can_complete(&self, change: StoreChange, saved: bool) -> (ok: bool)
        ensures
            ok == completion_allowed(self@, change, saved),
    {
        match change {
            StoreChange::Toggled(id) => {
                if !saved {
                    return true;
                }
                match self.store.position_of(id) {
                    Some(i) => {
                        proof {
                            crate::task::lemma_first_index(self.store.tasks@, id, i as int);
                        }
                        !self.store.tasks[i].completed || self.session_completions < u32::MAX
                    },
                    None => false,
                }
            },
            StoreChange::Deleted => true,
            StoreChange::Added => !saved || !self.store.tasks.is_empty(),
        }
    }
}

} // verus!
