//! Properties that hold across the library's operations.

use vstd::prelude::*;

use crate::app::{
    after_delete_selected, after_toggle_selected, after_list_next, after_list_prev,
    after_delete_saved, after_add_saved, after_toggle_saved,
    after_next_tab, after_prev_tab, after_saved, selection_valid, tab_at, tab_number, ActiveTab,
    AppView, StoreChange,
};
use crate::keys::{action_result, key_action, Action, Key, KeyInput};
use crate::task::{appended_task, first_index, first_with_id, has_id, lemma_first_index, lemma_max_id,
    lemma_toggled_keeps_first_index, max_id, toggled, without_id, Task};
use crate::text::{is_whitespace, trim, trim_end, trim_start};
use crate::clock::div_toward_zero;
use crate::view::{count_completed, rem_toward_zero};

verus! {

/// `w` is `v` with every task that carries the highlighted task's id removed, the others kept
/// in order, and nothing else changed.
pub open spec fn deletes_highlighted(v: AppView, w: AppView) -> bool {
    let id = v.tasks[v.selected as int].id;
    &&& w.tasks == v.tasks.filter(|t: Task| t.id != id)
    &&& forall|i: int| 0 <= i < w.tasks.len() ==> #[trigger] w.tasks[i].id != id
    &&& w == AppView { tasks: w.tasks, ..v }
}

/// `w` is `v` with the completion of the first task carrying the highlighted task's id flipped
/// (the highlighted task itself when no earlier task shares its id), every other task as it
/// was, and nothing else changed.
pub open spec fn toggles_highlighted(v: AppView, w: AppView) -> bool {
    let id = v.tasks[v.selected as int].id;
    &&& w.tasks.len() == v.tasks.len()
    &&& forall|j: int|
        0 <= j < v.tasks.len() && v.tasks[j].id != id ==> #[trigger] w.tasks[j] == v.tasks[j]
    &&& forall|f: int|
        0 <= f <= v.selected && v.tasks[f].id == id && (forall|k: int|
            0 <= k < f ==> #[trigger] v.tasks[k].id != id) ==> {
            &&& w.tasks[f].completed == !v.tasks[f].completed
            &&& w.tasks[f].id == v.tasks[f].id
            &&& w.tasks[f].title == v.tasks[f].title
            &&& w.tasks[f].created_at == v.tasks[f].created_at
            &&& forall|j: int| 0 <= j < v.tasks.len() && j != f ==> #[trigger] w.tasks[j] == v.tasks[j]
        }
    &&& w == AppView { tasks: w.tasks, ..v }
}

/// A tab's position leads back to the tab.
pub proof fn law_tab_position_roundtrip(t: ActiveTab)
    ensures
        tab_at(tab_number(t)) == t,
{
}

/// Moving to the next tab three times comes back to the tab one started on.
pub proof fn law_three_next_tabs_come_back(v: AppView)
    ensures
        after_next_tab(after_next_tab(after_next_tab(v))).active_tab == v.active_tab,
{
}

/// Moving to the previous tab undoes moving to the next one, and the other way round.
pub proof fn law_prev_tab_undoes_next_tab(v: AppView)
    ensures
        after_prev_tab(after_next_tab(v)).active_tab == v.active_tab,
        after_next_tab(after_prev_tab(v)).active_tab == v.active_tab,
{
}

/// Toggling the same id twice gives back the list one started with.
pub proof fn law_toggle_twice_restores(s: Seq<Task>, id: usize)
    ensures
        toggled(toggled(s, id), id) == s,
{
    if has_id(s, id) {
        lemma_first_index(s, id, 0);
        lemma_toggled_keeps_first_index(s, id);
        let f: int = first_index(s, id);
        assert(toggled(toggled(s, id), id) =~= s);
    }
}

/// After deleting an id no task carries it; deleting it again changes nothing; deleting an
/// id that no task carries changes nothing either.
pub proof fn law_delete_removes_every_match(s: Seq<Task>, id: usize)
    ensures
        !has_id(without_id(s, id), id),
        without_id(without_id(s, id), id) == without_id(s, id),
        !has_id(s, id) ==> without_id(s, id) == s,
{
    broadcast use vstd::seq_lib::group_filter_ensures;
    let pred = |t: Task| t.id != id;
    if has_id(without_id(s, id), id) {
        let i: int = choose|i: int| 0 <= i < without_id(s, id).len() && #[trigger] without_id(
            s,
            id,
        )[i].id == id;
        assert(pred(without_id(s, id)[i]));
    }
    lemma_filter_keeps_all(without_id(s, id), id);
    if !has_id(s, id) {
        lemma_filter_keeps_all(s, id);
    }
}

/// Filtering out an id that no task carries keeps the list as it is.
proof fn lemma_filter_keeps_all(s: Seq<Task>, id: usize)
    requires
        !has_id(s, id),
    ensures
        without_id(s, id) == s,
    decreases s.len(),
{
    reveal_with_fuel(Seq::<_>::filter, 1);
    if s.len() > 0 {
        assert(!has_id(s.drop_last(), id)) by {
            if has_id(s.drop_last(), id) {
                let i: int = choose|i: int| 0 <= i < s.drop_last().len() && #[trigger] s.drop_last()[i].id
                    == id;
                assert(s[i] == s.drop_last()[i]);
            }
        }
        lemma_filter_keeps_all(s.drop_last(), id);
        assert(s[s.len() - 1].id != id);
        assert(s.drop_last().push(s.last()) =~= s);
    }
}

/// An added task gets an id above every id already there, so no other task carries it.
pub proof fn law_added_id_is_fresh(old: Seq<Task>, new: Seq<Task>, title: Seq<char>)
    requires
        appended_task(old, new, title),
    ensures
        forall|i: int| 0 <= i < old.len() ==> #[trigger] old[i].id < new.last().id,
        !has_id(old, new.last().id),
{
    lemma_max_id(old);
}

/// Deleting the task that was just added gives back the list from before.
pub proof fn law_add_then_delete_restores(old: Seq<Task>, new: Seq<Task>, title: Seq<char>)
    requires
        appended_task(old, new, title),
    ensures
        without_id(new, new.last().id) == old,
{
    law_added_id_is_fresh(old, new, title);
    lemma_filter_keeps_all(old, new.last().id);
    assert(new.drop_last() == old);
    assert(new.len() > 0);
    reveal_with_fuel(Seq::<_>::filter, 1);
}

/// Trimming twice is trimming once, and a trimmed text neither starts nor ends with whitespace.
pub proof fn law_trim_idempotent(s: Seq<char>)
    ensures
        trim(trim(s)) == trim(s),
        trim(s).len() > 0 ==> !is_whitespace(trim(s)[0]) && !is_whitespace(trim(s).last()),
{
    lemma_trim_start_edge(s);
    lemma_trim_end_edge(trim_start(s));
    lemma_trim_end_keeps_start(trim_start(s));
    let t = trim(s);
    lemma_trim_start_edge(t);
    if t.len() > 0 {
        assert(trim_start(t) == t);
    }
    assert(trim_end(t) == t);
}

/// What `trim_start` leaves does not begin with whitespace.
proof fn lemma_trim_start_edge(s: Seq<char>)
    ensures
        trim_start(s).len() > 0 ==> !is_whitespace(trim_start(s)[0]),
        trim_start(s).len() <= s.len(),
    decreases s.len(),
{
    if s.len() > 0 && is_whitespace(s[0]) {
        lemma_trim_start_edge(s.drop_first());
    }
}

/// What `trim_end` leaves does not end with whitespace, and is a prefix of its input.
proof fn lemma_trim_end_edge(s: Seq<char>)
    ensures
        trim_end(s).len() > 0 ==> !is_whitespace(trim_end(s).last()),
        trim_end(s).len() <= s.len(),
        trim_end(s) == s.subrange(0, trim_end(s).len() as int),
    decreases s.len(),
{
    if s.len() > 0 && is_whitespace(s.last()) {
        lemma_trim_end_edge(s.drop_last());
        assert(s.drop_last().subrange(0, trim_end(s).len() as int) =~= s.subrange(
            0,
            trim_end(s).len() as int,
        ));
    } else {
        assert(s.subrange(0, s.len() as int) =~= s);
    }
}

/// Trimming the end of a text that does not start with whitespace leaves a text that does not
/// start with whitespace either.
proof fn lemma_trim_end_keeps_start(s: Seq<char>)
    requires
        s.len() > 0 ==> !is_whitespace(s[0]),
    ensures
        trim_end(s).len() > 0 ==> !is_whitespace(trim_end(s)[0]),
{
    lemma_trim_end_edge(s);
    if trim_end(s).len() > 0 {
        assert(trim_end(s)[0] == s[0]);
    }
}

/// One key press, followed by a successful save of what it changed, leaves the selection on a
/// task whenever there is one, provided it was so before.
pub proof fn law_key_step_keeps_selection_valid(
    v: AppView,
    key: KeyInput,
    w: AppView,
    change: Option<StoreChange>,
)
    requires
        selection_valid(v),
        action_result(v, key_action(v.show_add_popup, v.active_tab, key), w, change),
    ensures
        selection_valid(
            match change {
                Some(c) => after_saved(w, c, true),
                None => w,
            },
        ),
{
    let a = key_action(v.show_add_popup, v.active_tab, key);
    match a {
        Action::SelectNext => {
            if v.tasks.len() > 0 {
                vstd::arithmetic::div_mod::lemma_mod_bound(
                    v.selected + 1,
                    v.tasks.len() as int,
                );
            }
        },
        Action::ToggleSelected => {
            if v.tasks.len() > 0 {
                let id: usize = v.tasks[v.selected as int].id;
                lemma_first_index(v.tasks, id, v.selected as int);
                assert(toggled(v.tasks, id).len() == v.tasks.len());
                assert(change == Some(StoreChange::Toggled(id)));
            }
        },
        Action::DeleteSelected => {
            if v.tasks.len() > 0 {
                assert(change == Some(StoreChange::Deleted));
            }
        },
        Action::SubmitInput => {
            if trim(v.input).len() > 0 {
                assert(w.tasks.len() > 0);
            }
        },
        _ => {},
    }
}

/// Every change to the task list is reported for saving: a step that reports no change leaves
/// the tasks as they were, and finishing a step after a save never touches them.
pub proof fn law_unreported_steps_keep_tasks(
    v: AppView,
    a: Action,
    w: AppView,
    change: Option<StoreChange>,
)
    requires
        action_result(v, a, w, change),
    ensures
        change is None ==> w.tasks == v.tasks,
        forall|c: StoreChange, saved: bool| #[trigger] after_saved(w, c, saved).tasks == w.tasks,
{
}

/// Erasing a character right after typing it gives back the text from before.
pub proof fn law_erase_undoes_insert(
    v: AppView,
    c: char,
    w: AppView,
    x: AppView,
    ch1: Option<StoreChange>,
    ch2: Option<StoreChange>,
)
    requires
        action_result(v, Action::InsertChar(c), w, ch1),
        action_result(w, Action::EraseChar, x, ch2),
    ensures
        x == v,
{
    assert(v.input.push(c).drop_last() =~= v.input);
}

/// A step's save never lowers the completion count and raises it by at most one.
pub proof fn law_completions_grow_by_at_most_one(v: AppView, change: StoreChange, saved: bool)
    requires
        v.session_completions < u32::MAX,
    ensures
        v.session_completions <= after_saved(v, change, saved).session_completions
            <= v.session_completions + 1,
{
}

/// For a nonnegative span the parts of the uptime clock add back up to it, and the minutes
/// and seconds stay below sixty.
pub proof fn law_uptime_parts_add_up(elapsed: int)
    requires
        elapsed >= 0,
    ensures
        div_toward_zero(elapsed, 3600) * 3600 + rem_toward_zero(div_toward_zero(elapsed, 60), 60)
            * 60 + rem_toward_zero(elapsed, 60) == elapsed,
        0 <= rem_toward_zero(div_toward_zero(elapsed, 60), 60) < 60,
        0 <= rem_toward_zero(elapsed, 60) < 60,
{
    let m: int = elapsed / 60;
    assert(elapsed / 3600 == m / 60) by {
        vstd::arithmetic::div_mod::lemma_div_denominator(elapsed, 60, 60);
    }
    assert(elapsed == 60 * m + elapsed % 60) by {
        vstd::arithmetic::div_mod::lemma_fundamental_div_mod(elapsed, 60);
    }
    assert(m == 60 * (m / 60) + m % 60) by {
        vstd::arithmetic::div_mod::lemma_fundamental_div_mod(m, 60);
    }
    assert(m >= 0) by {
        vstd::arithmetic::div_mod::lemma_div_pos_is_pos(elapsed, 60);
    }
}

/// Deleting in the dashboard removes exactly the tasks that carry the highlighted task's id,
/// keeps every other task in order, and changes nothing else.
pub proof fn law_delete_selected_removes_highlighted(v: AppView)
    requires
        v.tasks.len() > 0,
        v.selected < v.tasks.len(),
    ensures
        deletes_highlighted(v, after_delete_selected(v)),
{
    let id = v.tasks[v.selected as int].id;
    let w = after_delete_selected(v);
    assert(w.tasks == v.tasks.filter(|t: Task| t.id != id));
    law_delete_removes_every_match(v.tasks, id);
    assert forall|i: int| 0 <= i < w.tasks.len() implies #[trigger] w.tasks[i].id != id by {
        if w.tasks[i].id == id {
            assert(has_id(without_id(v.tasks, id), id));
        }
    }
}

/// Toggling in the dashboard flips the first task carrying the highlighted task's id (the
/// highlighted task itself when no earlier task shares its id), leaves every other task as it
/// was, and changes nothing else.
pub proof fn law_toggle_selected_flips_highlighted(v: AppView)
    requires
        v.tasks.len() > 0,
        v.selected < v.tasks.len(),
    ensures
        toggles_highlighted(v, after_toggle_selected(v)),
{
    let id = v.tasks[v.selected as int].id;
    let w = after_toggle_selected(v);
    lemma_first_index(v.tasks, id, v.selected as int);
    let p = first_index(v.tasks, id);
    assert(w.tasks == v.tasks.update(p, crate::task::flipped(v.tasks[p])));
    assert forall|f: int|
        0 <= f <= v.selected && v.tasks[f].id == id && (forall|k: int|
            0 <= k < f ==> #[trigger] v.tasks[k].id != id) implies {
        &&& w.tasks[f].completed == !v.tasks[f].completed
        &&& w.tasks[f].id == v.tasks[f].id
        &&& w.tasks[f].title == v.tasks[f].title
        &&& w.tasks[f].created_at == v.tasks[f].created_at
        &&& forall|j: int| 0 <= j < v.tasks.len() && j != f ==> #[trigger] w.tasks[j] == v.tasks[j]
    } by {
        assert(first_with_id(v.tasks, id, f));
        lemma_first_index(v.tasks, id, f);
    }
}

/// The key map of the dashboard with the popup closed: `q` and `Esc` quit, Control-`c` quits,
/// `Tab` moves to the next tab and `1`, `2`, `3` pick a tab; on the task list `j`/`Down`
/// highlight the next task, `k`/`Up` the previous one, `Space` toggles, `d`/`Delete` delete and
/// `a` opens the popup, while on the other tabs those keys do nothing. Key releases do nothing.
pub proof fn law_key_map_without_popup(tab: ActiveTab, ctrl: bool)
    ensures
        key_action(false, tab, KeyInput { code: Key::Char('q'), ctrl, press: true }) == Action::Quit,
        key_action(false, tab, KeyInput { code: Key::Esc, ctrl, press: true }) == Action::Quit,
        key_action(false, tab, KeyInput { code: Key::Char('c'), ctrl: true, press: true })
            == Action::Quit,
        key_action(false, tab, KeyInput { code: Key::Char('c'), ctrl: false, press: true })
            == Action::Ignore,
        key_action(false, tab, KeyInput { code: Key::Tab, ctrl, press: true }) == Action::NextTab,
        key_action(false, tab, KeyInput { code: Key::Char('1'), ctrl, press: true })
            == Action::ShowTab(ActiveTab::Dashboard),
        key_action(false, tab, KeyInput { code: Key::Char('2'), ctrl, press: true })
            == Action::ShowTab(ActiveTab::Tasks),
        key_action(false, tab, KeyInput { code: Key::Char('3'), ctrl, press: true })
            == Action::ShowTab(ActiveTab::SystemInfo),
        key_action(false, ActiveTab::Tasks, KeyInput { code: Key::Char('j'), ctrl, press: true })
            == Action::SelectNext,
        key_action(false, ActiveTab::Tasks, KeyInput { code: Key::Down, ctrl, press: true })
            == Action::SelectNext,
        key_action(false, ActiveTab::Tasks, KeyInput { code: Key::Char('k'), ctrl, press: true })
            == Action::SelectPrev,
        key_action(false, ActiveTab::Tasks, KeyInput { code: Key::Up, ctrl, press: true })
            == Action::SelectPrev,
        key_action(false, ActiveTab::Tasks, KeyInput { code: Key::Char(' '), ctrl, press: true })
            == Action::ToggleSelected,
        key_action(false, ActiveTab::Tasks, KeyInput { code: Key::Char('d'), ctrl, press: true })
            == Action::DeleteSelected,
        key_action(false, ActiveTab::Tasks, KeyInput { code: Key::Delete, ctrl, press: true })
            == Action::DeleteSelected,
        key_action(false, ActiveTab::Tasks, KeyInput { code: Key::Char('a'), ctrl, press: true })
            == Action::OpenAddPopup,
        tab != ActiveTab::Tasks ==> {
            &&& key_action(false, tab, KeyInput { code: Key::Char('j'), ctrl, press: true }) == Action::Ignore
            &&& key_action(false, tab, KeyInput { code: Key::Down, ctrl, press: true }) == Action::Ignore
            &&& key_action(false, tab, KeyInput { code: Key::Char('k'), ctrl, press: true }) == Action::Ignore
            &&& key_action(false, tab, KeyInput { code: Key::Up, ctrl, press: true }) == Action::Ignore
            &&& key_action(false, tab, KeyInput { code: Key::Char(' '), ctrl, press: true }) == Action::Ignore
            &&& key_action(false, tab, KeyInput { code: Key::Char('d'), ctrl, press: true }) == Action::Ignore
            &&& key_action(false, tab, KeyInput { code: Key::Delete, ctrl, press: true }) == Action::Ignore
            &&& key_action(false, tab, KeyInput { code: Key::Char('a'), ctrl, press: true }) == Action::Ignore
        },
        forall|popup: bool, code: Key|
            key_action(popup, tab, KeyInput { code, ctrl, press: false }) == Action::Ignore,
{
}

/// The key map with the popup open: `Enter` submits, `Esc` cancels, `Backspace` erases, and
/// every character is typed, `q` included.
pub proof fn law_key_map_with_popup(tab: ActiveTab, ctrl: bool, c: char)
    ensures
        key_action(true, tab, KeyInput { code: Key::Enter, ctrl, press: true }) == Action::SubmitInput,
        key_action(true, tab, KeyInput { code: Key::Esc, ctrl, press: true }) == Action::CancelInput,
        key_action(true, tab, KeyInput { code: Key::Backspace, ctrl, press: true })
            == Action::EraseChar,
        key_action(true, tab, KeyInput { code: Key::Char(c), ctrl, press: true })
            == Action::InsertChar(c),
        key_action(true, tab, KeyInput { code: Key::Tab, ctrl, press: true }) == Action::Ignore,
{
}

/// On the task list with the popup closed, `j` (like `Down`) moves the highlight one row down
/// and `k` (like `Up`) one row up, wrapping at the ends; the tasks stay as they are and nothing
/// needs saving.
pub proof fn law_j_and_k_move_the_highlight(
    v: AppView,
    ctrl: bool,
    down: bool,
    w: AppView,
    change: Option<StoreChange>,
)
    requires
        !v.show_add_popup,
        v.active_tab == ActiveTab::Tasks,
        0 < v.tasks.len() <= usize::MAX,
        v.selected < v.tasks.len(),
        action_result(
            v,
            key_action(
                v.show_add_popup,
                v.active_tab,
                KeyInput { code: Key::Char(if down { 'j' } else { 'k' }), ctrl, press: true },
            ),
            w,
            change,
        ),
    ensures
        down ==> w.selected == (v.selected + 1) % (v.tasks.len() as int),
        !down ==> w.selected == (if v.selected == 0 {
            v.tasks.len() - 1
        } else {
            v.selected - 1
        }),
        w.tasks == v.tasks,
        change is None,
{
    vstd::arithmetic::div_mod::lemma_mod_bound(v.selected + 1, v.tasks.len() as int);
}

/// `count_completed` counts the completed tasks: none in an empty list, and appending a task
/// adds one exactly when that task is completed; so it is the number of tasks the filter on
/// completion keeps.
pub proof fn law_count_completed_counts(s: Seq<Task>, t: Task)
    ensures
        count_completed(Seq::<Task>::empty()) == 0,
        count_completed(s.push(t)) == count_completed(s) + (if t.completed {
            1int
        } else {
            0int
        }),
        count_completed(s) == s.filter(|x: Task| x.completed).len(),
    decreases s.len(),
{
    assert(s.push(t).drop_last() =~= s);
    reveal_with_fuel(Seq::<_>::filter, 1);
    if s.len() > 0 {
        law_count_completed_counts(s.drop_last(), s.last());
    }
}

/// The tabs run Dashboard, Tasks, SystemInfo: the next tab after each is the one to its right,
/// wrapping to the first, the previous tab the one to its left, wrapping to the last; either
/// move puts the highlight back on the first task and changes nothing else.
pub proof fn law_tab_order(v: AppView)
    ensures
        after_next_tab(v).active_tab == (match v.active_tab {
            ActiveTab::Dashboard => ActiveTab::Tasks,
            ActiveTab::Tasks => ActiveTab::SystemInfo,
            ActiveTab::SystemInfo => ActiveTab::Dashboard,
        }),
        after_prev_tab(v).active_tab == (match v.active_tab {
            ActiveTab::Dashboard => ActiveTab::SystemInfo,
            ActiveTab::Tasks => ActiveTab::Dashboard,
            ActiveTab::SystemInfo => ActiveTab::Tasks,
        }),
        after_next_tab(v).selected == 0,
        after_prev_tab(v).selected == 0,
        after_next_tab(v).tasks == v.tasks && after_prev_tab(v).tasks == v.tasks,
        tab_number(ActiveTab::Dashboard) == 0 && tab_number(ActiveTab::Tasks) == 1 && tab_number(
            ActiveTab::SystemInfo,
        ) == 2,
{
}

/// Moving the highlight down from the last task goes to the first, and up from the first goes
/// to the last; elsewhere it moves by one row. The tasks stay as they are.
pub proof fn law_highlight_wraps(v: AppView)
    requires
        0 < v.tasks.len() <= usize::MAX,
        v.selected < v.tasks.len(),
    ensures
        v.selected + 1 < v.tasks.len() ==> after_list_next(v).selected == v.selected + 1,
        v.selected + 1 == v.tasks.len() ==> after_list_next(v).selected == 0,
        v.selected > 0 ==> after_list_prev(v).selected == v.selected - 1,
        v.selected == 0 ==> after_list_prev(v).selected == v.tasks.len() - 1,
        after_list_next(v).tasks == v.tasks && after_list_prev(v).tasks == v.tasks,
{
    vstd::arithmetic::div_mod::lemma_mod_bound(v.selected + 1, v.tasks.len() as int);
    if v.selected + 1 < v.tasks.len() {
        vstd::arithmetic::div_mod::lemma_small_mod((v.selected + 1) as nat, v.tasks.len() as nat);
    } else {
        vstd::arithmetic::div_mod::lemma_mod_self_0(v.tasks.len() as int);
    }
}

/// After a saved deletion the highlight stays where it was when that row still exists, moves to
/// the last task when it fell off the end, and goes to the top when no task is left. A failed
/// save leaves everything as it was.
pub proof fn law_saved_delete_keeps_highlight_on_list(v: AppView)
    ensures
        v.selected < v.tasks.len() ==> after_delete_saved(v, true).selected == v.selected,
        v.selected >= v.tasks.len() > 0 ==> after_delete_saved(v, true).selected == v.tasks.len() - 1,
        v.tasks.len() == 0 ==> after_delete_saved(v, true).selected == 0,
        after_delete_saved(v, false) == v,
        after_delete_saved(v, true).tasks == v.tasks,
{
}

/// After a saved addition the new task, the last one, is highlighted, the popup is closed and
/// its text is empty; a failed save leaves everything as it was.
pub proof fn law_saved_add_highlights_new_task(v: AppView)
    requires
        0 < v.tasks.len() <= usize::MAX,
    ensures
        after_add_saved(v, true).selected == v.tasks.len() - 1,
        !after_add_saved(v, true).show_add_popup,
        after_add_saved(v, true).input.len() == 0,
        after_add_saved(v, true).tasks == v.tasks,
        after_add_saved(v, false) == v,
{
}

/// A saved toggle counts one more completion exactly when the first task with that id is now
/// completed; a failed save counts nothing.
pub proof fn law_toggle_counts_completion(v: AppView, id: usize, i: int)
    requires
        v.session_completions < u32::MAX,
        0 <= i < v.tasks.len(),
        v.tasks[i].id == id,
        forall|k: int| 0 <= k < i ==> #[trigger] v.tasks[k].id != id,
    ensures
        after_toggle_saved(v, id, true).session_completions == v.session_completions + (if v.tasks[i].completed {
            1int
        } else {
            0int
        }),
        after_toggle_saved(v, id, false) == v,
{
    lemma_first_index(v.tasks, id, i);
}

/// Adding a task appends exactly one task after the old ones: its id is one above an old id
/// and above every old id (1 in an empty list), its title is the trimmed title and it is pending.
pub proof fn law_add_task_appends_next_id(old: Seq<Task>, new: Seq<Task>, title: Seq<char>)
    requires
        appended_task(old, new, title),
    ensures
        new.len() == old.len() + 1,
        forall|i: int| 0 <= i < old.len() ==> #[trigger] new[i] == old[i],
        forall|i: int| 0 <= i < old.len() ==> #[trigger] old[i].id < new[old.len() as int].id,
        old.len() == 0 ==> new[0].id == 1,
        old.len() > 0 ==> exists|i: int| 0 <= i < old.len() && new[old.len() as int].id == #[trigger] old[i].id + 1,
        new[old.len() as int].title@ == trim(title),
        !new[old.len() as int].completed,
{
    lemma_max_id(old);
    assert forall|i: int| 0 <= i < old.len() implies #[trigger] new[i] == old[i] by {
        assert(new.drop_last()[i] == new[i]);
    }
    if old.len() > 0 {
        let k = choose|k: int| 0 <= k < old.len() && #[trigger] old[k].id == max_id(old) as usize;
        assert(new[old.len() as int].id == old[k].id + 1);
    }
}

/// Trimming keeps one contiguous piece of the text and drops only whitespace around it: the
/// piece neither starts nor ends with whitespace, and everything before and after it is
/// whitespace.
pub proof fn law_trim_keeps_the_middle(s: Seq<char>)
    ensures
        exists|a: int, b: int|
            0 <= a <= b <= s.len() && trim(s) == s.subrange(a, b) && (forall|i: int|
                0 <= i < a ==> is_whitespace(#[trigger] s[i])) && (forall|i: int|
                b <= i < s.len() ==> is_whitespace(#[trigger] s[i])),
{
    let a = lemma_trim_start_piece(s);
    let u = s.subrange(a, s.len() as int);
    lemma_trim_end_edge(u);
    let b = a + trim_end(u).len();
    assert(trim(s) == s.subrange(a, b)) by {
        assert(u.subrange(0, trim_end(u).len() as int) =~= s.subrange(a, b));
    }
    assert forall|i: int| b <= i < s.len() implies is_whitespace(#[trigger] s[i]) by {
        lemma_trim_end_drops_whitespace(u, i - a);
        assert(u[i - a] == s[i]);
    }
}

/// `trim_start(s)` is `s` from some position on, with only whitespace before it.
proof fn lemma_trim_start_piece(s: Seq<char>) -> (a: int)
    ensures
        0 <= a <= s.len(),
        trim_start(s) == s.subrange(a, s.len() as int),
        forall|i: int| 0 <= i < a ==> is_whitespace(#[trigger] s[i]),
    decreases s.len(),
{
    if s.len() > 0 && is_whitespace(s[0]) {
        let a0 = lemma_trim_start_piece(s.drop_first());
        assert(s.drop_first().subrange(a0, s.len() - 1) =~= s.subrange(a0 + 1, s.len() as int));
        assert forall|i: int| 0 <= i < a0 + 1 implies is_whitespace(#[trigger] s[i]) by {
            if i > 0 {
                assert(s.drop_first()[i - 1] == s[i]);
            }
        }
        a0 + 1
    } else {
        assert(s.subrange(0, s.len() as int) =~= s);
        0
    }
}

/// What `trim_end` drops from the end of `s` is whitespace.
proof fn lemma_trim_end_drops_whitespace(s: Seq<char>, i: int)
    requires
        trim_end(s).len() <= i < s.len(),
    ensures
        is_whitespace(s[i]),
    decreases s.len(),
{
    if s.len() > 0 && is_whitespace(s.last()) {
        if i < s.len() - 1 {
            lemma_trim_end_drops_whitespace(s.drop_last(), i);
        }
    }
}

} // verus!
