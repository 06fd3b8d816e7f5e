//! Tasks and the in-memory task store.

use vstd::prelude::*;

use crate::clock::format_local_now;
use crate::text::{trim, trimmed};

verus! {

/// A single task.
#[derive(Clone, Debug)]
pub struct Task {
    pub id: usize,
    pub title: String,
    pub completed: bool,
    pub created_at: String,
}

/// The list of tasks, in the order in which they were added or loaded.
pub struct TaskStore {
    pub tasks: Vec<Task>,
}

/// The largest id in `s`, or 0 when `s` is empty.
pub open spec fn max_id(s: Seq<Task>) -> nat
    decreases s.len(),
{
    if s.len() == 0 {
        0
    } else {
        let rest: nat = max_id(s.drop_last());
        if s.last().id > rest {
            s.last().id as nat
        } else {
            rest
        }
    }
}

/// Some task in `s` has the id `id`.
pub open spec fn has_id(s: Seq<Task>, id: usize) -> bool {
    exists|i: int| 0 <= i < s.len() && #[trigger] s[i].id == id
}

/// `i` is the position of the first task in `s` with the id `id`.
pub open spec fn first_with_id(s: Seq<Task>, id: usize, i: int) -> bool {
    &&& 0 <= i < s.len()
    &&& s[i].id == id
    &&& forall|j: int| 0 <= j < i ==> #[trigger] s[j].id != id
}

/// The position of the first task in `s` with the id `id` (meaningful when `has_id(s, id)`).
pub open spec fn first_index(s: Seq<Task>, id: usize) -> int {
    choose|i: int| first_with_id(s, id, i)
}

/// `t` with its completion flag flipped.
pub open spec fn flipped(t: Task) -> Task {
    Task { id: t.id, title: t.title, completed: !t.completed, created_at: t.created_at }
}

/// `s` with the completion of its first task with the id `id` flipped; `s` itself when no
/// task has that id.
pub open spec fn toggled(s: Seq<Task>, id: usize) -> Seq<Task> {
    if has_id(s, id) {
        s.update(first_index(s, id), flipped(s[first_index(s, id)]))
    } else {
        s
    }
}

/// `new` is `old` with one task appended: titled `title` trimmed, not completed, and with an
/// id one above the largest in `old`.
pub open spec fn appended_task(old: Seq<Task>, new: Seq<Task>, title: Seq<char>) -> bool {
    &&& new.len() == old.len() + 1
    &&& new.drop_last() == old
    &&& new.last().id == max_id(old) + 1
    &&& new.last().title@ == trim(title)
    &&& !new.last().completed
}

/// The tasks of `s` whose id is not `id`, in their order.
pub open spec fn without_id(s: Seq<Task>, id: usize) -> Seq<Task> {
    s.filter(|t: Task| t.id != id)
}

/// When some task has the id `id`, the first of them is at `first_index(s, id)`.
pub proof fn lemma_first_index(s: Seq<Task>, id: usize, i: int)
    requires
        has_id(s, id) || first_with_id(s, id, i),
    ensures
        first_with_id(s, id, first_index(s, id)),
        first_with_id(s, id, i) ==> first_index(s, id) == i,
{
    let k: int = choose|k: int| 0 <= k < s.len() && #[trigger] s[k].id == id;
    let mut m: int = 0;
    if first_with_id(s, id, i) {
        m = i;
    } else {
        // the least position holding the id
        m = least_with_id(s, id, k);
    }
    assert(first_with_id(s, id, m));
    let f: int = first_index(s, id);
    assert(first_with_id(s, id, f));
    if f < m {
        assert(s[f].id != id);
    } else if m < f {
        assert(s[m].id != id);
    }
}

/// Toggling keeps every id where it was, so the first task with `id` stays first.
pub proof fn lemma_toggled_keeps_first_index(s: Seq<Task>, id: usize)
    requires
        has_id(s, id),
    ensures
        has_id(toggled(s, id), id),
        first_index(toggled(s, id), id) == first_index(s, id),
{
    lemma_first_index(s, id, 0);
    let f: int = first_index(s, id);
    let t = toggled(s, id);
    assert(t[f].id == id);
    assert(first_with_id(t, id, f)) by {
        assert forall|j: int| 0 <= j < f implies #[trigger] t[j].id != id by {
            assert(t[j] == s[j]);
        }
    }
    lemma_first_index(t, id, f);
}

/// Some position at or before `k` is the first one holding the id `id`.
proof fn least_with_id(s: Seq<Task>, id: usize, k: int) -> (m: int)
    requires
        0 <= k < s.len(),
        s[k].id == id,
    ensures
        first_with_id(s, id, m),
    decreases k,
{
    if exists|j: int| 0 <= j < k && #[trigger] s[j].id == id {
        let j: int = choose|j: int| 0 <= j < k && #[trigger] s[j].id == id;
        least_with_id(s, id, j)
    } else {
        k
    }
}

/// Every id in `s` is at most `max_id(s)`, and a nonempty `s` holds a task with that id.
pub proof fn lemma_max_id(s: Seq<Task>)
    ensures
        forall|i: int| 0 <= i < s.len() ==> #[trigger] s[i].id <= max_id(s),
        s.len() > 0 ==> has_id(s, max_id(s) as usize),
    decreases s.len(),
{
    if s.len() > 0 {
        lemma_max_id(s.drop_last());
        assert forall|i: int| 0 <= i < s.len() implies #[trigger] s[i].id <= max_id(s) by {
            if i < s.len() - 1 {
                assert(s.drop_last()[i] == s[i]);
            }
        }
        if s.last().id <= max_id(s.drop_last()) && s.len() > 1 {
            let k: int = choose|k: int| 0 <= k < s.drop_last().len() && #[trigger] s.drop_last()[k].id
                == max_id(s.drop_last()) as usize;
            assert(s[k] == s.drop_last()[k]);
        } else {
            assert(s[s.len() - 1].id == max_id(s));
        }
    }
}

impl TaskStore {
    /// A store holding the tasks that were loaded, or no task when loading failed or found nothing.
    pub fn new(loaded: Option<Vec<Task>>) -> (store: TaskStore)
        ensures
            store.tasks@ == (match loaded {
                Some(v) => v@,
                None => Seq::<Task>::empty(),
            }),
    {
        match loaded {
            Some(tasks) => TaskStore { tasks },
            None => TaskStore { tasks: Vec::new() },
        }
    }

    /// The largest id in the store, or 0 when it is empty.
    pub fn max_id(&self) -> (m: usize)
        ensures
            m == max_id(self.tasks@),
    {
        let mut m: usize = 0;
        let mut i: usize = 0;
        while i < self.tasks.len()
            invariant
                i <= self.tasks@.len(),
                m == max_id(self.tasks@.subrange(0, i as int)),
            decreases self.tasks@.len() - i,
        {
            assert(self.tasks@.subrange(0, i + 1).drop_last() =~= self.tasks@.subrange(0, i as int));
            if self.tasks[i].id > m {
                m = self.tasks[i].id;
            }
            i = i + 1;
        }
        assert(self.tasks@.subrange(0, i as int) =~= self.tasks@);
        m
    }

    /// The position of the first task with the id `id`, if any.
    pub fn position_of(&self, id: usize) -> (r: Option<usize>)
        ensures
            r matches Some(i) ==> first_with_id(self.tasks@, id, i as int),
            r is None <==> !has_id(self.tasks@, id),
    {
        let mut i: usize = 0;
        while i < self.tasks.len()
            invariant
                i <= self.tasks@.len(),
                forall|j: int| 0 <= j < i ==> #[trigger] self.tasks@[j].id != id,
            decreases self.tasks@.len() - i,
        {
            if self.tasks[i].id == id {
                return Some(i);
            }
            i = i + 1;
        }
        None
    }

    /// Appends a task with the title `title` trimmed, not completed, stamped `created_at`, and
    /// with an id one above the largest in the store. Returns that id.
    pub fn add_task_stamped(&mut self, title: String, created_at: String) -> (id: usize)
        requires
            max_id(old(self).tasks@) < usize::MAX,
        ensures
            id == max_id(old(self).tasks@) + 1,
            appended_task(old(self).tasks@, final(self).tasks@, title@),
            final(self).tasks@.last().created_at == created_at,
    {
        let next_id: usize = self.max_id() + 1;
        let task = Task { id: next_id, title: trimmed(title.as_str()), completed: false, created_at };
        self.tasks.push(task);
        assert(self.tasks@.drop_last() =~= old(self).tasks@);
        next_id
    }

    /// Appends a task with the title `title` trimmed, not completed, stamped with the current
    /// local time, and with an id one above the largest in the store. Returns that id.
    pub fn add_task(&mut self, title: String) -> (id: usize)
        requires
            max_id(old(self).tasks@) < usize::MAX,
        ensures
            id == max_id(old(self).tasks@) + 1,
            appended_task(old(self).tasks@, final(self).tasks@, title@),
    {
        self.add_task_stamped(title, format_local_now("%Y-%m-%d %H:%M:%S"))
    }

    /// Flips the completion of the first task with the id `id`. Returns whether there was one.
    pub fn toggle_task(&mut self, id: usize) -> (found: bool)
        ensures
            found == has_id(old(self).tasks@, id),
            final(self).tasks@ == toggled(old(self).tasks@, id),
    {
        match self.position_of(id) {
            Some(i) => {
                proof {
                    lemma_first_index(self.tasks@, id, i as int);
                }
                let mut task = self.tasks.remove(i);
                task.completed = !task.completed;
                self.tasks.insert(i, task);
                assert(self.tasks@ =~= old(self).tasks@.update(
                    i as int,
                    flipped(old(self).tasks@[i as int]),
                ));
                true
            },
            None => false,
        }
    }

    /// Removes every task with the id `id`. Returns whether any was removed.
    pub fn delete_task(&mut self, id: usize) -> (removed: bool)
        ensures
            final(self).tasks@ == without_id(old(self).tasks@, id),
            removed == has_id(old(self).tasks@, id),
            removed == (final(self).tasks@.len() < old(self).tasks@.len()),
    {
        let initial_len: usize = self.tasks.len();
        let ghost orig = self.tasks@;
        let mut i: usize = 0;
        let ghost mut k: int = 0;
        while i < self.tasks.len()
            invariant
                0 <= i <= k <= orig.len(),
                i <= self.tasks@.len(),
                self.tasks@.len() - i == orig.len() - k,
                self.tasks@.subrange(0, i as int) == without_id(orig.subrange(0, k), id),
                self.tasks@.subrange(i as int, self.tasks@.len() as int) == orig.subrange(
                    k,
                    orig.len() as int,
                ),
                (i < k) == has_id(orig.subrange(0, k), id),
            decreases self.tasks@.len() - i,
        {
            assert(orig.subrange(0, k + 1).drop_last() =~= orig.subrange(0, k));
            assert(self.tasks@[i as int] == orig[k]) by {
                assert(self.tasks@.subrange(i as int, self.tasks@.len() as int)[0] == orig.subrange(
                    k,
                    orig.len() as int,
                )[0]);
            }
            assert(orig.subrange(0, k + 1).last() == orig[k]);
            assert(without_id(orig.subrange(0, k + 1), id) == if orig[k].id != id {
                without_id(orig.subrange(0, k), id).push(orig[k])
            } else {
                without_id(orig.subrange(0, k), id)
            }) by {
                reveal_with_fuel(Seq::<_>::filter, 1);
            }
            if self.tasks[i].id == id {
                let ghost before = self.tasks@;
                self.tasks.remove(i);
                assert(self.tasks@.subrange(0, i as int) =~= before.subrange(0, i as int));
                assert forall|j: int| 0 <= j < self.tasks@.len() - i implies #[trigger] self.tasks@.subrange(
                    i as int,
                    self.tasks@.len() as int,
                )[j] == orig.subrange(k + 1, orig.len() as int)[j] by {
                    assert(before.subrange(i as int, before.len() as int)[j + 1] == orig.subrange(
                        k,
                        orig.len() as int,
                    )[j + 1]);
                }
                assert(self.tasks@.subrange(i as int, self.tasks@.len() as int) =~= orig.subrange(
                    k + 1,
                    orig.len() as int,
                ));
                assert(has_id(orig.subrange(0, k + 1), id)) by {
                    assert(orig.subrange(0, k + 1)[k] == orig[k]);
                }
                assert(self.tasks@.subrange(0, i as int) == without_id(orig.subrange(0, k + 1), id));
            } else {
                let ghost before = self.tasks@;
                assert(self.tasks@.subrange(0, i + 1) =~= before.subrange(0, i as int).push(
                    orig[k],
                ));
                assert forall|j: int| 0 <= j < self.tasks@.len() - i - 1 implies #[trigger] self.tasks@.subrange(
                    i + 1,
                    self.tasks@.len() as int,
                )[j] == orig.subrange(k + 1, orig.len() as int)[j] by {
                    assert(before.subrange(i as int, before.len() as int)[j + 1] == orig.subrange(
                        k,
                        orig.len() as int,
                    )[j + 1]);
                }
                assert(self.tasks@.subrange(i + 1, self.tasks@.len() as int) =~= orig.subrange(
                    k + 1,
                    orig.len() as int,
                ));
                assert(self.tasks@.subrange(0, i + 1) == without_id(orig.subrange(0, k + 1), id));
                assert(has_id(orig.subrange(0, k + 1), id) == has_id(orig.subrange(0, k), id)) by {
                    if has_id(orig.subrange(0, k + 1), id) {
                        let j: int = choose|j: int| 0 <= j < k + 1 && #[trigger] orig.subrange(0, k + 1)[j].id == id;
                        assert(orig.subrange(0, k)[j] == orig.subrange(0, k + 1)[j]);
                    }
                    if has_id(orig.subrange(0, k), id) {
                        let j: int = choose|j: int| 0 <= j < k && #[trigger] orig.subrange(0, k)[j].id == id;
                        assert(orig.subrange(0, k)[j] == orig.subrange(0, k + 1)[j]);
                    }
                }
                i = i + 1;
            }
            proof {
                k = k + 1;
            }
        }
        assert(orig.subrange(0, k) =~= orig);
        assert(self.tasks@.subrange(0, i as int) =~= self.tasks@);
        self.tasks.len() < initial_len
    }
}

} // verus!
