use vstd::prelude::*;
use crate::input::{confirms_reset, is_confirmation};
use crate::task::{opt_text, views, Stamp, Task, TaskView};

verus! {

/// Whether `t` is what adding a task with these fields puts in a collection.
pub open spec fn is_new_task(
    t: TaskView,
    title: Seq<char>,
    due: Option<Stamp>,
    repeat: Option<Seq<char>>,
) -> bool {
    t.title == title && t.due == due && t.repeat == repeat && !t.done
}

/// The task with its `done` flag set.
pub open spec fn finished(t: TaskView) -> TaskView {
    TaskView { done: true, ..t }
}

/// The tasks that a deletion of `id` keeps.
pub open spec fn keeps(id: u128) -> spec_fn(TaskView) -> bool {
    |t: TaskView| t.id != id
}

/// No two tasks of the collection share an id.
pub open spec fn unique_ids(s: Seq<TaskView>) -> bool {
    forall|i: int, j: int| 0 <= i < j < s.len() ==> s[i].id != s[j].id
}

/// Appends a new task with the given fields; returns its id.
pub fn add_task(
    tasks: &mut Vec<Task>,
    title: String,
    due: Option<Stamp>,
    repeat: Option<String>,
) -> (id: u128)
    ensures
        final(tasks)@ == old(tasks)@.push(final(tasks)@.last()),
        is_new_task(final(tasks)@.last()@, title@, due, opt_text(repeat)),
        id == final(tasks)@.last().id,
{
    let t = Task::new(title, due, repeat);
    let id = t.id;
    tasks.push(t);
    id
}

/// Marks done the first task whose id is `id`; returns whether there is one.
/// Without one the collection is left as it was.
pub fn complete_task(tasks: &mut Vec<Task>, id: u128) -> (found: bool)
    ensures
        found == (exists|i: int| 0 <= i < old(tasks)@.len() && old(tasks)@[i].id == id),
        found ==> exists|k: int|
            0 <= k < old(tasks)@.len() && old(tasks)@[k].id == id
                && (forall|j: int| 0 <= j < k ==> old(tasks)@[j].id != id)
                && views(final(tasks)@) == views(old(tasks)@).update(
                k,
                finished(old(tasks)@[k]@),
            ),
        !found ==> final(tasks)@ == old(tasks)@,
{
    let ghost orig = tasks@;
    let n = tasks.len();
    let mut k: usize = 0;
    while k < n
        invariant
            orig == old(tasks)@,
            tasks@ == orig,
            n == orig.len(),
            k <= n,
            forall|j: int| 0 <= j < k ==> orig[j].id != id,
        decreases n - k,
    {
        if tasks[k].id == id {
            assert(orig[k as int].id == id);
            let mut t = tasks.remove(k);
            t.done = true;
            tasks.insert(k, t);
            assert(views(tasks@) =~= views(orig).update(k as int, finished(orig[k as int]@)));
            return true;
        }
        k = k + 1;
    }
    false
}

proof fn lemma_filter_step(s: Seq<TaskView>, id: u128, i: int)
    requires
        0 <= i < s.len(),
    ensures
        s.take(i + 1).filter(keeps(id)) == if s[i].id != id {
            s.take(i).filter(keeps(id)).push(s[i])
        } else {
            s.take(i).filter(keeps(id))
        },
{
    reveal(Seq::filter);
    assert(s.take(i + 1).drop_last() =~= s.take(i));
}

/// Removes every task whose id is `id`, keeping the others in order;
/// returns whether any was removed.
pub fn delete_task(tasks: &mut Vec<Task>, id: u128) -> (removed: bool)
    ensures
        views(final(tasks)@) == views(old(tasks)@).filter(keeps(id)),
        removed == (exists|i: int| 0 <= i < old(tasks)@.len() && old(tasks)@[i].id == id),
        !removed ==> final(tasks)@ == old(tasks)@,
{
    let ghost orig = tasks@;
    let mut rest: Vec<Task> = Vec::new();
    std::mem::swap(tasks, &mut rest);
    let n = rest.len();
    let mut i: usize = 0;
    let mut removed = false;
    while i < n
        invariant
            n == orig.len(),
            i <= n,
            rest@ == orig.subrange(i as int, n as int),
            views(tasks@) == views(orig).take(i as int).filter(keeps(id)),
            removed == (exists|j: int| 0 <= j < i && orig[j].id == id),
            !removed ==> tasks@ == orig.take(i as int),
        decreases n - i,
    {
        let t = rest.remove(0);
        assert(t == orig[i as int]);
        proof {
            lemma_filter_step(views(orig), id, i as int);
            assert(views(orig)[i as int] == t@);
        }
        if t.id != id {
            let ghost before = tasks@;
            tasks.push(t);
            assert(views(tasks@) =~= views(before).push(t@));
            assert(!removed ==> tasks@ =~= orig.take(i + 1));
        } else {
            removed = true;
        }
        i = i + 1;
    }
    assert(orig.take(n as int) =~= orig);
    assert(views(orig).take(n as int) =~= views(orig));
    removed
}

proof fn lemma_filter_keeps_all(s: Seq<TaskView>, id: u128)
    requires
        forall|i: int| 0 <= i < s.len() ==> s[i].id != id,
    ensures
        s.filter(keeps(id)) == s,
    decreases s.len(),
{
    reveal(Seq::filter);
    if s.len() > 0 {
        lemma_filter_keeps_all(s.drop_last(), id);
        assert(s.drop_last().push(s.last()) =~= s);
    }
}

/// Deleting an id that no task has leaves the collection as it was.
pub proof fn lemma_delete_absent(s: Seq<TaskView>, id: u128)
    requires
        forall|i: int| 0 <= i < s.len() ==> s[i].id != id,
    ensures
        s.filter(keeps(id)) == s,
{
    lemma_filter_keeps_all(s, id);
}

/// In a collection whose ids are unique, deleting the id of the task at `k`
/// removes exactly that task: one fewer, the others kept in order.
pub proof fn lemma_delete_present(s: Seq<TaskView>, id: u128, k: int)
    requires
        unique_ids(s),
        0 <= k < s.len(),
        s[k].id == id,
    ensures
        s.filter(keeps(id)) == s.remove(k),
        s.filter(keeps(id)).len() == s.len() - 1,
    decreases s.len(),
{
    reveal(Seq::filter);
    let d = s.drop_last();
    if k == s.len() - 1 {
        lemma_filter_keeps_all(d, id);
        assert(s.remove(k) =~= d);
    } else {
        assert(unique_ids(d));
        lemma_delete_present(d, id, k);
        assert(s.last().id != id);
        assert(d.remove(k).push(s.last()) =~= s.remove(k));
    }
}

/// Answers the reset prompt: empties the collection when the answer
/// confirms, and leaves it as it was otherwise; returns whether it was emptied.
pub fn reset_tasks(tasks: &mut Vec<Task>, answer: &str) -> (cleared: bool)
    ensures
        cleared == is_confirmation(answer@),
        cleared ==> final(tasks)@.len() == 0,
        !cleared ==> final(tasks)@ == old(tasks)@,
{
    if confirms_reset(answer) {
        tasks.clear();
        true
    } else {
        false
    }
}

} // verus!
