use vstd::prelude::*;
use crate::ops::is_new_task;
use crate::task::{opt_text, views, Stamp, Task, TaskView};

verus! {

/// One line of the task listing: its 1-based number, whether the task is
/// done, its title, its due date as `YYYY-MM-DD`, and its id.
#[derive(Debug)]
pub struct Row {
    pub number: usize,
    pub done: bool,
    pub title: String,
    pub due: Option<String>,
    pub id: u128,
}

pub ghost struct RowView {
    pub number: nat,
    pub done: bool,
    pub title: Seq<char>,
    pub due: Option<Seq<char>>,
    pub id: u128,
}

impl View for Row {
    type V = RowView;

    open spec fn view(&self) -> RowView {
        RowView {
            number: self.number as nat,
            done: self.done,
            title: self.title@,
            due: opt_text(self.due),
            id: self.id,
        }
    }
}

/// The UTC calendar day of the instant, written `YYYY-MM-DD`, if the instant
/// lies in the range of dates that can be written.
pub uninterp spec fn day_text_of(secs: i64, nanos: u32) -> Option<Seq<char>>;

/// The due date of a task as the listing shows it.
pub open spec fn due_text(due: Option<Stamp>) -> Option<Seq<char>> {
    match due {
        Some(st) => day_text_of(st.secs, st.nanos),
        None => None,
    }
}

/// The row that shows task `t` under number `number`.
pub open spec fn row_of(number: nat, t: TaskView) -> RowView {
    RowView { number, done: t.done, title: t.title, due: due_text(t.due), id: t.id }
}

/// The listing of a collection: one row per task, in order, numbered from 1.
pub open spec fn rows_of(s: Seq<TaskView>) -> Seq<RowView> {
    Seq::new(s.len(), |i: int| row_of((i + 1) as nat, s[i]))
}

/// Relies on chrono::DateTime::<Utc>::format with `%Y-%m-%d`; the instant is
/// first made a DateTime by chrono::DateTime::from_timestamp, which has no
/// value outside chrono's range.
#[verifier::external_body]
fn day_text(secs: i64, nanos: u32) -> (r: Option<String>)
    ensures
        opt_text(r) == day_text_of(secs, nanos),
{
    match chrono::DateTime::from_timestamp(secs, nanos) {
        Some(t) => Some(t.format("%Y-%m-%d").to_string()),
        None => None,
    }
}

/// The listing of the collection, read-only.
pub fn listing(tasks: &Vec<Task>) -> (r: Vec<Row>)
    ensures
        r@.len() == tasks@.len(),
        r@.map_values(|w: Row| w@) == rows_of(views(tasks@)),
{
    let mut rows: Vec<Row> = Vec::new();
    let mut i: usize = 0;
    while i < tasks.len()
        invariant
            i <= tasks.len(),
            rows@.len() == i,
            forall|j: int| 0 <= j < i ==> #[trigger] rows@[j]@ == row_of((j + 1) as nat, tasks@[j]@),
        decreases tasks.len() - i,
    {
        let t = &tasks[i];
        let due = match t.due {
            Some(st) => day_text(st.secs, st.nanos),
            None => None,
        };
        rows.push(Row { number: i + 1, done: t.done, title: t.title.clone(), due, id: t.id });
        i = i + 1;
    }
    assert(rows@.map_values(|w: Row| w@) =~= rows_of(views(tasks@)));
    rows
}

/// Adding a task and then listing shows exactly one more row than before: the
/// earlier rows unchanged, and last the new task, not done, with the title and
/// due date it was added with. `before` and `after` are the collection around
/// an addition, related as `add_task` relates them.
pub proof fn lemma_add_then_list(
    before: Seq<Task>,
    after: Seq<Task>,
    title: Seq<char>,
    due: Option<Stamp>,
    repeat: Option<Seq<char>>,
)
    requires
        after == before.push(after.last()),
        is_new_task(after.last()@, title, due, repeat),
    ensures
        rows_of(views(after)) == rows_of(views(before)).push(
            RowView {
                number: before.len() + 1,
                done: false,
                title,
                due: due_text(due),
                id: after.last().id,
            },
        ),
{
    assert(views(after) =~= views(before).push(after.last()@));
    assert(rows_of(views(after)) =~= rows_of(views(before)).push(
        RowView {
            number: before.len() + 1,
            done: false,
            title,
            due: due_text(due),
            id: after.last().id,
        },
    ));
}

} // verus!
