use vstd::prelude::*;

verus! {

/// An instant in UTC: whole seconds since the Unix epoch and the nanoseconds
/// past that second.
#[derive(Clone, Copy, Debug, PartialEq, Eq, Structural)]
pub struct Stamp {
    pub secs: i64,
    pub nanos: u32,
}

/// One to-do item. `id` is the 128-bit value of a UUID.
#[derive(Clone, Debug)]
pub struct Task {
    pub id: u128,
    pub title: String,
    pub done: bool,
    pub created_at: Stamp,
    pub due: Option<Stamp>,
    pub repeat: Option<String>,
}

/// The mathematical value of a [`Task`].
pub ghost struct TaskView {
    pub id: u128,
    pub title: Seq<char>,
    pub done: bool,
    pub created_at: Stamp,
    pub due: Option<Stamp>,
    pub repeat: Option<Seq<char>>,
}

pub open spec fn opt_text(s: Option<String>) -> Option<Seq<char>> {
    match s {
        Some(t) => Some(t@),
        None => None,
    }
}

impl View for Task {
    type V = TaskView;

    open spec fn view(&self) -> TaskView {
        TaskView {
            id: self.id,
            title: self.title@,
            done: self.done,
            created_at: self.created_at,
            due: self.due,
            repeat: opt_text(self.repeat),
        }
    }
}

/// The view of each task of a collection, in order.
pub open spec fn views(s: Seq<Task>) -> Seq<TaskView> {
    s.map_values(|t: Task| t@)
}

/// Relies on uuid::Uuid::new_v4: a random version-4 UUID, taken as its
/// 128-bit value.
#[verifier::external_body]
fn fresh_id() -> (r: u128) {
    uuid::Uuid::new_v4().as_u128()
}

/// Relies on chrono::Utc::now: the current time, as seconds since the epoch
/// and the nanoseconds past that second.
#[verifier::external_body]
fn now() -> (r: Stamp) {
    let t = chrono::Utc::now();
    Stamp { secs: t.timestamp(), nanos: t.timestamp_subsec_nanos() }
}

impl Task {
    /// A new task that is not done, with a fresh id, created now.
    pub fn new(title: String, due: Option<Stamp>, repeat: Option<String>) -> (r: Task)
        ensures
            r.title@ == title@,
            !r.done,
            r.due == due,
            opt_text(r.repeat) == opt_text(repeat),
    {
        Task { id: fresh_id(), title, done: false, created_at: now(), due, repeat }
    }
}

} // verus!
