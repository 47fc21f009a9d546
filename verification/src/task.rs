//! Tasks and the state that is kept on disk.

use vstd::prelude::*;

verus! {

/// Something to do.
#[derive(Clone, Debug, PartialEq)]
pub struct Task {
    pub id: u64,
    pub title: String,
    pub completed: bool,
}

/// What a [`Task`] holds.
pub struct TaskView {
    pub id: u64,
    pub title: Seq<char>,
    pub completed: bool,
}

impl View for Task {
    type V = TaskView;

    open spec fn view(&self) -> TaskView {
        TaskView { id: self.id, title: self.title@, completed: self.completed }
    }
}

/// What each task of a sequence holds.
pub open spec fn task_views(tasks: Seq<Task>) -> Seq<TaskView> {
    tasks.map_values(|t: Task| t@)
}

/// The state that is kept on disk: the tasks in the order in which they were created, and the
/// identifier that the next one gets.
#[derive(Debug, PartialEq)]
pub struct StoredState {
    pub next_id: u64,
    pub tasks: Vec<Task>,
}

/// What a [`StoredState`] holds.
#[verifier::ext_equal]
pub struct StoredView {
    pub next_id: u64,
    pub tasks: Seq<TaskView>,
}

impl View for StoredState {
    type V = StoredView;

    open spec fn view(&self) -> StoredView {
        StoredView { next_id: self.next_id, tasks: task_views(self.tasks@) }
    }
}

impl StoredView {
    /// No tasks, and one as the first identifier.
    pub open spec fn fresh() -> StoredView {
        StoredView { next_id: 1, tasks: Seq::empty() }
    }
}

impl Default for StoredState {
    fn default() -> (r: StoredState)
        ensures
            r@ == StoredView::fresh(),
    {
        let r = StoredState { next_id: 1, tasks: Vec::new() };
        assert(r@ =~= StoredView::fresh());
        r
    }
}

} // verus!
