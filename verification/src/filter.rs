//! The three views of the task list.

use crate::task::{Task, TaskView};
use vstd::prelude::*;

verus! {

/// Which tasks are shown.
#[derive(Clone, Copy, Debug, PartialEq, Eq, Structural)]
pub enum Filter {
    All,
    Active,
    Done,
}

impl Filter {
    /// Whether `task` is shown under this filter.
    pub open spec fn accepts(self, task: TaskView) -> bool {
        match self {
            Filter::All => true,
            Filter::Active => !task.completed,
            Filter::Done => task.completed,
        }
    }

    /// The name under which the filter is shown.
    pub open spec fn name(self) -> Seq<char> {
        match self {
            Filter::All => "All"@,
            Filter::Active => "Active"@,
            Filter::Done => "Done"@,
        }
    }

    /// The filter after this one, in the cycle All, Active, Done.
    pub open spec fn successor(self) -> Filter {
        match self {
            Filter::All => Filter::Active,
            Filter::Active => Filter::Done,
            Filter::Done => Filter::All,
        }
    }

    /// The place of the filter in that cycle, from zero.
    pub open spec fn place(self) -> nat {
        match self {
            Filter::All => 0,
            Filter::Active => 1,
            Filter::Done => 2,
        }
    }

    /// The name under which the filter is shown.
    pub fn title(self) -> (r: &'static str)
        ensures
            r@ == self.name(),
    {
        match self {
            Filter::All => "All",
            Filter::Active => "Active",
            Filter::Done => "Done",
        }
    }

    /// Whether a task is shown under this filter.
    pub fn matches(self, task: &Task) -> (r: bool)
        ensures
            r == self.accepts(task@),
    {
        match self {
            Filter::All => true,
            Filter::Active => !task.completed,
            Filter::Done => task.completed,
        }
    }

    /// The filter after this one.
    pub fn next(self) -> (r: Filter)
        ensures
            r == self.successor(),
    {
        match self {
            Filter::All => Filter::Active,
            Filter::Active => Filter::Done,
            Filter::Done => Filter::All,
        }
    }

    /// The place of the filter among the tabs.
    pub fn tab_index(self) -> (r: usize)
        ensures
            r == self.place(),
    {
        match self {
            Filter::All => 0,
            Filter::Active => 1,
            Filter::Done => 2,
        }
    }
}

} // verus!
