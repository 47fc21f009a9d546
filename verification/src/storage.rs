//! Where the tasks are kept, and how they are removed for good.

use vstd::prelude::*;

verus! {

/// The names that lead from the home folder to the stored tasks. Where no home folder is known,
/// they start in the current one.
pub fn storage_path(home_known: bool) -> (r: Vec<&'static str>)
    ensures
        r@ == if home_known {
            seq![".todo_rust", "tasks.json"]
        } else {
            seq![".", ".todo_rust", "tasks.json"]
        },
{
    if home_known {
        vec![".todo_rust", "tasks.json"]
    } else {
        vec![".", ".todo_rust", "tasks.json"]
    }
}

/// A step in the removal of what is stored. Some steps ask a question.
#[derive(Clone, Copy, Debug, PartialEq, Eq, Structural)]
pub enum EraseStep {
    /// Is there a file with tasks?
    FindFile,
    /// Remove the file with tasks.
    RemoveFile,
    /// Is there a folder around it?
    FindFolder,
    /// Is that folder empty?
    InspectFolder,
    /// Remove the folder.
    RemoveFolder,
    /// All is removed.
    Done,
}

impl EraseStep {
    /// The step after this one, where the answer to its question is `yes`.
    pub open spec fn then_comes(self, yes: bool) -> EraseStep {
        match (self, yes) {
            (EraseStep::FindFile, true) => EraseStep::RemoveFile,
            (EraseStep::FindFile, false) => EraseStep::FindFolder,
            (EraseStep::RemoveFile, _) => EraseStep::FindFolder,
            (EraseStep::FindFolder, true) => EraseStep::InspectFolder,
            (EraseStep::InspectFolder, true) => EraseStep::RemoveFolder,
            _ => EraseStep::Done,
        }
    }

    /// The step after this one, where the answer to its question is `yes`.
    pub fn next(self, yes: bool) -> (r: EraseStep)
        ensures
            r == self.then_comes(yes),
    {
        match self {
            EraseStep::FindFile => if yes {
                EraseStep::RemoveFile
            } else {
                EraseStep::FindFolder
            },
            EraseStep::RemoveFile => EraseStep::FindFolder,
            EraseStep::FindFolder => if yes {
                EraseStep::InspectFolder
            } else {
                EraseStep::Done
            },
            EraseStep::InspectFolder => if yes {
                EraseStep::RemoveFolder
            } else {
                EraseStep::Done
            },
            EraseStep::RemoveFolder => EraseStep::Done,
            EraseStep::Done => EraseStep::Done,
        }
    }
}

} // verus!
