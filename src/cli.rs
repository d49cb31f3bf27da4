//! The commands of the journal tool, and what each does to a store.

use crate::store::{listing, strings_view, TaskError, Tasks};
use crate::task::Task;
use vstd::prelude::*;

verus! {

/// One command.
pub enum Action {
    /// Write a task to the journal.
    Add { text: String },
    /// Remove the task at a 1-based position.
    Done { position: usize },
    /// List all tasks.
    List,
}

/// A command line: the command, and the journal file to use instead of the default.
pub struct Opt {
    pub action: Action,
    pub journal_fine: Option<String>,
}

/// Applies `action` to `store`: the lines to print, or the error to report. The store
/// is to be written back to the journal either way.
pub fn apply(store: &mut Tasks, action: Action) -> (r: Result<Vec<String>, TaskError>)
    ensures
        match action {
            Action::Add { text } => {
                &&& r is Ok && r->Ok_0@.len() == 0
                &&& final(store)@.len() == old(store)@.len() + 1
                &&& final(store)@.drop_last() == old(store)@
                &&& final(store)@.last().text == text
            },
            Action::Done { position } => {
                &&& r is Ok <==> 1 <= position <= old(store)@.len()
                &&& r is Ok ==> r->Ok_0@.len() == 0 && final(store)@ == old(store)@.remove(
                    position - 1,
                )
                &&& r is Err ==> r == Err::<Vec<String>, TaskError>(TaskError::InvalidInput)
                    && final(store)@ == old(store)@
            },
            Action::List => {
                &&& final(store)@ == old(store)@
                &&& r is Ok
                &&& exists|labels: Seq<Seq<char>>|
                    labels.len() == old(store)@.len() && strings_view(r->Ok_0@) == listing(
                        old(store)@,
                        labels,
                    )
            },
        },
{
    match action {
        Action::Add { text } => {
            let r = store.add(Task::new(text));
            assert(store@.drop_last() =~= old(store)@);
            match r {
                Ok(()) => Ok(Vec::new()),
                Err(e) => Err(e),
            }
        },
        Action::Done { position } => match store.complete(position) {
            Ok(()) => Ok(Vec::new()),
            Err(e) => Err(e),
        },
        Action::List => Ok(store.list()),
    }
}

} // verus!
