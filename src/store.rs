//! The task store: the ordered tasks of one journal, loaded once, changed in
//! memory, and turned back into journal text when the store is put away.

use crate::journal::{encode_tasks, journal_json};
use crate::task::{rendered, Task};
use crate::text::{decimal, decimal_string};
use vstd::prelude::*;
use vstd::string::*;

verus! {

/// Why a store operation failed.
#[derive(Debug, PartialEq, Eq, Structural)]
pub enum TaskError {
    /// A position that names no task.
    InvalidInput,
    /// Journal content that is not a list of tasks.
    InvalidData,
}

/// Why decoding the journal's content failed.
#[derive(Debug, PartialEq, Eq, Structural)]
pub enum DecodeFault {
    /// The content ended before a complete value (an empty file, for one).
    NoData,
    /// Any other failure: bad syntax or the wrong shape of data.
    Invalid,
}

/// The notice listed for a store without tasks: `Task list is empty`.
pub open spec fn empty_notice() -> Seq<char> {
    seq!['T', 'a', 's', 'k', ' ', 'l', 'i', 's', 't', ' ', 'i', 's', ' ', 'e', 'm', 'p', 't', 'y']
}

/// One listed task: its 1-based ordinal, `": "`, and the rendered task.
pub open spec fn listing_line(ordinal: nat, text: Seq<char>, label: Seq<char>) -> Seq<char> {
    decimal(ordinal) + seq![':', ' '] + rendered(text, label)
}

/// The lines that list `tasks`, `labels[i]` standing for the time of `tasks[i]`.
pub open spec fn listing(tasks: Seq<Task>, labels: Seq<Seq<char>>) -> Seq<Seq<char>> {
    if tasks.len() == 0 {
        seq![empty_notice()]
    } else {
        Seq::new(tasks.len(), |i: int| listing_line((i + 1) as nat, tasks[i].text@, labels[i]))
    }
}

/// A listing has one notice line for no tasks; otherwise one line per task, in order,
/// the `i`-th (from 0) starting with the ordinal `i + 1` and `": "`.
pub proof fn lemma_listing_ordinals(tasks: Seq<Task>, labels: Seq<Seq<char>>)
    ensures
        tasks.len() == 0 ==> listing(tasks, labels) == seq![empty_notice()],
        tasks.len() > 0 ==> listing(tasks, labels).len() == tasks.len(),
        forall|i: int|
            0 <= i < tasks.len() ==> (#[trigger] listing(tasks, labels)[i]).subrange(
                0,
                decimal((i + 1) as nat).len() + 2 as int,
            ) == decimal((i + 1) as nat) + seq![':', ' '],
{
    assert forall|i: int| 0 <= i < tasks.len() implies (#[trigger] listing(tasks, labels)[i]).subrange(
        0,
        decimal((i + 1) as nat).len() + 2 as int,
    ) == decimal((i + 1) as nat) + seq![':', ' '] by {
        let line = listing(tasks, labels)[i];
        let head = decimal((i + 1) as nat) + seq![':', ' '];
        assert(line == head + rendered(tasks[i].text@, labels[i]));
        assert(line.subrange(0, head.len() as int) =~= head);
    }
}

/// The characters of each string.
pub open spec fn strings_view(v: Seq<String>) -> Seq<Seq<char>> {
    v.map_values(|s: String| s@)
}

/// The tasks of one journal, in order.
pub struct Tasks {
    tasks: Vec<Task>,
}

impl View for Tasks {
    type V = Seq<Task>;

    closed spec fn view(&self) -> Seq<Task> {
        self.tasks@
    }
}

impl Tasks {
    /// A store without tasks.
    pub fn new() -> (r: Tasks)
        ensures
            r@ == Seq::<Task>::empty(),
    {
        Tasks { tasks: Vec::new() }
    }

    /// The store of a journal whose content was decoded as `decoded`. Content that
    /// ended before any value gives an empty store; any other failure is an error.
    pub fn with_journal(decoded: Result<Vec<Task>, DecodeFault>) -> (r: Result<Tasks, TaskError>)
        ensures
            decoded is Ok ==> r is Ok && r->Ok_0@ == decoded->Ok_0@,
            decoded == Err::<Vec<Task>, DecodeFault>(DecodeFault::NoData) ==> r is Ok
                && r->Ok_0@ == Seq::<Task>::empty(),
            decoded == Err::<Vec<Task>, DecodeFault>(DecodeFault::Invalid) ==> r == Err::<
                Tasks,
                TaskError,
            >(TaskError::InvalidData),
    {
        match decoded {
            Ok(tasks) => Ok(Tasks { tasks }),
            Err(DecodeFault::NoData) => Ok(Tasks::new()),
            Err(DecodeFault::Invalid) => Err(TaskError::InvalidData),
        }
    }

    /// The number of tasks.
    pub fn len(&self) -> (r: usize)
        ensures
            r == self@.len(),
    {
        self.tasks.len()
    }

    /// The tasks, in order.
    pub fn tasks(&self) -> (r: &Vec<Task>)
        ensures
            r@ == self@,
    {
        &self.tasks
    }

    /// Appends `task` after the others. Always succeeds.
    pub fn add(&mut self, task: Task) -> (r: Result<(), TaskError>)
        ensures
            r is Ok,
            final(self)@ == old(self)@.push(task),
    {
        self.tasks.push(task);
        Ok(())
    }

    /// Removes the task at 1-based `position`; a position that names no task is an
    /// error and changes nothing.
    pub fn complete(&mut self, position: usize) -> (r: Result<(), TaskError>)
        ensures
            r is Ok <==> 1 <= position <= old(self)@.len(),
            r is Err ==> r == Err::<(), TaskError>(TaskError::InvalidInput) && final(self)@
                == old(self)@,
            r is Ok ==> final(self)@ == old(self)@.remove(position - 1),
    {
        if position == 0 || position > self.tasks.len() {
            return Err(TaskError::InvalidInput);
        }
        self.tasks.remove(position - 1);
        Ok(())
    }

    /// The listing lines, `labels[i]` standing for the creation time of task `i`.
    pub fn list_with_labels(&self, labels: &Vec<String>) -> (r: Vec<String>)
        requires
            labels@.len() == self@.len(),
        ensures
            strings_view(r@) == listing(self@, strings_view(labels@)),
    {
        let mut lines: Vec<String> = Vec::new();
        if self.tasks.len() == 0 {
            proof {
                reveal_strlit("Task list is empty");
            }
            let notice = String::from_str("Task list is empty");
            assert(notice@ =~= empty_notice());
            lines.push(notice);
            assert(lines@[0]@ == empty_notice());
            assert(strings_view(lines@) =~= listing(self@, strings_view(labels@)));
            return lines;
        }
        let ghost want = listing(self@, strings_view(labels@));
        let mut i: usize = 0;
        while i < self.tasks.len()
            invariant
                i <= self.tasks@.len(),
                self.tasks@.len() > 0,
                labels@.len() == self.tasks@.len(),
                want == listing(self@, strings_view(labels@)),
                lines@.len() == i,
                forall|j: int| 0 <= j < i ==> (#[trigger] lines@[j])@ == want[j],
            decreases self.tasks.len() - i,
        {
            proof {
                reveal_strlit(": ");
            }
            let ordinal = decimal_string((i + 1) as u64);
            let body = self.tasks[i].render_with_label(labels[i].as_str());
            let line = ordinal.concat(": ").concat(body.as_str());
            assert(line@ =~= want[i as int]);
            lines.push(line);
            i = i + 1;
        }
        assert(strings_view(lines@) =~= want);
        lines
    }

    /// The listing lines, each task's creation time shown in local time.
    pub fn list(&self) -> (r: Vec<String>)
        ensures
            exists|labels: Seq<Seq<char>>|
                labels.len() == self@.len() && strings_view(r@) == listing(self@, labels),
    {
        let mut labels: Vec<String> = Vec::new();
        let mut i: usize = 0;
        while i < self.tasks.len()
            invariant
                i <= self.tasks@.len(),
                labels@.len() == i,
            decreases self.tasks.len() - i,
        {
            labels.push(self.tasks[i].time_label());
            i = i + 1;
        }
        let r = self.list_with_labels(&labels);
        assert(strings_view(labels@).len() == self@.len());
        r
    }

    /// The journal text of the tasks as they are now, which replaces the whole
    /// journal file when the store is put away, whatever the file held before.
    pub fn journal_text(&self) -> (r: String)
        ensures
            r@ == journal_json(self@),
    {
        encode_tasks(&self.tasks)
    }
}

} // verus!
