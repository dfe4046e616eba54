//! The ordered store of tasks. A task has no identity but its position,
//! and a deletion moves every later task one position down.

use crate::task::{Task, TaskView};
use vstd::prelude::*;

verus! {

/// A position was given that holds no task.
#[derive(Clone, Copy, Debug, PartialEq, Eq, Structural)]
pub struct InvalidIndex;

/// The tasks of a session, in the order in which they were added.
pub struct TaskStore {
    tasks: Vec<Task>,
}

impl View for TaskStore {
    type V = Seq<TaskView>;

    closed spec fn view(&self) -> Seq<TaskView> {
        self.tasks@.map_values(|t: Task| t@)
    }
}

/// The store `tasks` with the flag of the task at `index` set to `done`.
pub open spec fn with_done(tasks: Seq<TaskView>, index: int, done: bool) -> Seq<TaskView>
    recommends
        0 <= index < tasks.len(),
{
    tasks.update(index, TaskView { is_done: done, ..tasks[index] })
}

impl TaskStore {
    /// An empty store.
    pub fn new() -> (store: TaskStore)
        ensures
            store@ == Seq::<TaskView>::empty(),
    {
        let store = TaskStore { tasks: Vec::new() };
        assert(store@ =~= Seq::<TaskView>::empty());
        store
    }

    /// The number of tasks.
    pub fn len(&self) -> (len: usize)
        ensures
            len == self@.len(),
    {
        self.tasks.len()
    }

    /// Whether the store holds no task.
    pub fn is_empty(&self) -> (empty: bool)
        ensures
            empty == (self@.len() == 0),
    {
        self.tasks.len() == 0
    }

    /// Appends a new task, not yet done, and returns its position.
    pub fn add(&mut self, title: String, description: String) -> (position: usize)
        ensures
            final(self)@ == old(self)@.push(
                TaskView { title: title@, description: description@, is_done: false },
            ),
            final(self)@.len() == old(self)@.len() + 1,
            position == old(self)@.len(),
            final(self)@[position as int].is_done == false,
    {
        let position = self.tasks.len();
        self.tasks.push(Task::new(title, description));
        assert(self@ =~= old(self)@.push(
            TaskView { title: title@, description: description@, is_done: false },
        ));
        position
    }

    /// Removes the task at `index`; the tasks behind it move one position
    /// down. Without a task at `index` nothing changes.
    pub fn delete(&mut self, index: usize) -> (result: Result<(), InvalidIndex>)
        ensures
            index < old(self)@.len() ==> result is Ok && final(self)@ == old(self)@.remove(
                index as int,
            ) && final(self)@.len() == old(self)@.len() - 1,
            index >= old(self)@.len() ==> result == Err::<(), InvalidIndex>(InvalidIndex)
                && final(self)@ == old(self)@,
    {
        if index >= self.tasks.len() {
            return Err(InvalidIndex);
        }
        self.tasks.remove(index);
        assert(self@ =~= old(self)@.remove(index as int));
        Ok(())
    }

    /// Sets the completion flag of the task at `index`. Without a task at
    /// `index` nothing changes.
    pub fn set_done(&mut self, index: usize, done: bool) -> (result: Result<(), InvalidIndex>)
        ensures
            index < old(self)@.len() ==> result is Ok && final(self)@ == with_done(
                old(self)@,
                index as int,
                done,
            ),
            index >= old(self)@.len() ==> result == Err::<(), InvalidIndex>(InvalidIndex)
                && final(self)@ == old(self)@,
    {
        if index >= self.tasks.len() {
            return Err(InvalidIndex);
        }
        let task = &mut self.tasks[index];
        if done {
            task.check();
        } else {
            task.uncheck();
        }
        assert(self@ =~= with_done(old(self)@, index as int, done));
        Ok(())
    }

    /// The task at `index`, if there is one.
    pub fn get(&self, index: usize) -> (task: Option<&Task>)
        ensures
            index < self@.len() ==> task is Some && task->0@ == self@[index as int],
            index >= self@.len() ==> task is None,
    {
        if index < self.tasks.len() {
            Some(&self.tasks[index])
        } else {
            None
        }
    }

    /// A snapshot of the store: every task beside its position, in order.
    pub fn list(&self) -> (entries: Vec<(usize, Task)>)
        ensures
            entries@.len() == self@.len(),
            forall|i: int|
                0 <= i < entries@.len() ==> (#[trigger] entries@[i]).0 == i && entries@[i].1@
                    == self@[i],
    {
        let mut entries: Vec<(usize, Task)> = Vec::new();
        let mut i: usize = 0;
        while i < self.tasks.len()
            invariant
                i <= self.tasks.len(),
                entries@.len() == i,
                forall|k: int|
                    0 <= k < i ==> (#[trigger] entries@[k]).0 == k && entries@[k].1@ == self@[k],
            decreases self.tasks.len() - i,
        {
            entries.push((i, self.tasks[i].clone()));
            i += 1;
        }
        entries
    }
}

/// Checking a task and then unchecking it leaves it not done, and leaves
/// every other task, its title and its description as they were: the store
/// is the one that unchecking alone gives.
pub proof fn check_then_uncheck(tasks: Seq<TaskView>, index: int)
    requires
        0 <= index < tasks.len(),
    ensures
        with_done(with_done(tasks, index, true), index, false) == with_done(tasks, index, false),
        with_done(with_done(tasks, index, true), index, false)[index].is_done == false,
        tasks[index].is_done == false ==> with_done(with_done(tasks, index, true), index, false)
            == tasks,
{
    assert(with_done(with_done(tasks, index, true), index, false) =~= with_done(
        tasks,
        index,
        false,
    ));
    if !tasks[index].is_done {
        assert(with_done(tasks, index, false) =~= tasks);
    }
}

/// Deleting a task takes away that task and no other: the tasks before it
/// stay where they are, and those behind it move one position down.
pub proof fn delete_removes_exactly(tasks: Seq<TaskView>, index: int)
    requires
        0 <= index < tasks.len(),
    ensures
        tasks.remove(index).len() == tasks.len() - 1,
        forall|i: int| 0 <= i < index ==> tasks.remove(index)[i] == tasks[i],
        forall|i: int| index <= i < tasks.len() - 1 ==> tasks.remove(index)[i] == tasks[i + 1],
{
}

} // verus!
