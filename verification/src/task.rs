//! A single task: a title, a description and a completion flag.

use vstd::prelude::*;

verus! {

/// The mathematical value of a [`Task`].
pub struct TaskView {
    pub title: Seq<char>,
    pub description: Seq<char>,
    pub is_done: bool,
}

/// A titled, described, completable unit of work.
pub struct Task {
    title: String,
    description: String,
    is_done: bool,
}

impl View for Task {
    type V = TaskView;

    closed spec fn view(&self) -> TaskView {
        TaskView { title: self.title@, description: self.description@, is_done: self.is_done }
    }
}

/// The marker shown between the brackets of a task line.
pub open spec fn marker(is_done: bool) -> char {
    if is_done {
        '*'
    } else {
        ' '
    }
}

/// The text of a task: the bracketed marker, the title, then the description
/// on a line of its own behind a tab.
pub open spec fn task_text(t: TaskView) -> Seq<char> {
    seq!['[', marker(t.is_done), ']', ' '] + t.title + seq!['\n', '\t'] + t.description
}

impl Task {
    /// A new task, not yet done.
    pub fn new(title: String, description: String) -> (task: Task)
        ensures
            task@ == (TaskView { title: title@, description: description@, is_done: false }),
    {
        Task { title, description, is_done: false }
    }

    /// Marks the task as done.
    pub fn check(&mut self)
        ensures
            final(self)@ == (TaskView { is_done: true, ..old(self)@ }),
    {
        self.is_done = true;
    }

    /// Marks the task as not done.
    pub fn uncheck(&mut self)
        ensures
            final(self)@ == (TaskView { is_done: false, ..old(self)@ }),
    {
        self.is_done = false;
    }

    /// The title.
    pub fn title(&self) -> (title: &str)
        ensures
            title@ == self@.title,
    {
        self.title.as_str()
    }

    /// The description.
    pub fn description(&self) -> (description: &str)
        ensures
            description@ == self@.description,
    {
        self.description.as_str()
    }

    /// Whether the task is done.
    pub fn is_done(&self) -> (done: bool)
        ensures
            done == self@.is_done,
    {
        self.is_done
    }

    /// The text shown for the task.
    pub fn to_string(&self) -> (text: String)
        ensures
            text@ == task_text(self@),
    {
        let mut text = String::from_str(if self.is_done { "[*] " } else { "[ ] " });
        proof {
            reveal_strlit("[*] ");
            reveal_strlit("[ ] ");
            reveal_strlit("\n\t");
        }
        text.append(self.title.as_str());
        text.append("\n\t");
        text.append(self.description.as_str());
        assert(text@ =~= task_text(self@));
        text
    }
}

impl Clone for Task {
    fn clone(&self) -> (copy: Task)
        ensures
            copy@ == self@,
    {
        Task {
            title: self.title.clone(),
            description: self.description.clone(),
            is_done: self.is_done,
        }
    }
}

} // verus!
